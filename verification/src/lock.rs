//! The resolver's lock output: from lock text to the resolved version of
//! each package.

use vstd::prelude::*;
use vstd::string::*;
use crate::document::{document_of, list_of, member, member_of, parse_document, text_of, value_list, value_text};
use crate::error::{ErrorKind, Failure};
use crate::name_map::NameMap;

verus! {

/// Where the token that starts at `from` ends: the position of the next
/// space, or the end of the text.
pub open spec fn token_end(text: Seq<char>, from: int) -> int
    decreases text.len() - from,
{
    if from < 0 || from >= text.len() || text[from] == ' ' {
        from
    } else {
        token_end(text, from + 1)
    }
}

/// Name and version of a descriptor `<name> <version> <rest>`: its first two
/// space-delimited tokens. A descriptor without a space has no version.
pub open spec fn descriptor_fields(descriptor: Seq<char>) -> Option<(Seq<char>, Seq<char>)> {
    let name_end = token_end(descriptor, 0);
    if name_end >= descriptor.len() {
        None
    } else {
        let version_end = token_end(descriptor, name_end + 1);
        Some(
            (
                descriptor.subrange(0, name_end),
                descriptor.subrange(name_end + 1, version_end),
            ),
        )
    }
}

/// A token's end is the first position from its start that holds a space.
pub proof fn lemma_token_end(text: Seq<char>, from: int, end: int)
    requires
        0 <= from <= end <= text.len(),
        forall|k: int| from <= k < end ==> text[k] != ' ',
        end < text.len() ==> text[end] == ' ',
    ensures
        token_end(text, from) == end,
    decreases end - from,
{
    if from < end {
        lemma_token_end(text, from + 1, end);
    }
}

/// A descriptor has a name and a version exactly when it holds a space, that
/// is, when it has at least two space-delimited tokens.
pub proof fn lemma_fields_need_space(descriptor: Seq<char>)
    ensures
        descriptor_fields(descriptor) is Some <==> descriptor.contains(' '),
{
    lemma_token_end_bounds(descriptor, 0);
    if descriptor.contains(' ') {
        assert(descriptor[descriptor.index_of(' ')] == ' ');
    }
}

/// A token ends within the text, at a space or at the end of the text, and
/// holds no space.
pub proof fn lemma_token_end_bounds(text: Seq<char>, from: int)
    requires
        0 <= from <= text.len(),
    ensures
        from <= token_end(text, from) <= text.len(),
        forall|k: int| from <= k < token_end(text, from) ==> text[k] != ' ',
        token_end(text, from) < text.len() ==> text[token_end(text, from)] == ' ',
    decreases text.len() - from,
{
    if from < text.len() && text[from] != ' ' {
        lemma_token_end_bounds(text, from + 1);
    }
}

/// One package as the resolver selected it.
#[derive(Debug, PartialEq, Eq)]
pub struct ResolvedDependency {
    pub name: String,
    pub version: String,
}

impl View for ResolvedDependency {
    type V = (Seq<char>, Seq<char>);

    open spec fn view(&self) -> (Seq<char>, Seq<char>) {
        (self.name@, self.version@)
    }
}

/// Splits a descriptor into name and version, where it has both.
pub fn split_descriptor(descriptor: &str) -> (r: Option<ResolvedDependency>)
    ensures
        match r {
            Some(dependency) => descriptor_fields(descriptor@) == Some(dependency@),
            None => descriptor_fields(descriptor@) is None,
        },
{
    let total = descriptor.unicode_len();
    let mut first: usize = total;
    let mut second: usize = total;
    let mut at: usize = 0;
    for c in it: descriptor.chars()
        invariant
            it.seq() == descriptor@,
            total == descriptor@.len(),
            at == it.index(),
            first < at || first == total,
            second < at || second == total,
            first <= second,
            forall|k: int| 0 <= k < at && k < first ==> descriptor@[k] != ' ',
            first < total ==> descriptor@[first as int] == ' ',
            forall|k: int| first < k < at && k < second ==> descriptor@[k] != ' ',
            second < total ==> first < second && descriptor@[second as int] == ' ',
    {
        if c == ' ' {
            if first == total {
                first = at;
            } else if second == total {
                second = at;
            }
        }
        at += 1;
    }
    proof {
        lemma_token_end(descriptor@, 0, first as int);
    }
    if first == total {
        None
    } else {
        proof {
            lemma_token_end(descriptor@, first + 1, second as int);
        }
        let name = descriptor.substring_char(0, first);
        let version = descriptor.substring_char(first + 1, second);
        Some(ResolvedDependency { name: name.to_owned(), version: version.to_owned() })
    }
}

/// The resolved version of each package, by exact package name.
pub struct ResolvedSet {
    versions: NameMap<String>,
}

impl View for ResolvedSet {
    type V = Map<Seq<char>, Seq<char>>;

    closed spec fn view(&self) -> Map<Seq<char>, Seq<char>> {
        self.versions@.map_values(|version: String| version@)
    }
}

/// The map that a list of well-formed descriptors gives: each descriptor's
/// name with its version, a later descriptor replacing an earlier one of the
/// same name.
pub open spec fn resolved_from(descriptors: Seq<Seq<char>>) -> Map<Seq<char>, Seq<char>>
    decreases descriptors.len(),
{
    if descriptors.len() == 0 {
        Map::empty()
    } else {
        let earlier = resolved_from(descriptors.drop_last());
        match descriptor_fields(descriptors.last()) {
            Some((name, version)) => earlier.insert(name, version),
            None => earlier,
        }
    }
}

/// Every descriptor has a name and a version.
pub open spec fn well_formed(descriptors: Seq<Seq<char>>) -> bool {
    forall|i: int| 0 <= i < descriptors.len() ==> descriptor_fields(#[trigger] descriptors[i]) is Some
}

/// What a list of descriptors resolves to: a map, or a failure if one of
/// them is malformed.
pub open spec fn lock_entries(descriptors: Seq<Seq<char>>) -> Result<
    Map<Seq<char>, Seq<char>>,
    Failure,
> {
    if well_formed(descriptors) {
        Ok(resolved_from(descriptors))
    } else {
        Err(Failure::InvalidDescriptor)
    }
}

/// What the outcome of reading a lock stands for: the map of a set, or the
/// failure.
pub open spec fn resolved_view(outcome: Result<ResolvedSet, Failure>) -> Result<
    Map<Seq<char>, Seq<char>>,
    Failure,
> {
    match outcome {
        Ok(set) => Ok(set@),
        Err(failure) => Err(failure),
    }
}

/// One descriptor with fewer than two space-delimited tokens makes the whole
/// list fail, with a failure of the lock-parse kind.
pub proof fn lemma_malformed_descriptor_fails(descriptors: Seq<Seq<char>>, i: int)
    requires
        0 <= i < descriptors.len(),
        !descriptors[i].contains(' '),
    ensures
        lock_entries(descriptors) == Err::<Map<Seq<char>, Seq<char>>, Failure>(
            Failure::InvalidDescriptor,
        ),
        Failure::InvalidDescriptor.spec_kind() == ErrorKind::LockParseError,
{
    lemma_fields_need_space(descriptors[i]);
}

/// The characters of each descriptor.
pub open spec fn texts(descriptors: Seq<&str>) -> Seq<Seq<char>> {
    descriptors.map_values(|d: &str| d@)
}

impl ResolvedSet {
    /// A set that resolves nothing.
    pub fn new() -> (set: ResolvedSet)
        ensures
            set@ == Map::<Seq<char>, Seq<char>>::empty(),
    {
        ResolvedSet { versions: NameMap::new() }
    }

    /// The number of packages resolved.
    pub fn len(&self) -> (n: usize)
        ensures
            self@.dom().finite(),
            n == self@.dom().len(),
    {
        assert(self@.dom() =~= self.versions@.dom());
        self.versions.len()
    }

    /// Records a package; one recorded before under the same name is replaced.
    pub fn insert(&mut self, dependency: ResolvedDependency)
        ensures
            final(self)@ == old(self)@.insert(dependency.name@, dependency.version@),
    {
        self.versions.insert(dependency.name, dependency.version);
    }

    /// The version resolved for a package, if the resolver selected one.
    pub fn get(&self, name: &str) -> (r: Option<&str>)
        ensures
            match r {
                Some(version) => self@.contains_key(name@) && self@[name@] == version@,
                None => !self@.contains_key(name@),
            },
    {
        match self.versions.get(name) {
            Some(version) => Some(version.as_str()),
            None => None,
        }
    }

    /// Builds the set from the resolver's descriptors, in order. Fails on the
    /// first descriptor with fewer than two space-delimited tokens.
    pub fn from_descriptors(descriptors: &[&str]) -> (r: Result<ResolvedSet, Failure>)
        ensures
            resolved_view(r) == lock_entries(texts(descriptors@)),
    {
        let ghost all = texts(descriptors@);
        let mut set = ResolvedSet::new();
        let mut i: usize = 0;
        while i < descriptors.len()
            invariant
                i <= descriptors.len(),
                all == texts(descriptors@),
                well_formed(all.take(i as int)),
                set@ == resolved_from(all.take(i as int)),
            decreases descriptors.len() - i,
        {
            proof {
                assert(all.take(i + 1).drop_last() =~= all.take(i as int));
            }
            match split_descriptor(descriptors[i]) {
                Some(dependency) => {
                    set.insert(dependency);
                },
                None => {
                    assert(all[i as int] == descriptors[i as int]@);
                    return Err(Failure::InvalidDescriptor);
                },
            }
            proof {
                assert forall|k: int| 0 <= k < i + 1 implies descriptor_fields(
                    #[trigger] all.take(i + 1)[k],
                ) is Some by {
                    if k < i {
                        assert(all.take(i + 1)[k] == all.take(i as int)[k]);
                    }
                }
            }
            i += 1;
        }
        assert(all.take(i as int) =~= all);
        Ok(set)
    }
}

/// The value of an item of the lock's dependency list as a descriptor: a
/// string item is taken as it is, any other item as the empty descriptor.
pub open spec fn descriptor_of(item: toml::Value) -> Seq<char> {
    match text_of(item) {
        Some(text) => text,
        None => ""@,
    }
}

/// The descriptors of the items of a dependency list, in order.
pub open spec fn descriptors_of(items: Seq<toml::Value>) -> Seq<Seq<char>> {
    items.map_values(|item: toml::Value| descriptor_of(item))
}

/// The descriptors that a lock text lists under its root entry.
pub open spec fn lock_descriptors(text: Seq<char>) -> Result<Seq<Seq<char>>, Failure> {
    match document_of(text) {
        None => Err(Failure::InvalidLock),
        Some(document) => match member_of(document, "root"@) {
            None => Err(Failure::MissingRoot),
            Some(root) => match member_of(root, "dependencies"@) {
                None => Err(Failure::MissingDependencies),
                Some(dependencies) => match list_of(dependencies) {
                    None => Err(Failure::MalformedDependencies),
                    Some(items) => Ok(descriptors_of(items)),
                },
            },
        },
    }
}

/// What a lock text resolves to.
pub open spec fn lock_reading(text: Seq<char>) -> Result<Map<Seq<char>, Seq<char>>, Failure> {
    match lock_descriptors(text) {
        Ok(descriptors) => lock_entries(descriptors),
        Err(failure) => Err(failure),
    }
}

/// Whatever is wrong with a lock text, the failure is of the lock-parse kind.
pub proof fn lemma_lock_failures_are_lock_parse_errors(text: Seq<char>)
    ensures
        lock_reading(text) matches Err(failure) ==> failure.spec_kind() == ErrorKind::LockParseError,
{
}

/// A lock whose dependency list holds an item with fewer than two
/// space-delimited tokens is rejected, with a failure of the lock-parse kind.
pub proof fn lemma_malformed_lock_fails(text: Seq<char>, i: int)
    requires
        lock_descriptors(text) is Ok,
        0 <= i < lock_descriptors(text)->Ok_0.len(),
        !lock_descriptors(text)->Ok_0[i].contains(' '),
    ensures
        lock_reading(text) == Err::<Map<Seq<char>, Seq<char>>, Failure>(Failure::InvalidDescriptor),
        Failure::InvalidDescriptor.spec_kind() == ErrorKind::LockParseError,
{
    lemma_malformed_descriptor_fails(lock_descriptors(text)->Ok_0, i);
}

/// Reading a lock is a function of its text: two readings of the same text
/// agree, in the set they give or in the failure.
pub proof fn lemma_parse_lock_repeatable(
    text: Seq<char>,
    first: Result<ResolvedSet, Failure>,
    second: Result<ResolvedSet, Failure>,
)
    requires
        resolved_view(first) == lock_reading(text),
        resolved_view(second) == lock_reading(text),
    ensures
        resolved_view(first) == resolved_view(second),
        first is Ok ==> second is Ok && first->Ok_0@ == second->Ok_0@,
        first is Err ==> second is Err && first->Err_0 == second->Err_0,
{
}

/// Reads the resolver's lock text: a document whose `root` table lists, under
/// `dependencies`, one descriptor per resolved package.
pub fn parse_lock(text: &str) -> (r: Result<ResolvedSet, Failure>)
    ensures
        resolved_view(r) == lock_reading(text@),
{
    let document = match parse_document(text) {
        Ok(document) => document,
        Err(_) => {
            return Err(Failure::InvalidLock);
        },
    };
    let root = match member(&document, "root") {
        Some(root) => root,
        None => {
            return Err(Failure::MissingRoot);
        },
    };
    let dependencies = match member(root, "dependencies") {
        Some(dependencies) => dependencies,
        None => {
            return Err(Failure::MissingDependencies);
        },
    };
    let items = match value_list(dependencies) {
        Some(items) => items,
        None => {
            return Err(Failure::MalformedDependencies);
        },
    };
    let mut descriptors: Vec<&str> = Vec::new();
    let mut i: usize = 0;
    while i < items.len()
        invariant
            i <= items.len(),
            descriptors.len() == i,
            texts(descriptors@) == descriptors_of(items@.take(i as int)),
        decreases items.len() - i,
    {
        let descriptor = match value_text(&items[i]) {
            Some(text) => text,
            None => "",
        };
        let ghost before = descriptors@;
        descriptors.push(descriptor);
        assert(texts(descriptors@) =~= descriptors_of(items@.take(i + 1))) by {
            assert forall|k: int| 0 <= k < i + 1 implies texts(descriptors@)[k] == descriptors_of(
                items@.take(i + 1),
            )[k] by {
                if k < i {
                    assert(texts(before)[k] == descriptors_of(items@.take(i as int))[k]);
                }
            }
        }
        i += 1;
    }
    assert(items@.take(i as int) =~= items@);
    ResolvedSet::from_descriptors(descriptors.as_slice())
}

} // verus!
