//! The manifest: from manifest text to the dependencies that one of its
//! sections declares.

use vstd::prelude::*;
use crate::document::{document_of, entries_of, entry_keys, entry_values, member, member_of, parse_document, table_entries, table_of, text_of, value_table, value_text};
use crate::error::Failure;
use crate::name_map::{lemma_paired_at, lemma_paired_dom, lemma_paired_push, paired, NameMap};

verus! {

/// Which of a manifest's dependency sections is evaluated.
#[derive(Clone, Copy, Debug, PartialEq, Eq, Structural)]
pub enum DependencyClass {
    /// The dependencies the project needs to run.
    Primary,
    /// The dependencies the project needs only for its development.
    Development,
}

impl DependencyClass {
    /// The name of the manifest section that declares the class.
    pub open spec fn spec_section(self) -> Seq<char> {
        match self {
            DependencyClass::Primary => "dependencies"@,
            DependencyClass::Development => "dev-dependencies"@,
        }
    }

    /// The name of the manifest section that declares the class.
    pub fn section(self) -> (name: &'static str)
        ensures
            name@ == self.spec_section(),
    {
        match self {
            DependencyClass::Primary => "dependencies",
            DependencyClass::Development => "dev-dependencies",
        }
    }
}

/// One declared dependency. The requirement is the declared version where
/// the manifest gives it as a plain string, and nothing where it gives it in
/// any other form.
#[derive(Debug, PartialEq, Eq)]
pub struct DependencyConstraint {
    pub name: String,
    pub requirement: Option<String>,
}

/// The characters of a requirement, where there is one.
pub open spec fn requirement_text(requirement: Option<String>) -> Option<Seq<char>> {
    match requirement {
        Some(text) => Some(text@),
        None => None,
    }
}

impl View for DependencyConstraint {
    type V = (Seq<char>, Option<Seq<char>>);

    open spec fn view(&self) -> (Seq<char>, Option<Seq<char>>) {
        (self.name@, requirement_text(self.requirement))
    }
}

/// The declared dependencies of one section, by exact dependency name.
pub struct DependencySet {
    requirements: NameMap<Option<String>>,
}

impl View for DependencySet {
    type V = Map<Seq<char>, Option<Seq<char>>>;

    closed spec fn view(&self) -> Map<Seq<char>, Option<Seq<char>>> {
        self.requirements@.map_values(|requirement: Option<String>| requirement_text(requirement))
    }
}

impl DependencySet {
    /// The names of the dependencies, in the order in which they were declared.
    pub closed spec fn names(&self) -> Seq<Seq<char>> {
        self.requirements.keys()
    }

    /// A set that declares nothing.
    pub fn new() -> (set: DependencySet)
        ensures
            set@ == Map::<Seq<char>, Option<Seq<char>>>::empty(),
            set.names() == Seq::<Seq<char>>::empty(),
    {
        DependencySet { requirements: NameMap::new() }
    }

    /// The number of dependencies declared.
    pub fn len(&self) -> (n: usize)
        ensures
            n == self.names().len(),
            self@.dom().finite(),
            n == self@.dom().len(),
            self@.dom() == self.names().to_set(),
    {
        let n = self.requirements.len();
        proof {
            lemma_paired_dom(self.requirements.keys(), self.requirements.values());
            assert(self@.dom() =~= self.requirements@.dom());
        }
        n
    }

    /// Whether nothing is declared.
    pub fn is_empty(&self) -> (r: bool)
        ensures
            r == (self@.dom().len() == 0),
            r == (self@ == Map::<Seq<char>, Option<Seq<char>>>::empty()),
    {
        let n = self.len();
        proof {
            if n == 0 {
                assert(self@ =~= Map::<Seq<char>, Option<Seq<char>>>::empty());
            }
        }
        n == 0
    }

    /// Declares a dependency; one declared before under the same name is replaced.
    pub fn insert(&mut self, constraint: DependencyConstraint)
        ensures
            final(self)@ == old(self)@.insert(constraint.name@, requirement_text(constraint.requirement)),
            old(self)@.contains_key(constraint.name@) ==> final(self).names() == old(self).names(),
            !old(self)@.contains_key(constraint.name@) ==> final(self).names() == old(
                self,
            ).names().push(constraint.name@),
    {
        self.requirements.insert(constraint.name, constraint.requirement);
        assert(self@ =~= old(self)@.insert(
            constraint.name@,
            requirement_text(constraint.requirement),
        ));
    }

    /// The requirement declared for a dependency, if the set declares it.
    pub fn get(&self, name: &str) -> (r: Option<&Option<String>>)
        ensures
            match r {
                Some(requirement) => self@.contains_key(name@) && self@[name@] == requirement_text(
                    *requirement,
                ),
                None => !self@.contains_key(name@),
            },
    {
        self.requirements.get(name)
    }

    /// The dependency at a position, in declaration order; nothing past the end.
    pub fn entry(&self, index: usize) -> (r: Option<(&String, &Option<String>)>)
        ensures
            match r {
                Some((name, requirement)) => {
                    &&& index < self.names().len()
                    &&& name@ == self.names()[index as int]
                    &&& self@.contains_key(name@)
                    &&& self@[name@] == requirement_text(*requirement)
                },
                None => index >= self.names().len(),
            },
    {
        let r = self.requirements.entry(index);
        proof {
            if index < self.names().len() {
                lemma_paired_at(self.requirements.keys(), self.requirements.values(), index as int);
            }
        }
        r
    }
}

/// The dependencies that a table's entries declare: each key with the text
/// of its value, or with nothing where the value is no string.
pub open spec fn declared_by(entries: Map<Seq<char>, toml::Value>) -> Map<
    Seq<char>,
    Option<Seq<char>>,
> {
    entries.map_values(|value: toml::Value| text_of(value))
}

/// What a manifest text declares in a section: a failure for a text that is
/// no valid document, nothing where the document has no table under the
/// section's name, and else the section's dependencies.
pub open spec fn manifest_reading(text: Seq<char>, section: Seq<char>) -> Result<
    Option<Map<Seq<char>, Option<Seq<char>>>>,
    Failure,
> {
    match document_of(text) {
        None => Err(Failure::InvalidManifest),
        Some(document) => match member_of(document, section) {
            None => Ok(None),
            Some(found) => match table_of(found) {
                None => Ok(None),
                Some(table) => Ok(Some(declared_by(entries_of(table)))),
            },
        },
    }
}

/// What the outcome of reading a manifest stands for: the map of a set,
/// nothing, or the failure.
pub open spec fn declared_view(outcome: Result<Option<DependencySet>, Failure>) -> Result<
    Option<Map<Seq<char>, Option<Seq<char>>>>,
    Failure,
> {
    match outcome {
        Ok(Some(set)) => Ok(Some(set@)),
        Ok(None) => Ok(None),
        Err(failure) => Err(failure),
    }
}

/// Reads the dependencies that a manifest declares for a class.
pub fn parse_manifest(text: &str, class: DependencyClass) -> (r: Result<
    Option<DependencySet>,
    Failure,
>)
    ensures
        declared_view(r) == manifest_reading(text@, class.spec_section()),
{
    let document = match parse_document(text) {
        Ok(document) => document,
        Err(_) => {
            return Err(Failure::InvalidManifest);
        },
    };
    let section = match member(&document, class.section()) {
        Some(section) => section,
        None => {
            return Ok(None);
        },
    };
    let entries = match value_table(section) {
        Some(table) => table_entries(table),
        None => {
            return Ok(None);
        },
    };
    let ghost keys = entry_keys(entries@);
    let ghost values = entry_values(entries@);
    let mut set = DependencySet::new();
    let mut i: usize = 0;
    assert(declared_by(Map::<Seq<char>, toml::Value>::empty()) =~= Map::<
        Seq<char>,
        Option<Seq<char>>,
    >::empty());
    while i < entries.len()
        invariant
            i <= entries.len(),
            keys == entry_keys(entries@),
            values == entry_values(entries@),
            keys.no_duplicates(),
            set@ == declared_by(paired(keys.take(i as int), values.take(i as int))),
        decreases entries.len() - i,
    {
        let (name, value) = entries[i];
        let requirement = match value_text(value) {
            Some(text) => Some(text.to_owned()),
            None => None,
        };
        proof {
            let before_keys = keys.take(i as int);
            let before_values = values.take(i as int);
            assert(keys.take(i + 1) =~= before_keys.push(keys[i as int]));
            assert(!before_keys.contains(keys[i as int])) by {
                if before_keys.contains(keys[i as int]) {
                    let j = before_keys.index_of(keys[i as int]);
                    assert(keys[j] == keys[i as int]);
                }
            }
            lemma_paired_push(before_keys, before_values, keys[i as int], values[i as int]);
            assert(declared_by(paired(before_keys, before_values).insert(keys[i as int], values[i as int]))
                =~= declared_by(paired(before_keys, before_values)).insert(
                keys[i as int],
                text_of(values[i as int]),
            ));
        }
        set.insert(DependencyConstraint { name: name.clone(), requirement });
        i += 1;
    }
    assert(keys.take(i as int) =~= keys);
    assert(values.take(i as int) =~= values);
    Ok(Some(set))
}

} // verus!
