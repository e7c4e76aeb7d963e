//! The status engine: declared requirements are held against resolved
//! versions, one status per dependency, and the statuses are combined.

use vstd::prelude::*;
use crate::lock::ResolvedSet;
use crate::manifest::DependencySet;
use crate::status::Status;
use crate::version::{compare_precedence, freshness, parse_version, precedence, freshness_of, supersedes, version_of};

verus! {

/// The status that one dependency contributes. Without a plain declared
/// version, without a resolved counterpart, or with a text on either side
/// that is no semantic version, the status is unknown. Otherwise it is out
/// of date exactly when the resolved version has strictly greater precedence
/// than the declared one.
pub open spec fn contribution(requirement: Option<Seq<char>>, resolved: Option<Seq<char>>) -> Status {
    match (requirement, resolved) {
        (Some(declared_text), Some(resolved_text)) => match (
            version_of(declared_text),
            version_of(resolved_text),
        ) {
            (Some(declared), Some(selected)) => freshness_of(precedence(selected, declared)),
            _ => Status::Unknown,
        },
        _ => Status::Unknown,
    }
}

/// The characters of an optional text.
pub open spec fn optional_text(text: Option<&str>) -> Option<Seq<char>> {
    match text {
        Some(t) => Some(t@),
        None => None,
    }
}

/// Compares one declared requirement with its resolved counterpart.
pub fn entry_status(requirement: Option<&str>, resolved: Option<&str>) -> (status: Status)
    ensures
        status == contribution(optional_text(requirement), optional_text(resolved)),
{
    match (requirement, resolved) {
        (Some(declared_text), Some(resolved_text)) => {
            match (parse_version(declared_text), parse_version(resolved_text)) {
                (Ok(declared), Ok(selected)) => freshness(compare_precedence(&selected, &declared)),
                _ => Status::Unknown,
            }
        },
        _ => Status::Unknown,
    }
}

/// The version resolved for a name, if any.
pub open spec fn resolved_for(resolved: Map<Seq<char>, Seq<char>>, name: Seq<char>) -> Option<
    Seq<char>,
> {
    if resolved.contains_key(name) {
        Some(resolved[name])
    } else {
        None
    }
}

/// The status that the dependency of a given name contributes.
pub open spec fn contribution_of(
    declared: Map<Seq<char>, Option<Seq<char>>>,
    resolved: Map<Seq<char>, Seq<char>>,
    name: Seq<char>,
) -> Status {
    contribution(declared[name], resolved_for(resolved, name))
}

/// The aggregate status of a dependency set: out of date if any dependency
/// is, else unknown if any dependency is, else up to date.
pub open spec fn aggregate(
    declared: Map<Seq<char>, Option<Seq<char>>>,
    resolved: Map<Seq<char>, Seq<char>>,
) -> Status {
    if exists|name: Seq<char>|
        declared.contains_key(name) && #[trigger] contribution_of(declared, resolved, name)
            == Status::OutOfDate {
        Status::OutOfDate
    } else if exists|name: Seq<char>|
        declared.contains_key(name) && #[trigger] contribution_of(declared, resolved, name)
            == Status::Unknown {
        Status::Unknown
    } else {
        Status::UpToDate
    }
}

/// The left fold of the contributions of `names`, taken in order and
/// combined from `UpToDate` on.
pub open spec fn folded(
    names: Seq<Seq<char>>,
    declared: Map<Seq<char>, Option<Seq<char>>>,
    resolved: Map<Seq<char>, Seq<char>>,
) -> Status
    decreases names.len(),
{
    if names.len() == 0 {
        Status::UpToDate
    } else {
        folded(names.drop_last(), declared, resolved).spec_join(
            contribution_of(declared, resolved, names.last()),
        )
    }
}

/// A fold is at least as heavy as each contribution, and as heavy as one of
/// them unless it is `UpToDate`.
proof fn lemma_folded_bounds(
    names: Seq<Seq<char>>,
    declared: Map<Seq<char>, Option<Seq<char>>>,
    resolved: Map<Seq<char>, Seq<char>>,
)
    ensures
        forall|j: int|
            0 <= j < names.len() ==> contribution_of(declared, resolved, #[trigger] names[j]).rank()
                <= folded(names, declared, resolved).rank(),
        folded(names, declared, resolved) == Status::UpToDate || exists|j: int|
            0 <= j < names.len() && contribution_of(declared, resolved, #[trigger] names[j])
                == folded(names, declared, resolved),
    decreases names.len(),
{
    if names.len() > 0 {
        let earlier = names.drop_last();
        let total = folded(names, declared, resolved);
        lemma_folded_bounds(earlier, declared, resolved);
        assert forall|j: int| 0 <= j < names.len() implies contribution_of(
            declared,
            resolved,
            #[trigger] names[j],
        ).rank() <= total.rank() by {
            if j < earlier.len() {
                assert(names[j] == earlier[j]);
            }
        }
        if total != Status::UpToDate && total != contribution_of(declared, resolved, names.last()) {
            let j = choose|j: int|
                0 <= j < earlier.len() && contribution_of(declared, resolved, #[trigger] earlier[j])
                    == folded(earlier, declared, resolved);
            assert(names[j] == earlier[j]);
        }
    }
}

/// The fold does not depend on the order of the names: over any listing of
/// the declared names it gives the aggregate status.
pub proof fn lemma_fold_is_aggregate(
    names: Seq<Seq<char>>,
    declared: Map<Seq<char>, Option<Seq<char>>>,
    resolved: Map<Seq<char>, Seq<char>>,
)
    requires
        names.to_set() == declared.dom(),
    ensures
        folded(names, declared, resolved) == aggregate(declared, resolved),
{
    lemma_folded_bounds(names, declared, resolved);
    let total = folded(names, declared, resolved);
    assert forall|name: Seq<char>| declared.contains_key(name) implies contribution_of(
        declared,
        resolved,
        name,
    ).rank() <= total.rank() by {
        assert(names.to_set().contains(name));
        assert(names[names.index_of(name)] == name);
    }
    if total != Status::UpToDate {
        let j = choose|j: int|
            0 <= j < names.len() && contribution_of(declared, resolved, #[trigger] names[j]) == total;
        assert(names.to_set().contains(names[j]));
    }
}

/// Reduces the comparisons of all declared dependencies to one status.
pub fn aggregate_status(declared: &DependencySet, resolved: &ResolvedSet) -> (status: Status)
    ensures
        status == aggregate(declared@, resolved@),
{
    let n = declared.len();
    let mut status = Status::UpToDate;
    let mut i: usize = 0;
    while i < n
        invariant
            i <= n,
            n == declared.names().len(),
            declared@.dom() == declared.names().to_set(),
            status == folded(declared.names().take(i as int), declared@, resolved@),
        decreases n - i,
    {
        let entry = declared.entry(i);
        let (name, requirement) = entry.unwrap();
        let wanted = match requirement {
            Some(text) => Some(text.as_str()),
            None => None,
        };
        let found = resolved.get(name.as_str());
        proof {
            let names = declared.names();
            assert(names.take(i + 1).drop_last() =~= names.take(i as int));
        }
        status = status.join(entry_status(wanted, found));
        i += 1;
    }
    proof {
        assert(declared.names().take(i as int) =~= declared.names());
        lemma_fold_is_aggregate(declared.names(), declared@, resolved@);
    }
    status
}

/// Where no resolved version takes precedence over its declared version,
/// every dependency having both as semantic versions, the aggregate is
/// `UpToDate`.
pub proof fn lemma_none_newer_is_up_to_date(
    declared: Map<Seq<char>, Option<Seq<char>>>,
    resolved: Map<Seq<char>, Seq<char>>,
)
    requires
        forall|name: Seq<char>| #[trigger]
            declared.contains_key(name) ==> {
                &&& declared[name] is Some
                &&& resolved.contains_key(name)
                &&& version_of(declared[name]->0) is Some
                &&& version_of(resolved[name]) is Some
                &&& !supersedes(version_of(resolved[name])->0, version_of(declared[name]->0)->0)
            },
    ensures
        aggregate(declared, resolved) == Status::UpToDate,
{
    assert forall|name: Seq<char>| declared.contains_key(name) implies contribution_of(
        declared,
        resolved,
        name,
    ) == Status::UpToDate by {}
}

/// Dominance: one dependency whose resolved version has strictly greater
/// precedence than its declared version makes the aggregate `OutOfDate`,
/// whatever the other dependencies contribute.
pub proof fn lemma_one_newer_is_out_of_date(
    declared: Map<Seq<char>, Option<Seq<char>>>,
    resolved: Map<Seq<char>, Seq<char>>,
    name: Seq<char>,
)
    requires
        declared.contains_key(name),
        declared[name] is Some,
        resolved.contains_key(name),
        version_of(declared[name]->0) is Some,
        version_of(resolved[name]) is Some,
        supersedes(version_of(resolved[name])->0, version_of(declared[name]->0)->0),
    ensures
        aggregate(declared, resolved) == Status::OutOfDate,
{
    assert(contribution_of(declared, resolved, name) == Status::OutOfDate);
}

/// Only the resolved versions of declared names are consulted: two resolved
/// sets that agree on every declared name give the same aggregate.
pub proof fn lemma_only_declared_names_matter(
    declared: Map<Seq<char>, Option<Seq<char>>>,
    resolved: Map<Seq<char>, Seq<char>>,
    other: Map<Seq<char>, Seq<char>>,
)
    requires
        forall|name: Seq<char>| #[trigger]
            declared.contains_key(name) ==> resolved_for(resolved, name) == resolved_for(other, name),
    ensures
        aggregate(declared, resolved) == aggregate(declared, other),
{
    assert forall|name: Seq<char>| declared.contains_key(name) implies contribution_of(
        declared,
        resolved,
        name,
    ) == contribution_of(declared, other, name) by {}
}

/// Where nothing is declared, the aggregate is `UpToDate`.
pub proof fn lemma_nothing_declared_is_up_to_date(resolved: Map<Seq<char>, Seq<char>>)
    ensures
        aggregate(Map::empty(), resolved) == Status::UpToDate,
{
}

} // verus!
