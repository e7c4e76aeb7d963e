//! The three-valued freshness status and its dominance order.

use vstd::prelude::*;

verus! {

/// Freshness of one dependency, or of a whole dependency set.
#[derive(Clone, Copy, Debug, PartialEq, Eq, Structural)]
pub enum Status {
    OutOfDate,
    UpToDate,
    Unknown,
}

impl Status {
    /// Weight of a status when statuses are combined: `OutOfDate` outweighs
    /// `Unknown`, which outweighs `UpToDate`.
    pub open spec fn rank(self) -> nat {
        match self {
            Status::UpToDate => 0,
            Status::Unknown => 1,
            Status::OutOfDate => 2,
        }
    }

    /// The heavier of two statuses.
    pub open spec fn spec_join(self, other: Status) -> Status {
        if self.rank() >= other.rank() {
            self
        } else {
            other
        }
    }

    /// Combines two statuses: the heavier one wins.
    pub fn join(self, other: Status) -> (r: Status)
        ensures
            r == self.spec_join(other),
    {
        match (self, other) {
            (Status::OutOfDate, _) => Status::OutOfDate,
            (_, Status::OutOfDate) => Status::OutOfDate,
            (Status::Unknown, _) => Status::Unknown,
            (_, Status::Unknown) => Status::Unknown,
            _ => Status::UpToDate,
        }
    }

    /// The word a status is shown as.
    pub open spec fn spec_label(self) -> Seq<char> {
        match self {
            Status::Unknown => "unknown"@,
            Status::OutOfDate => "outofdate"@,
            Status::UpToDate => "uptodate"@,
        }
    }

    /// The word a status is shown as, which also names its image asset.
    pub fn label(self) -> (text: &'static str)
        ensures
            text@ == self.spec_label(),
    {
        match self {
            Status::Unknown => "unknown",
            Status::OutOfDate => "outofdate",
            Status::UpToDate => "uptodate",
        }
    }

    /// Combining statuses does not depend on the order in which they come,
    /// `UpToDate` changes nothing, and nothing changes `OutOfDate`.
    pub proof fn lemma_join_laws(a: Status, b: Status, c: Status)
        ensures
            a.spec_join(b) == b.spec_join(a),
            a.spec_join(b).spec_join(c) == a.spec_join(b.spec_join(c)),
            a.spec_join(a) == a,
            a.spec_join(Status::UpToDate) == a,
            a.spec_join(Status::OutOfDate) == Status::OutOfDate,
    {
    }
}

} // verus!
