//! Classification of a repository's relation to its remote tracking branch,
//! from the ahead/behind commit counts computed after a successful fetch.

use vstd::prelude::*;

verus! {

/// What the reconciliation engine does about a tracked remote: exactly one
/// class applies to every `(ahead, behind)` pair.
#[derive(Clone, Copy, Debug, PartialEq, Eq, Structural)]
pub enum SyncClass {
    /// Both counts are zero: nothing to do.
    UpToDate,
    /// Local commits are unpublished and the remote has none of its own:
    /// a push is offered.
    PushOffer,
    /// The remote is strictly newer: a pull is offered.
    PullOffer,
    /// Both sides have progressed independently: reported for manual
    /// resolution, never acted on automatically.
    Diverged,
}

/// The unique class of an `(ahead, behind)` pair.
pub open spec fn classify_spec(ahead: u64, behind: u64) -> SyncClass {
    if ahead > 0 && behind == 0 {
        SyncClass::PushOffer
    } else if ahead == 0 && behind > 0 {
        SyncClass::PullOffer
    } else if ahead > 0 && behind > 0 {
        SyncClass::Diverged
    } else {
        SyncClass::UpToDate
    }
}

/// Classifies the ahead/behind counts of a fetched repository.
pub fn classify(ahead: u64, behind: u64) -> (r: SyncClass)
    ensures
        r == classify_spec(ahead, behind),
{
    if ahead > 0 && behind == 0 {
        SyncClass::PushOffer
    } else if ahead == 0 && behind > 0 {
        SyncClass::PullOffer
    } else if ahead > 0 && behind > 0 {
        SyncClass::Diverged
    } else {
        SyncClass::UpToDate
    }
}

/// The classification is exhaustive and mutually exclusive: each of the four
/// count regions `(0,0)`, `(>0,0)`, `(0,>0)` and `(>0,>0)` maps to exactly
/// one class, and each class is reached only from its region.
pub proof fn lemma_classification_partition(ahead: u64, behind: u64)
    ensures
        classify_spec(ahead, behind) == SyncClass::UpToDate <==> (ahead == 0 && behind == 0),
        classify_spec(ahead, behind) == SyncClass::PushOffer <==> (ahead > 0 && behind == 0),
        classify_spec(ahead, behind) == SyncClass::PullOffer <==> (ahead == 0 && behind > 0),
        classify_spec(ahead, behind) == SyncClass::Diverged <==> (ahead > 0 && behind > 0),
{
}

} // verus!
