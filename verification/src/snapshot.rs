use vstd::prelude::*;

verus! {

/// A fully built dataset, reduced to the two observations the supervision
/// logic makes of it.
#[derive(Clone, Copy, Debug, PartialEq, Eq, Structural)]
pub struct Snapshot {
    pub record_count: usize,
    pub artifact_count: usize,
}

impl Snapshot {
    /// A dataset holds nothing when it has neither records nor artifacts.
    pub open spec fn is_vacant(self) -> bool {
        self.record_count == 0 && self.artifact_count == 0
    }

    pub fn new(record_count: usize, artifact_count: usize) -> (snapshot: Snapshot)
        ensures
            snapshot.record_count == record_count,
            snapshot.artifact_count == artifact_count,
    {
        Snapshot { record_count, artifact_count }
    }

    pub fn record_count(&self) -> (count: usize)
        ensures
            count == self.record_count,
    {
        self.record_count
    }

    pub fn artifact_count(&self) -> (count: usize)
        ensures
            count == self.artifact_count,
    {
        self.artifact_count
    }

    /// Tells whether the dataset holds nothing at all.
    pub fn is_empty(&self) -> (vacant: bool)
        ensures
            vacant == self.is_vacant(),
    {
        self.record_count == 0 && self.artifact_count == 0
    }
}

} // verus!
