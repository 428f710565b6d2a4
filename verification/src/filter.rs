use vstd::prelude::*;

verus! {

/// A predicate over timestamps, used to exclude instants from the enumeration
/// (skipping holidays, maintenance windows, or any custom condition).
///
/// `spec_accepts` is the filter's meaning as a mathematical predicate; the
/// executable `accepts` must decide exactly that predicate. The contracts of
/// the iterator and of the counting routine are stated over `spec_accepts`,
/// so both consume any one filter identically.
pub trait TimeFilter {
    /// What the filter accepts, as a mathematical predicate on the timestamp
    /// (seconds since the Unix epoch).
    spec fn spec_accepts(&self, t: int) -> bool;

    /// Decide whether the timestamp `t` is kept (`true`) or skipped (`false`).
    fn accepts(&self, t: i64) -> (r: bool)
        ensures
            r == self.spec_accepts(t as int),
    ;
}

/// The default filter: accepts every timestamp.
#[derive(Clone, Copy, Debug, PartialEq, Eq, Structural)]
pub struct AcceptAll;

impl TimeFilter for AcceptAll {
    open spec fn spec_accepts(&self, t: int) -> bool {
        true
    }

    fn accepts(&self, t: i64) -> (r: bool) {
        true
    }
}

/// A filter that rejects an explicit list of timestamps (for example a holiday
/// calendar) and accepts everything else.
#[derive(Clone, Debug)]
pub struct ExcludeList {
    /// The timestamps to reject, in seconds since the Unix epoch.
    pub excluded: Vec<i64>,
}

impl TimeFilter for ExcludeList {
    open spec fn spec_accepts(&self, t: int) -> bool {
        forall|j: int| 0 <= j < self.excluded@.len() ==> self.excluded@[j] as int != t
    }

    fn accepts(&self, t: i64) -> (r: bool) {
        let mut i: usize = 0;
        while i < self.excluded.len()
            invariant
                i <= self.excluded@.len(),
                forall|j: int| 0 <= j < i ==> self.excluded@[j] as int != t as int,
            decreases self.excluded@.len() - i,
        {
            if self.excluded[i] == t {
                assert(self.excluded@[i as int] as int == t as int);
                return false;
            }
            i = i + 1;
        }
        true
    }
}

} // verus!
