use vstd::prelude::*;
use crate::advance::emitted_from;
use crate::advance::next_accepted;
use crate::filter::TimeFilter;
use crate::range::ComputeTimeRange;
use crate::range::TimeRange;

verus! {

/// The lazy, pull-based form of a `TimeRange`: a single mutable cursor that
/// yields the range's timestamps one at a time.
pub struct TimeRangeIter<F: TimeFilter> {
    current: i64,
    end: i64,
    step: i64,
    skip_weekends: bool,
    filter: Option<F>,
}

impl<F: TimeFilter> TimeRangeIter<F> {
    /// The sequence of timestamps this iterator has yet to yield.
    pub closed spec fn remaining(self) -> Seq<int> {
        emitted_from(self.current as int, self.end as int, self.step as int, self.skip_weekends, self.filter)
    }

    /// Machine-limit conditions under which the iterator may be advanced: a
    /// strictly forward step, and cursor arithmetic that cannot overflow.
    pub closed spec fn wf(self) -> bool {
        &&& 0 < self.step
        &&& self.end as int + self.step as int <= i64::MAX as int + 1
    }

    /// Produce the next timestamp. `Some` pops the head of `remaining()`;
    /// `None` means the enumeration is over — terminally, so every later call
    /// returns `None` as well.
    pub fn next(&mut self) -> (r: Option<i64>)
        requires
            old(self).wf(),
        ensures
            final(self).wf(),
            match r {
                Some(t) => {
                    &&& old(self).remaining().len() > 0
                    &&& t as int == old(self).remaining()[0]
                    &&& final(self).remaining() == old(self).remaining().skip(1)
                },
                None => {
                    &&& old(self).remaining() == Seq::<int>::empty()
                    &&& final(self).remaining() == Seq::<int>::empty()
                },
            },
    {
        let (v, c2) = next_accepted(self.current, self.end, self.step, self.skip_weekends, &self.filter);
        self.current = c2;
        proof {
            match v {
                Some(t) => {
                    assert((seq![t as int] + self.remaining()).skip(1) =~= self.remaining());
                }
                None => {}
            }
        }
        v
    }
}

impl<F: TimeFilter> TimeRange<F> {
    /// Turn the range into its iterator form, positioned at `start`.
    pub fn into_iter(self) -> (it: TimeRangeIter<F>)
        requires
            i64::MIN <= self.step_seconds() <= i64::MAX,
        ensures
            it.remaining() == self.emitted(),
            self.iterable() ==> it.wf(),
    {
        TimeRangeIter {
            current: self.start,
            end: self.end,
            step: self.step.as_total_seconds(),
            skip_weekends: self.skip_weekends,
            filter: self.filter,
        }
    }
}

/// Law: counting and iterating agree. `into_iter` hands back an iterator
/// whose `remaining()` is exactly `emitted()`, and each `next` pops exactly
/// the head of `remaining()`; `total_steps` returns, by its contract, the
/// length of that same sequence, and `total_duration_in_seconds` that length
/// times the step's total seconds. So fully draining the iterator yields
/// precisely `total_steps()` timestamps, whichever form a caller consumes.
pub proof fn lemma_count_matches_iteration<F: TimeFilter>(r: TimeRange<F>, it: TimeRangeIter<F>)
    requires
        it.remaining() == r.emitted(),
    ensures
        r.spec_total_steps() == it.remaining().len(),
        r.spec_total_steps() * r.spec_step_seconds() == it.remaining().len() * r.step_seconds(),
{
}

} // verus!
