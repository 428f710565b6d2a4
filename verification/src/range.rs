use vstd::prelude::*;
use crate::advance::emitted_from;
use crate::advance::lemma_emitted_len_bound;
use crate::advance::lemma_emitted_len_times_step_bound;
use crate::advance::lemma_emitted_monotonic;
use crate::advance::lemma_no_weekend_emission;
use crate::advance::next_accepted;
use crate::filter::AcceptAll;
use crate::filter::TimeFilter;
use crate::step::TimeStep;
use crate::weekday::is_weekend;

verus! {

/// Why `build` refused to produce a range.
#[derive(Clone, Copy, Debug, PartialEq, Eq, Structural)]
pub enum TimeRangeError {
    /// One of start, end, or step was never supplied.
    MissingField,
    /// The end instant is not strictly after the start instant.
    InvalidRange,
    /// The step does not move strictly forward in time, so the enumeration
    /// would never terminate.
    NonPositiveStep,
}

/// Range of time to iterate over. Instants are seconds since the Unix epoch.
pub struct TimeRange<F: TimeFilter> {
    /// Start time
    pub start: i64,
    /// End time (exclusive)
    pub end: i64,
    /// Step to increment by each iteration
    pub step: TimeStep,
    /// Whether to skip weekends (Saturday and Sunday)
    pub skip_weekends: bool,
    /// Optional filter to skip certain times.
    pub filter: Option<F>,
}

impl<F: TimeFilter> TimeRange<F> {
    /// The step length in seconds, as a mathematical value.
    pub open spec fn step_seconds(self) -> int {
        self.step.spec_seconds()
    }

    /// The exact sequence of timestamps this range stands for.
    pub open spec fn emitted(self) -> Seq<int> {
        emitted_from(self.start as int, self.end as int, self.step_seconds(), self.skip_weekends, self.filter)
    }

    /// Machine-limit side conditions under which the enumeration can run:
    /// a strictly forward step that fits in an `i64`, cursor arithmetic that
    /// cannot overflow, and a count that fits in a `usize`.
    pub open spec fn iterable(self) -> bool {
        &&& 0 < self.step_seconds() <= i64::MAX as int
        &&& self.end as int + self.step_seconds() <= i64::MAX as int + 1
    }
}

/// Law: a range with `skip_weekends` set never emits a timestamp that falls
/// on a Saturday or a Sunday.
pub proof fn lemma_range_no_weekend_emission<F: TimeFilter>(r: TimeRange<F>)
    requires
        r.skip_weekends,
        0 < r.step_seconds(),
    ensures
        forall|i: int| 0 <= i < r.emitted().len() ==> !is_weekend(#[trigger] r.emitted()[i]),
{
    lemma_no_weekend_emission(r.start as int, r.end as int, r.step_seconds(), r.filter);
}

/// Law: the emitted timestamps ascend. Every one lies inside the window (at
/// or after `start`, strictly before `end`), and each is at least one full
/// step after the one before it — the enumeration never moves backward.
pub proof fn lemma_range_monotonic<F: TimeFilter>(r: TimeRange<F>)
    requires
        0 < r.step_seconds(),
    ensures
        forall|i: int| 0 <= i < r.emitted().len()
            ==> r.start as int <= #[trigger] r.emitted()[i] < r.end as int,
        forall|i: int| 0 <= i && i + 1 < r.emitted().len()
            ==> #[trigger] r.emitted()[i] + r.step_seconds() <= r.emitted()[i + 1],
{
    lemma_emitted_monotonic(r.start as int, r.end as int, r.step_seconds(), r.skip_weekends, r.filter);
}

/// A builder to create `TimeRange`.
pub struct TimeRangeBuilder<F: TimeFilter> {
    /// Start time, if it was set.
    pub start: Option<i64>,
    /// End time, if it was set.
    pub end: Option<i64>,
    /// Step, if it was set.
    pub step: Option<TimeStep>,
    /// Whether to skip weekends.
    pub skip_weekends: bool,
    /// Optional filter to skip certain times.
    pub filter: Option<F>,
}

impl TimeRangeBuilder<AcceptAll> {
    /// Create a new builder: nothing set, weekends kept, no filter.
    pub fn new() -> (r: Self)
        ensures
            r.start is None && r.end is None && r.step is None,
            !r.skip_weekends && r.filter is None,
    {
        TimeRangeBuilder {
            start: None,
            end: None,
            step: None,
            skip_weekends: false,
            filter: None,
        }
    }
}

impl<F: TimeFilter> TimeRangeBuilder<F> {
    /// Set the start time (seconds since the Unix epoch).
    pub fn start(self, start: i64) -> (r: Self)
        ensures
            r.start == Some(start),
            r.end == self.end && r.step == self.step,
            r.skip_weekends == self.skip_weekends && r.filter == self.filter,
    {
        TimeRangeBuilder { start: Some(start), ..self }
    }

    /// Set the end time (seconds since the Unix epoch, exclusive).
    pub fn end(self, end: i64) -> (r: Self)
        ensures
            r.end == Some(end),
            r.start == self.start && r.step == self.step,
            r.skip_weekends == self.skip_weekends && r.filter == self.filter,
    {
        TimeRangeBuilder { end: Some(end), ..self }
    }

    /// Set the step.
    pub fn step(self, step: TimeStep) -> (r: Self)
        ensures
            r.step == Some(step),
            r.start == self.start && r.end == self.end,
            r.skip_weekends == self.skip_weekends && r.filter == self.filter,
    {
        TimeRangeBuilder { step: Some(step), ..self }
    }

    /// Whether to skip weekends.
    pub fn skip_weekends(self, skip: bool) -> (r: Self)
        ensures
            r.skip_weekends == skip,
            r.start == self.start && r.end == self.end && r.step == self.step,
            r.filter == self.filter,
    {
        TimeRangeBuilder { skip_weekends: skip, ..self }
    }

    /// Provide a custom filter to skip certain times.
    /// For example, you can skip holidays or specific conditions.
    pub fn filter<G: TimeFilter>(self, f: G) -> (r: TimeRangeBuilder<G>)
        ensures
            r.filter == Some(f),
            r.start == self.start && r.end == self.end && r.step == self.step,
            r.skip_weekends == self.skip_weekends,
    {
        TimeRangeBuilder {
            start: self.start,
            end: self.end,
            step: self.step,
            skip_weekends: self.skip_weekends,
            filter: Some(f),
        }
    }

    /// Build the `TimeRange`.
    ///
    /// Fails with `MissingField` when start, end, or step was never set, and
    /// with `InvalidRange` when the end is not strictly after the start. A
    /// step that does not move strictly forward would make the enumeration
    /// run without bound, so it is rejected here with `NonPositiveStep`.
    pub fn build(self) -> (r: Result<TimeRange<F>, TimeRangeError>)
        ensures
            match r {
                Ok(tr) => {
                    &&& self.start is Some && self.end is Some && self.step is Some
                    &&& self.start.unwrap() < self.end.unwrap()
                    &&& self.step.unwrap().spec_seconds() > 0
                    &&& tr.start == self.start.unwrap()
                    &&& tr.end == self.end.unwrap()
                    &&& tr.step == self.step.unwrap()
                    &&& tr.skip_weekends == self.skip_weekends
                    &&& tr.filter == self.filter
                },
                Err(e) => {
                    &&& (self.start is None || self.end is None || self.step is None
                        || self.end.unwrap() <= self.start.unwrap()
                        || self.step.unwrap().spec_seconds() <= 0)
                    &&& e == (if self.start is None || self.end is None || self.step is None {
                        TimeRangeError::MissingField
                    } else if self.end.unwrap() <= self.start.unwrap() {
                        TimeRangeError::InvalidRange
                    } else {
                        TimeRangeError::NonPositiveStep
                    })
                },
            },
    {
        let start: i64 = match self.start {
            Some(s) => s,
            None => {
                return Err(TimeRangeError::MissingField);
            }
        };
        let end: i64 = match self.end {
            Some(e) => e,
            None => {
                return Err(TimeRangeError::MissingField);
            }
        };
        let step: TimeStep = match self.step {
            Some(s) => s,
            None => {
                return Err(TimeRangeError::MissingField);
            }
        };
        if end <= start {
            return Err(TimeRangeError::InvalidRange);
        }
        if !step.is_forward() {
            return Err(TimeRangeError::NonPositiveStep);
        }
        Ok(TimeRange {
            start,
            end,
            step,
            skip_weekends: self.skip_weekends,
            filter: self.filter,
        })
    }
}

/// The closed-form queries over a range: how many timestamps it yields, and
/// their total covered duration, without materializing the sequence.
pub trait ComputeTimeRange {
    /// Machine-limit preconditions under which the count can be computed.
    spec fn counting_ready(&self) -> bool;

    /// Machine-limit preconditions under which the duration product also fits.
    spec fn duration_ready(&self) -> bool;

    /// The number of yielded timestamps, as a mathematical value.
    spec fn spec_total_steps(&self) -> int;

    /// The step length in seconds, as a mathematical value.
    spec fn spec_step_seconds(&self) -> int;

    /// Compute the total number of steps in the range, after applying weekend
    /// skipping and the filter.
    fn total_steps(&self) -> (r: usize)
        requires
            self.counting_ready(),
        ensures
            r as int == self.spec_total_steps(),
    ;

    /// Compute the total duration in seconds of all yielded steps: the count
    /// times the step's total-seconds length.
    fn total_duration_in_seconds(&self) -> (r: i64)
        requires
            self.duration_ready(),
        ensures
            r as int == self.spec_total_steps() * self.spec_step_seconds(),
    ;
}

impl<F: TimeFilter> ComputeTimeRange for TimeRange<F> {
    open spec fn counting_ready(&self) -> bool {
        &&& self.iterable()
        &&& self.end as int - self.start as int <= usize::MAX as int
    }

    open spec fn duration_ready(&self) -> bool {
        &&& self.counting_ready()
        &&& self.end as int - self.start as int + self.step_seconds() <= i64::MAX as int
    }

    open spec fn spec_total_steps(&self) -> int {
        self.emitted().len() as int
    }

    open spec fn spec_step_seconds(&self) -> int {
        self.step_seconds()
    }

    fn total_steps(&self) -> (r: usize) {
        let step: i64 = self.step.as_total_seconds();
        let mut count: usize = 0;
        let mut cur: i64 = self.start;
        proof {
            lemma_emitted_len_bound(
                self.start as int,
                self.end as int,
                step as int,
                self.skip_weekends,
                self.filter,
            );
        }
        loop
            invariant
                0 < step,
                step as int == self.step.spec_seconds(),
                self.end as int + step as int <= i64::MAX as int + 1,
                self.start <= cur,
                self.emitted().len() <= usize::MAX as int,
                count as int
                    + emitted_from(cur as int, self.end as int, step as int, self.skip_weekends, self.filter).len()
                    == self.emitted().len(),
            decreases self.end - cur + step,
        {
            let (v, c2) = next_accepted(cur, self.end, step, self.skip_weekends, &self.filter);
            match v {
                Some(_) => {
                    count = count + 1;
                    cur = c2;
                }
                None => {
                    return count;
                }
            }
        }
    }

    fn total_duration_in_seconds(&self) -> (r: i64) {
        let steps: usize = self.total_steps();
        let step_len: i64 = self.step.as_total_seconds();
        proof {
            lemma_emitted_len_times_step_bound(
                self.start as int,
                self.end as int,
                step_len as int,
                self.skip_weekends,
                self.filter,
            );
            assert(steps as int <= steps as int * step_len as int) by (nonlinear_arith)
                requires
                    0 <= steps as int,
                    1 <= step_len as int,
            ;
            assert(0 <= steps as int * step_len as int) by (nonlinear_arith)
                requires
                    0 <= steps as int,
                    0 <= step_len as int,
            ;
        }
        (steps as i64) * step_len
    }
}

} // verus!
