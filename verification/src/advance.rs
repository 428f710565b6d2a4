use vstd::prelude::*;
use crate::filter::TimeFilter;
use crate::weekday::is_weekend;
use crate::weekday::is_weekend_day;

verus! {

/// Whether `filter` keeps the timestamp `t`; an absent filter keeps everything.
pub open spec fn filter_accepts<F: TimeFilter>(filter: Option<F>, t: int) -> bool {
    match filter {
        Some(f) => f.spec_accepts(t),
        None => true,
    }
}

/// The mathematical model of the enumeration: the exact sequence of timestamps
/// produced from the cursor `c` (inclusive) up to `end` (exclusive), advancing
/// by `step` seconds each time. A position on a Saturday or Sunday is passed
/// over silently when `skip_weekends` is set; a position the filter rejects is
/// passed over silently as well. Both the lazy iterator and the closed-form
/// counter are proved against this one definition, so they can never drift
/// apart.
pub open spec fn emitted_from<F: TimeFilter>(
    c: int,
    end: int,
    step: int,
    skip_weekends: bool,
    filter: Option<F>,
) -> Seq<int>
    decreases end - c + step when 0 < step
{
    if c >= end {
        Seq::empty()
    } else if skip_weekends && is_weekend(c) {
        emitted_from(c + step, end, step, skip_weekends, filter)
    } else if filter_accepts(filter, c) {
        seq![c] + emitted_from(c + step, end, step, skip_weekends, filter)
    } else {
        emitted_from(c + step, end, step, skip_weekends, filter)
    }
}

/// The enumeration is finite: it can produce at most one timestamp per step
/// inside the window, so its length is bounded by the width of the window.
pub proof fn lemma_emitted_len_bound<F: TimeFilter>(
    c: int,
    end: int,
    step: int,
    skip_weekends: bool,
    filter: Option<F>,
)
    requires
        0 < step,
    ensures
        emitted_from(c, end, step, skip_weekends, filter).len()
            <= (if end > c { end - c } else { 0 }),
    decreases end - c + step,
{
    if c < end {
        lemma_emitted_len_bound(c + step, end, step, skip_weekends, filter);
    }
}

/// The emitted timestamps, multiplied by the step length, still fit inside the
/// window plus one step: the counter's "total duration" product cannot
/// overflow when the window itself fits.
pub proof fn lemma_emitted_len_times_step_bound<F: TimeFilter>(
    c: int,
    end: int,
    step: int,
    skip_weekends: bool,
    filter: Option<F>,
)
    requires
        0 < step,
    ensures
        emitted_from(c, end, step, skip_weekends, filter).len() * step
            <= (if end > c { end - c } else { 0 }) + step,
    decreases end - c + step,
{
    let whole = emitted_from(c, end, step, skip_weekends, filter);
    if c >= end {
        assert(whole.len() * step == 0) by (nonlinear_arith)
            requires whole.len() == 0;
    } else {
        lemma_emitted_len_times_step_bound(c + step, end, step, skip_weekends, filter);
        let rest = emitted_from(c + step, end, step, skip_weekends, filter);
        if c + step >= end {
            assert(rest.len() * step == 0) by (nonlinear_arith)
                requires rest.len() == 0;
        }
        assert((rest.len() + 1) * step == rest.len() * step + step) by (nonlinear_arith);
    }
}

/// Law: with weekend skipping on, no emitted timestamp falls on a Saturday or
/// a Sunday, whatever the step, window, and filter are.
pub proof fn lemma_no_weekend_emission<F: TimeFilter>(
    c: int,
    end: int,
    step: int,
    filter: Option<F>,
)
    requires
        0 < step,
    ensures
        forall|i: int| 0 <= i < emitted_from(c, end, step, true, filter).len()
            ==> !is_weekend(#[trigger] emitted_from(c, end, step, true, filter)[i]),
    decreases end - c + step,
{
    if c < end {
        lemma_no_weekend_emission(c + step, end, step, filter);
        let whole = emitted_from(c, end, step, true, filter);
        let rest = emitted_from(c + step, end, step, true, filter);
        assert forall|i: int| 0 <= i < whole.len() implies !is_weekend(whole[i]) by {
            if !(is_weekend(c)) && filter_accepts(filter, c) {
                if i > 0 {
                    assert(whole[i] == rest[i - 1]);
                }
            }
        };
    }
}

/// Law: the enumeration moves strictly forward. Every emitted timestamp lies
/// inside the window (at or after the cursor, strictly before `end`), and each
/// one is at least a full step after the one before it.
pub proof fn lemma_emitted_monotonic<F: TimeFilter>(
    c: int,
    end: int,
    step: int,
    skip_weekends: bool,
    filter: Option<F>,
)
    requires
        0 < step,
    ensures
        forall|i: int| 0 <= i < emitted_from(c, end, step, skip_weekends, filter).len()
            ==> c <= #[trigger] emitted_from(c, end, step, skip_weekends, filter)[i] < end,
        forall|i: int| 0 <= i && i + 1 < emitted_from(c, end, step, skip_weekends, filter).len()
            ==> #[trigger] emitted_from(c, end, step, skip_weekends, filter)[i] + step
                <= emitted_from(c, end, step, skip_weekends, filter)[i + 1],
    decreases end - c + step,
{
    if c < end {
        lemma_emitted_monotonic(c + step, end, step, skip_weekends, filter);
        let whole = emitted_from(c, end, step, skip_weekends, filter);
        let rest = emitted_from(c + step, end, step, skip_weekends, filter);
        if !(skip_weekends && is_weekend(c)) && filter_accepts(filter, c) {
            assert forall|i: int| 0 <= i < whole.len() implies c <= #[trigger] whole[i] < end by {
                if i > 0 {
                    assert(whole[i] == rest[i - 1]);
                }
            };
            assert forall|i: int| 0 <= i && i + 1 < whole.len() implies
                #[trigger] whole[i] + step <= whole[i + 1] by {
                if i == 0 {
                    assert(whole[1] == rest[0]);
                } else {
                    assert(whole[i] == rest[i - 1]);
                    assert(whole[i + 1] == rest[i]);
                }
            };
        }
    }
}

/// The shared advancement routine consumed by both the iterator and the
/// counter: starting from `cursor`, walk past weekend positions (when asked)
/// and filtered-out positions, and either produce the next emitted timestamp
/// together with the resynchronized cursor that follows it, or report that the
/// enumeration is over.
pub fn next_accepted<F: TimeFilter>(
    cursor: i64,
    end: i64,
    step: i64,
    skip_weekends: bool,
    filter: &Option<F>,
) -> (r: (Option<i64>, i64))
    requires
        0 < step,
        end as int + step as int <= i64::MAX as int + 1,
    ensures
        match r.0 {
            Some(t) => {
                &&& emitted_from(cursor as int, end as int, step as int, skip_weekends, *filter)
                    == seq![t as int] + emitted_from(r.1 as int, end as int, step as int, skip_weekends, *filter)
                &&& cursor <= t < end
                &&& r.1 as int == t as int + step as int
            },
            None => {
                &&& emitted_from(cursor as int, end as int, step as int, skip_weekends, *filter)
                    == Seq::<int>::empty()
                &&& emitted_from(r.1 as int, end as int, step as int, skip_weekends, *filter)
                    == Seq::<int>::empty()
                &&& cursor <= r.1
            },
        },
{
    let mut cur: i64 = cursor;
    loop
        invariant
            0 < step,
            end as int + step as int <= i64::MAX as int + 1,
            cursor <= cur,
            emitted_from(cur as int, end as int, step as int, skip_weekends, *filter)
                == emitted_from(cursor as int, end as int, step as int, skip_weekends, *filter),
        decreases end - cur + step,
    {
        if cur >= end {
            return (None, cur);
        }
        let candidate: i64 = cur;
        let mut day_candidate: i64 = candidate;
        if skip_weekends {
            loop
                invariant
                    0 < step,
                    end as int + step as int <= i64::MAX as int + 1,
                    skip_weekends,
                    candidate <= day_candidate,
                    day_candidate as int <= end as int - 1 + step as int,
                    emitted_from(day_candidate as int, end as int, step as int, skip_weekends, *filter)
                        == emitted_from(cursor as int, end as int, step as int, skip_weekends, *filter),
                ensures
                    candidate <= day_candidate,
                    day_candidate as int <= end as int - 1 + step as int,
                    day_candidate >= end || !is_weekend(day_candidate as int),
                    emitted_from(day_candidate as int, end as int, step as int, skip_weekends, *filter)
                        == emitted_from(cursor as int, end as int, step as int, skip_weekends, *filter),
                decreases end - day_candidate + step,
            {
                if day_candidate >= end {
                    break;
                }
                if !is_weekend_day(day_candidate) {
                    break;
                }
                day_candidate = day_candidate + step;
            }
        }
        if day_candidate >= end {
            return (None, day_candidate);
        }
        let keep: bool = match filter {
            Some(f) => f.accepts(day_candidate),
            None => true,
        };
        let next_cursor: i64 = day_candidate + step;
        if keep {
            return (Some(day_candidate), next_cursor);
        }
        cur = next_cursor;
    }
}

} // verus!
