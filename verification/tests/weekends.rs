use chrono::{Datelike, TimeZone, Utc, Weekday};
use range_time::{ComputeTimeRange, TimeFilter, TimeRangeBuilder, TimeRangeIter, TimeStep};

fn drain<F: TimeFilter>(mut it: TimeRangeIter<F>) -> Vec<i64> {
    let mut out: Vec<i64> = Vec::new();
    while let Some(t) = it.next() {
        out.push(t);
    }
    out
}

fn ts(y: i32, mo: u32, d: u32, h: u32, mi: u32, s: u32) -> i64 {
    Utc.with_ymd_and_hms(y, mo, d, h, mi, s).unwrap().timestamp()
}

fn weekday_of(t: i64) -> Weekday {
    chrono::DateTime::from_timestamp(t, 0).unwrap().weekday()
}

#[test]
fn weekday_numbering_matches_the_calendar() {
    // Spot checks across several decades, including pre-1970 instants: the
    // library's Monday-first weekday arithmetic agrees with the calendar.
    let mut t = ts(1964, 2, 10, 17, 30, 5);
    let end = ts(2030, 6, 1, 0, 0, 0);
    while t < end {
        let expected = weekday_of(t).number_from_monday();
        assert_eq!(range_time::weekday::weekday_from_monday(t) as u32, expected);
        t += 997_011; // a little over eleven days, varying the time of day
    }
}

#[test]
fn thirty_day_window_never_emits_weekends() {
    // A 30-day window starting on each day of the week in turn, daily steps,
    // weekends skipped: nothing produced may fall on Saturday or Sunday.
    for offset in 0..7i64 {
        let start = ts(2024, 1, 1, 8, 0, 0) + offset * 86400;
        let end = start + 30 * 86400;
        let range = TimeRangeBuilder::new()
            .start(start)
            .end(end)
            .step(TimeStep::Day(1))
            .skip_weekends(true)
            .build()
            .unwrap();
        let items = drain(range.into_iter());
        let mut expected = 0usize;
        for d in 0..30i64 {
            let w = weekday_of(start + d * 86400);
            if w != Weekday::Sat && w != Weekday::Sun {
                expected += 1;
            }
        }
        assert_eq!(items.len(), expected);
        for t in items {
            let w = weekday_of(t);
            assert!(w != Weekday::Sat && w != Weekday::Sun);
        }
    }
}

#[test]
fn weekend_skip_agrees_with_calendar_before_1970() {
    // Negative timestamps: a window in 1969, daily steps, weekends skipped.
    let start = ts(1969, 11, 3, 12, 0, 0);
    let end = ts(1969, 12, 1, 0, 0, 0);
    let range = TimeRangeBuilder::new()
        .start(start)
        .end(end)
        .step(TimeStep::Day(1))
        .skip_weekends(true)
        .build()
        .unwrap();
    let items = drain(range.into_iter());
    assert!(start < 0);
    assert!(!items.is_empty());
    for t in items {
        let w = weekday_of(t);
        assert!(w != Weekday::Sat && w != Weekday::Sun);
    }
}

#[test]
fn window_ending_inside_a_weekend() {
    // Friday .. Sunday with daily steps: only Friday is produced, and the
    // walk past Saturday stops at the boundary instead of emitting anything.
    let friday = ts(2024, 1, 5, 0, 0, 0);
    assert_eq!(weekday_of(friday), Weekday::Fri);
    let range = TimeRangeBuilder::new()
        .start(friday)
        .end(friday + 2 * 86400)
        .step(TimeStep::Day(1))
        .skip_weekends(true)
        .build()
        .unwrap();
    assert_eq!(range.total_steps(), 1);
    let range = TimeRangeBuilder::new()
        .start(friday)
        .end(friday + 2 * 86400)
        .step(TimeStep::Day(1))
        .skip_weekends(true)
        .build()
        .unwrap();
    assert_eq!(drain(range.into_iter()), vec![friday]);
}

#[test]
fn window_covering_only_a_weekend_is_empty() {
    // Saturday .. Monday 00:00 with daily steps and weekends skipped:
    // the skip walk reaches the end boundary and nothing is produced.
    let saturday = ts(2024, 1, 6, 0, 0, 0);
    assert_eq!(weekday_of(saturday), Weekday::Sat);
    let range = TimeRangeBuilder::new()
        .start(saturday)
        .end(saturday + 2 * 86400)
        .step(TimeStep::Day(1))
        .skip_weekends(true)
        .build()
        .unwrap();
    assert_eq!(range.total_steps(), 0);
    let range = TimeRangeBuilder::new()
        .start(saturday)
        .end(saturday + 2 * 86400)
        .step(TimeStep::Day(1))
        .skip_weekends(true)
        .build()
        .unwrap();
    let mut it = range.into_iter();
    assert_eq!(it.next(), None);
    assert_eq!(it.next(), None);
}

#[test]
fn weekend_start_resynchronizes_past_the_block() {
    // Saturday start: the first two day positions are skipped and Monday is
    // the first value; the cursor resynchronizes past the skipped block, so
    // the following value is Tuesday, not a re-visited weekend day.
    let saturday = ts(2024, 1, 6, 6, 0, 0);
    let range = TimeRangeBuilder::new()
        .start(saturday)
        .end(saturday + 7 * 86400)
        .step(TimeStep::Day(1))
        .skip_weekends(true)
        .build()
        .unwrap();
    let items = drain(range.into_iter());
    assert_eq!(
        items,
        vec![
            saturday + 2 * 86400,
            saturday + 3 * 86400,
            saturday + 4 * 86400,
            saturday + 5 * 86400,
            saturday + 6 * 86400,
        ]
    );
}
