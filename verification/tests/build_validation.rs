use range_time::{TimeRangeBuilder, TimeRangeError, TimeStep};

#[test]
fn build_fails_without_start() {
    let r = TimeRangeBuilder::new().end(100).step(TimeStep::Second(1)).build();
    assert_eq!(r.err(), Some(TimeRangeError::MissingField));
}

#[test]
fn build_fails_without_end() {
    let r = TimeRangeBuilder::new().start(0).step(TimeStep::Second(1)).build();
    assert_eq!(r.err(), Some(TimeRangeError::MissingField));
}

#[test]
fn build_fails_without_step() {
    let r = TimeRangeBuilder::new().start(0).end(100).build();
    assert_eq!(r.err(), Some(TimeRangeError::MissingField));
}

#[test]
fn build_fails_with_nothing_set() {
    let r = TimeRangeBuilder::new().build();
    assert_eq!(r.err(), Some(TimeRangeError::MissingField));
}

#[test]
fn build_fails_when_end_before_start() {
    for (start, end) in [(100i64, 50i64), (0, -1), (-5, -10), (i64::MAX, i64::MIN)] {
        let r = TimeRangeBuilder::new()
            .start(start)
            .end(end)
            .step(TimeStep::Second(1))
            .build();
        assert_eq!(r.err(), Some(TimeRangeError::InvalidRange));
    }
}

#[test]
fn build_fails_when_end_equals_start() {
    for t in [0i64, -86400, 1704067200] {
        let r = TimeRangeBuilder::new()
            .start(t)
            .end(t)
            .step(TimeStep::Minute(5))
            .build();
        assert_eq!(r.err(), Some(TimeRangeError::InvalidRange));
    }
}

#[test]
fn build_fails_with_non_positive_step() {
    for step in [
        TimeStep::Second(0),
        TimeStep::Second(-1),
        TimeStep::Minute(0),
        TimeStep::Hour(-2),
        TimeStep::Day(0),
    ] {
        let r = TimeRangeBuilder::new().start(0).end(100).step(step).build();
        assert_eq!(r.err(), Some(TimeRangeError::NonPositiveStep));
    }
}

#[test]
fn build_keeps_all_fields() {
    let r = TimeRangeBuilder::new()
        .start(10)
        .end(1000)
        .step(TimeStep::Minute(3))
        .skip_weekends(true)
        .build()
        .unwrap();
    assert_eq!(r.start, 10);
    assert_eq!(r.end, 1000);
    assert_eq!(r.step, TimeStep::Minute(3));
    assert!(r.skip_weekends);
    assert!(r.filter.is_none());
}

#[test]
fn build_defaults_weekends_kept_and_no_filter() {
    let r = TimeRangeBuilder::new()
        .start(0)
        .end(60)
        .step(TimeStep::Second(30))
        .build()
        .unwrap();
    assert!(!r.skip_weekends);
    assert!(r.filter.is_none());
}
