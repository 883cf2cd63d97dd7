use access_grants::time::{Datetime, Duration};

#[test]
fn instants_are_ordered_by_seconds_then_nanoseconds() {
    let early = Datetime::new(10, 999_999_999);
    let late = Datetime::new(11, 0);
    assert!(early.is_before(&late));
    assert!(!late.is_before(&early));
    assert!(Datetime::new(11, 0).is_before(&Datetime::new(11, 1)));
    assert!(!Datetime::new(11, 1).is_before(&Datetime::new(11, 1)));
    assert!(Datetime::new(-5, 0).is_before(&Datetime::new(0, 0)));
}

#[test]
fn timestamp_is_the_whole_seconds() {
    assert_eq!(Datetime::new(1_700_000_000, 123).timestamp(), 1_700_000_000);
    assert_eq!(Datetime::new(-1, 5).timestamp(), -1);
}

#[test]
fn seconds_since_counts_whole_seconds() {
    let now = Datetime::new(100, 0);
    assert_eq!(now.seconds_since(&Datetime::new(90, 0)), 10);
    assert_eq!(now.seconds_since(&Datetime::new(100, 0)), 0);
    assert_eq!(now.seconds_since(&Datetime::new(90, 999_999_999)), 10);
}

#[test]
fn seconds_since_saturates_at_zero_for_the_future() {
    let now = Datetime::new(100, 0);
    assert_eq!(now.seconds_since(&Datetime::new(101, 0)), 0);
    assert_eq!(now.seconds_since(&Datetime::new(i64::MAX, 0)), 0);
}

#[test]
fn seconds_since_does_not_wrap_at_the_ends_of_the_range() {
    let last = Datetime::new(i64::MAX, 0);
    let first = Datetime::new(i64::MIN, 0);
    assert_eq!(last.seconds_since(&first), u64::MAX);
    assert_eq!(first.seconds_since(&last), 0);
}

#[test]
fn checked_add_carries_nanoseconds() {
    let at = Datetime::new(100, 600_000_000);
    let d = Duration { secs: 5, nanos: 500_000_000 };
    assert_eq!(at.checked_add(&d), Some(Datetime::new(106, 100_000_000)));
    assert_eq!(
        Datetime::new(100, 0).checked_add(&Duration::from_secs(3600)),
        Some(Datetime::new(3700, 0))
    );
    assert_eq!(
        Datetime::new(-10, 0).checked_add(&Duration::from_secs(4)),
        Some(Datetime::new(-6, 0))
    );
}

#[test]
fn checked_add_refuses_what_is_out_of_range() {
    let at = Datetime::new(i64::MAX - 1, 0);
    assert_eq!(at.checked_add(&Duration::from_secs(1)), Some(Datetime::new(i64::MAX, 0)));
    assert_eq!(at.checked_add(&Duration::from_secs(2)), None);
    assert_eq!(Datetime::new(0, 0).checked_add(&Duration::from_secs(u64::MAX)), None);
    let edge = Datetime::new(i64::MAX, 999_999_999);
    assert_eq!(edge.checked_add(&Duration { secs: 0, nanos: 1 }), None);
}

#[test]
fn duration_reports_its_seconds_and_emptiness() {
    assert_eq!(Duration::from_secs(42).secs(), 42);
    assert!(Duration::from_secs(0).is_zero());
    assert!(!Duration::from_secs(1).is_zero());
    assert!(!Duration { secs: 0, nanos: 1 }.is_zero());
    assert_eq!(Duration::default(), Duration { secs: 0, nanos: 0 });
}

#[test]
fn saturating_add_stops_at_the_last_instant() {
    let at = Datetime::new(100, 600_000_000);
    assert_eq!(
        at.saturating_add(&Duration { secs: 5, nanos: 500_000_000 }),
        Datetime::new(106, 100_000_000)
    );
    let last = Datetime::new(i64::MAX, u32::MAX);
    assert_eq!(Datetime::new(i64::MAX - 1, 0).saturating_add(&Duration::from_secs(2)), last);
    assert_eq!(Datetime::new(0, 0).saturating_add(&Duration::from_secs(u64::MAX)), last);
    assert_eq!(
        Datetime::new(i64::MAX - 1, 0).saturating_add(&Duration::from_secs(1)),
        Datetime::new(i64::MAX, 0)
    );
}

#[test]
fn the_derived_order_is_the_order_of_instants() {
    let times = [
        Datetime::new(-5, 0),
        Datetime::new(10, 999_999_999),
        Datetime::new(11, 0),
        Datetime::new(11, 1),
    ];
    for a in &times {
        for b in &times {
            assert_eq!(a < b, a.is_before(b));
        }
    }
}
