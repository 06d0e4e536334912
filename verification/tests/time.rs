use chrono::{DateTime, TimeDelta, Utc};
use signaged::time::{Timestamp, MAX_SECONDS, MIN_SECONDS};

fn at(seconds: i64, nanoseconds: u32) -> Timestamp {
    Timestamp::new(seconds, nanoseconds).unwrap()
}

fn chrono_at(seconds: i64, nanoseconds: u32) -> DateTime<Utc> {
    DateTime::from_timestamp(seconds, nanoseconds).unwrap()
}

#[test]
fn range_is_that_of_the_calendar() {
    assert_eq!(DateTime::<Utc>::MIN_UTC.timestamp(), MIN_SECONDS);
    assert_eq!(DateTime::<Utc>::MAX_UTC.timestamp(), MAX_SECONDS);
    for (seconds, nanoseconds) in [
        (MIN_SECONDS, 0),
        (MIN_SECONDS - 1, 0),
        (MAX_SECONDS, 999_999_999),
        (MAX_SECONDS, 1_999_999_999),
        (MAX_SECONDS + 1, 0),
        (0, 1_000_000_000),
        (59, 1_000_000_000),
        (59, 1_999_999_999),
        (59, 2_000_000_000),
        (-1, 1_500_000_000),
        (-2, 1_500_000_000),
        (-61, 1_500_000_000),
        (i64::MIN, 0),
        (i64::MAX, 0),
    ] {
        assert_eq!(
            Timestamp::new(seconds, nanoseconds).is_some(),
            DateTime::from_timestamp(seconds, nanoseconds).is_some(),
            "{} {}",
            seconds,
            nanoseconds
        );
    }
}

#[test]
fn parts_come_back() {
    let t = at(-5, 250_000_000);
    assert_eq!(t.seconds(), -5);
    assert_eq!(t.nanoseconds(), 250_000_000);
}

#[test]
fn seconds_round_towards_zero() {
    assert_eq!(at(100, 0).seconds_since(at(90, 0)), 10);
    assert_eq!(at(100, 0).seconds_since(at(90, 1)), 9);
    assert_eq!(at(90, 1).seconds_since(at(100, 0)), -9);
    assert_eq!(at(90, 0).seconds_since(at(100, 0)), -10);
    assert_eq!(at(90, 500).seconds_since(at(90, 900)), 0);
    assert_eq!(at(90, 500).seconds_since(at(90, 500)), 0);
}

#[test]
fn seconds_over_a_leap_second() {
    // From the middle of the leap second at 23:59:60 to the next day, and on the same day.
    assert_eq!(at(86_400, 0).seconds_since(at(86_399, 1_500_000_000)), 0);
    assert_eq!(at(70, 0).seconds_since(at(59, 1_500_000_000)), 10);
    assert_eq!(at(59, 1_500_000_000).seconds_since(at(70, 0)), -10);
    assert_eq!(at(59, 1_500_000_000).seconds_since(at(50, 0)), 10);
}

#[test]
fn seconds_agree_with_the_calendar() {
    let samples = [
        (0, 0),
        (59, 1_999_999_999),
        (86_399, 1_000_000_000),
        (86_400, 1),
        (1_700_000_000, 123_456_789),
        (-1, 1_250_000_000),
        (-86_401, 999_999_999),
        (MIN_SECONDS, 0),
        (MAX_SECONDS, 0),
    ];
    for (a, b) in samples {
        for (c, d) in samples {
            let difference: TimeDelta = chrono_at(a, b) - chrono_at(c, d);
            assert_eq!(at(a, b).seconds_since(at(c, d)), difference.num_seconds());
            assert_eq!(at(a, b).later_than(at(c, d)), chrono_at(a, b) > chrono_at(c, d));
        }
    }
}

#[test]
fn later_is_strict() {
    assert!(at(10, 1).later_than(at(10, 0)));
    assert!(at(11, 0).later_than(at(10, 999_999_999)));
    assert!(!at(10, 0).later_than(at(10, 0)));
    assert!(!at(10, 0).later_than(at(10, 1)));
}
