//! Spans and instants.

use drift::{Span, Timestamp};

#[test]
fn span_new_takes_nanos_below_one_second() {
    let span = Span::new(3, 999_999_999).unwrap();
    assert_eq!(span.as_secs(), 3);
    assert_eq!(span.subsec_nanos(), 999_999_999);
    assert_eq!(Span::new(3, 1_000_000_000), None);
    assert_eq!(Span::new(0, u32::MAX), None);
}

#[test]
fn span_from_millis_splits_seconds_and_nanos() {
    let span = Span::from_millis(1_250);
    assert_eq!(span.as_secs(), 1);
    assert_eq!(span.subsec_nanos(), 250_000_000);
    assert_eq!(span.as_millis(), 1_250);
    assert_eq!(Span::from_millis(0), Span::zero());
    assert_eq!(Span::from_millis(u64::MAX).as_millis(), u128::from(u64::MAX));
}

#[test]
fn span_as_millis_drops_what_is_below_a_millisecond() {
    assert_eq!(Span::new(2, 1_999_999).unwrap().as_millis(), 2_001);
    assert_eq!(Span::new(0, 999_999).unwrap().as_millis(), 0);
    assert_eq!(
        Span::new(u64::MAX, 999_999_999).unwrap().as_millis(),
        u128::from(u64::MAX) * 1_000 + 999
    );
}

#[test]
fn span_saturating_sub_borrows_from_the_seconds() {
    let a = Span::new(5, 100).unwrap();
    let b = Span::new(2, 200).unwrap();
    assert_eq!(a.saturating_sub(b), Span::new(2, 999_999_900).unwrap());
    assert_eq!(a.saturating_sub(Span::new(2, 100).unwrap()), Span::new(3, 0).unwrap());
    assert_eq!(a.saturating_sub(Span::new(2, 50).unwrap()), Span::new(3, 50).unwrap());
}

#[test]
fn span_saturating_sub_stops_at_zero() {
    let a = Span::new(5, 100).unwrap();
    assert_eq!(a.saturating_sub(a), Span::zero());
    assert_eq!(a.saturating_sub(Span::new(5, 101).unwrap()), Span::zero());
    assert_eq!(a.saturating_sub(Span::new(6, 0).unwrap()), Span::zero());
    assert_eq!(Span::zero().saturating_sub(Span::new(u64::MAX, 999_999_999).unwrap()), Span::zero());
    assert!(Span::zero().is_zero());
    assert!(!Span::new(0, 1).unwrap().is_zero());
    assert!(!Span::new(1, 0).unwrap().is_zero());
}

#[test]
fn timestamp_new_takes_nanos_below_one_second() {
    let t = Timestamp::new(-5, 250_000_000).unwrap();
    assert_eq!(t.secs(), -5);
    assert_eq!(t.subsec_nanos(), 250_000_000);
    assert_eq!(Timestamp::new(0, 1_000_000_000), None);
    assert_eq!(Timestamp::from_secs(17), Timestamp::new(17, 0).unwrap());
}

#[test]
fn timestamp_duration_since_an_earlier_instant() {
    let earlier = Timestamp::new(10, 900_000_000).unwrap();
    let later = Timestamp::new(12, 100_000_000).unwrap();
    assert_eq!(later.duration_since(earlier), Some(Span::new(1, 200_000_000).unwrap()));
    assert_eq!(later.duration_since(later), Some(Span::zero()));
    assert_eq!(earlier.duration_since(later), None);
}

#[test]
fn timestamp_duration_since_across_the_origin_and_the_whole_range() {
    let before = Timestamp::new(-1, 999_999_999).unwrap();
    let after = Timestamp::new(0, 0).unwrap();
    assert_eq!(after.duration_since(before), Some(Span::new(0, 1).unwrap()));

    let first = Timestamp::new(i64::MIN, 0).unwrap();
    let last = Timestamp::new(i64::MAX, 999_999_999).unwrap();
    assert_eq!(last.duration_since(first), Some(Span::new(u64::MAX, 999_999_999).unwrap()));
    assert_eq!(first.duration_since(last), None);
}

#[test]
fn timestamp_now_is_a_present_day_instant() {
    let before = chrono::Utc::now();
    let now = Timestamp::now();
    let after = chrono::Utc::now();
    assert!(now.subsec_nanos() < 1_000_000_000);
    assert!(before.timestamp() <= now.secs());
    assert!(now.secs() <= after.timestamp());
}
