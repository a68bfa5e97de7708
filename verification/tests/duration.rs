//! The time-span value on concrete values.

use tagcore::Duration;

#[test]
fn from_millis_splits_seconds_and_remainder() {
    let d = Duration::from_millis(1428);
    assert_eq!(d.secs, 1);
    assert_eq!(d.subsec_nanos(), 428_000_000);
    assert_eq!(d.as_millis(), 1428);
    assert_eq!(d.as_secs(), 1);
}

#[test]
fn from_millis_whole_seconds() {
    let d = Duration::from_millis(2000);
    assert_eq!(d.secs, 2);
    assert_eq!(d.subsec_nanos(), 0);
    assert_eq!(d.as_millis(), 2000);
}

#[test]
fn from_millis_under_one_second() {
    let d = Duration::from_millis(27);
    assert_eq!(d.secs, 0);
    assert_eq!(d.subsec_nanos(), 27_000_000);
    assert_eq!(d.as_millis(), 27);
    assert_eq!(d.as_secs(), 0);
}

#[test]
fn from_secs_has_no_remainder() {
    let d = Duration::from_secs(90);
    assert_eq!(d.as_secs(), 90);
    assert_eq!(d.as_millis(), 90_000);
    assert_eq!(d.subsec_nanos(), 0);
}

#[test]
fn zero_and_default_agree() {
    assert_eq!(Duration::zero(), Duration::default());
    assert_eq!(Duration::zero().as_millis(), 0);
}

#[test]
fn equal_spans_compare_equal() {
    assert_eq!(Duration::from_millis(1000), Duration::from_secs(1));
    assert_ne!(Duration::from_millis(1001), Duration::from_secs(1));
}
