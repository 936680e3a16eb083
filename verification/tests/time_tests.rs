use url_shortener::time::{is_expired, Timestamp};

#[test]
fn expiry_one_second_before_and_after() {
    let now = Timestamp::new(1_700_000_000, 500);
    assert!(is_expired(Some(Timestamp::new(1_699_999_999, 500)), now));
    assert!(!is_expired(Some(Timestamp::new(1_700_000_001, 500)), now));
    assert!(!is_expired(None, now));
}

#[test]
fn expiry_is_strict() {
    let now = Timestamp::new(100, 5);
    assert!(!is_expired(Some(now), now));
    assert!(is_expired(Some(Timestamp::new(100, 4)), now));
    assert!(!is_expired(Some(Timestamp::new(100, 6)), now));
    assert!(is_expired(Some(Timestamp::new(-5, 999_999_999)), Timestamp::new(-4, 0)));
}

#[test]
fn plus_hours_adds_whole_hours() {
    let t = Timestamp::new(1_000, 42).plus_hours(24);
    assert_eq!(t, Timestamp::new(1_000 + 86_400, 42));
    assert_eq!(Timestamp::new(-3_600, 1).plus_hours(1), Timestamp::new(0, 1));
    assert_eq!(Timestamp::new(7, 7).plus_hours(0), Timestamp::new(7, 7));
}

#[test]
fn the_clock_is_past_the_epoch() {
    let now = Timestamp::now();
    assert!(now.secs > 1_600_000_000);
    assert!(now.nanos < 1_000_000_000);
    let later = Timestamp::now();
    assert!(!later.is_before(&now));
}
