use url_shortener::api::{RateLimiterState, RateWindowEntry};
use url_shortener::error::ErrorKind;
use url_shortener::time::Timestamp;

fn at(seconds: i64) -> Timestamp {
    Timestamp::new(seconds, 0)
}

#[test]
fn rate_limiter_window_reset() {
    let mut limiter = RateLimiterState::new(3, 60);
    assert!(limiter.check_at("K", at(0)).is_ok());
    assert!(limiter.check_at("K", at(0)).is_ok());
    assert!(limiter.check_at("K", at(0)).is_ok());
    match limiter.check_at("K", at(0)) {
        Err(e) => {
            assert_eq!(e.kind(), ErrorKind::RateLimited);
            assert_eq!(e.status_code(), 429);
            assert_eq!(e.message(), "Too many requests");
        }
        Ok(()) => panic!("the fourth call must be rejected"),
    }
    assert_eq!(limiter.entry("K"), Some(RateWindowEntry { count: 3, window_start: at(0) }));
    assert!(limiter.check_at("K", at(60)).is_err());
    assert!(limiter.check_at("K", at(61)).is_ok());
    assert_eq!(limiter.entry("K"), Some(RateWindowEntry { count: 1, window_start: at(61) }));
}

#[test]
fn rate_limiter_window_is_exclusive_at_its_end() {
    let mut limiter = RateLimiterState::new(1, 60);
    assert!(limiter.check_at("K", Timestamp::new(5, 100)).is_ok());
    assert!(limiter.check_at("K", Timestamp::new(65, 100)).is_err());
    assert!(limiter.check_at("K", Timestamp::new(65, 101)).is_ok());
    assert!(limiter.check_at("K", Timestamp::new(4, 0)).is_err());
}

#[test]
fn rate_limiter_isolation() {
    let mut limiter = RateLimiterState::new(2, 60);
    assert!(limiter.check_at("K1", at(0)).is_ok());
    assert!(limiter.check_at("K1", at(1)).is_ok());
    assert!(limiter.check_at("K1", at(2)).is_err());
    assert_eq!(limiter.entry("K2"), None);
    assert!(limiter.check_at("K2", at(2)).is_ok());
    assert!(limiter.check_at("K2", at(3)).is_ok());
    assert!(limiter.check_at("K2", at(3)).is_err());
    assert_eq!(limiter.entry("K1"), Some(RateWindowEntry { count: 2, window_start: at(0) }));
}

#[test]
fn rate_limiter_first_request_is_always_allowed() {
    let mut limiter = RateLimiterState::new(0, 60);
    assert!(limiter.check_at("K", at(0)).is_ok());
    assert!(limiter.check_at("K", at(1)).is_err());
    assert_eq!(limiter.max_requests(), 0);
    assert_eq!(limiter.window_seconds(), 60);
}

#[test]
fn rate_limiter_cleanup_drops_finished_windows() {
    let mut limiter = RateLimiterState::new(5, 60);
    assert!(limiter.check_at("old", at(0)).is_ok());
    assert!(limiter.check_at("edge", at(40)).is_ok());
    assert!(limiter.check_at("new", at(90)).is_ok());
    limiter.cleanup_at(at(100));
    assert_eq!(limiter.entry("old"), None);
    assert_eq!(limiter.entry("edge"), Some(RateWindowEntry { count: 1, window_start: at(40) }));
    assert_eq!(limiter.entry("new"), Some(RateWindowEntry { count: 1, window_start: at(90) }));
    limiter.cleanup_at(at(101));
    assert_eq!(limiter.entry("edge"), None);
    assert!(limiter.check_at("old", at(101)).is_ok());
    assert_eq!(limiter.entry("old"), Some(RateWindowEntry { count: 1, window_start: at(101) }));
}

#[test]
fn rate_limiter_with_its_own_clock() {
    let mut limiter = RateLimiterState::new(2, 3600);
    assert!(limiter.check("client").is_ok());
    assert!(limiter.check("client").is_ok());
    assert!(limiter.check("client").is_err());
    limiter.cleanup();
    assert!(limiter.entry("client").is_some());
}
