use db2_exporter::config::ConfigError;
use db2_exporter::rate_limiter::{Permit, RateLimiter, WINDOW_MILLIS};

#[test]
fn test_rate_limiter_initial_state() {
    let limiter = RateLimiter::new(60, 0).unwrap();
    assert_eq!(limiter.requests_per_minute(), 60);
    assert_eq!(limiter.requests_made(), 0);
}

#[test]
fn test_rate_limiter_counting() {
    let mut limiter = RateLimiter::new(60, 0).unwrap();
    assert_eq!(limiter.wait(10), Permit::Granted);
    assert_eq!(limiter.requests_made(), 1);
}

#[test]
fn zero_ceiling_is_refused() {
    assert_eq!(RateLimiter::new(0, 0).unwrap_err(), ConfigError::ZeroRequestsPerMinute);
}

#[test]
fn request_after_the_ceiling_waits_for_the_rest_of_the_window() {
    let mut limiter = RateLimiter::new(3, 1_000).unwrap();
    assert_eq!(limiter.wait(1_000), Permit::Granted);
    assert_eq!(limiter.wait(1_001), Permit::Granted);
    assert_eq!(limiter.wait(20_000), Permit::Granted);
    assert_eq!(limiter.requests_made(), 3);
    assert_eq!(limiter.wait(20_500), Permit::WaitFor { millis: 40_500 });
    assert_eq!(limiter.requests_made(), 3);
    assert_eq!(limiter.window_start(), 1_000);
    assert_eq!(limiter.wait(60_999), Permit::WaitFor { millis: 1 });
    assert_eq!(limiter.wait(61_000), Permit::Granted);
    assert_eq!(limiter.requests_made(), 1);
    assert_eq!(limiter.window_start(), 61_000);
}

#[test]
fn window_that_is_over_starts_anew() {
    let mut limiter = RateLimiter::new(5, 0).unwrap();
    assert_eq!(limiter.wait(100), Permit::Granted);
    assert_eq!(limiter.wait(200), Permit::Granted);
    assert_eq!(limiter.wait(WINDOW_MILLIS), Permit::Granted);
    assert_eq!(limiter.window_start(), 60_000);
    assert_eq!(limiter.requests_made(), 1);
    assert_eq!(limiter.wait(119_999), Permit::Granted);
    assert_eq!(limiter.requests_made(), 2);
    assert_eq!(limiter.window_start(), 60_000);
}

#[test]
fn clock_reading_before_the_window_counts_as_no_time_gone() {
    let mut limiter = RateLimiter::new(1, 500).unwrap();
    assert_eq!(limiter.wait(400), Permit::Granted);
    assert_eq!(limiter.wait(300), Permit::WaitFor { millis: 60_000 });
}

#[test]
fn no_window_admits_more_than_the_ceiling() {
    let ceiling = 4;
    let mut limiter = RateLimiter::new(ceiling, 0).unwrap();
    let mut now = 0;
    let mut counted: Vec<(u64, u32)> = Vec::new();
    for step in 0..500u64 {
        now += (step * 7919) % 9_000;
        if limiter.wait(now) == Permit::Granted {
            let window = limiter.window_start();
            assert!(window <= now && now < window + WINDOW_MILLIS);
            match counted.last_mut() {
                Some((start, n)) if *start == window => *n += 1,
                _ => counted.push((window, 1)),
            }
        }
    }
    assert!(counted.len() > 10);
    assert!(counted.iter().all(|(_, n)| *n <= ceiling));
    assert!(counted.iter().any(|(_, n)| *n == ceiling));
}
