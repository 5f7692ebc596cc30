use pairscore::limiter::RateLimiter;

#[test]
fn fresh_limiter_needs_no_delay() {
    let limiter = RateLimiter::new(1000);
    assert_eq!(limiter.required_delay(0), 0);
    assert_eq!(limiter.required_delay(5000), 0);
}

#[test]
fn delay_counts_down_to_the_next_allowed_start() {
    let mut limiter = RateLimiter::new(1000);
    limiter.record_start(0);
    assert_eq!(limiter.next_allowed_ms, 1000);
    assert_eq!(limiter.required_delay(0), 1000);
    assert_eq!(limiter.required_delay(400), 600);
    assert_eq!(limiter.required_delay(1000), 0);
    assert_eq!(limiter.required_delay(1500), 0);
}

#[test]
fn successive_starts_are_spaced() {
    let mut limiter = RateLimiter::new(1000);
    let mut now: u64 = 123;
    let mut starts = Vec::new();
    for _ in 0..5 {
        now += limiter.required_delay(now);
        limiter.record_start(now);
        starts.push(now);
        now += 3; // work between uploads
    }
    for w in starts.windows(2) {
        assert!(w[1] - w[0] >= 1000);
    }
}

#[test]
fn late_caller_waits_nothing_extra() {
    let mut limiter = RateLimiter::new(1000);
    limiter.record_start(100);
    // The caller shows up long after the interval has passed.
    assert_eq!(limiter.required_delay(10_000), 0);
    limiter.record_start(10_000);
    assert_eq!(limiter.next_allowed_ms, 11_000);
}
