use watson::gate::ConcurrencyGate;
use watson::ratelimit::RateLimiter;

#[test]
fn first_call_never_waits() {
    let mut limiter = RateLimiter::new(500);
    assert_eq!(limiter.wait_for("example.com", 10_000), 0);
}

#[test]
fn zero_delay_disables_limiting() {
    let mut limiter = RateLimiter::new(0);
    assert_eq!(limiter.wait_for("example.com", 10_000), 0);
    assert_eq!(limiter.wait_for("example.com", 10_000), 0);
    assert_eq!(limiter.wait_for("example.com", 10_001), 0);
}

#[test]
fn second_call_within_delay_waits_out_the_remainder() {
    // Two calls for one domain within delay D: the second returns no
    // earlier than D ms after the first returned.
    let d = 500u64;
    let mut limiter = RateLimiter::new(d);
    let t1 = 10_000u64;
    let w1 = limiter.wait_for("example.com", t1);
    assert_eq!(w1, 0);
    let release1 = t1 + w1;
    let t2 = release1 + 120; // within the delay window
    let w2 = limiter.wait_for("example.com", t2);
    assert_eq!(t2 + w2, release1 + d);
}

#[test]
fn call_after_delay_does_not_wait() {
    let mut limiter = RateLimiter::new(500);
    assert_eq!(limiter.wait_for("example.com", 10_000), 0);
    assert_eq!(limiter.wait_for("example.com", 10_500), 0);
    assert_eq!(limiter.wait_for("example.com", 11_200), 0);
}

#[test]
fn distinct_domains_do_not_block_each_other() {
    let mut limiter = RateLimiter::new(500);
    assert_eq!(limiter.wait_for("one.example", 10_000), 0);
    // A different domain dispatched at the same instant waits nothing.
    assert_eq!(limiter.wait_for("two.example", 10_000), 0);
    // And pacing the second domain leaves the first domain's clock alone.
    assert_eq!(limiter.wait_for("one.example", 10_100), 400);
    assert_eq!(limiter.wait_for("two.example", 10_250), 250);
}

#[test]
fn every_call_advances_the_domain_clock() {
    // The recorded stamp is the moment the caller proceeds, so chained
    // calls space out by a full delay each.
    let d = 100u64;
    let mut limiter = RateLimiter::new(d);
    let mut now = 1_000u64;
    let mut last_release = now;
    for step in 0..5 {
        let w = limiter.wait_for("example.com", now);
        let release = now + w;
        if step > 0 {
            assert!(release >= last_release + d);
        }
        last_release = release;
        now = release + 10; // the caller comes back shortly after waking
    }
}

#[test]
fn gate_ceiling_is_never_exceeded() {
    // For several ceilings, permits stop exactly at the ceiling.
    for n in [1usize, 5, 50] {
        let mut gate = ConcurrencyGate::new(n).unwrap();
        let mut in_flight = 0usize;
        for _ in 0..n {
            assert!(gate.try_acquire());
            in_flight += 1;
            assert!(in_flight <= n);
            assert_eq!(gate.in_flight(), in_flight);
        }
        // The ceiling is reached: no further permit.
        assert!(!gate.try_acquire());
        assert_eq!(gate.in_flight(), n);
        // Releasing one frees exactly one slot.
        gate.release();
        assert_eq!(gate.in_flight(), n - 1);
        assert!(gate.try_acquire());
        assert!(!gate.try_acquire());
    }
}

#[test]
fn gate_interleaved_acquire_release_stays_bounded() {
    let n = 5usize;
    let mut gate = ConcurrencyGate::new(n).unwrap();
    let mut held = 0usize;
    for round in 0..100 {
        if round % 3 == 0 && held > 0 {
            gate.release();
            held -= 1;
        } else if gate.try_acquire() {
            held += 1;
        }
        assert!(gate.in_flight() <= n);
        assert_eq!(gate.in_flight(), held);
    }
}

#[test]
fn gate_refuses_out_of_range_ceilings() {
    assert!(ConcurrencyGate::new(0).is_none());
    assert!(ConcurrencyGate::new(101).is_none());
    assert!(ConcurrencyGate::new(1).is_some());
    assert!(ConcurrencyGate::new(100).is_some());
}
