use eth_sweeper::clock::get_nstime;
use eth_sweeper::clock::mix_timestamp;
use eth_sweeper::limiter::RateLimiter;

#[test]
fn fresh_gate_admits_the_first_cycle() {
    let gate = RateLimiter::new(1730);
    assert!(gate.may_start(0));
    assert!(gate.may_start(u64::MAX));
}

#[test]
fn gate_stays_shut_until_the_cooldown_has_elapsed() {
    let mut gate = RateLimiter::new(1730);
    gate.begin(1000);
    assert!(!gate.may_start(1000));
    assert!(!gate.may_start(2729));
    assert!(gate.may_start(2730));
    assert!(gate.may_start(9999));
}

#[test]
fn each_start_rebases_the_cooldown() {
    let mut gate = RateLimiter::new(10);
    gate.begin(0);
    assert!(gate.may_start(10));
    gate.begin(10);
    assert!(!gate.may_start(19));
    assert!(gate.may_start(20));
}

#[test]
fn zero_cooldown_never_blocks() {
    let mut gate = RateLimiter::new(0);
    gate.begin(5);
    assert!(gate.may_start(5));
}

#[test]
fn clock_skew_backwards_keeps_the_gate_shut() {
    let mut gate = RateLimiter::new(10);
    gate.begin(100);
    assert!(!gate.may_start(95));
}

#[test]
fn timestamp_packs_seconds_above_nanoseconds() {
    assert_eq!(mix_timestamp(0, 0), 0);
    assert_eq!(mix_timestamp(0, 999_999_999), 999_999_999);
    assert_eq!(mix_timestamp(1, 1), (1u64 << 30) | 1);
    assert_eq!(mix_timestamp(2, 999_999_999), (2u64 << 30) | 999_999_999);
}

#[test]
fn timestamp_keeps_the_nanosecond_remainder_recoverable() {
    let packed = mix_timestamp(123_456, 987_654_321);
    assert_eq!(packed & 0x3FFF_FFFF, 987_654_321);
}

#[test]
fn host_clock_reads_after_the_epoch() {
    assert!(get_nstime() > 0);
}
