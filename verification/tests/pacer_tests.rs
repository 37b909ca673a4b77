use pacer::Pacer;
use pacer::NANOS_PER_SEC;

#[test]
fn pacer_update() {
    let max_burst: usize = 12000;
    let pacing_rate: u64 = 100_000;

    let now: u64 = 1_000_000_000;

    let mut p = Pacer::new(max_burst, pacing_rate, now);

    // send 6000 (a half of max_burst) -> no timestamp change yet
    p.send(6000, now);

    assert_eq!(p.next_time(), now);

    // send 6000 bytes -> max_burst filled, next time will be updated
    p.send(6000, now);

    let interval = max_burst as u64 * NANOS_PER_SEC / pacing_rate;

    assert_eq!(p.next_time() - now, interval);

    let now = now + 1_000_000; // 1 ms later

    // send 1000 bytes -> new burst started
    p.send(1000, now);

    assert_eq!(p.next_time(), now);
}

#[test]
fn pacer_idle() {
    // same as pacer_update() but insert some idleness
    // between two transfer, causing resetting
    let max_burst: usize = 12000;
    let pacing_rate: u64 = 100_000;

    let now: u64 = 1_000_000_000;

    let mut p = Pacer::new(max_burst, pacing_rate, now);

    // send 6000 (a half of max_burst) -> no timestamp change yet
    p.send(6000, now);

    assert_eq!(p.next_time(), now);

    // sleep 200ms to reset the idle pacer (at least 120ms).
    let now = now + 200_000_000;

    // send 6000 bytes -> idle reset and a new burst started
    p.send(6000, now);

    assert_eq!(p.next_time(), now);
}

#[test]
fn pacer_rate_zero_disables_pacing() {
    // rate 0 is the "pacing disabled" sentinel: no wait, however much is sent
    let now: u64 = 5_000;
    let mut p = Pacer::new(12000, 0, now);

    p.send(1_000_000, now + 10);
    assert_eq!(p.next_time(), now + 10);

    p.send(1_000_000, now + 10);
    assert_eq!(p.next_time(), now + 10);
}

#[test]
fn pacer_zero_bytes_is_noop() {
    // sent_bytes == 0 performs no burst accounting
    let now: u64 = 5_000;
    let mut p = Pacer::new(12000, 100_000, now);

    p.send(0, now + 7);
    assert_eq!(p.next_time(), now + 7);

    // the zero-byte send counted nothing: a full burst still fits
    p.send(12000, now + 7);
    assert_eq!(p.next_time(), now + 7 + 120_000_000);
}

#[test]
fn pacer_clock_behind_clamps() {
    // a `now` earlier than the last update saturates: next_time never
    // falls behind the later of the two timestamps
    let now: u64 = 1_000_000;
    let mut p = Pacer::new(12000, 0, now);

    p.send(100, now - 500);
    assert_eq!(p.next_time(), now);
}

#[test]
fn pacer_exact_burst_boundary() {
    // a burst summing exactly to the capacity ends the window exactly one
    // interval (capacity/rate) later
    let now: u64 = 42;
    let mut p = Pacer::new(12000, 100_000, now);

    p.send(12000, now);
    assert_eq!(p.next_time(), now + 120_000_000);
}

#[test]
fn pacer_carries_rollover_remainder() {
    // overshooting the capacity carries the remainder into the next window
    // instead of zeroing it
    let now: u64 = 42;
    let mut p = Pacer::new(12000, 100_000, now);

    // 13000 = 12000 + 1000: rollover with 1000 bytes carried forward
    p.send(13000, now);
    assert_eq!(p.next_time(), now + 120_000_000);

    // 1000 carried + 11000 = 12000: the carried debt fills this window too
    p.send(11000, now);
    assert_eq!(p.next_time(), now + 120_000_000);
}

#[test]
fn pacer_elapsed_equal_interval_is_not_stale() {
    // the staleness test is strict: an idle gap of exactly one interval does
    // not reset the window, so the earlier 6000 bytes still count
    let now: u64 = 1_000_000_000;
    let mut p = Pacer::new(12000, 100_000, now);

    p.send(6000, now);
    let later = now + 120_000_000; // exactly capacity/rate
    p.send(6000, later);
    assert_eq!(p.next_time(), later + 120_000_000);
}

#[test]
fn pacer_elapsed_just_over_interval_is_stale() {
    // one nanosecond beyond the interval, the window is stale and resets
    let now: u64 = 1_000_000_000;
    let mut p = Pacer::new(12000, 100_000, now);

    p.send(6000, now);
    let later = now + 120_000_001;
    p.send(6000, later);
    assert_eq!(p.next_time(), later);
}

#[test]
fn pacer_update_resets_accounting() {
    // reconfiguring discards the burst accounting but keeps an
    // already-promised future send time
    let now: u64 = 1_000_000_000;
    let mut p = Pacer::new(12000, 100_000, now);

    p.send(12000, now);
    assert_eq!(p.next_time(), now + 120_000_000);

    p.update(12000, 100_000, now);
    assert_eq!(p.next_time(), now + 120_000_000);

    // the old window's bytes are gone: a fresh half burst sends immediately
    p.send(6000, now);
    assert_eq!(p.next_time(), now);
}

#[test]
fn pacer_reset_keeps_future_promise() {
    let now: u64 = 1_000_000_000;
    let mut p = Pacer::new(12000, 100_000, now);

    p.send(12000, now);
    let promised = p.next_time();
    assert_eq!(promised, now + 120_000_000);

    // resetting earlier than the promise keeps the promise...
    p.reset(now + 5);
    assert_eq!(p.next_time(), promised);

    // ...and resetting later advances to the reset's own now
    p.reset(promised + 30);
    assert_eq!(p.next_time(), promised + 30);
}

#[test]
fn pacer_far_future_saturates() {
    // a drain interval beyond the u64 range clamps at u64::MAX instead of
    // overflowing
    let now: u64 = 9;
    let mut p = Pacer::new(usize::MAX, 1, now);

    p.send(usize::MAX, now);
    assert_eq!(p.next_time(), u64::MAX);
}

#[test]
fn pacer_can_send_guards_counter_overflow() {
    let now: u64 = 100;
    let mut p = Pacer::new(usize::MAX, 2, now);

    p.send(usize::MAX - 1, now);

    // one more byte still fits the counter, two would overflow it
    assert!(p.can_send(1, now));
    assert!(!p.can_send(2, now));

    // zero bytes never touch the counter
    assert!(p.can_send(0, now));

    // a stale window will be reset first, so the counter restarts from zero
    // and even the largest send fits again (interval here is 10 ns)
    let mut q = Pacer::new(10, 1_000_000_000, now);
    q.send(5, now);
    assert!(!q.can_send(usize::MAX, now));
    assert!(q.can_send(usize::MAX, now + 11));
}

#[test]
fn pacer_slow_rate_exact_interval() {
    // 3 bytes/sec over a 10-byte burst: 10 * NANOS_PER_SEC / 3 nanoseconds,
    // rounded down
    let now: u64 = 1_000;
    let mut p = Pacer::new(10, 3, now);

    p.send(10, now);
    assert_eq!(p.next_time(), now + 10 * NANOS_PER_SEC / 3);
    assert_eq!(p.next_time(), now + 3_333_333_333);
}
