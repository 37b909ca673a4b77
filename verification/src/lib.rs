//! A send pacer for a transport-protocol sender (RFC 9002 §7.7 pacing).
//!
//! The pacer smooths outgoing traffic to a configured rate instead of letting
//! it leave in one uncontrolled burst.  It tracks a burst budget of `capacity`
//! bytes that conceptually refills at `rate` bytes per second: callers report
//! each transmission with `send(sent_bytes, now)` and read back, through
//! `next_time()`, the earliest timestamp at which the next packet may leave.
//!
//! Timestamps are nanosecond readings of a monotonic clock, supplied by the
//! caller as plain `u64` values; the pacer itself never reads a clock.  All
//! time arithmetic saturates at `u64::MAX`, so no input can make a method
//! panic or move a timestamp backwards past the caller's own clock reading.
//!
//! Every method's effect is stated against a mathematical transition function
//! (`spec_send`, `spec_reset`, ...) over the ghost view `PacerView`; the
//! general laws that relate those transitions are proved in [`laws`].

use vstd::prelude::*;

pub mod laws;

verus! {

/// Timestamps and intervals are measured in nanoseconds.
pub const NANOS_PER_SEC: u64 = 1_000_000_000;

/// Mathematical state of a pacer: the same five fields as [`Pacer`], as
/// unbounded naturals.
#[verifier::ext_equal]
pub ghost struct PacerView {
    /// Bucket capacity (bytes): the largest burst sent without a wait.
    pub capacity: nat,
    /// Bytes consumed from the current burst window.
    pub used: nat,
    /// Pacing rate (bytes/sec); `0` disables pacing.
    pub rate: nat,
    /// Start of the current accounting window (ns).
    pub last_update: nat,
    /// Earliest permitted send time (ns).
    pub next_time: nat,
}

/// The larger of two naturals.
pub open spec fn nat_max(a: nat, b: nat) -> nat {
    if a >= b {
        a
    } else {
        b
    }
}

/// A timestamp clamped to the range of `u64`.
pub open spec fn clamp_time(t: nat) -> nat {
    if t > u64::MAX {
        u64::MAX as nat
    } else {
        t
    }
}

/// Time (ns) to drain one full burst of `capacity` bytes at `rate` bytes/sec.
pub open spec fn interval_ns(capacity: nat, rate: nat) -> nat
    recommends
        rate > 0,
{
    capacity * (NANOS_PER_SEC as nat) / rate
}

/// Time since the start of the accounting window, saturating at zero when the
/// caller's clock reads earlier than the window start.
pub open spec fn spec_elapsed(p: PacerView, now: nat) -> nat {
    if now >= p.last_update {
        (now - p.last_update) as nat
    } else {
        0
    }
}

/// The pacer has sat idle for strictly longer than one full burst interval,
/// so its window accounting is out of date.
pub open spec fn is_stale(p: PacerView, now: nat) -> bool {
    spec_elapsed(p, now) > interval_ns(p.capacity, p.rate)
}

/// Well-formedness: the fields fit their machine representations and the
/// window start never lies beyond the promised send time.
pub open spec fn wf(p: PacerView) -> bool {
    &&& p.capacity <= usize::MAX
    &&& p.used <= usize::MAX
    &&& p.rate <= u64::MAX
    &&& p.last_update <= u64::MAX
    &&& p.next_time <= u64::MAX
    &&& p.last_update <= p.next_time
}

/// State of a freshly created pacer: nothing consumed, both timestamps at the
/// creation instant.
pub open spec fn spec_new(capacity: nat, rate: nat, now: nat) -> PacerView {
    PacerView { capacity, used: 0, rate, last_update: now, next_time: now }
}

/// Effect of a reset: the burst accounting is discarded and a new window
/// starts at `now`, but an already-promised future send time is kept.
pub open spec fn spec_reset(p: PacerView, now: nat) -> PacerView {
    PacerView { used: 0, last_update: now, next_time: nat_max(p.next_time, now), ..p }
}

/// Effect of a reconfiguration: new capacity and rate, then a full reset.
pub open spec fn spec_update(p: PacerView, capacity: nat, rate: nat, now: nat) -> PacerView {
    spec_reset(PacerView { capacity, rate, ..p }, now)
}

/// Effect of reporting a transmission of `sent` bytes at time `now`.
///
/// With pacing disabled (`rate == 0`) or nothing sent, both timestamps move
/// to `max(last_update, now)` and no byte accounting happens.  Otherwise a
/// stale window is first reset; the bytes are added to `used`; and if the
/// burst capacity is reached the window rolls over: the remainder above
/// `capacity` is carried forward and the next send is scheduled one drain
/// interval after `now`.  A send within the burst is permitted immediately.
/// In every case the resulting `next_time` is at least `now`.
pub open spec fn spec_send(p: PacerView, sent: nat, now: nat) -> PacerView {
    if p.rate == 0 || sent == 0 {
        let t = nat_max(p.last_update, now);
        PacerView { last_update: t, next_time: t, ..p }
    } else {
        let interval = interval_ns(p.capacity, p.rate);
        let q = if is_stale(p, now) {
            spec_reset(p, now)
        } else {
            p
        };
        let filled: nat = q.used + sent;
        if filled >= p.capacity {
            PacerView {
                used: (filled - p.capacity) as nat,
                last_update: now,
                next_time: nat_max(clamp_time(now + interval), now),
                ..q
            }
        } else {
            PacerView { used: filled, next_time: nat_max(q.last_update, now), ..q }
        }
    }
}

/// The byte counter stays within `usize` when `sent` bytes are reported at
/// time `now`: the machine-limit precondition of [`Pacer::send`].
pub open spec fn send_fits(p: PacerView, sent: nat, now: nat) -> bool {
    p.rate == 0 || sent == 0 || {
        let base: nat = if is_stale(p, now) {
            0
        } else {
            p.used
        };
        base + sent <= usize::MAX
    }
}

/// Schedules transmissions so that bursts of at most `capacity` bytes leave
/// at most once per drain interval `capacity / rate`.
#[derive(Debug)]
pub struct Pacer {
    // Bucket capacity (bytes).
    capacity: usize,
    // Bucket used (bytes).
    used: usize,
    // Sending pacing rate (bytes/sec).
    rate: u64,
    // Timestamp (ns) of the last packet-sent-time update.
    last_update: u64,
    // Timestamp (ns) of the next packet to be sent.
    next_time: u64,
}

impl View for Pacer {
    type V = PacerView;

    closed spec fn view(&self) -> PacerView {
        PacerView {
            capacity: self.capacity as nat,
            used: self.used as nat,
            rate: self.rate as nat,
            last_update: self.last_update as nat,
            next_time: self.next_time as nat,
        }
    }
}

impl Pacer {
    /// Creates a pacer with the given burst capacity (bytes) and pacing rate
    /// (bytes/sec) at the caller's current clock reading `now` (ns).
    ///
    /// Degenerate inputs (`capacity == 0`, `rate == 0`) are legal and make
    /// the pacer permit every send immediately.
    pub fn new(capacity: usize, rate: u64, now: u64) -> (p: Pacer)
        ensures
            p@ == spec_new(capacity as nat, rate as nat, now as nat),
            wf(p@),
    {
        Pacer { capacity, used: 0, rate, last_update: now, next_time: now }
    }

    /// Replaces the bucket capacity and pacing rate, then resets the burst
    /// accounting: figures gathered under the old configuration are not
    /// meaningful under the new one.
    pub fn update(&mut self, capacity: usize, rate: u64, now: u64)
        ensures
            final(self)@ == spec_update(
                old(self)@,
                capacity as nat,
                rate as nat,
                now as nat,
            ),
            final(self)@.next_time >= now,
            wf(final(self)@),
    {
        self.capacity = capacity;
        self.rate = rate;
        self.reset(now);
    }

    /// Resets the pacer for the next burst: clears the byte count, starts a
    /// new accounting window at `now`, and keeps any already-promised future
    /// send time (never schedules earlier than `now`).
    pub fn reset(&mut self, now: u64)
        ensures
            final(self)@ == spec_reset(old(self)@, now as nat),
            final(self)@.next_time >= now,
            wf(final(self)@),
    {
        self.used = 0;
        self.last_update = now;
        if self.next_time < now {
            self.next_time = now;
        }
    }

    /// Reports that `sent_bytes` were just transmitted at time `now` (ns) and
    /// recomputes the earliest permitted time of the next send.
    ///
    /// The precondition only keeps the byte counter within `usize`; every
    /// combination of degenerate inputs (`rate == 0`, `sent_bytes == 0`,
    /// `now` behind the window start) is accepted.  [`Pacer::can_send`]
    /// decides the precondition at run time for unverified callers.
    pub fn send(&mut self, sent_bytes: usize, now: u64)
        requires
            send_fits(old(self)@, sent_bytes as nat, now as nat),
        ensures
            final(self)@ == spec_send(old(self)@, sent_bytes as nat, now as nat),
            final(self)@.next_time >= now,
            wf(final(self)@),
    {
        if self.rate == 0 || sent_bytes == 0 {
            let t: u64 = if self.last_update >= now {
                self.last_update
            } else {
                now
            };
            self.next_time = t;
            self.last_update = t;
            return;
        }
        assert(self.capacity as u128 * NANOS_PER_SEC as u128 <= u64::MAX as u128
            * NANOS_PER_SEC as u128) by (nonlinear_arith)
            requires
                self.capacity as u128 <= u64::MAX as u128,
        ;
        let interval: u128 = (self.capacity as u128) * (NANOS_PER_SEC as u128)
            / (self.rate as u128);
        let elapsed: u64 = if now >= self.last_update {
            now - self.last_update
        } else {
            0
        };
        if (elapsed as u128) > interval {
            self.reset(now);
        }
        self.used = self.used + sent_bytes;
        let offset: u128 = if self.used >= self.capacity {
            self.used = self.used - self.capacity;
            self.last_update = now;
            interval
        } else {
            0
        };
        let scheduled: u128 = (self.last_update as u128) + offset;
        let mut next: u64 = if scheduled > (u64::MAX as u128) {
            u64::MAX
        } else {
            scheduled as u64
        };
        if next < now {
            next = now;
        }
        self.next_time = next;
    }

    /// Returns the earliest timestamp (ns) at which the next packet may be
    /// sent, as computed by the most recent `new`/`update`/`reset`/`send`.
    pub fn next_time(&self) -> (t: u64)
        ensures
            t == self@.next_time,
    {
        self.next_time
    }

    /// Decides at run time whether `send(sent_bytes, now)` stays within the
    /// byte counter's machine limit, so that unverified callers can test the
    /// precondition of [`Pacer::send`] before calling it.
    pub fn can_send(&self, sent_bytes: usize, now: u64) -> (ok: bool)
        ensures
            ok == send_fits(self@, sent_bytes as nat, now as nat),
    {
        if self.rate == 0 || sent_bytes == 0 {
            return true;
        }
        assert(self.capacity as u128 * NANOS_PER_SEC as u128 <= u64::MAX as u128
            * NANOS_PER_SEC as u128) by (nonlinear_arith)
            requires
                self.capacity as u128 <= u64::MAX as u128,
        ;
        let interval: u128 = (self.capacity as u128) * (NANOS_PER_SEC as u128)
            / (self.rate as u128);
        let elapsed: u64 = if now >= self.last_update {
            now - self.last_update
        } else {
            0
        };
        let base: usize = if (elapsed as u128) > interval {
            0
        } else {
            self.used
        };
        sent_bytes <= usize::MAX - base
    }
}

} // verus!
