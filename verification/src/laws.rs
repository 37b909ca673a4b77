//! General laws of the pacer's transition functions.
//!
//! Each public proof function here states one property of the pacer that
//! holds of all inputs its `requires` admits, over the same spec functions
//! that the methods of [`crate::Pacer`] use in their contracts.

use vstd::prelude::*;

use crate::PacerView;
use crate::clamp_time;
use crate::interval_ns;
use crate::nat_max;
use crate::spec_new;
use crate::spec_reset;
use crate::spec_send;
use crate::spec_update;
use crate::wf;

verus! {

/// A send never schedules the next transmission earlier than the caller's
/// own clock reading: whatever the prior state, the permitted time after
/// `send(sent, now)` is at least `now`.
pub proof fn lemma_send_never_early(p: PacerView, sent: nat, now: nat)
    ensures
        spec_send(p, sent, now).next_time >= now,
{
}

/// The permitted send time never decreases across a `send` whose caller
/// waited for permission: if the send happens no earlier than the currently
/// promised time, the new promise is no earlier than the old one.  Together
/// with [`lemma_reset_monotone`] and [`lemma_update_monotone`] this makes
/// `next_time` non-decreasing across any sequence of calls in which each
/// `send` waits out the promise.  (Without that condition the promise may move
/// back towards `now`: a send within a fresh burst right after a rollover is
/// permitted at its own `now`, even though the rollover had promised a later
/// time.)
pub proof fn lemma_send_monotone(p: PacerView, sent: nat, now: nat)
    requires
        now >= p.next_time,
    ensures
        spec_send(p, sent, now).next_time >= p.next_time,
{
}

/// A reset never moves the promised send time backwards.
pub proof fn lemma_reset_monotone(p: PacerView, now: nat)
    ensures
        spec_reset(p, now).next_time >= p.next_time,
        spec_reset(p, now).next_time >= now,
{
}

/// A reconfiguration never moves the promised send time backwards.
pub proof fn lemma_update_monotone(p: PacerView, capacity: nat, rate: nat, now: nat)
    ensures
        spec_update(p, capacity, rate, now).next_time >= p.next_time,
        spec_update(p, capacity, rate, now).next_time >= now,
{
}

/// A burst that consumes the capacity exactly ends the window precisely one
/// drain interval after its start: when the bytes sent in the current window
/// (`p.used` so far plus `sent` now) total exactly the capacity, the next
/// permitted time is `now + capacity * NANOS_PER_SEC / rate`, clamped only
/// at the far end of the `u64` range.
pub proof fn lemma_exact_burst(p: PacerView, sent: nat, now: nat)
    requires
        wf(p),
        p.rate > 0,
        sent > 0,
        p.last_update == now,
        p.used + sent == p.capacity,
    ensures
        spec_send(p, sent, now).next_time == clamp_time(
            (now + interval_ns(p.capacity, p.rate)) as nat,
        ),
        now + interval_ns(p.capacity, p.rate) <= u64::MAX ==> spec_send(p, sent, now).next_time
            == now + interval_ns(p.capacity, p.rate),
{
}

/// From a fresh pacer, one send of exactly the whole capacity schedules the
/// next permitted time exactly one drain interval after the creation time.
pub proof fn lemma_fresh_exact_burst(capacity: nat, rate: nat, now: nat)
    requires
        0 < capacity <= usize::MAX,
        0 < rate <= u64::MAX,
        now <= u64::MAX,
    ensures
        spec_send(spec_new(capacity, rate, now), capacity, now).next_time == clamp_time(
            (now + interval_ns(capacity, rate)) as nat,
        ),
{
    lemma_exact_burst(spec_new(capacity, rate, now), capacity, now);
}

/// Sending less than the capacity within one window never gates the sender:
/// while the window is not stale and the bytes sent in it stay strictly
/// below the capacity, the permitted time after a send is the send's own
/// `now`, no later.
pub proof fn lemma_within_burst_immediate(p: PacerView, sent: nat, now: nat)
    requires
        wf(p),
        p.rate > 0,
        p.last_update <= now,
        now - p.last_update <= interval_ns(p.capacity, p.rate),
        p.used + sent < p.capacity,
    ensures
        spec_send(p, sent, now).next_time == now,
{
}

/// A pacer left idle for longer than one drain interval behaves, on the next
/// real send, exactly as a pacer freshly created at that send's `now`: no
/// bytes counted under the old window carry forward, and the resulting state
/// is identical in every field.
pub proof fn lemma_idle_like_fresh(p: PacerView, sent: nat, now: nat)
    requires
        p.rate > 0,
        sent > 0,
        now >= p.last_update,
        now - p.last_update > interval_ns(p.capacity, p.rate),
    ensures
        spec_send(p, sent, now) == spec_send(spec_new(p.capacity, p.rate, now), sent, now),
{
    assert(spec_send(p, sent, now) =~= spec_send(spec_new(p.capacity, p.rate, now), sent, now));
}

/// With pacing disabled (`rate == 0`) or nothing sent, a send does no burst
/// accounting at all: both timestamps move to `max(last_update, now)` and
/// the capacity, rate and byte count are untouched.
pub proof fn lemma_disabled_passthrough(p: PacerView, sent: nat, now: nat)
    requires
        p.rate == 0 || sent == 0,
    ensures
        spec_send(p, sent, now).next_time == nat_max(p.last_update, now),
        spec_send(p, sent, now).last_update == nat_max(p.last_update, now),
        spec_send(p, sent, now).used == p.used,
        spec_send(p, sent, now).capacity == p.capacity,
        spec_send(p, sent, now).rate == p.rate,
{
}

} // verus!
