//! The timing rules: how long to wait before the next attempt.

use vstd::prelude::*;

verus! {

/// How long one probe attempt may wait for the gateway's answer.
pub const ATTEMPT_TIMEOUT: u64 = 1;

/// How many times one protocol is tried in a round before it counts as failed.
pub const MAX_ATTEMPTS: u8 = 3;

/// The lease that is asked for.
pub const REQUESTED_LEASE: u64 = 7200;

/// How long after a network change probing starts again.
pub const DEBOUNCE: u64 = 2;

/// The wait after the first failed round.
pub const BACKOFF_BASE: u64 = 1;

/// The longest wait between two rounds.
pub const BACKOFF_CAP: u64 = 60;

/// After this many failed rounds in a row no further round is scheduled.
pub const MAX_ROUNDS: u32 = 8;

/// `base` doubled `times` times.
pub open spec fn doubled(base: nat, times: nat) -> nat
    decreases times,
{
    if times == 0 {
        base
    } else {
        2 * doubled(base, (times - 1) as nat)
    }
}

/// The wait before the next round when `failed` rounds have failed before the
/// one that just did: `BACKOFF_BASE`, doubled for each of them, and never more
/// than `BACKOFF_CAP`.
pub open spec fn backoff(failed: nat) -> nat {
    if doubled(BACKOFF_BASE as nat, failed) < BACKOFF_CAP {
        doubled(BACKOFF_BASE as nat, failed)
    } else {
        BACKOFF_CAP as nat
    }
}

/// `when` later than `now`, or the last time that can be written down.
pub open spec fn later(now: u64, when: u64) -> u64 {
    if now + when > u64::MAX {
        u64::MAX
    } else {
        (now + when) as u64
    }
}

/// Doubling more often never gives less.
pub proof fn lemma_doubled_grows(base: nat, fewer: nat, more: nat)
    requires
        fewer <= more,
    ensures
        doubled(base, fewer) <= doubled(base, more),
    decreases more,
{
    if fewer < more {
        lemma_doubled_grows(base, fewer, (more - 1) as nat);
    }
}

/// The wait never shrinks as failures accumulate, is never shorter than
/// `BACKOFF_BASE` and never longer than `BACKOFF_CAP`.
pub proof fn lemma_backoff_bounded(fewer: nat, more: nat)
    requires
        fewer <= more,
    ensures
        BACKOFF_BASE <= backoff(fewer) <= backoff(more) <= BACKOFF_CAP,
{
    lemma_doubled_grows(BACKOFF_BASE as nat, 0, fewer);
    lemma_doubled_grows(BACKOFF_BASE as nat, fewer, more);
}

/// From the sixth failure in a row on, the wait is `BACKOFF_CAP`.
pub proof fn lemma_backoff_reaches_cap(failed: nat)
    requires
        failed >= 6,
    ensures
        backoff(failed) == BACKOFF_CAP,
{
    assert(doubled(BACKOFF_BASE as nat, 6) == 64) by {
        reveal_with_fuel(doubled, 7);
    }
    lemma_doubled_grows(BACKOFF_BASE as nat, 6, failed);
}

/// The wait before the next round when `failed` rounds have failed before the
/// one that just did.
pub fn backoff_delay(failed: u32) -> (d: u64)
    ensures
        d == backoff(failed as nat),
{
    let mut d: u64 = BACKOFF_BASE;
    let mut i: u32 = 0;
    while i < failed && d < BACKOFF_CAP
        invariant
            i <= failed,
            d == doubled(BACKOFF_BASE as nat, i as nat),
            d < 2 * BACKOFF_CAP,
        decreases failed - i,
    {
        d = d * 2;
        i += 1;
    }
    proof {
        lemma_doubled_grows(BACKOFF_BASE as nat, i as nat, failed as nat);
    }
    if d < BACKOFF_CAP {
        d
    } else {
        BACKOFF_CAP
    }
}

/// The time `delay` after `now`, or the last time that can be written down
/// where that would lie beyond it.
pub fn deadline_after(now: u64, delay: u64) -> (t: u64)
    ensures
        t == later(now, delay),
        t >= now,
{
    now.saturating_add(delay)
}

} // verus!
