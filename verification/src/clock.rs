//! Time as the animations see it: spans of time in nanoseconds, and the
//! engine's repeating timer.
//!
//! Everything here is a statement about code outside this library that is
//! taken on trust: the standard library's `Duration` and the timer of
//! `bevy::time`. The timer itself is never kept: each function below makes
//! one of a given duration that has counted a given time, lets the engine
//! work on it, and hands back what the engine made of it.

use bevy::time::{Timer, TimerMode};
use std::time::Duration;
use vstd::prelude::*;

verus! {

/// The whole nanoseconds in a span of time: what `Duration::as_nanos`
/// returns.
pub uninterp spec fn duration_nanos(span: Duration) -> nat;

/// The longest span a `Duration` can hold, in nanoseconds: `u64::MAX` seconds
/// and 999,999,999 nanoseconds.
pub const MAX_DURATION_NANOS: u128 = 18_446_744_073_709_551_615_999_999_999;

/// The longest span a `Duration` can hold, in nanoseconds.
pub open spec fn max_duration_nanos() -> nat {
    (u64::MAX as nat) * 1_000_000_000 + 999_999_999
}

/// The constant is the number of nanoseconds that it is said to be.
pub proof fn lemma_max_duration_nanos()
    ensures
        MAX_DURATION_NANOS == max_duration_nanos(),
{
}

/// Whether a timer that has counted `elapsed` nanoseconds can take `delta`
/// more: their sum must be a span that a `Duration` holds, which it is at
/// least where the timer has counted nothing yet.
pub open spec fn can_count(elapsed: nat, delta: nat) -> bool {
    elapsed == 0 || elapsed + delta <= max_duration_nanos()
}

/// What a repeating timer has counted after a tick that brought it to
/// `total` nanoseconds: the remainder past the last full round, cut to 64
/// bits as the engine stores it.
pub open spec fn wrapped_elapsed(total: nat, duration: nat) -> nat {
    if total < duration {
        total
    } else if duration == 0 {
        0
    } else {
        (total % duration) % 0x1_0000_0000_0000_0000
    }
}

/// `Duration::from_millis`: a span of `millis` milliseconds.
pub assume_specification[ Duration::from_millis ](millis: u64) -> (span: Duration)
    ensures
        duration_nanos(span) == millis * 1_000_000,
;

/// `Duration::as_nanos`: the span in whole nanoseconds.
pub assume_specification[ Duration::as_nanos ](span: &Duration) -> (nanos: u128)
    ensures
        nanos == duration_nanos(*span),
;

/// `Timer::new` with `TimerMode::Repeating`: what a new timer has counted,
/// which is nothing, and whether it has finished, which it has not.
#[verifier::external_body]
pub(crate) fn start_timer(duration: Duration) -> (started: (Duration, bool))
    ensures
        duration_nanos(started.0) == 0,
        !started.1,
{
    let timer = Timer::new(duration, TimerMode::Repeating);
    (timer.elapsed(), timer.finished())
}

/// `Timer::tick` on a repeating timer of `duration` that has counted
/// `elapsed`: what it has counted after `delta` more, and whether it
/// finished on this tick.
///
/// The engine adds `delta` to the elapsed time and panics where the sum is
/// more than a `Duration` holds, so such a tick is left out. The timer has
/// finished if the sum reaches the duration, and then keeps the remainder.
#[verifier::external_body]
pub(crate) fn tick_timer(duration: Duration, elapsed: Duration, delta: Duration) -> (ticked: (
    Duration,
    bool,
))
    requires
        can_count(duration_nanos(elapsed), duration_nanos(delta)),
    ensures
        ticked.1 == (duration_nanos(elapsed) + duration_nanos(delta) >= duration_nanos(duration)),
        duration_nanos(ticked.0) == wrapped_elapsed(
            duration_nanos(elapsed) + duration_nanos(delta),
            duration_nanos(duration),
        ),
{
    let mut timer = Timer::new(duration, TimerMode::Repeating);
    timer.set_elapsed(elapsed);
    timer.tick(delta);
    (timer.elapsed(), timer.finished())
}

/// `Timer::remaining` on a timer of `duration` that has counted `elapsed`:
/// the duration less the elapsed time. The engine subtracts and panics where
/// the elapsed time is the larger, so such a timer is left out.
#[verifier::external_body]
pub(crate) fn remaining_time(duration: Duration, elapsed: Duration) -> (remaining: Duration)
    requires
        duration_nanos(elapsed) <= duration_nanos(duration),
    ensures
        duration_nanos(remaining) == duration_nanos(duration) - duration_nanos(elapsed),
{
    let mut timer = Timer::new(duration, TimerMode::Repeating);
    timer.set_elapsed(elapsed);
    timer.remaining()
}

} // verus!
