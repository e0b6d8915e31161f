//! The fuse of a rocket blast.
//!
//! A right click that hits fixed geometry within reach spawns a blast there.
//! The blast carries a one-shot engine timer of half a second; each frame the
//! timer is advanced by the frame's time, and the blast is removed once the
//! timer has finished.
use bevy::time::{Timer, TimerMode};
use core::time::Duration;
use vstd::prelude::*;

verus! {

#[verifier::external_type_specification]
#[verifier::external_body]
pub struct ExTimer(bevy::time::Timer);

/// `Timer::elapsed` of a timer, in nanoseconds.
pub uninterp spec fn timer_elapsed_nanos(timer: Timer) -> nat;

/// `Timer::duration` of a timer, in nanoseconds.
pub uninterp spec fn timer_duration_nanos(timer: Timer) -> nat;

/// `Timer::finished` of a timer.
pub uninterp spec fn timer_finished(timer: Timer) -> bool;

/// `Timer::paused` of a timer.
pub uninterp spec fn timer_paused(timer: Timer) -> bool;

/// Whether `Timer::mode` of a timer is `TimerMode::Repeating`.
pub uninterp spec fn timer_repeating(timer: Timer) -> bool;

/// The largest value, in nanoseconds, below which an engine duration surely
/// does not overflow: `u64::MAX` whole seconds.
pub open spec fn duration_limit_nanos() -> nat {
    18_446_744_073_709_551_615nat * 1_000_000_000nat
}

/// Calls `Timer::new(Duration::from_nanos(duration_nanos), TimerMode::Once)`.
/// The engine's source sets the duration and the one-shot mode and takes
/// everything else from `Default`: nothing elapsed, not finished, not paused.
#[verifier::external_body]
fn new_once_timer(duration_nanos: u64) -> (timer: Timer)
    ensures
        timer_duration_nanos(timer) == duration_nanos,
        timer_elapsed_nanos(timer) == 0,
        !timer_finished(timer),
        !timer_paused(timer),
        !timer_repeating(timer),
{
    Timer::new(Duration::from_nanos(duration_nanos), TimerMode::Once)
}

/// Calls `Timer::tick(Duration::from_nanos(delta_nanos))` on a one-shot timer.
/// In the engine's source a paused or already finished one-shot timer keeps
/// its elapsed time and its finished flag; otherwise the elapsed time grows by
/// the delta (the addition panics past the largest duration, which
/// `requires` rules out), the timer is finished when it has reached the
/// duration, and a finished one-shot timer's elapsed time is set to the
/// duration. The duration, the mode and the paused flag stay. The count of
/// times it finished during the tick is left unsaid: nothing here reads it.
#[verifier::external_body]
fn tick_once_timer(timer: &mut Timer, delta_nanos: u64)
    requires
        !timer_repeating(*old(timer)),
        timer_elapsed_nanos(*old(timer)) + delta_nanos <= duration_limit_nanos(),
    ensures
        timer_duration_nanos(*final(timer)) == timer_duration_nanos(*old(timer)),
        timer_paused(*final(timer)) == timer_paused(*old(timer)),
        !timer_repeating(*final(timer)),
        timer_paused(*old(timer)) || timer_finished(*old(timer)) ==> {
            &&& timer_elapsed_nanos(*final(timer)) == timer_elapsed_nanos(*old(timer))
            &&& timer_finished(*final(timer)) == timer_finished(*old(timer))
        },
        !timer_paused(*old(timer)) && !timer_finished(*old(timer)) ==> {
            let sum = timer_elapsed_nanos(*old(timer)) + delta_nanos;
            &&& timer_finished(*final(timer)) == (sum >= timer_duration_nanos(*old(timer)))
            &&& sum >= timer_duration_nanos(*old(timer)) ==> timer_elapsed_nanos(*final(timer))
                == timer_duration_nanos(*old(timer))
            &&& sum < timer_duration_nanos(*old(timer)) ==> timer_elapsed_nanos(*final(timer))
                == sum
        },
{
    timer.tick(Duration::from_nanos(delta_nanos));
}

/// Calls `Timer::finished`, which returns the timer's finished flag.
#[verifier::external_body]
fn timer_is_finished(timer: &Timer) -> (finished: bool)
    ensures
        finished == timer_finished(*timer),
{
    timer.finished()
}

/// How long a blast lives, in nanoseconds: half a second.
pub const BLAST_LIFETIME_NANOS: u64 = 500_000_000;

/// How far a fuse has burnt, in nanoseconds, after `delta` more nanoseconds
/// on a fuse that had burnt for `elapsed`: it stops at the blast's lifetime.
pub open spec fn fuse_progress(elapsed: nat, delta: nat) -> nat {
    if elapsed + delta >= BLAST_LIFETIME_NANOS {
        BLAST_LIFETIME_NANOS as nat
    } else {
        elapsed + delta
    }
}

/// A blast's fuse: a running one-shot timer of the blast's lifetime that has
/// finished exactly when its elapsed time has reached that lifetime.
pub open spec fn fuse_ok(fuse: Timer) -> bool {
    &&& !timer_repeating(fuse)
    &&& !timer_paused(fuse)
    &&& timer_duration_nanos(fuse) == BLAST_LIFETIME_NANOS
    &&& timer_elapsed_nanos(fuse) <= BLAST_LIFETIME_NANOS
    &&& timer_finished(fuse) == (timer_elapsed_nanos(fuse) == BLAST_LIFETIME_NANOS)
}

/// The fuse a new blast is spawned with: nothing has burnt yet.
pub fn blast_fuse() -> (fuse: Timer)
    ensures
        fuse_ok(fuse),
        timer_elapsed_nanos(fuse) == 0,
        !timer_finished(fuse),
        timer_duration_nanos(fuse) == 500_000_000,
        !timer_paused(fuse),
        !timer_repeating(fuse),
{
    new_once_timer(BLAST_LIFETIME_NANOS)
}

/// Burns a blast's fuse for one frame of `delta_nanos` nanoseconds and says
/// whether the blast is spent and must be removed.
pub fn burn_fuse(fuse: &mut Timer, delta_nanos: u64) -> (spent: bool)
    requires
        fuse_ok(*old(fuse)),
    ensures
        fuse_ok(*final(fuse)),
        timer_elapsed_nanos(*final(fuse)) == fuse_progress(
            timer_elapsed_nanos(*old(fuse)),
            delta_nanos as nat,
        ),
        spent == (timer_elapsed_nanos(*old(fuse)) + delta_nanos >= BLAST_LIFETIME_NANOS),
        spent == timer_finished(*final(fuse)),
        spent == (timer_elapsed_nanos(*old(fuse)) + delta_nanos >= 500_000_000),
        spent ==> timer_elapsed_nanos(*final(fuse)) == 500_000_000,
        !spent ==> timer_elapsed_nanos(*final(fuse)) == timer_elapsed_nanos(*old(fuse))
            + delta_nanos,
        timer_duration_nanos(*final(fuse)) == 500_000_000,
        !timer_paused(*final(fuse)),
        !timer_repeating(*final(fuse)),
{
    assert(BLAST_LIFETIME_NANOS + u64::MAX <= duration_limit_nanos());
    tick_once_timer(fuse, delta_nanos);
    timer_is_finished(fuse)
}

/// Burning a fuse in two frames leaves it as one frame of their summed time.
pub proof fn fuse_burns_additively(elapsed: nat, first: nat, second: nat)
    requires
        elapsed <= BLAST_LIFETIME_NANOS,
    ensures
        fuse_progress(fuse_progress(elapsed, first), second) == fuse_progress(
            elapsed,
            first + second,
        ),
{
}

/// A fresh fuse is spent exactly when the frames it burnt for add up to the
/// blast's lifetime.
pub proof fn fresh_fuse_spent_at_lifetime(total: nat)
    ensures
        (fuse_progress(0, total) == BLAST_LIFETIME_NANOS) == (total >= BLAST_LIFETIME_NANOS),
{
}

} // verus!
