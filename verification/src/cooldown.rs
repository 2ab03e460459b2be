//! The move cooldown: the engine's one-shot timer behind a contract.

use vstd::prelude::*;
use bevy::time::Timer;
use bevy::time::TimerMode;
use bevy::utils::Duration;
use crate::MOVE_COOLDOWN_MILLIS;

verus! {

/// The engine's `Timer`, carried through as it is: what the rules know of a
/// timer, they know through `timer_state`.
#[verifier::external_type_specification]
#[verifier::external_body]
pub struct ExTimer(Timer);

/// What an engine timer holds, as far as the rules read it.
pub struct TimerState {
    /// Nanoseconds counted so far: `Timer::elapsed`.
    pub elapsed: nat,
    /// Nanoseconds after which the timer is finished: `Timer::duration`.
    pub duration: nat,
    /// Whether the timer has reached its duration: `Timer::finished`.
    pub finished: bool,
    /// Whether the timer is held: `Timer::paused`.
    pub paused: bool,
    /// Whether the timer starts over when it finishes: `Timer::mode` is
    /// `TimerMode::Repeating` and not `TimerMode::Once`.
    pub repeating: bool,
}

impl TimerState {
    /// A timer that counts when ticked and finishes once.
    pub open spec fn runs_once(self) -> bool {
        !self.paused && !self.repeating
    }
}

/// The state of an engine timer, as its accessors give it.
pub uninterp spec fn timer_state(timer: Timer) -> TimerState;

/// A timer that runs once, after `delta` more nanoseconds: a finished one
/// stays as it is, another counts on and stops at its duration.
pub open spec fn ticked(state: TimerState, delta: nat) -> TimerState {
    if state.finished {
        state
    } else if state.elapsed + delta >= state.duration {
        TimerState { elapsed: state.duration, finished: true, ..state }
    } else {
        TimerState { elapsed: state.elapsed + delta, ..state }
    }
}

/// `Timer::new` with `TimerMode::Once`: a timer of `millis` milliseconds that
/// has counted nothing, is not finished, not held and not repeating.
#[verifier::external_body]
fn timer_once(millis: u64) -> (timer: Timer)
    ensures
        timer_state(timer) == (TimerState {
            elapsed: 0,
            duration: millis as nat * 1_000_000,
            finished: false,
            paused: false,
            repeating: false,
        }),
{
    Timer::new(Duration::from_millis(millis), TimerMode::Once)
}

/// `Timer::tick`, then `Timer::finished`: advances a timer that runs once as
/// `ticked` says, and tells whether it is finished afterwards. The bound on
/// what was counted keeps the engine's sum of the two durations in range.
#[verifier::external_body]
fn timer_tick(timer: &mut Timer, delta_nanos: u64) -> (finished: bool)
    requires
        timer_state(*old(timer)).runs_once(),
        timer_state(*old(timer)).elapsed <= u64::MAX,
    ensures
        timer_state(*final(timer)) == ticked(timer_state(*old(timer)), delta_nanos as nat),
        finished == timer_state(*final(timer)).finished,
{
    timer.tick(Duration::from_nanos(delta_nanos)).finished()
}

/// `Timer::reset`: nothing is counted and the timer is not finished; its
/// duration, its mode and whether it is held stay.
#[verifier::external_body]
fn timer_reset(timer: &mut Timer)
    ensures
        timer_state(*final(timer)) == (TimerState {
            elapsed: 0,
            finished: false,
            ..timer_state(*old(timer))
        }),
{
    timer.reset();
}

/// Length of the move cooldown in nanoseconds.
pub open spec fn cooldown_nanos() -> nat {
    MOVE_COOLDOWN_MILLIS as nat * 1_000_000
}

/// What the cooldown has waited after `delta` more nanoseconds.
pub open spec fn waited_after(waited: nat, delta: nat) -> nat {
    if waited + delta >= cooldown_nanos() {
        cooldown_nanos()
    } else {
        waited + delta
    }
}

/// Gate on player input: closed when an input is accepted, open again once
/// the whole cooldown has been waited.
pub struct MoveCooldown {
    timer: Timer,
}

impl MoveCooldown {
    /// The timer runs once, over the cooldown's length; it has counted no
    /// further than that, and is finished exactly when it has counted all of
    /// it.
    pub closed spec fn wf(&self) -> bool {
        let state = timer_state(self.timer);
        &&& state.runs_once()
        &&& state.duration == cooldown_nanos()
        &&& state.elapsed <= state.duration
        &&& state.finished <==> state.elapsed == state.duration
    }

    /// Nanoseconds waited since the cooldown was last started.
    pub closed spec fn waited(&self) -> nat {
        timer_state(self.timer).elapsed
    }

    /// Whether input is accepted.
    pub open spec fn ready(&self) -> bool {
        self.waited() == cooldown_nanos()
    }

    /// A cooldown that has just been started.
    pub fn new() -> (cooldown: Self)
        ensures
            cooldown.wf(),
            cooldown.waited() == 0,
    {
        MoveCooldown { timer: timer_once(MOVE_COOLDOWN_MILLIS) }
    }

    /// Waits `delta_nanos` more and says whether input is accepted now.
    pub fn tick(&mut self, delta_nanos: u64) -> (ready: bool)
        requires
            old(self).wf(),
        ensures
            final(self).wf(),
            final(self).waited() == waited_after(old(self).waited(), delta_nanos as nat),
            ready == final(self).ready(),
    {
        timer_tick(&mut self.timer, delta_nanos)
    }

    /// Starts the cooldown again.
    pub fn reset(&mut self)
        requires
            old(self).wf(),
        ensures
            final(self).wf(),
            final(self).waited() == 0,
    {
        timer_reset(&mut self.timer);
    }
}

/// A cooldown never waits longer than its length.
pub proof fn law_waited_within_cooldown(cooldown: MoveCooldown)
    requires
        cooldown.wf(),
    ensures
        cooldown.waited() <= cooldown_nanos(),
{
}

} // verus!
