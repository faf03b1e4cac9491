//! Theorems about the state machine of [`crate::model`].

use vstd::prelude::*;
use crate::message::Message;
use crate::model::{session_seconds, whole_seconds_between, TimerState};

verus! {

/// The countdown never goes below zero, whatever events arrive and whenever
/// they arrive.
pub proof fn remaining_never_negative(s: TimerState, events: Seq<(Message, nat)>)
    requires
        s.valid(),
    ensures
        s.run(events).valid(),
        s.run(events).remaining >= 0,
    decreases events.len(),
{
    if events.len() > 0 {
        remaining_never_negative(s, events.drop_last());
    }
}

/// A timer that starts fresh stays within its session: after any sequence of
/// events the countdown is no longer than the session it is in, and a
/// countdown that has left the full length has a tick on record.
pub proof fn fresh_timer_stays_in_session(events: Seq<(Message, nat)>)
    ensures
        TimerState::initial().run(events).in_session(),
{
    in_session_is_kept(TimerState::initial(), events);
}

/// Any sequence of events keeps a timer within its session once it is.
pub proof fn in_session_is_kept(s: TimerState, events: Seq<(Message, nat)>)
    requires
        s.in_session(),
    ensures
        s.run(events).in_session(),
    decreases events.len(),
{
    if events.len() > 0 {
        in_session_is_kept(s, events.drop_last());
    }
}

/// A timer is paused right after a reset and right after a mode switch,
/// wherever in a sequence of events they stand.
pub proof fn paused_after_reset_or_switch(s: TimerState, message: Message, now: nat)
    requires
        message is Reset || message is SwitchMode,
    ensures
        !s.step(message, now).running,
{
}

/// A reset puts the countdown to the full length of the session the timer is
/// in, which is 1500 seconds for work and 300 for a break, leaves the kind of
/// session as it was, and pauses.
pub proof fn reset_restores_session(s: TimerState)
    ensures
        s.reset().remaining == session_seconds(s.work),
        s.work ==> s.reset().remaining == 1500,
        !s.work ==> s.reset().remaining == 300,
        s.reset().work == s.work,
        !s.reset().running,
        s.reset().last_tick == s.last_tick,
{
}

/// A mode switch changes the kind of session, puts the countdown to the full
/// length of the new session, and pauses, whatever the state before.
pub proof fn switch_mode_flips_session(s: TimerState)
    ensures
        s.switch_mode().work == !s.work,
        s.switch_mode().remaining == session_seconds(!s.work),
        s.work ==> s.switch_mode().remaining == 300,
        !s.work ==> s.switch_mode().remaining == 1500,
        !s.switch_mode().running,
        s.switch_mode().last_tick == s.last_tick,
{
}

/// Toggling twice gives back the state before: the running flag is what it
/// was, and the countdown has not moved.
pub proof fn toggle_is_involution(s: TimerState)
    ensures
        s.toggle().running == !s.running,
        s.toggle().remaining == s.remaining,
        s.toggle().toggle() == s,
{
}

/// A paused timer ignores ticks.
pub proof fn tick_while_paused_is_ignored(s: TimerState, now: nat)
    requires
        !s.running,
    ensures
        s.tick(now) == s,
{
}

/// A tick that finds a running timer at zero does not count further down.
/// Once a tick has been recorded, as it has in every state that a fresh timer
/// reaches, the tick ends the session: the kind of session changes, the
/// countdown is at the full length of the new session, and the timer pauses.
pub proof fn tick_at_zero_ends_session(s: TimerState, now: nat)
    requires
        s.running,
        s.remaining == 0,
    ensures
        s.tick(now).remaining >= 0,
        s.last_tick is Some || s.in_session() ==> s.tick(now) == s.switch_mode(),
{
}

/// Only a tick of a running timer depends on the clock: every other event
/// leads to the same state whenever it is handled.
pub proof fn clock_matters_to_running_ticks_only(
    s: TimerState,
    message: Message,
    now: nat,
    later: nat,
)
    requires
        !s.reads_clock(message),
    ensures
        s.step(message, now) == s.step(message, later),
{
}

/// A tick moves the countdown by one second at most, and only down, unless
/// it ends the session.
pub proof fn tick_moves_one_second_at_most(s: TimerState, now: nat)
    ensures
        s.counts_down(now) ==> s.tick(now).remaining == s.remaining - 1,
        !s.counts_down(now) && !(s.running && s.last_tick is Some && s.remaining == 0)
            ==> s.tick(now).remaining == s.remaining,
{
}

/// Two ticks less than a whole second apart count down once at most: if the
/// first takes a second off, the second does not.
pub proof fn ticks_within_a_second_count_once(s: TimerState, first: nat, second: nat)
    requires
        whole_seconds_between(first, second) < 1,
    ensures
        !(s.counts_down(first) && s.tick(first).counts_down(second)),
        s.tick(first).tick(second).work == s.work
            ==> s.remaining - 1 <= s.tick(first).tick(second).remaining <= s.remaining,
{
}

} // verus!
