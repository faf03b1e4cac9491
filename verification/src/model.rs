//! The timer as a mathematical state machine.
//!
//! Time is a natural number of nanoseconds read from a monotonic clock; the
//! countdown is an integer number of seconds.

use vstd::prelude::*;
use crate::message::Message;

verus! {

/// Length of a work session, in seconds.
pub const WORK_SECONDS: i32 = 1500;

/// Length of a break, in seconds.
pub const BREAK_SECONDS: i32 = 300;

/// Nanoseconds in one second.
pub const NANOS_PER_SECOND: u128 = 1_000_000_000;

/// The full length of a session of the given kind.
pub open spec fn session_seconds(work: bool) -> int {
    if work {
        WORK_SECONDS as int
    } else {
        BREAK_SECONDS as int
    }
}

/// Whole seconds that passed from `earlier` to `later`; zero when `later` is
/// not after `earlier`.
pub open spec fn whole_seconds_between(earlier: nat, later: nat) -> nat {
    if later >= earlier {
        ((later - earlier) / (NANOS_PER_SECOND as int)) as nat
    } else {
        0
    }
}

/// A clock reading on record, as the model holds it.
pub open spec fn recorded(at: Option<u128>) -> Option<nat> {
    match at {
        Some(reading) => Some(reading as nat),
        None => None,
    }
}

/// What a timer is, seen from outside.
pub struct TimerState {
    /// Seconds left in the current session.
    pub remaining: int,
    /// Whether ticks count down.
    pub running: bool,
    /// Whether the current session is a work session.
    pub work: bool,
    /// The clock reading at the last tick that was recorded, if any.
    pub last_tick: Option<nat>,
}

impl TimerState {
    /// The states a timer can hold: the countdown is not negative.
    pub open spec fn valid(self) -> bool {
        self.remaining >= 0
    }

    /// The states a timer passes through when it starts fresh: the countdown
    /// lies within the length of the session, and it has left the full length
    /// only through a tick, which recorded its instant.
    pub open spec fn in_session(self) -> bool {
        &&& 0 <= self.remaining <= session_seconds(self.work)
        &&& (self.remaining < session_seconds(self.work) ==> self.last_tick is Some)
    }

    /// A fresh timer: a full work session, paused, with no tick recorded.
    pub open spec fn initial() -> TimerState {
        TimerState { remaining: WORK_SECONDS as int, running: false, work: true, last_tick: None }
    }

    /// Start or pause.
    pub open spec fn toggle(self) -> TimerState {
        TimerState { running: !self.running, ..self }
    }

    /// Back to the full length of the current session, paused.
    pub open spec fn reset(self) -> TimerState {
        TimerState { remaining: session_seconds(self.work), running: false, ..self }
    }

    /// Over to the other kind of session, at its full length, paused.
    pub open spec fn switch_mode(self) -> TimerState {
        TimerState {
            remaining: session_seconds(!self.work),
            running: false,
            work: !self.work,
            ..self
        }
    }

    /// Whether a tick at `now` takes one second off the countdown: the timer
    /// runs, has seconds left, and a whole second has passed since the tick
    /// recorded last.
    pub open spec fn counts_down(self, now: nat) -> bool {
        &&& self.running
        &&& self.remaining > 0
        &&& self.last_tick is Some
        &&& whole_seconds_between(self.last_tick->Some_0, now) >= 1
    }

    /// A tick at clock reading `now`.
    ///
    /// A paused timer ignores it. The first tick a timer ever takes while
    /// running only records `now`. After that a tick counts one second down
    /// and records `now` if a whole second has passed; a tick that finds the
    /// countdown at zero ends the session instead.
    pub open spec fn tick(self, now: nat) -> TimerState {
        if !self.running {
            self
        } else if self.last_tick is None {
            TimerState { last_tick: Some(now), ..self }
        } else if self.counts_down(now) {
            TimerState { remaining: self.remaining - 1, last_tick: Some(now), ..self }
        } else if self.remaining == 0 {
            self.switch_mode()
        } else {
            self
        }
    }

    /// Whether handling `message` consults the clock.
    pub open spec fn reads_clock(self, message: Message) -> bool {
        message is Tick && self.running
    }

    /// The state after one event, handled at clock reading `now`.
    pub open spec fn step(self, message: Message, now: nat) -> TimerState {
        match message {
            Message::Tick => self.tick(now),
            Message::ToggleTimer => self.toggle(),
            Message::Reset => self.reset(),
            Message::SwitchMode => self.switch_mode(),
            Message::LinkPressed(_) => self,
        }
    }

    /// The state after a sequence of events, each with the clock reading at
    /// which it is handled.
    pub open spec fn run(self, events: Seq<(Message, nat)>) -> TimerState
        decreases events.len(),
    {
        if events.len() == 0 {
            self
        } else {
            self.run(events.drop_last()).step(events.last().0, events.last().1)
        }
    }
}

} // verus!
