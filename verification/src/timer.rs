//! The executable timer.

use vstd::prelude::*;
use crate::clock::Clock;
use crate::message::{Link, Message};
use crate::model::{
    recorded, session_seconds, TimerState, BREAK_SECONDS, NANOS_PER_SECOND, WORK_SECONDS,
};

verus! {

/// A Pomodoro timer together with the clock it reads.
///
/// Clock readings are nanoseconds on a monotonic clock. [`PomodoroTimer::update`]
/// takes them from the timer's own clock, which starts at zero when the timer
/// is made; [`PomodoroTimer::update_at`] takes them from the caller.
pub struct PomodoroTimer {
    seconds_left: i32,
    is_running: bool,
    is_work: bool,
    last_tick: Option<u128>,
    clock: Clock,
}

impl View for PomodoroTimer {
    type V = TimerState;

    closed spec fn view(&self) -> TimerState {
        TimerState {
            remaining: self.seconds_left as int,
            running: self.is_running,
            work: self.is_work,
            last_tick: recorded(self.last_tick),
        }
    }
}

/// The full length of a session of the given kind.
fn session_length(work: bool) -> (seconds: i32)
    ensures
        seconds == session_seconds(work),
{
    if work {
        WORK_SECONDS
    } else {
        BREAK_SECONDS
    }
}

impl PomodoroTimer {
    #[verifier::type_invariant]
    spec fn inv(self) -> bool {
        self@.valid()
    }

    /// A fresh timer: a full work session, paused.
    pub fn new() -> (timer: Self)
        ensures
            timer@ == TimerState::initial(),
    {
        PomodoroTimer {
            seconds_left: WORK_SECONDS,
            is_running: false,
            is_work: true,
            last_tick: None,
            clock: Clock::start(),
        }
    }

    /// A timer in the given state, or nothing if `seconds_left` is negative.
    /// `last_tick` is the clock reading of the tick on record, if there is one.
    pub fn with_state(
        seconds_left: i32,
        is_running: bool,
        is_work: bool,
        last_tick: Option<u128>,
    ) -> (timer: Option<Self>)
        ensures
            timer is Some <==> seconds_left >= 0,
            timer is Some ==> timer->Some_0@ == (TimerState {
                remaining: seconds_left as int,
                running: is_running,
                work: is_work,
                last_tick: recorded(last_tick),
            }),
    {
        if seconds_left >= 0 {
            Some(PomodoroTimer { seconds_left, is_running, is_work, last_tick, clock: Clock::start() })
        } else {
            None
        }
    }

    /// The title of the application's window.
    pub fn title(&self) -> (title: String)
        ensures
            title@ == "Iced Tomato"@,
    {
        String::from_str("Iced Tomato")
    }

    /// Seconds left in the current session.
    pub fn seconds_left(&self) -> (seconds: i32)
        ensures
            seconds == self@.remaining,
            seconds >= 0,
    {
        proof {
            use_type_invariant(self);
        }
        self.seconds_left
    }

    /// Whether the countdown is running.
    pub fn is_running(&self) -> (running: bool)
        ensures
            running == self@.running,
    {
        self.is_running
    }

    /// Whether the current session is a work session.
    pub fn is_work(&self) -> (work: bool)
        ensures
            work == self@.work,
    {
        self.is_work
    }

    /// The clock reading at the last tick that was recorded, if any.
    pub fn last_tick(&self) -> (at: Option<u128>)
        ensures
            recorded(at) == self@.last_tick,
    {
        self.last_tick
    }

    /// Handles one event at clock reading `now`, in nanoseconds, and returns
    /// the link that the caller is asked to open, if the event asks for one.
    pub fn update_at(&mut self, message: Message, now: u128) -> (link: Option<Link>)
        ensures
            final(self)@ == old(self)@.step(message, now as nat),
            final(self)@.valid(),
            link == message.link(),
    {
        proof {
            use_type_invariant(&*self);
        }
        match message {
            Message::Tick => {
                if self.is_running {
                    match self.last_tick {
                        Some(last) => {
                            let second_passed = now >= last && now - last >= NANOS_PER_SECOND;
                            if second_passed && self.seconds_left > 0 {
                                self.seconds_left = self.seconds_left - 1;
                                self.last_tick = Some(now);
                            } else if self.seconds_left == 0 {
                                self.is_work = !self.is_work;
                                self.seconds_left = session_length(self.is_work);
                                self.is_running = false;
                            }
                        },
                        None => {
                            self.last_tick = Some(now);
                        },
                    }
                }
                None
            },
            Message::ToggleTimer => {
                self.is_running = !self.is_running;
                None
            },
            Message::Reset => {
                self.seconds_left = session_length(self.is_work);
                self.is_running = false;
                None
            },
            Message::SwitchMode => {
                self.is_work = !self.is_work;
                self.seconds_left = session_length(self.is_work);
                self.is_running = false;
                None
            },
            Message::LinkPressed(link) => Some(link),
        }
    }

    /// Handles one event now: reads the clock where the event consults it,
    /// and returns the link that the caller is asked to open, if the event
    /// asks for one.
    pub fn update(&mut self, message: Message) -> (link: Option<Link>)
        ensures
            exists|now: nat| final(self)@ == #[trigger] old(self)@.step(message, now),
            final(self)@.valid(),
            !old(self)@.reads_clock(message) ==> forall|now: nat|
                final(self)@ == #[trigger] old(self)@.step(message, now),
            link == message.link(),
    {
        let reads_clock = match message {
            Message::Tick => self.is_running,
            _ => false,
        };
        let now: u128 = if reads_clock {
            self.clock.now()
        } else {
            0
        };
        self.update_at(message, now)
    }
}

} // verus!
