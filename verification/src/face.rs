//! The texts a front end shows for a timer.

use vstd::prelude::*;
use vstd::string::StringExecFns;
use crate::timer::PomodoroTimer;

verus! {

/// The character for a decimal digit.
pub open spec fn digit(d: int) -> char {
    if d == 0 {
        '0'
    } else if d == 1 {
        '1'
    } else if d == 2 {
        '2'
    } else if d == 3 {
        '3'
    } else if d == 4 {
        '4'
    } else if d == 5 {
        '5'
    } else if d == 6 {
        '6'
    } else if d == 7 {
        '7'
    } else if d == 8 {
        '8'
    } else {
        '9'
    }
}

/// A number in decimal digits, without leading zeros.
pub open spec fn decimal(n: nat) -> Seq<char>
    decreases n,
{
    if n < 10 {
        seq![digit(n as int)]
    } else {
        decimal(n / 10).push(digit((n % 10) as int))
    }
}

/// A number in two decimal digits at least, with a leading zero where it
/// has one digit only.
pub open spec fn two_digits(n: nat) -> Seq<char> {
    if n < 10 {
        seq!['0'] + decimal(n)
    } else {
        decimal(n)
    }
}

/// A number of seconds as minutes and seconds, `MM:SS`.
pub open spec fn clock_face(seconds: nat) -> Seq<char> {
    two_digits(seconds / 60) + seq![':'] + two_digits(seconds % 60)
}

/// The name of a session.
pub open spec fn mode_label(work: bool) -> Seq<char> {
    if work {
        "Work Time"@
    } else {
        "Break Time"@
    }
}

/// What the start/pause button offers.
pub open spec fn toggle_label(running: bool) -> Seq<char> {
    if running {
        "⏸ Pause"@
    } else {
        "▶ Start"@
    }
}

/// What the button that changes the session offers.
pub open spec fn switch_label(work: bool) -> Seq<char> {
    if work {
        "Have a break, have a..."@
    } else {
        "Let's work hard"@
    }
}

fn digit_text(d: i32) -> (text: &'static str)
    requires
        0 <= d <= 9,
    ensures
        text@ == seq![digit(d as int)],
{
    proof {
        reveal_strlit("0");
        reveal_strlit("1");
        reveal_strlit("2");
        reveal_strlit("3");
        reveal_strlit("4");
        reveal_strlit("5");
        reveal_strlit("6");
        reveal_strlit("7");
        reveal_strlit("8");
        reveal_strlit("9");
    }
    let text = match d {
        0 => "0",
        1 => "1",
        2 => "2",
        3 => "3",
        4 => "4",
        5 => "5",
        6 => "6",
        7 => "7",
        8 => "8",
        _ => "9",
    };
    assert(text@ =~= seq![digit(d as int)]);
    text
}

fn push_decimal(text: &mut String, n: i32)
    requires
        n >= 0,
    ensures
        final(text)@ == old(text)@ + decimal(n as nat),
    decreases n,
{
    if n >= 10 {
        push_decimal(text, n / 10);
    }
    text.append(digit_text(n % 10));
    assert(text@ =~= old(text)@ + decimal(n as nat));
}

fn push_two_digits(text: &mut String, n: i32)
    requires
        n >= 0,
    ensures
        final(text)@ == old(text)@ + two_digits(n as nat),
{
    if n < 10 {
        text.append("0");
        proof {
            reveal_strlit("0");
        }
    }
    push_decimal(text, n);
    assert(text@ =~= old(text)@ + two_digits(n as nat));
}

impl PomodoroTimer {
    /// The countdown as minutes and seconds, each in two digits.
    pub fn time_text(&self) -> (text: String)
        ensures
            text@ == clock_face(self@.remaining as nat),
    {
        let seconds_left = self.seconds_left();
        let mut text = String::new();
        push_two_digits(&mut text, seconds_left / 60);
        text.append(":");
        push_two_digits(&mut text, seconds_left % 60);
        proof {
            reveal_strlit(":");
            assert(text@ =~= clock_face(self@.remaining as nat));
        }
        text
    }

    /// The name of the current session.
    pub fn mode_text(&self) -> (text: &'static str)
        ensures
            text@ == mode_label(self@.work),
    {
        if self.is_work() {
            "Work Time"
        } else {
            "Break Time"
        }
    }

    /// The label of the start/pause button.
    pub fn timer_button_text(&self) -> (text: &'static str)
        ensures
            text@ == toggle_label(self@.running),
    {
        if self.is_running() {
            "⏸ Pause"
        } else {
            "▶ Start"
        }
    }

    /// The label of the button that changes the session.
    pub fn switch_button_text(&self) -> (text: &'static str)
        ensures
            text@ == switch_label(self@.work),
    {
        if self.is_work() {
            "Have a break, have a..."
        } else {
            "Let's work hard"
        }
    }
}

} // verus!
