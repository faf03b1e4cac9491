//! The events a timer reacts to.

use vstd::prelude::*;

verus! {

/// An outbound link offered in the footer of the window.
#[derive(Debug, Clone, Copy, PartialEq, Eq, Structural)]
pub enum Link {
    Rust,
    Iced,
}

/// One event offered to the timer.
#[derive(Debug, Clone, Copy, PartialEq, Eq, Structural)]
pub enum Message {
    /// Real time may have advanced.
    Tick,
    /// Start the countdown, or pause it.
    ToggleTimer,
    /// Put the countdown back to the full length of the current session.
    Reset,
    /// Change between work and break.
    SwitchMode,
    /// Open a link in the system's browser.
    LinkPressed(Link),
}

impl Link {
    /// The address behind a link, as a sequence of characters.
    pub open spec fn address(self) -> Seq<char> {
        match self {
            Link::Rust => "https://rust-lang.org"@,
            Link::Iced => "https://iced.rs"@,
        }
    }

    /// The address to hand to the system's URL handler.
    pub fn url(self) -> (url: &'static str)
        ensures
            url@ == self.address(),
    {
        match self {
            Link::Rust => "https://rust-lang.org",
            Link::Iced => "https://iced.rs",
        }
    }
}

impl Message {
    /// The link an event asks to open, if it asks for one.
    pub open spec fn link(self) -> Option<Link> {
        match self {
            Message::LinkPressed(link) => Some(link),
            _ => None,
        }
    }
}

} // verus!
