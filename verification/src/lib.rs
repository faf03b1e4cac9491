//! A Pomodoro countdown timer as a small state machine.
//!
//! The timer alternates between a work session of twenty-five minutes and a
//! break of five. It reacts to a tick, a start/pause toggle, a reset and a
//! mode switch, and to a request to open an outbound link, which it hands back
//! to its caller untouched. Ticks may arrive at any rate: the countdown only
//! moves once a whole second has passed since the last step it took, and a
//! session that has run out ends at the next tick.
//!
//! [`message`] holds the events, [`model`] the mathematical state machine,
//! [`laws`] the theorems about it, [`timer`] the executable timer whose
//! contracts are stated against the model, and [`face`] the texts a front end
//! shows.

pub mod message;
pub mod model;
pub mod laws;
mod clock;
pub mod timer;
pub mod face;
