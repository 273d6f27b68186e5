//! A countdown timer that steps through an ordered list of named time slots.
//!
//! The core is a pure state machine, [`timer::App`]: the wall clock is
//! injected into every command and query as a millisecond timestamp, so all
//! elapsed-time bookkeeping (pause, resume, slot transitions) is ordinary
//! integer arithmetic with verified contracts. A separate module provides the
//! canonical `MM:SS` rendering of a duration.

pub mod fmt;
pub mod timer;

pub use fmt::format_duration;
pub use timer::App;
pub use timer::Slot;
