//! Verified core of a terminal metronome.
//!
//! The timing engine is modelled as a state machine over a plain settings
//! record: every per-cycle decision (when to trigger a click, how counters
//! advance, how a stop resets them, how a failed sound load halts the
//! engine) is an executable function with a proved contract. The
//! application shell around this crate owns the shared atomics, the audio
//! backend and the terminal; it feeds fresh settings into the model each
//! scheduler wake and carries the model's decisions out.

pub mod menu;
pub mod metronome;
