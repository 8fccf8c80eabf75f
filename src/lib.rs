//! A software clock for a microcontroller: a periodic timer tick drives a
//! millisecond counter, and the level of a DCF77 time-code input pin, sampled
//! on every tick, is fed edge by edge to a DCF77 decoder whose decoded
//! wall-clock time is kept for foreground readers.
//!
//! - [`timer`]: the tick length that a prescaler and compare count give.
//! - [`counters`]: the per-tick arithmetic and the transition table of a tick.
//! - [`clock`]: the clock state with its decoder, and the cell that holds it.
//! - [`wall_clock`]: the decoded date/time snapshot.
//! - [`decoder`]: the outside decoder, as the library relies on it.
pub mod clock;
pub mod counters;
pub mod decoder;
pub mod timer;
pub mod wall_clock;
