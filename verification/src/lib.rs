//! Core logic of a small microcontroller front panel: a time-multiplexed
//! 8-digit, 7-segment display driver, a debounced push-button scanner, and a
//! flowing-lamp pattern transform.
//!
//! Each component is a finite-state machine driven by an external cooperative
//! scheduler.  The machines themselves own no hardware: they take plain
//! sampled input levels and hand back the output-line changes to perform and
//! the minimum delay to honor before the next call, so any bring-up layer can
//! wire them to real pins and a timer.

pub mod keys;
pub mod led;
pub mod meter;
pub mod segments;
