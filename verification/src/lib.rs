//! Firmware core of the Orions Hands keyboard.
//!
//! The crate holds everything the keyboard decides: debouncing the 5 x 14
//! switch matrix, decoding the rotary encoder, choosing the key layer,
//! encoding keyboard and consumer reports, and ordering the work of one
//! pass of the main loop. It touches no hardware. Pins, timers, the USB
//! stack and the display are driven by the firmware binary, which performs
//! the actions that [`scheduler::Scheduler`] asks for and reports back what
//! happened.
use vstd::prelude::*;

pub mod config;
pub mod consumer;
pub mod display;
pub mod keycode;
pub mod keys;
pub mod layer;
pub mod matrix;
pub mod rotary;
pub mod scheduler;
pub mod signal;
pub mod transport;

verus! {

} // verus!
