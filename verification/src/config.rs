//! Fixed configuration of the board.
use vstd::prelude::*;

verus! {

/// Number of row lines of the switch matrix.
pub const ROWS: usize = 5;

/// Number of column lines of the switch matrix.
pub const COLS: usize = 14;

/// Consecutive readings beyond which a press or a release is confirmed.
pub const CONFIRMED_PRESS: i32 = 4;

/// Row of the key that selects the function layer while held.
pub const FN_ROW: usize = 4;

/// Column of the key that selects the function layer while held.
pub const FN_COL: usize = 10;

/// Row of the push button of the rotary encoder.
pub const PUSH_ROW: usize = 1;

/// Column of the push button of the rotary encoder.
pub const PUSH_COL: usize = 13;

/// A switch of the matrix conducts while its row line reads low: the
/// rows are pulled up and the driven column is low.
pub const SWITCH_ACTIVE_LOW: bool = true;

/// Phase A of the encoder is active while its line reads low.
pub const PHASE_A_ACTIVE_LOW: bool = true;

/// Phase B of the encoder is active while its line reads high.
pub const PHASE_B_ACTIVE_LOW: bool = false;

/// Interval between keyboard reports, in milliseconds.
pub const KEYBOARD_REPORT_MS: u32 = 1;

/// Interval between maintenance ticks of the transport, in milliseconds.
pub const TRANSPORT_TICK_MS: u32 = 1;

/// Interval between consumer reports, in milliseconds.
pub const CONSUMER_REPORT_MS: u32 = 1;

/// Idle time after which the display is switched off, in minutes.
pub const DISPLAY_ON_MINUTES: u32 = 5;

/// The logical level of a line: whether a line that reads low
/// (`line_low`) or high is active, where `active_low` says which of the
/// two levels means active.
pub fn line_active(line_low: bool, active_low: bool) -> (active: bool)
    ensures
        active == (line_low == active_low),
{
    line_low == active_low
}

/// Pressed state of every key position, one row after the other:
/// 1 is pressed, 0 is released.
pub type Grid = [[i32; COLS]; ROWS];

/// One raw reading of every key position: `true` where the switch
/// conducts.
pub type Readings = [[bool; COLS]; ROWS];

} // verus!
