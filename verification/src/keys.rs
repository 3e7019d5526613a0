//! The keyboard report encoder and the key map it reads.
//!
//! The key map has one slot for every key position that is wired, in the
//! order of the matrix: row by row, and within a row column by column.
//! Positions without a switch have no slot. A slot knows its position and
//! its key code in either layer. The function key and the push button of
//! the encoder have slots too; they send no key code of their own.
use vstd::prelude::*;
use crate::config::{Grid, COLS, FN_COL, FN_ROW, PUSH_COL, PUSH_ROW, ROWS};
use crate::keycode::KeyCode as K;
use crate::keycode::KeyCode;
use crate::layer::{active_layer, active_layer_of, Layer};

verus! {

/// Number of slots of the key map, and so of a keyboard report.
pub const KEY_COUNT: usize = 65;

/// The row of every slot.
pub const SLOT_ROWS: [usize; KEY_COUNT] = [
    0, 0, 0, 0, 0, 0, 0, 0, 0, 0, 0, 0, 0, 0,
    1, 1, 1, 1, 1, 1, 1, 1, 1, 1, 1, 1, 1, 1,
    2, 2, 2, 2, 2, 2, 2, 2, 2, 2, 2, 2, 2, 2,
    3, 3, 3, 3, 3, 3, 3, 3, 3, 3, 3, 3, 3, 3,
    4, 4, 4, 4, 4, 4, 4, 4, 4,
];

/// The column of every slot.
pub const SLOT_COLS: [usize; KEY_COUNT] = [
    0, 1, 2, 3, 4, 5, 6, 7, 8, 9, 10, 11, 12, 13,
    0, 1, 2, 3, 4, 5, 6, 7, 8, 9, 10, 11, 12, 13,
    0, 1, 2, 3, 4, 5, 6, 7, 8, 9, 10, 11, 12, 13,
    0, 1, 2, 3, 4, 5, 6, 7, 8, 9, 10, 11, 12, 13,
    0, 1, 2, 6, 9, 10, 11, 12, 13,
];

/// The key code of every slot in the base layer.
pub const BASE_CODES: [KeyCode; KEY_COUNT] = [
    K::Escape, K::Keyboard1, K::Keyboard2, K::Keyboard3, K::Keyboard4, K::Keyboard5,
    K::Keyboard6, K::Keyboard7, K::Keyboard8, K::Keyboard9, K::Keyboard0, K::Minus, K::Equal,
    K::DeleteBackspace,
    K::Tab, K::Q, K::W, K::E, K::R, K::T, K::Y, K::U, K::I, K::O, K::P, K::LeftBrace,
    K::RightBrace, K::NoEventIndicated,
    K::CapsLock, K::A, K::S, K::D, K::F, K::G, K::H, K::J, K::K, K::L, K::Semicolon,
    K::Apostrophe, K::NonUSHash, K::ReturnEnter,
    K::LeftShift, K::NonUSBackslash, K::Z, K::X, K::C, K::V, K::B, K::N, K::M, K::Comma, K::Dot,
    K::ForwardSlash, K::RightShift, K::UpArrow,
    K::LeftControl, K::LeftGUI, K::LeftAlt, K::Space, K::RightAlt, K::NoEventIndicated,
    K::LeftArrow, K::DownArrow, K::RightArrow,
];

/// The key code of every slot in the function layer.
pub const FUNCTION_CODES: [KeyCode; KEY_COUNT] = [
    K::Grave, K::F1, K::F2, K::F3, K::F4, K::F5, K::F6, K::F7, K::F8, K::F9, K::F10, K::F11,
    K::F12, K::DeleteForward,
    K::Tab, K::Q, K::W, K::E, K::R, K::T, K::Y, K::U, K::Insert, K::O, K::PrintScreen,
    K::LeftBrace, K::RightBrace, K::NoEventIndicated,
    K::CapsLock, K::A, K::ScrollLock, K::D, K::F, K::G, K::H, K::J, K::K, K::L, K::Semicolon,
    K::Apostrophe, K::NonUSHash, K::ReturnEnter,
    K::LeftShift, K::NonUSBackslash, K::Z, K::X, K::C, K::V, K::Pause, K::N, K::M, K::Comma,
    K::Dot, K::ForwardSlash, K::RightShift, K::PageUp,
    K::LeftControl, K::LeftGUI, K::LeftAlt, K::Space, K::RightAlt, K::NoEventIndicated, K::Home,
    K::PageDown, K::End,
];

/// A keyboard report: one key code for every slot of the key map.
pub type KeyboardReport = [KeyCode; KEY_COUNT];

/// The key code of slot `k` in `layer`.
pub open spec fn slot_code(k: int, layer: Layer) -> KeyCode {
    match layer {
        Layer::Base => BASE_CODES[k],
        Layer::Function => FUNCTION_CODES[k],
    }
}

/// Where slot `k` lies in the matrix, counted row by row.
pub open spec fn slot_position(k: int) -> int {
    SLOT_ROWS[k] * COLS + SLOT_COLS[k]
}

/// Whether slot `k` belongs to the key at `row`, `col`.
pub open spec fn slot_is_at(k: int, row: int, col: int) -> bool {
    SLOT_ROWS[k] == row && SLOT_COLS[k] == col
}

/// Whether the key of slot `k` is pressed in `keys`.
pub open spec fn slot_pressed(keys: Grid, k: int) -> bool {
    keys[SLOT_ROWS[k] as int][SLOT_COLS[k] as int] == 1
}

/// What slot `k` reports: the key code of its layer while its key is
/// pressed, and no event otherwise.
pub open spec fn report_code(keys: Grid, layer: Layer, k: int) -> KeyCode {
    if slot_pressed(keys, k) {
        slot_code(k, layer)
    } else {
        KeyCode::NoEventIndicated
    }
}

/// The keyboard report for the pressed grid `keys` in `layer`: every slot
/// reports for itself.
pub open spec fn report_of(keys: Grid, layer: Layer) -> Seq<KeyCode> {
    Seq::new(KEY_COUNT as nat, |k: int| report_code(keys, layer, k))
}

/// Every slot lies in the matrix, and the slots follow the order of the
/// matrix, so that no two of them share a key position.
pub proof fn lemma_slots_follow_the_matrix()
    ensures
        forall|k: int|
            0 <= k < KEY_COUNT ==> #[trigger] SLOT_ROWS[k] < ROWS && #[trigger] SLOT_COLS[k]
                < COLS,
        forall|j: int, k: int|
            0 <= j < k < KEY_COUNT ==> #[trigger] slot_position(j) < #[trigger] slot_position(k),
{
}

/// The function key and the push button of the encoder send no key code,
/// in either layer.
pub proof fn lemma_silent_keys()
    ensures
        forall|k: int|
            0 <= k < KEY_COUNT && (slot_is_at(k, FN_ROW as int, FN_COL as int) || slot_is_at(
                k,
                PUSH_ROW as int,
                PUSH_COL as int,
            )) ==> #[trigger] BASE_CODES[k] == KeyCode::NoEventIndicated && FUNCTION_CODES[k]
                == KeyCode::NoEventIndicated,
{
}

/// The key code of one slot.
pub fn slot_key(k: usize, layer: Layer) -> (code: KeyCode)
    requires
        k < KEY_COUNT,
    ensures
        code == slot_code(k as int, layer),
{
    match layer {
        Layer::Base => BASE_CODES[k],
        Layer::Function => FUNCTION_CODES[k],
    }
}

/// Encodes the keyboard report for the pressed grid `keys` in `layer`.
pub fn keyboard_report(keys: &Grid, layer: Layer) -> (report: KeyboardReport)
    ensures
        report@ == report_of(*keys, layer),
{
    let mut report = [KeyCode::NoEventIndicated; KEY_COUNT];
    for k in 0..KEY_COUNT
        invariant
            forall|j: int| 0 <= j < k ==> report[j] == report_code(*keys, layer, j),
    {
        if keys[SLOT_ROWS[k]][SLOT_COLS[k]] == 1 {
            report[k] = slot_key(k, layer);
        } else {
            report[k] = KeyCode::NoEventIndicated;
        }
    }
    report
}

/// Encodes the keyboard report of the base layer.
pub fn get_keys(keys: Grid) -> (report: KeyboardReport)
    ensures
        report@ == report_of(keys, Layer::Base),
{
    keyboard_report(&keys, Layer::Base)
}

/// Encodes the keyboard report of the function layer.
pub fn get_fnkeys(keys: Grid) -> (report: KeyboardReport)
    ensures
        report@ == report_of(keys, Layer::Function),
{
    keyboard_report(&keys, Layer::Function)
}

/// Encodes the keyboard report in the layer that `keys` itself selects.
pub fn layered_report(keys: &Grid) -> (report: KeyboardReport)
    ensures
        report@ == report_of(*keys, active_layer_of(*keys)),
{
    keyboard_report(keys, active_layer(keys))
}

/// With no key pressed every slot reports no event, in either layer.
pub proof fn lemma_released_grid_reports_nothing(keys: Grid, layer: Layer)
    requires
        forall|r: int, c: int| 0 <= r < ROWS && 0 <= c < COLS ==> keys[r][c] != 1,
    ensures
        forall|k: int|
            0 <= k < KEY_COUNT ==> #[trigger] report_of(keys, layer)[k]
                == KeyCode::NoEventIndicated,
{
}

/// While the function key is held, a key reports its code of the function
/// layer. With the function key and the key of one other slot pressed and
/// nothing else, that slot reports its function code and every other slot
/// reports no event.
pub proof fn lemma_function_layer_report(keys: Grid, k: int)
    requires
        0 <= k < KEY_COUNT,
        !slot_is_at(k, FN_ROW as int, FN_COL as int),
        forall|r: int, c: int|
            0 <= r < ROWS && 0 <= c < COLS ==> (#[trigger] keys[r][c] == 1 <==> ((r == FN_ROW && c
                == FN_COL) || slot_is_at(k, r, c))),
    ensures
        active_layer_of(keys) == Layer::Function,
        report_of(keys, active_layer_of(keys))[k] == FUNCTION_CODES[k],
        forall|j: int|
            0 <= j < KEY_COUNT && j != k ==> #[trigger] report_of(keys, active_layer_of(keys))[j]
                == KeyCode::NoEventIndicated,
{
}

} // verus!
