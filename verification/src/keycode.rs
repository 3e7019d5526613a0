//! Key codes of the keyboard usage page, as far as this board sends them.
use vstd::prelude::*;

verus! {

/// A usage of the USB HID keyboard page. The names are those of the HID
/// usage tables; the firmware binary turns each into the value that the
/// USB stack expects.
#[derive(Clone, Copy, Debug, PartialEq, Eq, Structural)]
pub enum KeyCode {
    /// Nothing is reported for this position.
    NoEventIndicated,
    A,
    B,
    C,
    D,
    E,
    F,
    G,
    H,
    I,
    J,
    K,
    L,
    M,
    N,
    O,
    P,
    Q,
    R,
    S,
    T,
    U,
    V,
    W,
    X,
    Y,
    Z,
    Keyboard1,
    Keyboard2,
    Keyboard3,
    Keyboard4,
    Keyboard5,
    Keyboard6,
    Keyboard7,
    Keyboard8,
    Keyboard9,
    Keyboard0,
    ReturnEnter,
    Escape,
    DeleteBackspace,
    Tab,
    Space,
    Minus,
    Equal,
    LeftBrace,
    RightBrace,
    NonUSHash,
    Semicolon,
    Apostrophe,
    Grave,
    Comma,
    Dot,
    ForwardSlash,
    CapsLock,
    F1,
    F2,
    F3,
    F4,
    F5,
    F6,
    F7,
    F8,
    F9,
    F10,
    F11,
    F12,
    PrintScreen,
    ScrollLock,
    Pause,
    Insert,
    Home,
    PageUp,
    DeleteForward,
    End,
    PageDown,
    RightArrow,
    LeftArrow,
    DownArrow,
    UpArrow,
    NonUSBackslash,
    LeftControl,
    LeftShift,
    LeftAlt,
    LeftGUI,
    RightShift,
    RightAlt,
}

} // verus!
