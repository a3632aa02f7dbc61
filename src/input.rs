//! Input events as the editor reads them.

use vstd::prelude::*;

verus! {

/// The key that an input event names.
#[derive(Copy, Clone, Debug, PartialEq, Eq, Structural)]
pub enum KeyCode {
    Up,
    Down,
    Left,
    Right,
    Home,
    End,
    PageUp,
    PageDown,
    Char(char),
    /// Any key the editor has no binding for.
    Other,
}

/// Whether a key went down, was held, or went up.
#[derive(Copy, Clone, Debug, PartialEq, Eq, Structural)]
pub enum KeyKind {
    Press,
    Repeat,
    Release,
}

/// Modifier bit for the Shift key.
pub const SHIFT: u8 = 0x01;
/// Modifier bit for the Control key.
pub const CONTROL: u8 = 0x02;
/// Modifier bit for the Alt key.
pub const ALT: u8 = 0x04;

/// One key event: the key, the set of held modifiers as bits, and its kind.
#[derive(Copy, Clone, Debug, PartialEq, Eq, Structural)]
pub struct KeyInput {
    pub code: KeyCode,
    pub modifiers: u8,
    pub kind: KeyKind,
}

/// An event from the input source.
#[derive(Copy, Clone, Debug, PartialEq, Eq, Structural)]
pub enum InputEvent {
    Key(KeyInput),
    /// Mouse, focus, paste, resize and other events: never significant.
    Other,
}

/// The quit combination: a press of the character `q` with Alt and nothing else held.
pub open spec fn is_quit(ev: InputEvent) -> bool {
    &&& ev is Key
    &&& ev->Key_0.kind == KeyKind::Press
    &&& ev->Key_0.code == KeyCode::Char('q')
    &&& ev->Key_0.modifiers == ALT
}

/// The key of a press event, if the event is one.
pub open spec fn pressed_key(ev: InputEvent) -> Option<KeyCode> {
    if ev is Key && ev->Key_0.kind == KeyKind::Press {
        Some(ev->Key_0.code)
    } else {
        None
    }
}

} // verus!
