use vstd::prelude::*;

verus! {

/// Whether a key went down or came up.
#[derive(Clone, Copy, Debug, PartialEq, Eq, Structural)]
pub enum KeyState {
    Pressed,
    Released,
}

/// The keys that the camera and the window react to; every other key is `Other`.
#[derive(Clone, Copy, Debug, PartialEq, Eq, Structural)]
pub enum Key {
    W,
    A,
    S,
    D,
    Space,
    LShift,
    Return,
    Escape,
    Other,
}

/// A window event, reduced to the plain values that the logic reads.
///
/// Pointer positions are in whole device pixels.
#[derive(Clone, Copy, Debug, PartialEq, Eq, Structural)]
pub enum InputEvent {
    /// The user asked to close the window.
    CloseRequested,
    /// The drawable area now has this size, in physical pixels.
    Resized { width: u32, height: u32 },
    /// A key went down or came up.
    Keyboard { key: Key, state: KeyState },
    /// The pointer now stands at this position.
    CursorMoved { x: i32, y: i32 },
    /// Anything else.
    Other,
}

} // verus!
