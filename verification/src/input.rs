//! What the window tells the renderer: keys, wheel, buttons, size.
//!
//! Only what the renderer reads is told apart; every other key or event is
//! `Other`.

use vstd::prelude::*;
use crate::scalar::Scalar;

verus! {

/// A key by its place on the keyboard.
#[derive(Clone, Copy, Debug, PartialEq, Eq, Structural)]
pub enum KeyCode {
    ShiftLeft,
    KeyW,
    KeyA,
    KeyS,
    KeyD,
    ArrowUp,
    ArrowDown,
    ArrowLeft,
    ArrowRight,
    Digit2,
    Digit3,
    Numpad2,
    Numpad3,
    Enter,
    Other,
}

/// The physical key of a keyboard event.
#[derive(Clone, Copy, Debug, PartialEq, Eq, Structural)]
pub enum PhysicalKey {
    Code(KeyCode),
    Unidentified,
}

/// A key by its meaning, where it has a name.
#[derive(Clone, Copy, Debug, PartialEq, Eq, Structural)]
pub enum NamedKey {
    Space,
    Other,
}

/// The logical key of a keyboard event.
#[derive(Clone, Copy, Debug, PartialEq, Eq, Structural)]
pub enum Key {
    Named(NamedKey),
    Other,
}

/// Whether a key or button went down or came up.
#[derive(Clone, Copy, Debug, PartialEq, Eq, Structural)]
pub enum ElementState {
    Pressed,
    Released,
}

#[derive(Clone, Copy, Debug, PartialEq, Eq, Structural)]
pub enum MouseButton {
    Left,
    Right,
    Middle,
    Other,
}

/// One event of the window.
#[derive(Clone, Copy, Debug, PartialEq, Eq, Structural)]
pub enum WindowEvent {
    CloseRequested,
    Resized { width: u32, height: u32 },
    KeyboardInput { physical_key: PhysicalKey, logical_key: Key, state: ElementState },
    /// The wheel turned by `amount`: lines times one hundred, or pixels.
    MouseWheel { amount: Scalar },
    MouseInput { state: ElementState, button: MouseButton },
    RedrawRequested,
    Other,
}

impl ElementState {
    pub open spec fn pressed(self) -> bool {
        self == ElementState::Pressed
    }

    pub fn is_pressed(self) -> (r: bool)
        ensures
            r == self.pressed(),
    {
        match self {
            ElementState::Pressed => true,
            ElementState::Released => false,
        }
    }
}

} // verus!
