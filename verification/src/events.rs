//! The event model: plain data describing a mouse or keyboard event.
use vstd::prelude::*;

verus! {

/// Mouse event variants.
#[derive(Clone, Copy, Debug)]
pub enum MouseEvent {
    /// Move event.
    Move(MouseMoveEvent),
    /// Button event.
    Button(MouseButtonEvent),
}

/// Mouse move event.
#[derive(Clone, Copy, Debug)]
pub struct MouseMoveEvent {
    /// x position relative to the root element, or the document.
    pub x: i64,
    /// y position relative to the root element, or the document.
    pub y: i64,
}

/// Mouse button event.
#[derive(Clone, Copy, Debug)]
pub struct MouseButtonEvent {
    /// If the button was pressed down as part of this event.
    /// If this is false, the button was released as part of this event.
    pub pressed: bool,
    /// The button being pressed.
    pub button: MouseButton,
}

/// Mouse button variants.
#[derive(Clone, Copy, Debug)]
pub enum MouseButton {
    /// Primary button, generally the left mouse button.
    Primary,
    /// Secondary button, generally the right mouse button.
    Secondary,
}

/// The protocol's numeric code for a mouse button.
pub open spec fn button_code(button: MouseButton) -> u64 {
    match button {
        MouseButton::Primary => 0,
        MouseButton::Secondary => 2,
    }
}

impl MouseButton {
    /// The numeric button code the protocol expects in pointer
    /// down/up actions: 0 for the primary button, 2 for the secondary.
    pub fn to_number(&self) -> (code: u64)
        ensures
            code == button_code(*self),
    {
        match self {
            Self::Primary => 0,
            Self::Secondary => 2,
        }
    }
}

/// Keyboard event.
#[derive(Clone, Debug)]
pub struct KeyboardEvent {
    /// If the key was pressed or released as part of this event.
    pub pressed: bool,
    /// The value of the key being pressed or released.
    pub value: String,
}

} // verus!
