use vstd::prelude::*;

verus! {

/// Whether a mouse button went down or up.
#[derive(Clone, Copy, Debug, PartialEq, Eq, Structural)]
pub enum ButtonState {
    Pressed,
    Released,
}

/// An input event, delivered to every widget of a tree.
#[derive(Clone, Copy, Debug, PartialEq, Eq, Structural)]
pub enum Event {
    /// The cursor moved; its new position comes with the event dispatch.
    CursorMoved,
    /// The primary mouse button changed state.
    MouseInput { state: ButtonState },
}

/// The cursor icon that a widget asks for while it is drawn.
#[derive(Clone, Copy, Debug, PartialEq, Eq, Structural)]
pub enum MouseCursor {
    /// The cursor is not over the widget: no preference.
    OutOfBounds,
    Idle,
    Pointer,
    Working,
    Grab,
    Grabbing,
    Text,
}

} // verus!
