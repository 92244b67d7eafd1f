use vstd::prelude::*;

verus! {

/// Height in pixels of the canvas the host draws on.
pub const CANVAS_HEIGHT: u32 = 600;

/// Width in pixels of the canvas the host draws on.
pub const CANVAS_WIDTH: u32 = 600;

/// A pointer event on the canvas.
#[derive(Clone, Copy, Debug, PartialEq, Eq, Structural)]
pub enum EventType {
    Click,
    Move,
}

/// Selection state: either waiting for a first click, or dragging a box
/// whose first corner (in canvas pixels) is the anchor.
#[derive(Clone, Copy, Debug, PartialEq, Eq, Structural)]
pub enum State {
    Idle,
    Selecting { anchor_x: i32, anchor_y: i32 },
}

/// An axis-aligned rectangle.
///
/// In canvas pixels `top <= bottom` (y grows downward); in the complex plane
/// `bottom <= top` (bottom is the lower imaginary bound).
#[derive(Clone, Copy, Debug, PartialEq, Eq, Structural)]
pub struct Rect<T> {
    pub top: T,
    pub bottom: T,
    pub left: T,
    pub right: T,
}

} // verus!
