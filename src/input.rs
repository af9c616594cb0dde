//! Input events as the screens see them.

use vstd::prelude::*;

verus! {

/// One coordinate of the cursor, in pixels: `whole` is the floor of the value
/// and `has_fraction` tells whether the value lies strictly above it.
#[derive(Clone, Copy, Debug, PartialEq, Eq, Structural)]
pub struct PixelCoord {
    pub whole: i64,
    pub has_fraction: bool,
}

/// Whether the coordinate lies in the closed interval `[lo, hi]`.
pub open spec fn coord_within(p: PixelCoord, lo: int, hi: int) -> bool {
    lo <= p.whole && (p.whole < hi || (p.whole == hi && !p.has_fraction))
}

impl PixelCoord {
    /// Whether the coordinate lies in the closed interval `[lo, hi]`.
    pub fn within(&self, lo: i64, hi: i64) -> (r: bool)
        ensures
            r == coord_within(*self, lo as int, hi as int),
    {
        lo <= self.whole && (self.whole < hi || (self.whole == hi && !self.has_fraction))
    }
}

/// A cursor position in window pixels, origin at the top left.
#[derive(Clone, Copy, Debug, PartialEq, Eq, Structural)]
pub struct Cursor {
    pub x: PixelCoord,
    pub y: PixelCoord,
}

/// The keys the screens react to.
#[derive(Clone, Copy, Debug, PartialEq, Eq, Structural)]
pub enum Key {
    W,
    A,
    S,
    D,
    E,
    Escape,
    Other,
}

/// The mouse buttons the screens tell apart.
#[derive(Clone, Copy, Debug, PartialEq, Eq, Structural)]
pub enum MouseButton {
    Left,
    Other,
}

/// An input event handed to a screen.
#[derive(Clone, Copy, Debug, PartialEq, Eq, Structural)]
pub enum InputEvent {
    KeyPress(Key),
    MousePress(MouseButton),
    MouseMove(Cursor),
    Other,
}

} // verus!
