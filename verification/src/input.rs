//! One frame's snapshot of the pointer.

use vstd::prelude::*;

verus! {

/// Bit of the button mask that stands for the primary (left) button.
pub const MOUSE_LEFT: u8 = 1;

/// Where the pointer is and which of its buttons are down, read once per frame.
#[derive(Clone, Copy, Debug, PartialEq, Eq, Structural)]
pub struct Pointer {
    /// Pointer column, in pixels.
    pub x: i32,
    /// Pointer row, in pixels.
    pub y: i32,
    /// Button mask; see [`MOUSE_LEFT`].
    pub buttons: u8,
}

impl Pointer {
    /// The primary button is down.
    pub open spec fn pressed(self) -> bool {
        self.buttons & MOUSE_LEFT != 0
    }

    /// Tells whether the primary button is down: whether the button mask is odd.
    pub fn left_held(&self) -> (held: bool)
        ensures
            held == self.pressed(),
            held == (self.buttons % 2 == 1),
    {
        let buttons = self.buttons;
        assert((buttons & 1 != 0) == (buttons % 2 == 1)) by (bit_vector);
        buttons & MOUSE_LEFT != 0
    }
}

} // verus!
