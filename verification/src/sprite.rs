//! Sprites by name, and the list of blits that makes up a picture.

use vstd::prelude::*;

verus! {

/// Number of floor tiles in the asset table.
pub const FLOOR_TILES: usize = 4;

/// Number of poses of the mouse in the asset table.
pub const MOUSE_POSES: usize = 3;

/// Names a sprite of the asset table.
#[derive(Clone, Copy, Debug, PartialEq, Eq, Structural)]
pub enum Sprite {
    /// One of the four floor tiles.
    Floor(usize),
    /// One of the three poses of the mouse.
    MouseTarget(usize),
    /// The hand with its claws out.
    CatHandOpen,
    /// The hand closed.
    CatHandClosed,
    /// One segment of the arm.
    CatArm,
}

/// One sprite to draw, with its top left corner on the screen.
#[derive(Clone, Copy, Debug, PartialEq, Eq, Structural)]
pub struct Blit {
    /// The sprite to draw.
    pub sprite: Sprite,
    /// Column of the sprite's left edge.
    pub x: i32,
    /// Row of the sprite's top edge.
    pub y: i32,
    /// Drawing flags for the host.
    pub flags: u32,
}

impl Sprite {
    /// The name stands for a sprite that the asset table holds.
    pub open spec fn in_table(self) -> bool {
        match self {
            Sprite::Floor(tile) => tile < FLOOR_TILES,
            Sprite::MouseTarget(pose) => pose < MOUSE_POSES,
            Sprite::CatHandOpen | Sprite::CatHandClosed | Sprite::CatArm => true,
        }
    }
}

impl Blit {
    /// The blit draws a sprite of the asset table, as it is: no flags are set.
    pub open spec fn plain(self) -> bool {
        self.sprite.in_table() && self.flags == 0
    }
}

/// Width and height of a sprite, in pixels.
#[derive(Clone, Copy, Debug, PartialEq, Eq, Structural)]
pub struct SpriteSize {
    /// Width in pixels.
    pub width: u16,
    /// Height in pixels.
    pub height: u16,
}

/// The sizes of the sprites whose placement depends on them.
#[derive(Clone, Copy, Debug)]
pub struct SpriteSizes {
    /// The four floor tiles.
    pub floor: [SpriteSize; FLOOR_TILES],
    /// The hand with its claws out.
    pub cat_hand_open: SpriteSize,
    /// The hand closed.
    pub cat_hand_closed: SpriteSize,
    /// One segment of the arm.
    pub cat_arm: SpriteSize,
}

/// A blit of `sprite` at `(x, y)` without flags.
pub open spec fn blit_at(sprite: Sprite, x: int, y: int) -> Blit {
    Blit { sprite, x: x as i32, y: y as i32, flags: 0 }
}

} // verus!
