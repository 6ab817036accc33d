//! The state that lives from frame to frame.

use vstd::prelude::*;

verus! {

/// Width and height of the square screen, in pixels.
pub const SCREEN_SIZE: i32 = 160;

/// Column at which the hand is parked before the first frame.
pub const CAT_HAND_START_X: i32 = 120;

/// Row at which the hand waits, and which it must reach again after an attack.
pub const CAT_HAND_WAIT_Y: i32 = 155;

/// Column towards which the waiting hand is pulled, against the pointer.
pub const CAT_HAND_ANCHOR_X: i32 = 160;

/// Column of the point to which the hand draws back after a catch.
pub const CAT_HAND_RETREAT_X: i32 = 0;

/// Row of the point to which the hand draws back after a catch.
pub const CAT_HAND_RETREAT_Y: i32 = 160;

/// Phase of the hand's attack cycle.
#[derive(Clone, Copy, Debug, PartialEq, Eq, Structural)]
pub enum CatHandState {
    /// Waiting, swaying after the pointer.
    Ready,
    /// Lunging at the point that was clicked.
    Attacking,
    /// Drawing back after a catch.
    Retreating,
}

impl CatHandState {
    /// The phase that follows `self` in the cycle
    /// `Ready`, `Attacking`, `Retreating`, `Ready`, and so on.
    pub open spec fn successor(self) -> CatHandState {
        match self {
            CatHandState::Ready => CatHandState::Attacking,
            CatHandState::Attacking => CatHandState::Retreating,
            CatHandState::Retreating => CatHandState::Ready,
        }
    }
}

/// A point of the play field, held in half pixels: `x2` is twice the column and
/// `y2` twice the row. The midpoint of two whole pixels is then exact.
#[derive(Clone, Copy, Debug, PartialEq, Eq, Structural)]
pub struct Target {
    /// Twice the column, in pixels.
    pub x2: i64,
    /// Twice the row, in pixels.
    pub y2: i64,
}

impl Target {
    /// The point at the whole pixel `(x, y)`.
    pub open spec fn pixel(x: int, y: int) -> Target {
        Target { x2: (2 * x) as i64, y2: (2 * y) as i64 }
    }

    /// The point halfway between the pointer's column and the anchor column,
    /// on the waiting row.
    pub open spec fn tracking(pointer_x: int) -> Target {
        Target { x2: (pointer_x + CAT_HAND_ANCHOR_X) as i64, y2: (2 * CAT_HAND_WAIT_Y) as i64 }
    }

    /// The point where the hand is parked before the first frame.
    pub open spec fn rest() -> Target {
        Target::pixel(CAT_HAND_START_X as int, CAT_HAND_WAIT_Y as int)
    }

    /// The point to which the hand draws back after a catch.
    pub open spec fn retreat() -> Target {
        Target::pixel(CAT_HAND_RETREAT_X as int, CAT_HAND_RETREAT_Y as int)
    }

    /// Builds the point at the whole pixel `(x, y)`.
    pub fn at_pixel(x: i32, y: i32) -> (target: Target)
        ensures
            target == Target::pixel(x as int, y as int),
            target.x2 == 2 * x,
            target.y2 == 2 * y,
    {
        Target { x2: 2 * (x as i64), y2: 2 * (y as i64) }
    }

    /// Builds the point halfway between `pointer_x` and the anchor column,
    /// on the waiting row.
    pub fn track(pointer_x: i32) -> (target: Target)
        ensures
            target == Target::tracking(pointer_x as int),
            target.x2 == pointer_x + CAT_HAND_ANCHOR_X,
            target.y2 == 2 * CAT_HAND_WAIT_Y,
    {
        Target { x2: pointer_x as i64 + CAT_HAND_ANCHOR_X as i64, y2: 2 * (CAT_HAND_WAIT_Y as i64) }
    }
}

/// Everything the game remembers between two frames, but for the hand's
/// position, which the caller integrates and keeps.
#[derive(Clone, Copy, Debug, PartialEq, Eq, Structural)]
pub struct GameState {
    /// Count of frames drawn so far; wraps around at the end of its range.
    pub frame: u32,
    /// Phase of the attack cycle.
    pub cat_hand_state: CatHandState,
    /// The point that the hand is seeking.
    pub cat_hand_target: Target,
}

impl GameState {
    /// The state before the first frame.
    pub open spec fn initial() -> GameState {
        GameState {
            frame: 0,
            cat_hand_state: CatHandState::Ready,
            cat_hand_target: Target::rest(),
        }
    }

    /// While the hand draws back, it seeks the retreat point and nothing else.
    pub open spec fn wf(self) -> bool {
        self.cat_hand_state == CatHandState::Retreating ==> self.cat_hand_target
            == Target::retreat()
    }

    /// Creates the state before the first frame: no frame drawn, the hand ready
    /// and seeking the point where it is parked.
    pub fn new() -> (state: GameState)
        ensures
            state == GameState::initial(),
            state.wf(),
            state.cat_hand_target.x2 == 2 * CAT_HAND_START_X,
            state.cat_hand_target.y2 == 2 * CAT_HAND_WAIT_Y,
    {
        GameState {
            frame: 0,
            cat_hand_state: CatHandState::Ready,
            cat_hand_target: Target::at_pixel(CAT_HAND_START_X, CAT_HAND_WAIT_Y),
        }
    }
}

} // verus!
