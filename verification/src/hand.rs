//! The hand's controller: which point the hand seeks, when it changes phase,
//! and which cue it sounds.
//!
//! A frame has two halves. Before the hand moves, [`aim_cat_hand`] picks the
//! point to seek from the pointer. The caller then moves the hand one step
//! towards that point, damped by [`cat_hand_friction`], and reports the outcome
//! as a [`Motion`]. After the move, [`resolve_cat_hand`] decides whether the
//! attack cycle advances.

use vstd::prelude::*;
use crate::input::Pointer;
use crate::state::{CatHandState, GameState, Target, CAT_HAND_WAIT_Y};

verus! {

/// Damping of the waiting hand, in hundredths of its speed per frame.
pub const FRICTION_READY: u32 = 95;

/// Damping of the lunging or retreating hand, in hundredths of its speed per
/// frame.
pub const FRICTION_MOVING: u32 = 50;

/// Largest pull towards the target, in hundredths of a pixel per frame and
/// frame; nearer to the target than this, the pull is the whole way that is left.
pub const CAT_HAND_ACCELERATION: u32 = 10;

/// Distance from its target, in pixels, below which a lunging hand has caught it.
pub const CAT_HAND_CATCH_RANGE: i32 = 10;

/// A short sound for the host to play.
#[derive(Clone, Copy, Debug, PartialEq, Eq, Structural)]
pub struct Tone {
    /// Pitch, in hertz.
    pub frequency: u32,
    /// Length, in frames.
    pub duration: u32,
    /// Loudness, from 0 to 100.
    pub volume: u32,
    /// Channel on which to play.
    pub channel: u32,
}

impl Tone {
    /// The high cue that marks the start of an attack.
    pub open spec fn click() -> Tone {
        Tone { frequency: 440, duration: 10, volume: 10, channel: 0 }
    }

    /// The lower cue that marks the hand's return.
    pub open spec fn home() -> Tone {
        Tone { frequency: 300, duration: 10, volume: 10, channel: 0 }
    }
}

/// Where one step of motion has left the hand.
#[derive(Clone, Copy, Debug, PartialEq, Eq, Structural)]
pub struct Motion {
    /// Column of the hand's centre, its fraction cut off.
    pub x: i32,
    /// Row of the hand's centre, its fraction cut off. Rows are counted
    /// downwards, so a hand at or below the waiting row has a row of at least
    /// [`CAT_HAND_WAIT_Y`]; cutting the fraction off does not change that.
    pub y: i32,
    /// The hand's centre is closer to the target than
    /// [`CAT_HAND_CATCH_RANGE`] pixels.
    pub within_catch_range: bool,
}

impl Motion {
    /// The hand is back at the waiting row, or below it.
    pub open spec fn at_wait_height(self) -> bool {
        self.y >= CAT_HAND_WAIT_Y
    }
}

/// Damping that applies in phase `state`, in hundredths.
pub open spec fn friction(state: CatHandState) -> u32 {
    if state == CatHandState::Ready {
        FRICTION_READY
    } else {
        FRICTION_MOVING
    }
}

impl GameState {
    /// The state after the first half of a frame. A ready hand starts an attack
    /// on the pointer's position if the button is down, and otherwise seeks the
    /// point between the pointer and the anchor; in the other phases nothing
    /// changes.
    pub open spec fn aimed(self, pointer: Pointer) -> GameState {
        match self.cat_hand_state {
            CatHandState::Ready => if pointer.pressed() {
                GameState {
                    cat_hand_state: CatHandState::Attacking,
                    cat_hand_target: Target::pixel(pointer.x as int, pointer.y as int),
                    ..self
                }
            } else {
                GameState { cat_hand_target: Target::tracking(pointer.x as int), ..self }
            },
            CatHandState::Attacking | CatHandState::Retreating => self,
        }
    }

    /// The cue of the first half of a frame: the click, when an attack starts.
    pub open spec fn aim_tone(self, pointer: Pointer) -> Option<Tone> {
        if self.cat_hand_state == CatHandState::Ready && pointer.pressed() {
            Some(Tone::click())
        } else {
            None
        }
    }

    /// The state after the second half of a frame. An attacking hand that is
    /// within catch range starts to retreat; a retreating hand that is back at
    /// the waiting row is ready again once the button is up; otherwise nothing
    /// changes.
    pub open spec fn resolved(self, pointer: Pointer, motion: Motion) -> GameState {
        match self.cat_hand_state {
            CatHandState::Ready => self,
            CatHandState::Attacking => if motion.within_catch_range {
                GameState {
                    cat_hand_state: CatHandState::Retreating,
                    cat_hand_target: Target::retreat(),
                    ..self
                }
            } else {
                self
            },
            CatHandState::Retreating => if motion.at_wait_height() && !pointer.pressed() {
                GameState { cat_hand_state: CatHandState::Ready, ..self }
            } else {
                self
            },
        }
    }

    /// The cue of the second half of a frame: the lower tone, when the hand is
    /// ready again.
    pub open spec fn resolve_tone(self, pointer: Pointer, motion: Motion) -> Option<Tone> {
        if self.cat_hand_state == CatHandState::Retreating && motion.at_wait_height()
            && !pointer.pressed() {
            Some(Tone::home())
        } else {
            None
        }
    }
}

/// Picks the point that the hand seeks in this frame, before the hand moves,
/// and returns the cue to play, if any.
///
/// Only a ready hand listens to the pointer. With the button down it starts an
/// attack on the pointer's position and the click sounds; with the button up it
/// follows the pointer's column halfway, on the waiting row. An attacking or
/// retreating hand keeps its target.
pub fn aim_cat_hand(game_state: &mut GameState, pointer: Pointer) -> (tone: Option<Tone>)
    ensures
        *final(game_state) == old(game_state).aimed(pointer),
        tone == old(game_state).aim_tone(pointer),
{
    match game_state.cat_hand_state {
        CatHandState::Ready => {
            if pointer.left_held() {
                game_state.cat_hand_state = CatHandState::Attacking;
                game_state.cat_hand_target = Target::at_pixel(pointer.x, pointer.y);
                Some(Tone { frequency: 440, duration: 10, volume: 10, channel: 0 })
            } else {
                game_state.cat_hand_target = Target::track(pointer.x);
                None
            }
        },
        CatHandState::Attacking => None,
        CatHandState::Retreating => None,
    }
}

/// Damping to apply to the hand while it moves in phase `state`, in hundredths
/// of its speed: heavy while it waits, so that its sway settles, and lighter
/// while it lunges or retreats.
pub fn cat_hand_friction(state: CatHandState) -> (percent: u32)
    ensures
        percent == friction(state),
        state == CatHandState::Ready ==> percent == 95,
        state != CatHandState::Ready ==> percent == 50,
{
    match state {
        CatHandState::Ready => FRICTION_READY,
        CatHandState::Attacking => FRICTION_MOVING,
        CatHandState::Retreating => FRICTION_MOVING,
    }
}

/// Advances the attack cycle after the hand has moved, and returns the cue to
/// play, if any.
///
/// An attacking hand within catch range of its target starts to retreat, and
/// from then on seeks the retreat point. A retreating hand is ready again when
/// it is back at the waiting row and the button is up, and the lower tone
/// sounds. A ready hand is left alone.
pub fn resolve_cat_hand(game_state: &mut GameState, pointer: Pointer, motion: Motion) -> (tone:
    Option<Tone>)
    ensures
        *final(game_state) == old(game_state).resolved(pointer, motion),
        tone == old(game_state).resolve_tone(pointer, motion),
{
    match game_state.cat_hand_state {
        CatHandState::Ready => None,
        CatHandState::Attacking => {
            if motion.within_catch_range {
                game_state.cat_hand_state = CatHandState::Retreating;
                game_state.cat_hand_target = Target::at_pixel(
                    crate::state::CAT_HAND_RETREAT_X,
                    crate::state::CAT_HAND_RETREAT_Y,
                );
            }
            None
        },
        CatHandState::Retreating => {
            if motion.y >= CAT_HAND_WAIT_Y && !pointer.left_held() {
                game_state.cat_hand_state = CatHandState::Ready;
                Some(Tone { frequency: 300, duration: 10, volume: 10, channel: 0 })
            } else {
                None
            }
        },
    }
}

} // verus!
