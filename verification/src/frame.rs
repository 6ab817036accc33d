//! What the host calls: the set-up before the first frame, and the frame driver
//! that runs once per screen refresh, after the hand has moved.

use vstd::prelude::*;
use crate::draw::{
    can_draw_cat_hand, cat_hand_blits, cat_hand_fits, draw_cat_hand, lemma_cat_hand_blits_plain,
};
use crate::floor::{
    draw_floor_pattern, floor_blits, floor_start, lemma_floor_blits_on_floor, on_floor,
};
use crate::mouse::{draw_mouse_target, mouse_blit};
use crate::sprite::{Blit, SpriteSizes};
use crate::hand::{resolve_cat_hand, Motion, Tone};
use crate::input::Pointer;
use crate::state::GameState;

verus! {

/// The four colours of the palette, darkest first, each as `0xRRGGBB`.
pub open spec fn palette_homework() -> Seq<u32> {
    seq![0x12121bu32, 0x45568du32, 0x878c9du32, 0xe1d8d4u32]
}

/// Returns the palette to set once, before the first frame: four colours of 24
/// bits each.
pub fn start() -> (palette: [u32; 4])
    ensures
        palette@ == palette_homework(),
        forall|i: int| 0 <= i < 4 ==> palette[i] <= 0xff_ffff,
{
    let palette: [u32; 4] = [0x12121b, 0x45568d, 0x878c9d, 0xe1d8d4];
    assert(palette@ =~= palette_homework());
    palette
}

/// What one frame hands to the host.
pub struct Frame {
    /// The cue to play, if any.
    pub tone: Option<Tone>,
    /// The sprites to draw, the lowest layer first.
    pub blits: Vec<Blit>,
}

/// The frame count that follows `frame`: one more, or zero after the largest.
pub open spec fn next_frame(frame: u32) -> u32 {
    if frame == u32::MAX {
        0
    } else {
        (frame + 1) as u32
    }
}

impl GameState {
    /// The state with one more frame counted.
    pub open spec fn ticked(self) -> GameState {
        GameState { frame: next_frame(self.frame), ..self }
    }
}

/// The picture of a frame in state `state`, with the hand at `motion`: the
/// floor below, the mouse on it, and the hand with its arm on top.
pub open spec fn frame_blits(
    state: GameState,
    motion: Motion,
    sizes: SpriteSizes,
    floor_pattern: Seq<u8>,
) -> Seq<Blit> {
    floor_blits(floor_pattern, sizes.floor@) + seq![mouse_blit(state.frame)] + cat_hand_blits(
        state.cat_hand_state,
        motion.x as int,
        motion.y as int,
        sizes,
    )
}

/// Every blit of a frame is plain: it names a sprite that the asset table
/// holds, and sets no flags.
pub proof fn lemma_frame_blits_plain(
    state: GameState,
    motion: Motion,
    sizes: SpriteSizes,
    floor_pattern: Seq<u8>,
)
    ensures
        forall|i: int|
            0 <= i < frame_blits(state, motion, sizes, floor_pattern).len() ==> (
            #[trigger] frame_blits(state, motion, sizes, floor_pattern)[i]).plain(),
{
    let floor = floor_blits(floor_pattern, sizes.floor@);
    let mouse = seq![mouse_blit(state.frame)];
    let hand = cat_hand_blits(state.cat_hand_state, motion.x as int, motion.y as int, sizes);
    lemma_floor_blits_on_floor(floor_pattern, sizes.floor@, 0, floor_start());
    lemma_cat_hand_blits_plain(state.cat_hand_state, motion.x as int, motion.y as int, sizes);
    assert forall|i: int| 0 <= i < (floor + mouse + hand).len() implies (#[trigger] (floor + mouse
        + hand)[i]).plain() by {
        if i < floor.len() {
            assert((floor + mouse + hand)[i] == floor[i]);
            assert(on_floor(floor[i]));
        } else if i == floor.len() {
            assert((floor + mouse + hand)[i] == mouse[0]);
        } else {
            assert((floor + mouse + hand)[i] == hand[i - floor.len() - 1]);
        }
    }
}

/// The frame can be drawn: once the cycle has advanced, the hand at `motion`
/// fits, in the sprite of its phase.
pub open spec fn frame_fits(
    state: GameState,
    pointer: Pointer,
    motion: Motion,
    sizes: SpriteSizes,
) -> bool {
    cat_hand_fits(
        state.resolved(pointer, motion).cat_hand_state,
        motion.x as int,
        motion.y as int,
        sizes,
    )
}

/// Tells whether [`update`] can finish the frame on these inputs.
pub fn can_update(
    game_state: &GameState,
    pointer: Pointer,
    motion: Motion,
    sizes: &SpriteSizes,
) -> (fits: bool)
    ensures
        fits == frame_fits(*game_state, pointer, motion, *sizes),
{
    let mut ahead = *game_state;
    let _ = resolve_cat_hand(&mut ahead, pointer, motion);
    can_draw_cat_hand(ahead.cat_hand_state, motion.x, motion.y, sizes)
}

/// Finishes a frame once the hand has moved: advances the attack cycle, lists
/// what to draw, and counts the frame.
///
/// The picture shows the state after the cycle has advanced and before the frame
/// is counted. The count wraps around at the end of its range.
pub fn update(
    game_state: &mut GameState,
    pointer: Pointer,
    motion: Motion,
    sizes: &SpriteSizes,
    floor_pattern: &[u8],
) -> (frame: Frame)
    requires
        frame_fits(*old(game_state), pointer, motion, *sizes),
    ensures
        *final(game_state) == old(game_state).resolved(pointer, motion).ticked(),
        frame.tone == old(game_state).resolve_tone(pointer, motion),
        frame.blits@ == frame_blits(
            old(game_state).resolved(pointer, motion),
            motion,
            *sizes,
            floor_pattern@,
        ),
        forall|i: int| 0 <= i < frame.blits.len() ==> (#[trigger] frame.blits[i]).plain(),
{
    proof {
        lemma_frame_blits_plain(
            old(game_state).resolved(pointer, motion),
            motion,
            *sizes,
            floor_pattern@,
        );
    }
    let tone = resolve_cat_hand(game_state, pointer, motion);
    let mut blits = draw_floor_pattern(floor_pattern, &sizes.floor);
    blits.push(draw_mouse_target(game_state.frame));
    let mut hand = draw_cat_hand(game_state.cat_hand_state, motion.x, motion.y, sizes);
    blits.append(&mut hand);
    game_state.frame = game_state.frame.wrapping_add(1);
    Frame { tone, blits }
}

} // verus!
