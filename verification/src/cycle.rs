//! What holds of the attack cycle over whole frames and over runs of frames,
//! whatever the pointer does and wherever the hand moves.

use vstd::prelude::*;
use crate::mouse::mouse_pose;
use crate::frame::next_frame;
use crate::hand::{Motion, Tone};
use crate::input::Pointer;
use crate::state::{CatHandState, GameState, Target};

verus! {

/// What one frame learns from outside: the pointer, and where the hand's move
/// has left it.
pub struct FrameInput {
    /// The pointer, as read at the start of the frame.
    pub pointer: Pointer,
    /// The outcome of the hand's move.
    pub motion: Motion,
}

impl FrameInput {
    /// The frame keeps a retreating hand from being ready: the button is down,
    /// or the hand is still above the waiting row.
    pub open spec fn holds_retreat(self) -> bool {
        self.pointer.pressed() || !self.motion.at_wait_height()
    }
}

impl GameState {
    /// The state after one whole frame: the hand is aimed, moves, the cycle
    /// advances, and the frame is counted.
    pub open spec fn after_frame(self, input: FrameInput) -> GameState {
        self.aimed(input.pointer).resolved(input.pointer, input.motion).ticked()
    }

    /// The state after a run of frames, one input each.
    pub open spec fn after_frames(self, inputs: Seq<FrameInput>) -> GameState
        decreases inputs.len(),
    {
        if inputs.len() == 0 {
            self
        } else {
            self.after_frames(inputs.drop_last()).after_frame(inputs.last())
        }
    }
}

/// Neither half of a frame leaves the cycle: aiming keeps the phase or starts
/// an attack from `Ready` under a pressed button, and resolving keeps the phase
/// or moves it on by one. A phase is only ever entered from the one before it.
pub proof fn lemma_halves_follow_cycle(state: GameState, pointer: Pointer, motion: Motion)
    ensures
        ({
            let aimed = state.aimed(pointer);
            aimed.cat_hand_state == state.cat_hand_state || (state.cat_hand_state
                == CatHandState::Ready && aimed.cat_hand_state == CatHandState::Attacking
                && pointer.pressed())
        }),
        ({
            let resolved = state.resolved(pointer, motion);
            resolved.cat_hand_state == state.cat_hand_state || (resolved.cat_hand_state
                == state.cat_hand_state.successor() && state.cat_hand_state
                != CatHandState::Ready)
        }),
        state.resolved(pointer, motion).cat_hand_state == CatHandState::Retreating ==> {
            ||| state.cat_hand_state == CatHandState::Retreating
            ||| state.cat_hand_state == CatHandState::Attacking && motion.within_catch_range
        },
{
}

/// Over one frame the phase stays, or moves on by one, or, where a click lands
/// on a spot that the hand already covers, goes from `Ready` through `Attacking`
/// to `Retreating`. It reaches `Retreating` only by a catch, `Attacking` only by
/// a click while ready, and `Ready` only from a finished retreat.
pub proof fn lemma_frame_follows_cycle(state: GameState, input: FrameInput)
    ensures
        ({
            let before = state.cat_hand_state;
            let after = state.after_frame(input).cat_hand_state;
            &&& {
                ||| after == before
                ||| after == before.successor()
                ||| before == CatHandState::Ready && after == CatHandState::Retreating
            }
            &&& after == CatHandState::Retreating && before != CatHandState::Retreating ==> {
                &&& input.motion.within_catch_range
                &&& before == CatHandState::Attacking || input.pointer.pressed()
            }
            &&& after == CatHandState::Attacking && before != CatHandState::Attacking ==> {
                &&& before == CatHandState::Ready
                &&& input.pointer.pressed()
            }
            &&& after == CatHandState::Ready && before != CatHandState::Ready ==> {
                &&& before == CatHandState::Retreating
                &&& !input.holds_retreat()
            }
        }),
{
}

/// Each cue marks one step of the cycle: the click sounds exactly when aiming
/// starts an attack, the lower tone exactly when resolving ends a retreat, and no
/// frame sounds both.
pub proof fn lemma_cues_mark_steps(state: GameState, input: FrameInput)
    ensures
        ({
            let aimed = state.aimed(input.pointer);
            let click = state.aim_tone(input.pointer);
            let home = aimed.resolve_tone(input.pointer, input.motion);
            &&& click == Some(Tone::click()) || click.is_none()
            &&& home == Some(Tone::home()) || home.is_none()
            &&& click.is_some() <==> state.cat_hand_state == CatHandState::Ready
                && aimed.cat_hand_state == CatHandState::Attacking
            &&& home.is_some() <==> aimed.cat_hand_state == CatHandState::Retreating
                && state.after_frame(input).cat_hand_state == CatHandState::Ready
            &&& !(click.is_some() && home.is_some())
        }),
{
}

/// The target is frozen while an attack or a retreat lasts: a frame that begins
/// and ends in the same of these two phases leaves it as it was.
pub proof fn lemma_target_frozen(state: GameState, input: FrameInput)
    requires
        state.cat_hand_state != CatHandState::Ready,
        state.after_frame(input).cat_hand_state == state.cat_hand_state,
    ensures
        state.after_frame(input).cat_hand_target == state.cat_hand_target,
{
}

/// A frame keeps the state well formed, and so does each of its halves.
pub proof fn lemma_frame_keeps_wf(state: GameState, input: FrameInput)
    requires
        state.wf(),
    ensures
        state.aimed(input.pointer).wf(),
        state.aimed(input.pointer).resolved(input.pointer, input.motion).wf(),
        state.after_frame(input).wf(),
{
}

/// A run of one more frame is the run so far, followed by that frame.
pub proof fn lemma_run_step(state: GameState, inputs: Seq<FrameInput>, i: int)
    requires
        0 <= i < inputs.len(),
    ensures
        state.after_frames(inputs.take(i + 1)) == state.after_frames(inputs.take(i)).after_frame(
            inputs[i],
        ),
{
    assert(inputs.take(i + 1).drop_last() =~= inputs.take(i));
}

/// However long the game runs and whatever it is fed, each frame of the run
/// follows the cycle: between the states before and after frame `i` the phase
/// stays, moves on by one, or goes from `Ready` to `Retreating` through a click
/// and a catch in the same frame; and `Retreating` is not entered without a
/// catch.
pub proof fn lemma_run_follows_cycle(start: GameState, inputs: Seq<FrameInput>, i: int)
    requires
        0 <= i < inputs.len(),
    ensures
        ({
            let before = start.after_frames(inputs.take(i)).cat_hand_state;
            let after = start.after_frames(inputs.take(i + 1)).cat_hand_state;
            &&& {
                ||| after == before
                ||| after == before.successor()
                ||| before == CatHandState::Ready && after == CatHandState::Retreating
                    && inputs[i].pointer.pressed()
            }
            &&& after == CatHandState::Retreating && before != CatHandState::Retreating
                ==> inputs[i].motion.within_catch_range
        }),
{
    lemma_run_step(start, inputs, i);
    lemma_frame_follows_cycle(start.after_frames(inputs.take(i)), inputs[i]);
}

/// Every state that a run reaches from a well-formed one is well formed: a
/// retreating hand always seeks the retreat point.
pub proof fn lemma_run_keeps_wf(start: GameState, inputs: Seq<FrameInput>)
    requires
        start.wf(),
    ensures
        start.after_frames(inputs).wf(),
    decreases inputs.len(),
{
    if inputs.len() > 0 {
        lemma_run_keeps_wf(start, inputs.drop_last());
        lemma_frame_keeps_wf(start.after_frames(inputs.drop_last()), inputs.last());
    }
}

/// A catch ends the attack in the very frame in which it happens: a hand that
/// attacks once it is aimed, and comes within catch range, is retreating at the
/// end of the frame and seeks the retreat point, not the point it attacked.
pub proof fn lemma_catch_starts_retreat(state: GameState, input: FrameInput)
    requires
        state.aimed(input.pointer).cat_hand_state == CatHandState::Attacking,
        input.motion.within_catch_range,
    ensures
        state.after_frame(input).cat_hand_state == CatHandState::Retreating,
        state.after_frame(input).cat_hand_target == Target::retreat(),
        state.after_frame(input).cat_hand_target.x2 == 0,
        state.after_frame(input).cat_hand_target.y2 == 320,
{
}

/// Without a catch an attack goes on, with its target unchanged.
pub proof fn lemma_attack_lasts(state: GameState, input: FrameInput)
    requires
        state.cat_hand_state == CatHandState::Attacking,
        !input.motion.within_catch_range,
    ensures
        state.after_frame(input).cat_hand_state == CatHandState::Attacking,
        state.after_frame(input).cat_hand_target == state.cat_hand_target,
{
}

/// A retreat lasts through every frame in which the button is down or the hand
/// is above the waiting row, and its target stays.
pub proof fn lemma_retreat_lasts(start: GameState, inputs: Seq<FrameInput>)
    requires
        start.cat_hand_state == CatHandState::Retreating,
        forall|i: int| 0 <= i < inputs.len() ==> (#[trigger] inputs[i]).holds_retreat(),
    ensures
        start.after_frames(inputs).cat_hand_state == CatHandState::Retreating,
        start.after_frames(inputs).cat_hand_target == start.cat_hand_target,
    decreases inputs.len(),
{
    if inputs.len() > 0 {
        let earlier = inputs.drop_last();
        assert forall|i: int| 0 <= i < earlier.len() implies (
        #[trigger] earlier[i]).holds_retreat() by {
            assert(earlier[i] == inputs[i]);
        }
        lemma_retreat_lasts(start, earlier);
        assert(inputs.last() == inputs[inputs.len() - 1]);
    }
}

/// A retreat ends in the first frame in which the button is up and the hand is
/// back at the waiting row, and not before: after each frame up to `n` the hand
/// still retreats, and after frame `n` it is ready.
pub proof fn lemma_ready_at_first_release(start: GameState, inputs: Seq<FrameInput>, n: int)
    requires
        start.cat_hand_state == CatHandState::Retreating,
        0 <= n < inputs.len(),
        forall|i: int| 0 <= i < n ==> (#[trigger] inputs[i]).holds_retreat(),
        !inputs[n].holds_retreat(),
    ensures
        forall|i: int|
            0 <= i <= n ==> (#[trigger] start.after_frames(inputs.take(i))).cat_hand_state
                == CatHandState::Retreating,
        start.after_frames(inputs.take(n + 1)).cat_hand_state == CatHandState::Ready,
{
    assert forall|i: int| 0 <= i <= n implies (#[trigger] start.after_frames(
        inputs.take(i),
    )).cat_hand_state == CatHandState::Retreating by {
        lemma_retreat_lasts(start, inputs.take(i));
    }
    lemma_run_step(start, inputs, n);
}

/// A run counts its frames: the frame count grows by the length of the run,
/// and wraps around at the end of its range.
pub proof fn lemma_run_counts_frames(start: GameState, inputs: Seq<FrameInput>)
    ensures
        start.after_frames(inputs).frame == (start.frame + inputs.len()) % 0x1_0000_0000,
    decreases inputs.len(),
{
    if inputs.len() > 0 {
        lemma_run_counts_frames(start, inputs.drop_last());
        let so_far = start.after_frames(inputs.drop_last());
        assert(start.after_frames(inputs).frame == next_frame(so_far.frame));
    }
}

/// Twelve frames on, the mouse is in the same pose again, unless the frame
/// count has wrapped around in between.
pub proof fn lemma_mouse_pose_after_cycle(start: GameState, inputs: Seq<FrameInput>)
    requires
        inputs.len() == 12,
        start.frame + 12 <= u32::MAX,
    ensures
        mouse_pose(start.after_frames(inputs).frame as int) == mouse_pose(start.frame as int),
{
    lemma_run_counts_frames(start, inputs);
}

} // verus!
