//! The mouse and its idle animation.

use vstd::prelude::*;
use crate::sprite::{blit_at, Blit, Sprite};

verus! {

/// Number of frames after which the mouse's animation repeats.
pub const MOUSE_CYCLE: u32 = 12;

/// Number of frames for which the mouse keeps one pose.
pub const MOUSE_POSE_FRAMES: u32 = 4;

/// Column at which the mouse is drawn.
pub const MOUSE_X: i32 = 60;

/// Row at which the mouse is drawn.
pub const MOUSE_Y: i32 = 60;

/// Pose of the mouse in frame `frame`: three poses of four frames each, over
/// and over.
pub open spec fn mouse_pose(frame: int) -> int {
    (frame % (MOUSE_CYCLE as int)) / (MOUSE_POSE_FRAMES as int)
}

/// Pose of the mouse to draw in frame `frame`, as an index into the table of
/// its three poses.
pub fn mouse_animation_frame(frame: u32) -> (pose: usize)
    ensures
        pose == mouse_pose(frame as int),
        pose == (frame % 12) / 4,
        pose < 3,
{
    ((frame % MOUSE_CYCLE) / MOUSE_POSE_FRAMES) as usize
}

/// The mouse's pose stays within the table of three, whatever the frame.
pub proof fn lemma_mouse_pose_in_table(frame: int)
    ensures
        0 <= mouse_pose(frame) < 3,
{
}

/// The mouse's animation repeats every twelve frames.
pub proof fn lemma_mouse_pose_repeats(frame: int)
    ensures
        mouse_pose(frame + 12) == mouse_pose(frame),
{
}

/// Within one cycle of twelve frames the mouse shows its three poses in order,
/// four frames each, so each pose does occur.
pub proof fn lemma_mouse_pose_cycle(frame: int)
    requires
        0 <= frame,
    ensures
        mouse_pose(frame) == 0 <==> frame % 12 < 4,
        mouse_pose(frame) == 1 <==> 4 <= frame % 12 < 8,
        mouse_pose(frame) == 2 <==> 8 <= frame % 12,
{
}

/// The blit of the mouse in frame `frame`.
pub open spec fn mouse_blit(frame: u32) -> Blit {
    blit_at(Sprite::MouseTarget(mouse_pose(frame as int) as usize), MOUSE_X as int, MOUSE_Y as int)
}

/// Places the mouse for frame `frame`: always at the same spot, in the pose of
/// that frame.
pub fn draw_mouse_target(frame: u32) -> (blit: Blit)
    ensures
        blit == mouse_blit(frame),
        blit.sprite == Sprite::MouseTarget(((frame % 12) / 4) as usize),
        blit.x == 60 && blit.y == 60 && blit.flags == 0,
        blit.plain(),
{
    let pose = mouse_animation_frame(frame);
    Blit { sprite: Sprite::MouseTarget(pose), x: MOUSE_X, y: MOUSE_Y, flags: 0 }
}

} // verus!
