//! The hand on the screen, and the arm that ties it to the bottom edge.

use vstd::prelude::*;
use crate::sprite::{blit_at, Blit, Sprite, SpriteSize, SpriteSizes};
use crate::state::{CatHandState, SCREEN_SIZE};

verus! {

/// The sprite of the hand in phase `state`: claws out while it attacks, closed
/// while it waits or retreats.
pub open spec fn cat_hand_sprite(state: CatHandState) -> Sprite {
    if state == CatHandState::Attacking {
        Sprite::CatHandOpen
    } else {
        Sprite::CatHandClosed
    }
}

/// The size of the hand's sprite in phase `state`.
pub open spec fn cat_hand_size(state: CatHandState, sizes: SpriteSizes) -> SpriteSize {
    if state == CatHandState::Attacking {
        sizes.cat_hand_open
    } else {
        sizes.cat_hand_closed
    }
}

/// Number of arm segments that hang from row `top` down to the bottom of the
/// screen, each `step` rows below the one before: as many as start above the
/// bottom edge.
pub open spec fn arm_count(top: int, step: int) -> int {
    if top >= SCREEN_SIZE || step <= 0 {
        0
    } else {
        (SCREEN_SIZE - top + step - 1) / step
    }
}

/// The arm: segments in column `left`, from row `top` downwards, `step` rows
/// apart.
pub open spec fn arm_blits(left: int, top: int, step: int) -> Seq<Blit> {
    Seq::new(arm_count(top, step) as nat, |k: int| blit_at(Sprite::CatArm, left, top + k * step))
}

/// The blits of the hand centred on `(x, y)` and of the arm below it. The arm
/// starts at the hand's lower edge, in line with its left edge.
pub open spec fn cat_hand_blits(state: CatHandState, x: int, y: int, sizes: SpriteSizes) -> Seq<
    Blit,
> {
    let size = cat_hand_size(state, sizes);
    let left = x - size.width / 2;
    seq![blit_at(cat_hand_sprite(state), left, y - size.height / 2)] + arm_blits(
        left,
        y + size.height / 2,
        sizes.cat_arm.height as int,
    )
}

/// The hand centred on `(x, y)` can be drawn: its edges are columns and rows
/// that an `i32` holds, and the arm has a height unless the hand's lower edge is
/// at the bottom of the screen or below it, where no arm is drawn.
pub open spec fn cat_hand_fits(state: CatHandState, x: int, y: int, sizes: SpriteSizes) -> bool {
    let size = cat_hand_size(state, sizes);
    &&& i32::MIN <= x - size.width / 2
    &&& i32::MIN <= y - size.height / 2
    &&& y + size.height / 2 <= i32::MAX
    &&& (sizes.cat_arm.height > 0 || y + size.height / 2 >= SCREEN_SIZE)
}

/// The arm ties the hand to the bottom of the screen: where the hand's lower
/// edge is above the bottom, there is at least one segment, the last segment
/// starts above the bottom, and one more would start at the bottom or below it.
pub proof fn lemma_arm_reaches_bottom(top: int, step: int)
    requires
        step > 0,
        top < SCREEN_SIZE,
    ensures
        arm_count(top, step) >= 1,
        top + (arm_count(top, step) - 1) * step < SCREEN_SIZE,
        SCREEN_SIZE <= top + arm_count(top, step) * step,
{
    let d = SCREEN_SIZE - top + step - 1;
    let n = d / step;
    vstd::arithmetic::div_mod::lemma_fundamental_div_mod(d, step);
    vstd::arithmetic::div_mod::lemma_mod_bound(d, step);
    assert(d == step * n + d % step);
    assert(step * n == n * step) by (nonlinear_arith);
    assert((n - 1) * step == n * step - step) by (nonlinear_arith);
    assert(n >= 1) by (nonlinear_arith)
        requires
            d == n * step + d % step,
            d % step < step,
            d >= step,
            step > 0,
    ;
}

/// Every blit of the hand and its arm is plain, and the hand comes first.
pub proof fn lemma_cat_hand_blits_plain(state: CatHandState, x: int, y: int, sizes: SpriteSizes)
    ensures
        cat_hand_blits(state, x, y, sizes).len() >= 1,
        cat_hand_blits(state, x, y, sizes)[0].sprite == cat_hand_sprite(state),
        forall|i: int|
            0 <= i < cat_hand_blits(state, x, y, sizes).len() ==> (#[trigger] cat_hand_blits(
                state,
                x,
                y,
                sizes,
            )[i]).plain(),
        forall|i: int|
            1 <= i < cat_hand_blits(state, x, y, sizes).len() ==> (#[trigger] cat_hand_blits(
                state,
                x,
                y,
                sizes,
            )[i]).sprite == Sprite::CatArm,
{
}

/// The loop that hangs the arm stops after exactly `arm_count` segments: `k`
/// segments are enough when segment `k` would start at the bottom edge or below
/// it, and all are needed when the last of them starts above it.
proof fn lemma_arm_count(top: int, step: int, k: int)
    by (nonlinear_arith)
    requires
        step > 0,
        k >= 0,
        top + k * step >= SCREEN_SIZE,
        k > 0 ==> top + (k - 1) * step < SCREEN_SIZE,
    ensures
        k == arm_count(top, step),
{
    if k > 0 {
        let d = SCREEN_SIZE - top + step - 1;
        assert(k * step <= d);
        assert(d < (k + 1) * step);
        assert(d / step == k) by {
            vstd::arithmetic::div_mod::lemma_fundamental_div_mod_converse(d, step, k, d - k * step);
        }
    }
}

/// Tells whether [`draw_cat_hand`] can draw the hand centred on `(x, y)`.
pub fn can_draw_cat_hand(state: CatHandState, x: i32, y: i32, sizes: &SpriteSizes) -> (fits: bool)
    ensures
        fits == cat_hand_fits(state, x as int, y as int, *sizes),
{
    let size = match state {
        CatHandState::Attacking => sizes.cat_hand_open,
        CatHandState::Ready => sizes.cat_hand_closed,
        CatHandState::Retreating => sizes.cat_hand_closed,
    };
    let half_width = (size.width / 2) as i64;
    let half_height = (size.height / 2) as i64;
    let bottom = y as i64 + half_height;
    i32::MIN as i64 <= x as i64 - half_width && i32::MIN as i64 <= y as i64 - half_height && bottom
        <= i32::MAX as i64 && (sizes.cat_arm.height > 0 || bottom >= SCREEN_SIZE as i64)
}

/// Lists the blits of the hand and its arm, in drawing order.
///
/// The hand is centred on `(x, y)`, open while it attacks and closed otherwise.
/// Arm segments follow from the hand's lower edge down to the bottom of the
/// screen, so that the hand never floats free.
pub fn draw_cat_hand(state: CatHandState, x: i32, y: i32, sizes: &SpriteSizes) -> (blits: Vec<Blit>)
    requires
        cat_hand_fits(state, x as int, y as int, *sizes),
    ensures
        blits@ == cat_hand_blits(state, x as int, y as int, *sizes),
        forall|i: int| 0 <= i < blits.len() ==> (#[trigger] blits[i]).plain(),
{
    proof {
        lemma_cat_hand_blits_plain(state, x as int, y as int, *sizes);
    }
    let (sprite, size) = match state {
        CatHandState::Attacking => (Sprite::CatHandOpen, sizes.cat_hand_open),
        CatHandState::Ready => (Sprite::CatHandClosed, sizes.cat_hand_closed),
        CatHandState::Retreating => (Sprite::CatHandClosed, sizes.cat_hand_closed),
    };
    let left = x - (size.width / 2) as i32;
    let hand = Blit { sprite, x: left, y: y - (size.height / 2) as i32, flags: 0 };
    let mut blits: Vec<Blit> = Vec::new();
    blits.push(hand);
    let step = sizes.cat_arm.height as i32;
    let mut cat_arm_y = y + (size.height / 2) as i32;
    let ghost top = cat_arm_y as int;
    let ghost mut k: int = 0;
    while cat_arm_y < SCREEN_SIZE
        invariant
            0 <= step <= u16::MAX,
            step > 0 || top >= SCREEN_SIZE,
            0 <= k,
            cat_arm_y == top + k * step,
            k > 0 ==> top + (k - 1) * step < SCREEN_SIZE,
            blits@ == seq![hand] + Seq::new(
                k as nat,
                |j: int| blit_at(Sprite::CatArm, left as int, top + j * step),
            ),
        decreases
                if cat_arm_y < SCREEN_SIZE {
                    SCREEN_SIZE - cat_arm_y
                } else {
                    0
                },
    {
        assert(step > 0) by (nonlinear_arith)
            requires
                cat_arm_y == top + k * step,
                cat_arm_y < SCREEN_SIZE,
                step > 0 || top >= SCREEN_SIZE,
                0 <= k,
                0 <= step,
        ;
        blits.push(Blit { sprite: Sprite::CatArm, x: left, y: cat_arm_y, flags: 0 });
        cat_arm_y += step;
        proof {
            assert((k + 1) * step == k * step + step) by (nonlinear_arith);
            k = k + 1;
            assert(blits@ =~= seq![hand] + Seq::new(
                k as nat,
                |j: int| blit_at(Sprite::CatArm, left as int, top + j * step),
            ));
        }
    }
    proof {
        if step > 0 {
            lemma_arm_count(top, step as int, k);
        } else {
            assert(k * step == 0) by (nonlinear_arith)
                requires
                    step == 0,
            ;
        }
        assert(k == arm_count(top, step as int));
        assert(blits@ =~= cat_hand_blits(state, x as int, y as int, *sizes));
    }
    blits
}

} // verus!
