//! The paddle that plays by itself: `"player2"` follows the ball.

use vstd::prelude::*;
use crate::input::slide_sprite;
use crate::sprite::{Size, Sprite};
use crate::units::{clamp_axis, distance};
use crate::world::World;

verus! {

/// The speed of the paddle that plays by itself, in world units per
/// millisecond.
pub const AI_SPEED: i64 = 300;

/// Twice the distance from the middle of the paddle down to the middle of
/// the ball. Doubling keeps the halves of odd heights exact.
pub open spec fn doubled_gap(paddle: Sprite, ball: Sprite) -> int {
    (2 * ball.pos.y + ball.size.height) - (2 * paddle.pos.y + paddle.size.height)
}

/// Whether the paddle moves at all: the middles are further apart than two
/// steps of the paddle.
pub open spec fn ai_acts(paddle: Sprite, ball: Sprite, dt: int) -> bool {
    let gap = doubled_gap(paddle, ball);
    (if gap < 0 { -gap } else { gap }) > 4 * (AI_SPEED * dt)
}

/// The step that the paddle takes where it moves: towards the ball.
pub open spec fn ai_step(paddle: Sprite, ball: Sprite, dt: int) -> int {
    if doubled_gap(paddle, ball) > 0 {
        AI_SPEED * dt
    } else {
        -(AI_SPEED * dt)
    }
}

/// The paddle after it had its turn.
pub open spec fn ai_moved(paddle: Sprite, ball: Sprite, dt: int, window: Size) -> Sprite {
    if ai_acts(paddle, ball, dt) {
        paddle.slid(ai_step(paddle, ball, dt), window)
    } else {
        paddle
    }
}

/// The sprites after the paddle `"player2"` had its turn.
pub open spec fn after_ai(sprites: Map<Seq<char>, Sprite>, window: Size, dt: int) -> Map<
    Seq<char>,
    Sprite,
> {
    if ai_acts(sprites["player2"@], sprites["ball"@], dt) {
        sprites.insert(
            "player2"@,
            sprites["player2"@].slid(ai_step(sprites["player2"@], sprites["ball"@], dt), window),
        )
    } else {
        sprites
    }
}

/// Twice the distance from the middle of the paddle down to the middle of
/// the ball.
pub fn gap_to_ball(paddle: &Sprite, ball: &Sprite) -> (gap: i128)
    ensures
        gap == doubled_gap(*paddle, *ball),
{
    (2 * (ball.pos.y as i128) + ball.size.height as i128) - (2 * (paddle.pos.y as i128)
        + paddle.size.height as i128)
}

/// Whether a paddle moves at all in a frame of `dt` milliseconds, given the
/// ball.
pub fn acts(paddle: &Sprite, ball: &Sprite, dt: i64) -> (moving: bool)
    ensures
        moving == ai_acts(*paddle, *ball, dt as int),
{
    let delta: i128 = distance(AI_SPEED, dt);
    let gap: i128 = gap_to_ball(paddle, ball);
    let away: i128 = if gap < 0 { -gap } else { gap };
    away > 4 * delta
}

/// Lets the paddle `"player2"` follow the ball `"ball"`. Where the middle of
/// the ball is more than two steps above or below the middle of the paddle,
/// the paddle takes one step towards it and is kept within the height of the
/// window; else it stays. Both sprites must be there, and a paddle that
/// moves must fit in the window.
pub fn calc_action(world: &mut World, dt: i64)
    requires
        old(world).wf(),
        old(world)@.dom().contains("player2"@),
        old(world)@.dom().contains("ball"@),
        ai_acts(old(world)@["player2"@], old(world)@["ball"@], dt as int) ==> old(
            world,
        )@["player2"@].size.height <= old(world).window.height,
    ensures
        final(world).wf(),
        final(world).window == old(world).window,
        final(world)@ == after_ai(old(world)@, old(world).window, dt as int),
{
    let myself = *world.get_sprite("player2");
    let ball = *world.get_sprite("ball");
    let delta: i128 = distance(AI_SPEED, dt);
    if acts(&myself, &ball, dt) {
        if gap_to_ball(&myself, &ball) > 0 {
            slide_sprite(world, "player2", delta);
        } else {
            slide_sprite(world, "player2", -delta);
        }
    }
}

/// A ball whose middle is more than two steps below the middle of the
/// paddle draws the paddle down by exactly one step, as far as the window
/// lets it go.
pub proof fn lemma_ai_moves_down(paddle: Sprite, ball: Sprite, dt: int, window: Size)
    requires
        dt >= 0,
        0 <= paddle.size.height <= window.height,
        doubled_gap(paddle, ball) > 4 * (AI_SPEED * dt),
    ensures
        ai_acts(paddle, ball, dt),
        ai_moved(paddle, ball, dt, window).pos.y == clamp_axis(
            paddle.pos.y + AI_SPEED * dt,
            window.height as int,
            paddle.size.height as int,
        ),
        0 <= paddle.pos.y + AI_SPEED * dt <= window.height - paddle.size.height ==> ai_moved(
            paddle,
            ball,
            dt,
            window,
        ).pos.y == paddle.pos.y + AI_SPEED * dt,
        ai_moved(paddle, ball, dt, window).pos.x == paddle.pos.x,
{
    assert(AI_SPEED * dt >= 0) by (nonlinear_arith)
        requires
            dt >= 0,
    ;
}

} // verus!
