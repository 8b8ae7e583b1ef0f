//! The ball of the early game: it runs up and down between the top and the
//! bottom of the window.

use vstd::prelude::*;
use crate::sprite::{Pos, Size, Sprite};
use crate::units::{distance, saturate, store};
use crate::world::World;

verus! {

/// The speed of the ball, in world units per millisecond.
pub const BALL_SPEED: i64 = 100;

/// The way the ball runs: `direction` is 0 while it runs up, and anything
/// else while it runs down.
#[derive(Clone, Copy, Debug, PartialEq, Eq, Structural)]
pub struct Ball {
    pub direction: i32,
}

/// Whether the ball turns round in this frame: it runs up and has reached
/// the top, or it runs down and has reached the bottom.
pub open spec fn ball_turns(direction: i32, ball: Sprite, window: Size) -> bool {
    if direction == 0 {
        ball.pos.y <= 0
    } else {
        ball.pos.y >= window.height
    }
}

/// The direction of the ball after a frame.
pub open spec fn next_direction(direction: i32, ball: Sprite, window: Size) -> i32 {
    if ball_turns(direction, ball, window) {
        if direction == 0 {
            1
        } else {
            0
        }
    } else {
        direction
    }
}

/// The step that a ball takes in a frame in which it does not turn.
pub open spec fn ball_step(direction: i32, dt: int) -> Pos {
    Pos {
        x: 0,
        y: if direction == 0 {
            saturate(-(BALL_SPEED * dt)) as i64
        } else {
            saturate(BALL_SPEED * dt) as i64
        },
    }
}

/// The sprites after the ball had its turn.
pub open spec fn after_ball(
    sprites: Map<Seq<char>, Sprite>,
    window: Size,
    direction: i32,
    dt: int,
) -> Map<Seq<char>, Sprite> {
    if ball_turns(direction, sprites["ball"@], window) {
        sprites
    } else {
        sprites.insert(
            "ball"@,
            sprites["ball"@].placed(sprites["ball"@].pos.shifted(ball_step(direction, dt))),
        )
    }
}

impl Ball {
    /// Moves the sprite `"ball"` for one frame. A ball that runs up and is
    /// below the top takes a step up; one that has reached the top stays and
    /// runs down from the next frame on. A ball that runs down does the same
    /// towards the bottom of the window.
    pub fn calc_action(&mut self, world: &mut World, dt: i64)
        requires
            old(world).wf(),
            old(world)@.dom().contains("ball"@),
        ensures
            final(world).wf(),
            final(world).window == old(world).window,
            final(self).direction == next_direction(
                old(self).direction,
                old(world)@["ball"@],
                old(world).window,
            ),
            final(world)@ == after_ball(
                old(world)@,
                old(world).window,
                old(self).direction,
                dt as int,
            ),
    {
        let ball = *world.get_sprite("ball");
        let step: i128 = distance(BALL_SPEED, dt);
        if self.direction == 0 {
            if ball.pos.y > 0 {
                world.move_sprite("ball", Pos { x: 0, y: store(-step) });
            } else {
                self.direction = 1;
            }
        } else {
            if ball.pos.y < world.window.height {
                world.move_sprite("ball", Pos { x: 0, y: store(step) });
            } else {
                self.direction = 0;
            }
        }
    }
}

} // verus!
