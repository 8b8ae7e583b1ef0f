//! The game of Pong: two paddles and a ball, frame by frame.

use vstd::prelude::*;
use crate::ai_player::{after_ai, ai_acts};
use crate::ball::{after_ball, next_direction, Ball};
use crate::input::after_keys;
use crate::sprite::{Color, Pos, Size, Sprite, Velocity};
use crate::world::World;

verus! {

/// The shortest frame that the game reckons with, in milliseconds.
pub const SHORTEST_FRAME: i64 = 2;

/// A game of Pong: the world with its sprites, and the ball's direction.
pub struct Game {
    pub world: World,
    pub ball: Ball,
}

/// The length of a frame, given the milliseconds that passed since the last
/// one: that many, but never fewer than [`SHORTEST_FRAME`], and never more
/// than an `i64` holds.
pub open spec fn frame_length(elapsed_ms: int) -> int {
    if elapsed_ms > i64::MAX {
        i64::MAX as int
    } else if elapsed_ms > SHORTEST_FRAME {
        elapsed_ms
    } else {
        SHORTEST_FRAME as int
    }
}

/// The left paddle as a new game sets it up.
pub open spec fn first_paddle() -> Sprite {
    Sprite {
        pos: Pos { x: 20_000, y: 100_000 },
        size: Size { width: 30_000, height: 200_000 },
        velocity: Velocity { dx: 0, dy: 0 },
        color: Color { r: 255, g: 255, b: 255 },
    }
}

/// The right paddle as a new game sets it up.
pub open spec fn second_paddle() -> Sprite {
    Sprite {
        pos: Pos { x: 974_000, y: 200_000 },
        size: Size { width: 30_000, height: 200_000 },
        velocity: Velocity { dx: 0, dy: 0 },
        color: Color { r: 255, g: 255, b: 255 },
    }
}

/// The ball as a new game sets it up.
pub open spec fn first_ball() -> Sprite {
    Sprite {
        pos: Pos { x: 482_000, y: 50_000 },
        size: Size { width: 30_000, height: 30_000 },
        velocity: Velocity { dx: 0, dy: 0 },
        color: Color { r: 255, g: 255, b: 255 },
    }
}

/// The sprites after one frame of `dt` milliseconds: the keys have their
/// say, then the paddle that plays by itself, then the ball.
pub open spec fn after_frame(
    sprites: Map<Seq<char>, Sprite>,
    window: Size,
    direction: i32,
    dt: int,
    up: bool,
    down: bool,
) -> Map<Seq<char>, Sprite> {
    after_ball(after_ai(after_keys(sprites, window, dt, up, down), window, dt), window, direction, dt)
}

/// The length of a frame, given the milliseconds that passed since the last
/// one.
pub fn calc_dt(elapsed_ms: u128) -> (dt: i64)
    ensures
        dt == frame_length(elapsed_ms as int),
{
    if elapsed_ms > i64::MAX as u128 {
        i64::MAX
    } else if elapsed_ms > 2 {
        elapsed_ms as i64
    } else {
        2
    }
}

impl Game {
    /// A game with an empty world and a ball that runs up.
    pub fn new() -> (game: Game)
        ensures
            game.world.wf(),
            game.world@ == Map::<Seq<char>, Sprite>::empty(),
            game.world.window == (Size { width: 1_024_000, height: 768_000 }),
            game.ball.direction == 0,
    {
        Game { world: World::empty(), ball: Ball { direction: 0 } }
    }

    /// Sets up the two paddles and the ball.
    pub fn init(&mut self)
        requires
            old(self).world.wf(),
        ensures
            final(self).world.wf(),
            final(self).world.window == old(self).world.window,
            final(self).ball == old(self).ball,
            final(self).world@ == old(self).world@.insert("player1"@, first_paddle()).insert(
                "player2"@,
                second_paddle(),
            ).insert("ball"@, first_ball()),
    {
        self.world.add_sprite(
            "player1",
            Pos { x: 20_000, y: 100_000 },
            Velocity { dx: 0, dy: 0 },
            Size { width: 30_000, height: 200_000 },
            Color { r: 255, g: 255, b: 255 },
        );
        self.world.add_sprite(
            "player2",
            Pos { x: 974_000, y: 200_000 },
            Velocity { dx: 0, dy: 0 },
            Size { width: 30_000, height: 200_000 },
            Color { r: 255, g: 255, b: 255 },
        );
        self.world.add_sprite(
            "ball",
            Pos { x: 482_000, y: 50_000 },
            Velocity { dx: 0, dy: 0 },
            Size { width: 30_000, height: 30_000 },
            Color { r: 255, g: 255, b: 255 },
        );
    }

    /// Whether a frame can be played: the three sprites are there, each
    /// under one name, and a paddle that would move fits in the window.
    pub open spec fn playable(&self, elapsed_ms: int, up: bool, down: bool) -> bool {
        let keyed = after_keys(self.world@, self.world.window, frame_length(elapsed_ms), up, down);
        &&& self.world.wf()
        &&& self.world@.dom().contains("player1"@)
        &&& self.world@.dom().contains("player2"@)
        &&& self.world@.dom().contains("ball"@)
        &&& (up || down ==> self.world@["player1"@].size.height <= self.world.window.height)
        &&& (ai_acts(keyed["player2"@], keyed["ball"@], frame_length(elapsed_ms))
            ==> keyed["player2"@].size.height <= self.world.window.height)
    }

    /// Tells whether a frame can be played.
    pub fn can_play(&self, elapsed_ms: u128, up: bool, down: bool) -> (ok: bool)
        ensures
            ok == self.playable(elapsed_ms as int, up, down),
    {
        if !self.world.is_well_formed() {
            return false;
        }
        if !self.world.contains_sprite("player1") || !self.world.contains_sprite("player2")
            || !self.world.contains_sprite("ball") {
            return false;
        }
        proof {
            reveal_strlit("player1");
            reveal_strlit("player2");
            reveal_strlit("ball");
            assert("player1"@.len() != "ball"@.len());
            assert("player1"@[6] != "player2"@[6]);
        }
        let dt: i64 = calc_dt(elapsed_ms);
        let first = *self.world.get_sprite("player1");
        let second = *self.world.get_sprite("player2");
        let ball = *self.world.get_sprite("ball");
        if (up || down) && first.size.height > self.world.window.height {
            return false;
        }
        !(crate::ai_player::acts(&second, &ball, dt) && second.size.height
            > self.world.window.height)
    }

    /// Plays one frame: `elapsed_ms` milliseconds have passed since the last
    /// one, and `up` and `down` tell which keys are down. The keys move the
    /// left paddle, the right paddle follows the ball, and the ball runs on.
    /// The three sprites must be there, and a paddle that moves must fit in
    /// the window.
    pub fn game_loop(&mut self, elapsed_ms: u128, up: bool, down: bool)
        requires
            old(self).playable(elapsed_ms as int, up, down),
        ensures
            final(self).world.wf(),
            final(self).world.window == old(self).world.window,
            final(self).world@.dom() == old(self).world@.dom(),
            final(self).world@ == after_frame(
                old(self).world@,
                old(self).world.window,
                old(self).ball.direction,
                frame_length(elapsed_ms as int),
                up,
                down,
            ),
            final(self).ball.direction == next_direction(
                old(self).ball.direction,
                after_ai(
                    after_keys(
                        old(self).world@,
                        old(self).world.window,
                        frame_length(elapsed_ms as int),
                        up,
                        down,
                    ),
                    old(self).world.window,
                    frame_length(elapsed_ms as int),
                )["ball"@],
                old(self).world.window,
            ),
    {
        let dt: i64 = calc_dt(elapsed_ms);
        crate::input::process(&mut self.world, dt, up, down);
        assert(self.world@.dom() =~= old(self).world@.dom());
        crate::ai_player::calc_action(&mut self.world, dt);
        assert(self.world@.dom() =~= old(self).world@.dom());
        self.ball.calc_action(&mut self.world, dt);
        assert(self.world@.dom() =~= old(self).world@.dom());
    }

    /// Ends the game. There is nothing to tidy up, so this always succeeds.
    pub fn quit(self) -> (done: bool)
        ensures
            done,
    {
        true
    }
}

} // verus!
