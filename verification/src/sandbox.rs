//! A world to try the engine in: one sprite that the arrow keys steer, and
//! sprites that arrive from elsewhere and stay.

use vstd::prelude::*;
use crate::channel::{open, poll, signal};
use crate::sprite::{Color, Pos, Size, Sprite, Velocity};
use crate::sprite_data::SpriteData;
use crate::units::{distance, saturate, store};

verus! {

/// The speed of the steered sprite, in world units per millisecond.
pub const STEER_SPEED: i64 = 100;

/// The arrow keys that are down.
#[derive(Clone, Copy, Debug, PartialEq, Eq, Structural)]
pub struct Keys {
    pub right: bool,
    pub left: bool,
    pub up: bool,
    pub down: bool,
}

/// The steered sprite, and the other sprites in the order they arrived.
pub struct World {
    pub player_sprite: Sprite,
    pub sprites: Vec<Sprite>,
}

/// A sprite at rest.
pub open spec fn resting(pos: Pos, size: Size, color: Color) -> Sprite {
    Sprite { pos: pos, size: size, velocity: Velocity { dx: 0, dy: 0 }, color: color }
}

/// The position that the keys steer to from `pos` in a frame of `dt`
/// milliseconds: right, then left, then up, then down, by one step for each
/// key that is down.
pub open spec fn steered(pos: Pos, dt: int, keys: Keys) -> Pos {
    let step = STEER_SPEED * dt;
    let right = if keys.right { saturate(pos.x + step) } else { pos.x as int };
    let left = if keys.left { saturate(right - step) } else { right };
    let up = if keys.up { saturate(pos.y - step) } else { pos.y as int };
    let down = if keys.down { saturate(up + step) } else { up };
    Pos { x: left as i64, y: down as i64 }
}

/// The length of a frame, given the milliseconds that passed since the last
/// one: that many, but never fewer than 2.
pub open spec fn frame_length(elapsed_ms: int) -> int {
    if elapsed_ms < 2 {
        2
    } else {
        elapsed_ms
    }
}

/// The length of a frame as the steering reckons with it: no more than an
/// `i64` holds.
pub open spec fn steering_length(dt: int) -> int {
    if dt > i64::MAX {
        i64::MAX as int
    } else {
        dt
    }
}

impl World {
    /// A world with a steered sprite of no extent at the origin, and no
    /// other sprite.
    pub fn empty() -> (world: World)
        ensures
            world.player_sprite == resting(
                Pos { x: 0, y: 0 },
                Size { width: 0, height: 0 },
                Color { r: 0, g: 0, b: 0 },
            ),
            world.sprites@.len() == 0,
    {
        World {
            player_sprite: Sprite::new(
                Pos { x: 0, y: 0 },
                Velocity { dx: 0, dy: 0 },
                Color { r: 0, g: 0, b: 0 },
                Size { width: 0, height: 0 },
            ),
            sprites: Vec::new(),
        }
    }

    /// Replaces the steered sprite by a new one at rest.
    pub fn set_player_sprite(&mut self, pos: Pos, size: Size, color: Color)
        ensures
            final(self).player_sprite == resting(pos, size, color),
            final(self).sprites@ == old(self).sprites@,
    {
        self.player_sprite = Sprite::new(pos, Velocity { dx: 0, dy: 0 }, color, size);
    }

    /// Adds a sprite at rest behind those that are there.
    pub fn add_sprite(&mut self, pos: Pos, size: Size, color: Color)
        ensures
            final(self).player_sprite == old(self).player_sprite,
            final(self).sprites@ == old(self).sprites@.push(resting(pos, size, color)),
    {
        self.sprites.push(Sprite::new(pos, Velocity { dx: 0, dy: 0 }, color, size));
    }

    /// The steered sprite.
    pub fn get_player_sprite(&self) -> (sprite: &Sprite)
        ensures
            *sprite == self.player_sprite,
    {
        &self.player_sprite
    }

    /// The other sprites, in the order they arrived.
    pub fn get_sprites(&self) -> (sprites: &Vec<Sprite>)
        ensures
            sprites@ == self.sprites@,
    {
        &self.sprites
    }

    /// Moves the steered sprite by `dx` and `dy`.
    pub fn move_player(&mut self, dx: i64, dy: i64)
        ensures
            final(self).sprites@ == old(self).sprites@,
            final(self).player_sprite == old(self).player_sprite.placed(
                old(self).player_sprite.pos.shifted(Pos { x: dx, y: dy }),
            ),
    {
        self.player_sprite.move_pos(dx, dy);
    }
}

/// Steers the sprite of the player as the keys ask, for a frame of `dt`
/// milliseconds. With no key down nothing changes.
pub fn process_input(world: &mut World, dt: i64, keys: Keys)
    ensures
        final(world).sprites@ == old(world).sprites@,
        final(world).player_sprite == old(world).player_sprite.placed(
            steered(old(world).player_sprite.pos, dt as int, keys),
        ),
{
    let step: i128 = distance(STEER_SPEED, dt);
    let mut x: i64 = world.player_sprite.pos.x;
    let mut y: i64 = world.player_sprite.pos.y;
    if keys.right {
        x = store(x as i128 + step);
    }
    if keys.left {
        x = store(x as i128 - step);
    }
    if keys.up {
        y = store(y as i128 - step);
    }
    if keys.down {
        y = store(y as i128 + step);
    }
    world.player_sprite.set_pos(&Pos { x: x, y: y });
}

/// The game in the sandbox: its world, the length of the last frame in
/// milliseconds, and its ends of the two channels to the worker that
/// fetches sprites.
pub struct Game {
    pub world: World,
    pub dt: u128,
    /// Where the descriptions that the worker fetched arrive.
    pub rx: Option<crossbeam_channel::Receiver<SpriteData>>,
    /// Where the worker is told to stop.
    pub tx: Option<crossbeam_channel::Sender<()>>,
}

impl Game {
    /// A game with an empty world and no worker yet, reckoning with frames
    /// of 20 milliseconds until it has measured one.
    pub fn new() -> (game: Game)
        ensures
            game.dt == 20,
            game.rx is None,
            game.tx is None,
            game.world.sprites@.len() == 0,
            game.world.player_sprite == resting(
                Pos { x: 0, y: 0 },
                Size { width: 0, height: 0 },
                Color { r: 0, g: 0, b: 0 },
            ),
    {
        Game { world: World::empty(), dt: 20, rx: None, tx: None }
    }

    /// Opens the two channels to the worker and sets up the steered sprite:
    /// a red square of 100 pixels, 100 pixels from the top and from the
    /// left. Hands out the worker's ends of the channels: where it sends
    /// the descriptions it fetched, and where it hears that it is to stop.
    pub fn init(&mut self) -> (worker: (
        crossbeam_channel::Sender<SpriteData>,
        crossbeam_channel::Receiver<()>,
    ))
        ensures
            final(self).rx is Some,
            final(self).tx is Some,
            final(self).dt == old(self).dt,
            final(self).world.sprites@ == old(self).world.sprites@,
            final(self).world.player_sprite == resting(
                Pos { x: 100_000, y: 100_000 },
                Size { width: 100_000, height: 100_000 },
                Color { r: 255, g: 0, b: 0 },
            ),
    {
        let (stop_tx, stop_rx) = open::<()>();
        self.tx = Some(stop_tx);
        let (data_tx, data_rx) = open::<SpriteData>();
        self.rx = Some(data_rx);
        self.world.set_player_sprite(
            Pos { x: 100_000, y: 100_000 },
            Size { width: 100_000, height: 100_000 },
            Color { r: 255, g: 0, b: 0 },
        );
        (data_tx, stop_rx)
    }

    /// Plays one frame: `elapsed_ms` milliseconds have passed since the last
    /// one, and `keys` tells which arrow keys are down. The keys steer the
    /// sprite of the player. At most one description that the worker sent
    /// is taken from the channel, and its sprite joins the others; without
    /// a channel, or with nothing waiting in it, the others stay as they
    /// are.
    pub fn game_loop(&mut self, elapsed_ms: u128, keys: Keys)
        ensures
            final(self).rx == old(self).rx,
            final(self).tx == old(self).tx,
            final(self).dt == frame_length(elapsed_ms as int),
            final(self).world.player_sprite == old(self).world.player_sprite.placed(
                steered(
                    old(self).world.player_sprite.pos,
                    steering_length(frame_length(elapsed_ms as int)),
                    keys,
                ),
            ),
            final(self).world.sprites@ == old(self).world.sprites@ || exists|data: SpriteData|
                final(self).world.sprites@ == old(self).world.sprites@.push(data.as_sprite()),
            old(self).rx is None ==> final(self).world.sprites@ == old(self).world.sprites@,
    {
        let arrived = match &self.rx {
            Some(rx) => poll(rx),
            None => None,
        };
        self.play_frame(elapsed_ms, keys, arrived);
    }

    /// Plays one frame, given the description of a sprite that came in
    /// since the last one, if one did: the keys steer the sprite of the
    /// player, and the sprite that arrived joins the others.
    pub fn play_frame(&mut self, elapsed_ms: u128, keys: Keys, arrived: Option<SpriteData>)
        ensures
            final(self).rx == old(self).rx,
            final(self).tx == old(self).tx,
            final(self).dt == frame_length(elapsed_ms as int),
            final(self).world.player_sprite == old(self).world.player_sprite.placed(
                steered(
                    old(self).world.player_sprite.pos,
                    steering_length(frame_length(elapsed_ms as int)),
                    keys,
                ),
            ),
            final(self).world.sprites@ == match arrived {
                Some(data) => old(self).world.sprites@.push(data.as_sprite()),
                None => old(self).world.sprites@,
            },
    {
        self.dt = if elapsed_ms < 2 { 2 } else { elapsed_ms };
        let dt: i64 = if self.dt > i64::MAX as u128 { i64::MAX } else { self.dt as i64 };
        process_input(&mut self.world, dt, keys);
        match arrived {
            Some(data) => {
                self.world.sprites.push(data.to_sprite());
            },
            None => {},
        }
    }

    /// Ends the game: tells the worker to stop, if there is one. This always
    /// succeeds, whether or not the worker still listens.
    pub fn quit(self) -> (done: bool)
        ensures
            done,
    {
        match &self.tx {
            Some(tx) => {
                let _sent = signal(tx);
            },
            None => {},
        }
        true
    }
}

/// With no key down the steered sprite stays where it is.
pub proof fn lemma_no_key_no_steering(pos: Pos, dt: int)
    ensures
        steered(pos, dt, Keys { right: false, left: false, up: false, down: false }) == pos,
{
}

} // verus!
