//! Keyboard control of the left paddle.

use vstd::prelude::*;
use crate::sprite::{Pos, Size, Sprite};
use crate::units::{clamp_axis, clamp_wide, distance, saturate};
use crate::world::World;

verus! {

/// The speed of a paddle that the keyboard moves, in world units per
/// millisecond.
pub const PLAYER_SPEED: i64 = 300;

impl Sprite {
    /// The sprite slid by `step` along the vertical axis and kept within the
    /// height of the window.
    pub open spec fn slid(self, step: int, window: Size) -> Sprite {
        Sprite {
            pos: Pos {
                x: self.pos.x,
                y: saturate(
                    clamp_axis(self.pos.y + step, window.height as int, self.size.height as int),
                ) as i64,
            },
            ..self
        }
    }
}

/// The sprites after the keys had their say: the paddle `"player1"` slides
/// up where the up key is down, and then down where the down key is.
pub open spec fn after_keys(
    sprites: Map<Seq<char>, Sprite>,
    window: Size,
    dt: int,
    up: bool,
    down: bool,
) -> Map<Seq<char>, Sprite> {
    let raised = if up {
        sprites.insert("player1"@, sprites["player1"@].slid(-(PLAYER_SPEED * dt), window))
    } else {
        sprites
    };
    if down {
        raised.insert("player1"@, raised["player1"@].slid(PLAYER_SPEED * dt, window))
    } else {
        raised
    }
}

/// Slides the sprite under `name` by `step` along the vertical axis and
/// keeps it within the height of the window.
pub fn slide_sprite(world: &mut World, name: &str, step: i128)
    requires
        old(world).wf(),
        old(world)@.dom().contains(name@),
        -0x10_0000_0000_0000_0000_0000 <= step <= 0x10_0000_0000_0000_0000_0000,
    ensures
        final(world).wf(),
        final(world).window == old(world).window,
        final(world)@ == old(world)@.insert(
            name@,
            old(world)@[name@].slid(step as int, old(world).window),
        ),
{
    let sprite = *world.get_sprite(name);
    let y: i64 = clamp_wide(sprite.pos.y as i128 + step, world.window.height, sprite.size.height);
    world.set_sprite_pos(name, Pos { x: sprite.pos.x, y: y });
}

/// Moves the paddle `"player1"` as the keys ask: up by the distance that
/// `dt` milliseconds allow where `up` is set, then down by as much where
/// `down` is set, each time kept within the height of the window. With no
/// key down nothing changes; with one down the paddle must be there and fit
/// in the window.
pub fn process(world: &mut World, dt: i64, up: bool, down: bool)
    requires
        old(world).wf(),
        up || down ==> old(world)@.dom().contains("player1"@) && old(
            world,
        )@["player1"@].size.height <= old(world).window.height,
    ensures
        final(world).wf(),
        final(world).window == old(world).window,
        final(world)@ == after_keys(old(world)@, old(world).window, dt as int, up, down),
{
    let dist: i128 = distance(PLAYER_SPEED, dt);
    if up {
        slide_sprite(world, "player1", -dist);
    }
    if down {
        slide_sprite(world, "player1", dist);
    }
}

/// With no key down the world stays as it is.
pub proof fn lemma_no_key_no_change(sprites: Map<Seq<char>, Sprite>, window: Size, dt: int)
    ensures
        after_keys(sprites, window, dt, false, false) == sprites,
{
}

} // verus!
