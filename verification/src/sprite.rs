//! Sprites: the objects of the world, as plain data.

use vstd::prelude::*;
use crate::units::{saturate, advance, shift};

verus! {

/// An RGB colour.
#[derive(Clone, Copy, Debug, PartialEq, Eq, Structural)]
pub struct Color {
    pub r: i32,
    pub g: i32,
    pub b: i32,
}

/// A position in world units. The origin is the top left corner of the
/// window and `y` grows downwards.
#[derive(Clone, Copy, Debug, PartialEq, Eq, Structural)]
pub struct Pos {
    pub x: i64,
    pub y: i64,
}

/// A velocity in world units per millisecond.
#[derive(Clone, Copy, Debug, PartialEq, Eq, Structural)]
pub struct Velocity {
    pub dx: i64,
    pub dy: i64,
}

/// A width and a height in world units.
#[derive(Clone, Copy, Debug, PartialEq, Eq, Structural)]
pub struct Size {
    pub width: i64,
    pub height: i64,
}

/// An object of the world: a coloured box that moves.
#[derive(Clone, Copy, Debug, PartialEq, Eq, Structural)]
pub struct Sprite {
    pub pos: Pos,
    pub size: Size,
    pub velocity: Velocity,
    pub color: Color,
}

impl Pos {
    /// This position moved by `delta`, each coordinate saturating.
    pub open spec fn shifted(self, delta: Pos) -> Pos {
        Pos { x: saturate(self.x + delta.x) as i64, y: saturate(self.y + delta.y) as i64 }
    }
}

impl Sprite {
    /// The sprite after `dt` milliseconds of free movement.
    pub open spec fn moved(self, dt: int) -> Sprite {
        Sprite {
            pos: Pos {
                x: saturate(self.pos.x + dt * self.velocity.dx) as i64,
                y: saturate(self.pos.y + dt * self.velocity.dy) as i64,
            },
            ..self
        }
    }

    /// The sprite standing at `pos`.
    pub open spec fn placed(self, pos: Pos) -> Sprite {
        Sprite { pos: pos, ..self }
    }

    /// The sprite after the frames whose lengths `dts` lists, in order.
    pub open spec fn moved_through(self, dts: Seq<int>) -> Sprite
        decreases dts.len(),
    {
        if dts.len() == 0 {
            self
        } else {
            self.moved_through(dts.drop_last()).moved(dts.last())
        }
    }

    /// Makes a sprite from its four parts.
    pub fn new(pos: Pos, velocity: Velocity, color: Color, size: Size) -> (sprite: Sprite)
        ensures
            sprite == (Sprite { pos: pos, size: size, velocity: velocity, color: color }),
    {
        Sprite { pos: pos, size: size, velocity: velocity, color: color }
    }

    /// Puts the sprite at `pos`.
    pub fn set_pos(&mut self, pos: &Pos)
        ensures
            *final(self) == old(self).placed(*pos),
    {
        self.pos.x = pos.x;
        self.pos.y = pos.y;
    }

    /// Moves the sprite by `dx` and `dy`.
    pub fn move_pos(&mut self, dx: i64, dy: i64)
        ensures
            *final(self) == old(self).placed(old(self).pos.shifted(Pos { x: dx, y: dy })),
    {
        self.pos.x = shift(self.pos.x, dx);
        self.pos.y = shift(self.pos.y, dy);
    }

    /// Lets the sprite move freely for `dt` milliseconds.
    pub fn step(&mut self, dt: i64)
        ensures
            *final(self) == old(self).moved(dt as int),
    {
        self.pos.x = advance(self.pos.x, self.velocity.dx, dt);
        self.pos.y = advance(self.pos.y, self.velocity.dy, dt);
    }
}

/// A frame of free movement takes a sprite exactly `dt` times its velocity
/// further, wherever the new coordinates fit in an `i64`.
pub proof fn lemma_moved_is_exact(s: Sprite, dt: int)
    requires
        i64::MIN <= s.pos.x + dt * s.velocity.dx <= i64::MAX,
        i64::MIN <= s.pos.y + dt * s.velocity.dy <= i64::MAX,
    ensures
        s.moved(dt).pos.x == s.pos.x + dt * s.velocity.dx,
        s.moved(dt).pos.y == s.pos.y + dt * s.velocity.dy,
        s.moved(dt).size == s.size,
        s.moved(dt).velocity == s.velocity,
        s.moved(dt).color == s.color,
{
}

/// A sprite at rest stays where it is, however many frames pass and however
/// long each of them is.
pub proof fn lemma_rest_stays(s: Sprite, dts: Seq<int>)
    requires
        s.velocity.dx == 0,
        s.velocity.dy == 0,
    ensures
        s.moved_through(dts) == s,
    decreases dts.len(),
{
    if dts.len() > 0 {
        lemma_rest_stays(s, dts.drop_last());
        let dt = dts.last();
        assert(dt * 0 == 0) by (nonlinear_arith);
    }
}

} // verus!
