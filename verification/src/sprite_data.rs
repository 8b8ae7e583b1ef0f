//! The description of a sprite as a remote service hands it out, and what
//! becomes of one attempt to fetch it.

use vstd::prelude::*;
use crate::sprite::{Color, Pos, Size, Sprite, Velocity};
use crate::units::{px, UNITS_PER_PIXEL};

verus! {

/// The description of a sprite: its extent in whole pixels, its place in
/// world units, and its colour.
#[derive(Clone, Copy, Debug, PartialEq, Eq, Structural)]
pub struct SpriteData {
    /// The width in pixels.
    pub width: i32,
    /// The height in pixels.
    pub height: i32,
    /// The horizontal position in world units.
    pub x: i64,
    /// The vertical position in world units.
    pub y: i64,
    /// The red part of the colour.
    pub r: i32,
    /// The green part of the colour.
    pub g: i32,
    /// The blue part of the colour.
    pub b: i32,
}

/// How one attempt to fetch a description ended.
#[derive(Clone, Copy, Debug, PartialEq, Eq, Structural)]
pub enum FetchOutcome {
    /// The request itself failed.
    DownloadFailed,
    /// An answer came, but its text could not be read.
    BodyUnreadable,
    /// The text was read, but it does not describe a sprite.
    Malformed,
    /// A description came.
    Fetched(SpriteData),
}

impl SpriteData {
    /// The sprite that this description stands for: at rest, at the place
    /// and with the extent and colour described.
    pub open spec fn as_sprite(self) -> Sprite {
        Sprite {
            pos: Pos { x: self.x, y: self.y },
            size: Size {
                width: (self.width * UNITS_PER_PIXEL) as i64,
                height: (self.height * UNITS_PER_PIXEL) as i64,
            },
            velocity: Velocity { dx: 0, dy: 0 },
            color: Color { r: self.r, g: self.g, b: self.b },
        }
    }

    /// Makes the sprite that this description stands for.
    pub fn to_sprite(&self) -> (sprite: Sprite)
        ensures
            sprite == self.as_sprite(),
    {
        Sprite::new(
            Pos { x: self.x, y: self.y },
            Velocity { dx: 0, dy: 0 },
            Color { r: self.r, g: self.g, b: self.b },
            Size { width: px(self.width), height: px(self.height) },
        )
    }
}

/// Turns the end of one attempt into the description that came, or into the
/// message that tells at which step the attempt failed.
pub fn get_new_sprite_data(outcome: FetchOutcome) -> (result: Result<SpriteData, String>)
    ensures
        match outcome {
            FetchOutcome::Fetched(data) => result == Ok::<SpriteData, String>(data),
            FetchOutcome::Malformed => result is Err && result->Err_0@
                == "Error parsing sprite data"@,
            FetchOutcome::BodyUnreadable => result is Err && result->Err_0@
                == "Error parsing json string"@,
            FetchOutcome::DownloadFailed => result is Err && result->Err_0@
                == "Error downloading json string"@,
        },
{
    match outcome {
        FetchOutcome::Fetched(data) => Ok(data),
        FetchOutcome::Malformed => Err("Error parsing sprite data".to_owned()),
        FetchOutcome::BodyUnreadable => Err("Error parsing json string".to_owned()),
        FetchOutcome::DownloadFailed => Err("Error downloading json string".to_owned()),
    }
}

} // verus!
