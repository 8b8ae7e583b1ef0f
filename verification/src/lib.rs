//! A small 2D sprite world with a Pong game on top of it.
//!
//! Every length is a whole number of world units, [`units::UNITS_PER_PIXEL`]
//! of them to a pixel, and every time span a whole number of milliseconds, so
//! that the arithmetic of the game is exact. A stored coordinate that would
//! leave the range of `i64` stays at the nearest end of that range.
//!
//! The library holds the state and the rules of the game. Drawing, the
//! keyboard and the clock belong to the program around it, which hands in
//! key states and elapsed time and draws the sprites it finds in the world.
//!
//! - [`units`]: arithmetic on world units.
//! - [`sprite`]: sprites and their parts.
//! - [`world`]: the sprites of a game by name, and the window.
//! - [`movement`]: free movement, and collisions with sprites and borders.
//! - [`input`], [`ai_player`], [`ball`]: what moves the two paddles and the
//!   ball of Pong; [`game`] plays them frame by frame.
//! - [`sandbox`]: a steered sprite among sprites that a worker fetches, with
//!   [`sprite_data`] for what the worker brings and [`channel`] for the way
//!   it comes.
//! - [`engine`]: the rules of the smallest program on the engine.

pub mod units;
pub mod sprite;
pub mod world;
pub mod movement;
pub mod input;
pub mod ai_player;
pub mod ball;
pub mod game;
pub mod engine;
pub mod sprite_data;
pub mod channel;
pub mod sandbox;
