//! The fixed-step motion and collision core of a two-player Pong game.
//!
//! Lengths are whole sub-pixels, sixty to the pixel, and the simulation
//! advances in ticks of one sixtieth of a second. A speed of `s` pixels per
//! second therefore moves an entity by exactly `s` sub-pixels per tick, so
//! every velocity is stored as a displacement per tick and all arithmetic is
//! exact.
use vstd::prelude::*;

pub mod ball;
pub mod collision;
pub mod constants;
pub mod geometry;
pub mod movement;
pub mod player;
pub mod wall;
pub mod world;
