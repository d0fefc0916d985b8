//! The geometry of the arena.
use vstd::prelude::*;

verus! {

/// Sub-pixels to the pixel; also the number of ticks in a second.
pub const SUBPIXELS_PER_PIXEL: i64 = 60;

/// The x coordinate of the center of the left wall.
pub const LEFT_WALL: i64 = -450 * SUBPIXELS_PER_PIXEL;

/// The x coordinate of the center of the right wall.
pub const RIGHT_WALL: i64 = 450 * SUBPIXELS_PER_PIXEL;

/// The y coordinate of the center of the bottom wall.
pub const BOTTOM_WALL: i64 = -300 * SUBPIXELS_PER_PIXEL;

/// The y coordinate of the center of the top wall.
pub const TOP_WALL: i64 = 300 * SUBPIXELS_PER_PIXEL;

/// Half the thickness of a wall.
pub const WALL_HALF_THICKNESS: i64 = 5 * SUBPIXELS_PER_PIXEL;

/// How thick each wall is.
pub const WALL_THICKNESS: i64 = 2 * WALL_HALF_THICKNESS;

} // verus!
