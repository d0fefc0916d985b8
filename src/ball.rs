//! The ball.
use vstd::prelude::*;

use crate::constants::SUBPIXELS_PER_PIXEL;
use crate::geometry::{Aabb, Vec2};

verus! {

/// Half the width and half the height of the ball.
pub const BALL_HALF_SIZE: i64 = 20 * SUBPIXELS_PER_PIXEL;

/// The horizontal component of the ball's starting velocity: 400 pixels per
/// second in the direction (5, 3), to the nearest whole pixel per second.
pub const BALL_START_VX: i64 = 343;

/// The vertical component of the ball's starting velocity.
pub const BALL_START_VY: i64 = 206;

/// The ball: its box and its velocity in sub-pixels per tick.
#[derive(Clone, Copy, Debug, PartialEq, Eq, Structural)]
pub struct Ball {
    pub body: Aabb,
    pub velocity: Vec2,
}

/// The ball before the first tick.
pub open spec fn spawn_ball_spec() -> Ball {
    Ball {
        body: Aabb {
            center: Vec2 { x: 0, y: 0 },
            half: Vec2 { x: BALL_HALF_SIZE, y: BALL_HALF_SIZE },
        },
        velocity: Vec2 { x: BALL_START_VX, y: BALL_START_VY },
    }
}

/// The ball as it stands before the first tick: centered, moving up and to
/// the right.
pub fn spawn_ball() -> (r: Ball)
    ensures
        r == spawn_ball_spec(),
        r.body.center == (Vec2 { x: 0, y: 0 }),
        r.body.half == (Vec2 { x: BALL_HALF_SIZE, y: BALL_HALF_SIZE }),
        r.velocity == (Vec2 { x: BALL_START_VX, y: BALL_START_VY }),
        r.velocity.negatable(),
{
    Ball {
        body: Aabb::new(Vec2::new(0, 0), Vec2::new(BALL_HALF_SIZE, BALL_HALF_SIZE)),
        velocity: Vec2::new(BALL_START_VX, BALL_START_VY),
    }
}

} // verus!
