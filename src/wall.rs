//! The four walls around the arena.
use vstd::prelude::*;

use crate::constants::{BOTTOM_WALL, LEFT_WALL, RIGHT_WALL, TOP_WALL, WALL_THICKNESS};
use crate::geometry::{Aabb, Vec2};

verus! {

/// Which side of the arena a wall stands on.
#[derive(Clone, Copy, Debug, PartialEq, Eq, Structural)]
pub enum WallLocation {
    Left,
    Right,
    Bottom,
    Top,
}

impl WallLocation {
    /// The center of the wall.
    pub open spec fn position_spec(self) -> Vec2 {
        match self {
            WallLocation::Left => Vec2 { x: LEFT_WALL, y: 0 },
            WallLocation::Right => Vec2 { x: RIGHT_WALL, y: 0 },
            WallLocation::Bottom => Vec2 { x: 0, y: BOTTOM_WALL },
            WallLocation::Top => Vec2 { x: 0, y: TOP_WALL },
        }
    }

    /// The full width and height of the wall: the side walls span the
    /// arena's height and the others its width, each with one thickness
    /// more so that the corners are closed.
    pub open spec fn size_spec(self) -> Vec2 {
        match self {
            WallLocation::Left | WallLocation::Right => Vec2 {
                x: WALL_THICKNESS,
                y: (TOP_WALL - BOTTOM_WALL + WALL_THICKNESS) as i64,
            },
            WallLocation::Bottom | WallLocation::Top => Vec2 {
                x: (RIGHT_WALL - LEFT_WALL + WALL_THICKNESS) as i64,
                y: WALL_THICKNESS,
            },
        }
    }

    /// The wall's box: its center, and half its size.
    pub open spec fn collider_spec(self) -> Aabb {
        Aabb {
            center: self.position_spec(),
            half: Vec2 { x: (self.size_spec().x / 2) as i64, y: (self.size_spec().y / 2) as i64 },
        }
    }

    pub fn position(&self) -> (r: Vec2)
        ensures
            r == self.position_spec(),
    {
        match self {
            WallLocation::Left => Vec2::new(LEFT_WALL, 0),
            WallLocation::Right => Vec2::new(RIGHT_WALL, 0),
            WallLocation::Bottom => Vec2::new(0, BOTTOM_WALL),
            WallLocation::Top => Vec2::new(0, TOP_WALL),
        }
    }

    pub fn size(&self) -> (r: Vec2)
        ensures
            r == self.size_spec(),
            r.x > 0,
            r.y > 0,
    {
        let height = TOP_WALL - BOTTOM_WALL;
        let width = RIGHT_WALL - LEFT_WALL;
        match self {
            WallLocation::Left | WallLocation::Right => Vec2::new(
                WALL_THICKNESS,
                height + WALL_THICKNESS,
            ),
            WallLocation::Bottom | WallLocation::Top => Vec2::new(
                width + WALL_THICKNESS,
                WALL_THICKNESS,
            ),
        }
    }

    /// The wall's box.
    pub fn collider(&self) -> (r: Aabb)
        ensures
            r == self.collider_spec(),
            r.half.x * 2 == self.size_spec().x,
            r.half.y * 2 == self.size_spec().y,
    {
        let size = self.size();
        Aabb::new(self.position(), Vec2::new(size.x / 2, size.y / 2))
    }
}

/// The boxes of the left, right, bottom and top walls, in that order.
pub fn spawn_walls() -> (r: Vec<Aabb>)
    ensures
        r@.len() == 4,
        r@[0] == WallLocation::Left.collider_spec(),
        r@[1] == WallLocation::Right.collider_spec(),
        r@[2] == WallLocation::Bottom.collider_spec(),
        r@[3] == WallLocation::Top.collider_spec(),
{
    let mut walls: Vec<Aabb> = Vec::new();
    walls.push(WallLocation::Left.collider());
    walls.push(WallLocation::Right.collider());
    walls.push(WallLocation::Bottom.collider());
    walls.push(WallLocation::Top.collider());
    walls
}

} // verus!
