//! Advancing positions by velocity over a number of ticks.
use vstd::prelude::*;

use crate::geometry::Vec2;

verus! {

/// The coordinate `c` moved at `v` sub-pixels per tick for `dt` ticks.
pub open spec fn advanced(c: int, v: int, dt: int) -> int {
    c + v * dt
}

/// Both coordinates of `p` moved at `v` for `dt` ticks fit in an `i64`.
pub open spec fn advance_fits(p: Vec2, v: Vec2, dt: int) -> bool {
    &&& i64::MIN <= advanced(p.x as int, v.x as int, dt) <= i64::MAX
    &&& i64::MIN <= advanced(p.y as int, v.y as int, dt) <= i64::MAX
}

fn advance(c: i64, v: i64, dt: i64) -> (r: i64)
    requires
        i64::MIN <= advanced(c as int, v as int, dt as int) <= i64::MAX,
    ensures
        r == advanced(c as int, v as int, dt as int),
{
    let r = c as i128 + (v as i128) * (dt as i128);
    r as i64
}

/// Moves `p` by `v * dt`.
pub fn apply_velocity(p: &mut Vec2, v: Vec2, dt: i64)
    requires
        advance_fits(*old(p), v, dt as int),
    ensures
        final(p).x == advanced(old(p).x as int, v.x as int, dt as int),
        final(p).y == advanced(old(p).y as int, v.y as int, dt as int),
{
    let x = advance(p.x, v.x, dt);
    let y = advance(p.y, v.y, dt);
    p.x = x;
    p.y = y;
}

} // verus!
