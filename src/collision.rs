//! Classifying an overlap of the ball with a collider and reflecting the
//! ball's velocity accordingly.
use vstd::prelude::*;

use crate::geometry::{Aabb, Vec2};

verus! {

/// Which edge of the static box the moving box struck.
#[derive(Clone, Copy, Debug, PartialEq, Eq, Structural)]
pub enum Collision {
    Left,
    Right,
    Top,
    Bottom,
    Inside,
}

/// How the interval `[a_lo, a_hi]` meets the interval `[b_lo, b_hi]`.
#[derive(Clone, Copy, Debug, PartialEq, Eq, Structural)]
pub enum Crossing {
    /// It straddles the low end of `b` and ends inside it.
    Low,
    /// It starts inside `b` and straddles its high end.
    High,
    /// Neither: it lies within `b`, covers it, or touches an end exactly.
    Through,
}

pub open spec fn crossing(a_lo: int, a_hi: int, b_lo: int, b_hi: int) -> Crossing {
    if a_lo < b_lo && a_hi > b_lo && a_hi < b_hi {
        Crossing::Low
    } else if a_lo > b_lo && a_lo < b_hi && a_hi > b_hi {
        Crossing::High
    } else {
        Crossing::Through
    }
}

/// How deep `a` reaches past the crossed end of `b`; `None` stands for an
/// unbounded depth, which loses every comparison.
pub open spec fn penetration(a_lo: int, a_hi: int, b_lo: int, b_hi: int) -> Option<int> {
    match crossing(a_lo, a_hi, b_lo, b_hi) {
        Crossing::Low => Some(a_hi - b_lo),
        Crossing::High => Some(b_hi - a_lo),
        Crossing::Through => None,
    }
}

/// The vertical edge decides when it was crossed less deeply than the
/// horizontal one; on a tie the horizontal edge decides.
pub open spec fn vertical_first(x_depth: Option<int>, y_depth: Option<int>) -> bool {
    match (x_depth, y_depth) {
        (_, None) => false,
        (None, Some(_)) => true,
        (Some(dx), Some(dy)) => dy < dx,
    }
}

/// The edge of `b` that `a` struck, or `None` where the boxes do not overlap.
pub open spec fn collision_of(a: Aabb, b: Aabb) -> Option<Collision> {
    if !a.overlaps(b) {
        None
    } else {
        let xc = crossing(a.min_x(), a.max_x(), b.min_x(), b.max_x());
        let yc = crossing(a.min_y(), a.max_y(), b.min_y(), b.max_y());
        let dx = penetration(a.min_x(), a.max_x(), b.min_x(), b.max_x());
        let dy = penetration(a.min_y(), a.max_y(), b.min_y(), b.max_y());
        if vertical_first(dx, dy) {
            Some(
                match yc {
                    Crossing::Low => Collision::Bottom,
                    Crossing::High => Collision::Top,
                    Crossing::Through => Collision::Inside,
                },
            )
        } else {
            Some(
                match xc {
                    Crossing::Low => Collision::Left,
                    Crossing::High => Collision::Right,
                    Crossing::Through => Collision::Inside,
                },
            )
        }
    }
}

/// The velocity after a hit of the given kind: a component is negated only
/// where it points into the struck edge.
pub open spec fn reflected(v: Vec2, c: Collision) -> Vec2 {
    match c {
        Collision::Left => if v.x > 0 { Vec2 { x: (-v.x) as i64, y: v.y } } else { v },
        Collision::Right => if v.x < 0 { Vec2 { x: (-v.x) as i64, y: v.y } } else { v },
        Collision::Top => if v.y < 0 { Vec2 { x: v.x, y: (-v.y) as i64 } } else { v },
        Collision::Bottom => if v.y > 0 { Vec2 { x: v.x, y: (-v.y) as i64 } } else { v },
        Collision::Inside => v,
    }
}

/// The velocity after the hit, if any, of `ball` on `other`.
pub open spec fn bounced(ball: Aabb, v: Vec2, other: Aabb) -> Vec2 {
    match collision_of(ball, other) {
        Some(c) => reflected(v, c),
        None => v,
    }
}

/// The velocity after testing `ball` against each of `others` in turn.
pub open spec fn bounced_all(ball: Aabb, v: Vec2, others: Seq<Aabb>) -> Vec2
    decreases others.len(),
{
    if others.len() == 0 {
        v
    } else {
        bounced(ball, bounced_all(ball, v, others.drop_last()), others.last())
    }
}

fn crossing_of(a_lo: i128, a_hi: i128, b_lo: i128, b_hi: i128) -> (r: (Crossing, i128))
    requires
        -0x1_0000_0000_0000_0000 <= a_lo <= 0x1_0000_0000_0000_0000,
        -0x1_0000_0000_0000_0000 <= a_hi <= 0x1_0000_0000_0000_0000,
        -0x1_0000_0000_0000_0000 <= b_lo <= 0x1_0000_0000_0000_0000,
        -0x1_0000_0000_0000_0000 <= b_hi <= 0x1_0000_0000_0000_0000,
    ensures
        r.0 == crossing(a_lo as int, a_hi as int, b_lo as int, b_hi as int),
        penetration(a_lo as int, a_hi as int, b_lo as int, b_hi as int) matches Some(d) ==> d
            == r.1,
{
    if a_lo < b_lo && a_hi > b_lo && a_hi < b_hi {
        (Crossing::Low, a_hi - b_lo)
    } else if a_lo > b_lo && a_lo < b_hi && a_hi > b_hi {
        (Crossing::High, b_hi - a_lo)
    } else {
        (Crossing::Through, 0)
    }
}

/// Classifies the hit of the moving box `a` on the static box `b`.
pub fn collide(a: &Aabb, b: &Aabb) -> (r: Option<Collision>)
    ensures
        r == collision_of(*a, *b),
{
    if !a.intersects(b) {
        return None;
    }
    let (xc, dx) = crossing_of(
        a.center.x as i128 - a.half.x as i128,
        a.center.x as i128 + a.half.x as i128,
        b.center.x as i128 - b.half.x as i128,
        b.center.x as i128 + b.half.x as i128,
    );
    let (yc, dy) = crossing_of(
        a.center.y as i128 - a.half.y as i128,
        a.center.y as i128 + a.half.y as i128,
        b.center.y as i128 - b.half.y as i128,
        b.center.y as i128 + b.half.y as i128,
    );
    let vertical = match (xc, yc) {
        (_, Crossing::Through) => false,
        (Crossing::Through, _) => true,
        _ => dy < dx,
    };
    if vertical {
        Some(
            match yc {
                Crossing::Low => Collision::Bottom,
                Crossing::High => Collision::Top,
                Crossing::Through => Collision::Inside,
            },
        )
    } else {
        Some(
            match xc {
                Crossing::Low => Collision::Left,
                Crossing::High => Collision::Right,
                Crossing::Through => Collision::Inside,
            },
        )
    }
}

/// Reflects `v` off the struck edge, negating a component only where it
/// points into that edge.
pub fn reflect(v: Vec2, c: Collision) -> (r: Vec2)
    requires
        v.negatable(),
    ensures
        r == reflected(v, c),
        r.negatable(),
{
    match c {
        Collision::Left => if v.x > 0 { Vec2 { x: -v.x, y: v.y } } else { v },
        Collision::Right => if v.x < 0 { Vec2 { x: -v.x, y: v.y } } else { v },
        Collision::Top => if v.y < 0 { Vec2 { x: v.x, y: -v.y } } else { v },
        Collision::Bottom => if v.y > 0 { Vec2 { x: v.x, y: -v.y } } else { v },
        Collision::Inside => v,
    }
}

/// Tests `ball` against every collider in order and reflects `v` once for
/// each hit; reflections on different colliders accumulate.
pub fn check_collisions(ball: &Aabb, v: Vec2, colliders: &Vec<Aabb>) -> (r: Vec2)
    requires
        v.negatable(),
    ensures
        r == bounced_all(*ball, v, colliders@),
        r.negatable(),
{
    let mut cur = v;
    let mut i: usize = 0;
    while i < colliders.len()
        invariant
            i <= colliders@.len(),
            cur == bounced_all(*ball, v, colliders@.subrange(0, i as int)),
            cur.negatable(),
        decreases colliders@.len() - i,
    {
        let next = match collide(ball, &colliders[i]) {
            Some(c) => reflect(cur, c),
            None => cur,
        };
        proof {
            let s = colliders@.subrange(0, i as int + 1);
            assert(s.drop_last() =~= colliders@.subrange(0, i as int));
            assert(s.last() == colliders@[i as int]);
        }
        cur = next;
        i = i + 1;
    }
    proof {
        assert(colliders@.subrange(0, colliders@.len() as int) =~= colliders@);
    }
    cur
}

/// A hit on an edge negates the velocity component that points into that
/// edge and leaves every other component as it was: after a `Left` hit the
/// horizontal component is at most zero if it was positive, and unchanged
/// otherwise; likewise for `Right`, `Top` and `Bottom`.
pub proof fn lemma_reflection_sign(v: Vec2, c: Collision)
    requires
        v.negatable(),
    ensures
        c == Collision::Left ==> reflected(v, c).y == v.y && (v.x > 0 ==> reflected(v, c).x
            == -v.x && reflected(v, c).x <= 0) && (v.x <= 0 ==> reflected(v, c) == v),
        c == Collision::Right ==> reflected(v, c).y == v.y && (v.x < 0 ==> reflected(v, c).x
            == -v.x && reflected(v, c).x >= 0) && (v.x >= 0 ==> reflected(v, c) == v),
        c == Collision::Top ==> reflected(v, c).x == v.x && (v.y < 0 ==> reflected(v, c).y
            == -v.y && reflected(v, c).y >= 0) && (v.y >= 0 ==> reflected(v, c) == v),
        c == Collision::Bottom ==> reflected(v, c).x == v.x && (v.y > 0 ==> reflected(v, c).y
            == -v.y && reflected(v, c).y <= 0) && (v.y <= 0 ==> reflected(v, c) == v),
{
}

/// Reflecting off any edge keeps the speed: the squared length of the
/// velocity is the same before and after.
pub proof fn lemma_speed_preserved(v: Vec2, c: Collision)
    requires
        v.negatable(),
    ensures
        reflected(v, c).sq_len() == v.sq_len(),
{
    assert((-v.x) * (-v.x) == v.x * v.x) by (nonlinear_arith);
    assert((-v.y) * (-v.y) == v.y * v.y) by (nonlinear_arith);
}

/// An `Inside` classification never changes the velocity.
pub proof fn lemma_inside_keeps_velocity(v: Vec2)
    ensures
        reflected(v, Collision::Inside) == v,
{
}

} // verus!
