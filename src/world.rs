//! The whole arena and the fixed-step pipeline that advances it.
use vstd::prelude::*;

use crate::ball::{spawn_ball, spawn_ball_spec, Ball};
use crate::collision::{bounced_all, check_collisions};
use crate::geometry::Aabb;
use crate::movement::{advance_fits, advanced, apply_velocity};
use crate::player::{paddle_movement, spawn_paddles, Key, PlayerBundle};
use crate::wall::spawn_walls;

verus! {

/// The ball, the paddles and the walls.
pub struct World {
    pub ball: Ball,
    pub paddles: Vec<PlayerBundle>,
    pub walls: Vec<Aabb>,
}

impl World {
    /// Every box the ball bounces off: the walls, then the paddles.
    pub open spec fn colliders(self) -> Seq<Aabb> {
        self.walls@ + self.paddles@.map_values(|p: PlayerBundle| p.body)
    }

    /// The arena before the first tick.
    pub fn new() -> (r: World)
        ensures
            r.ball == spawn_ball_spec(),
            r.paddles@.len() == 2,
            r.walls@.len() == 4,
            r.ball.velocity.negatable(),
    {
        World { ball: spawn_ball(), paddles: spawn_paddles(), walls: spawn_walls() }
    }

    /// The boxes of `colliders`, in the same order.
    pub fn collider_boxes(&self) -> (r: Vec<Aabb>)
        ensures
            r@ == self.colliders(),
    {
        let mut r: Vec<Aabb> = Vec::new();
        let mut i: usize = 0;
        while i < self.walls.len()
            invariant
                0 <= i <= self.walls@.len(),
                r@ == self.walls@.subrange(0, i as int),
            decreases self.walls@.len() - i,
        {
            r.push(self.walls[i]);
            i = i + 1;
        }
        let mut j: usize = 0;
        while j < self.paddles.len()
            invariant
                0 <= j <= self.paddles@.len(),
                r@ == self.walls@ + self.paddles@.subrange(0, j as int).map_values(
                    |p: PlayerBundle| p.body,
                ),
            decreases self.paddles@.len() - j,
        {
            r.push(self.paddles[j].body);
            proof {
                assert(self.paddles@.subrange(0, j as int + 1).map_values(|p: PlayerBundle| p.body)
                    =~= self.paddles@.subrange(0, j as int).map_values(|p: PlayerBundle| p.body).push(
                    self.paddles@[j as int].body,
                ));
            }
            j = j + 1;
        }
        proof {
            assert(self.paddles@.subrange(0, self.paddles@.len() as int) =~= self.paddles@);
        }
        r
    }

    /// Records that `key` is held or released: each paddle bound to the key
    /// gets the key's action set accordingly.
    pub fn key_input(&mut self, key: Key, held: bool)
        ensures
            final(self).ball == old(self).ball,
            final(self).walls == old(self).walls,
            final(self).paddles@.len() == old(self).paddles@.len(),
            forall|i: int|
                0 <= i < old(self).paddles@.len() ==> {
                    let p = old(self).paddles@[i];
                    let q = #[trigger] final(self).paddles@[i];
                    &&& q.side == p.side
                    &&& q.body == p.body
                    &&& key == p.side.movement_keys_spec().0 ==> q.input.up == held && q.input.down
                        == p.input.down
                    &&& key == p.side.movement_keys_spec().1 && key != p.side.movement_keys_spec().0
                        ==> q.input.down == held && q.input.up == p.input.up
                    &&& key != p.side.movement_keys_spec().0 && key
                        != p.side.movement_keys_spec().1 ==> q.input == p.input
                },
    {
        let mut i: usize = 0;
        while i < self.paddles.len()
            invariant
                self.ball == old(self).ball,
                self.walls == old(self).walls,
                self.paddles@.len() == old(self).paddles@.len(),
                0 <= i <= self.paddles@.len(),
                forall|j: int|
                    0 <= j < i ==> {
                        let p = old(self).paddles@[j];
                        let q = #[trigger] self.paddles@[j];
                        &&& q.side == p.side
                        &&& q.body == p.body
                        &&& key == p.side.movement_keys_spec().0 ==> q.input.up == held
                            && q.input.down == p.input.down
                        &&& key == p.side.movement_keys_spec().1 && key
                            != p.side.movement_keys_spec().0 ==> q.input.down == held && q.input.up
                            == p.input.up
                        &&& key != p.side.movement_keys_spec().0 && key
                            != p.side.movement_keys_spec().1 ==> q.input == p.input
                    },
                forall|j: int| i <= j < self.paddles@.len() ==> #[trigger] self.paddles@[j] == old(
                    self,
                ).paddles@[j],
            decreases self.paddles@.len() - i,
        {
            let mut p = self.paddles[i];
            match p.side.action_for(key) {
                Some(a) => p.input.set(a, held),
                None => {},
            }
            self.paddles.set(i, p);
            i = i + 1;
        }
    }

    /// Advances the arena by `dt` ticks: the ball moves by its velocity,
    /// then each paddle by its player's intent within bounds, then the ball
    /// is tested against every collider at the new positions and its
    /// velocity reflected for each hit.
    pub fn tick(&mut self, dt: i64)
        requires
            advance_fits(old(self).ball.body.center, old(self).ball.velocity, dt as int),
            old(self).ball.velocity.negatable(),
        ensures
            final(self).ball.body.center.x == advanced(
                old(self).ball.body.center.x as int,
                old(self).ball.velocity.x as int,
                dt as int,
            ),
            final(self).ball.body.center.y == advanced(
                old(self).ball.body.center.y as int,
                old(self).ball.velocity.y as int,
                dt as int,
            ),
            final(self).ball.body.half == old(self).ball.body.half,
            final(self).paddles@ == old(self).paddles@.map_values(
                |p: PlayerBundle| p.moved(dt as int),
            ),
            final(self).walls == old(self).walls,
            final(self).ball.velocity == bounced_all(
                final(self).ball.body,
                old(self).ball.velocity,
                final(self).colliders(),
            ),
            final(self).ball.velocity.negatable(),
    {
        let v = self.ball.velocity;
        apply_velocity(&mut self.ball.body.center, v, dt);
        paddle_movement(&mut self.paddles, dt);
        proof {
            assert(self.paddles@ =~= old(self).paddles@.map_values(
                |p: PlayerBundle| p.moved(dt as int),
            ));
        }
        let boxes = self.collider_boxes();
        self.ball.velocity = check_collisions(&self.ball.body, v, &boxes);
    }
}

} // verus!
