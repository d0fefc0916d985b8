//! The paddles and the controller that moves them.
use vstd::prelude::*;

use crate::constants::{BOTTOM_WALL, SUBPIXELS_PER_PIXEL, TOP_WALL, WALL_HALF_THICKNESS};
use crate::geometry::{Aabb, Vec2};

verus! {

/// How close a paddle can get to a wall.
pub const PADDLE_PADDING: i64 = 10 * SUBPIXELS_PER_PIXEL;

/// How fast a paddle moves while a key is held, in pixels per second
/// (sub-pixels per tick).
pub const PADDLE_SPEED: i64 = 900;

/// Half the width of a paddle.
pub const PADDLE_HALF_WIDTH: i64 = 10 * SUBPIXELS_PER_PIXEL;

/// Half the height of a paddle.
pub const PADDLE_HALF_HEIGHT: i64 = 60 * SUBPIXELS_PER_PIXEL;

/// How far from the middle each paddle starts, horizontally.
pub const PADDLE_INIT_POSITION: i64 = 300 * SUBPIXELS_PER_PIXEL;

/// The highest a paddle's center may go.
pub const TOP_BOUND: i64 = TOP_WALL - WALL_HALF_THICKNESS - PADDLE_HALF_HEIGHT - PADDLE_PADDING;

/// The lowest a paddle's center may go.
pub const BOTTOM_BOUND: i64 = BOTTOM_WALL + WALL_HALF_THICKNESS + PADDLE_HALF_HEIGHT
    + PADDLE_PADDING;

/// What a player can ask of their paddle.
#[derive(Clone, Copy, Debug, PartialEq, Eq, Structural)]
pub enum Action {
    Up,
    Down,
}

/// A key that moves a paddle.
#[derive(Clone, Copy, Debug, PartialEq, Eq, Structural)]
pub enum Key {
    W,
    S,
    Up,
    Down,
}

/// Which side of the arena a player's paddle stands on.
#[derive(Clone, Copy, Debug, PartialEq, Eq, Structural)]
pub enum PlayerSide {
    Left,
    Right,
}

impl PlayerSide {
    /// The keys for moving this side's paddle up and down.
    pub fn movement_keys(&self) -> (r: (Key, Key))
        ensures
            *self == PlayerSide::Left ==> r == (Key::W, Key::S),
            *self == PlayerSide::Right ==> r == (Key::Up, Key::Down),
    {
        match self {
            PlayerSide::Left => (Key::W, Key::S),
            PlayerSide::Right => (Key::Up, Key::Down),
        }
    }

    /// The action, if any, that `key` asks of this side's paddle.
    pub fn action_for(&self, key: Key) -> (r: Option<Action>)
        ensures
            r == (if key == self.movement_keys_spec().0 {
                Some(Action::Up)
            } else if key == self.movement_keys_spec().1 {
                Some(Action::Down)
            } else {
                None
            }),
    {
        let (up, down) = self.movement_keys();
        if key == up {
            Some(Action::Up)
        } else if key == down {
            Some(Action::Down)
        } else {
            None
        }
    }

    pub open spec fn movement_keys_spec(self) -> (Key, Key) {
        match self {
            PlayerSide::Left => (Key::W, Key::S),
            PlayerSide::Right => (Key::Up, Key::Down),
        }
    }
}

/// Which actions a player holds during the current tick.
#[derive(Clone, Copy, Debug, PartialEq, Eq, Structural)]
pub struct ActionState {
    pub up: bool,
    pub down: bool,
}

impl ActionState {
    /// No action held.
    pub fn new() -> (r: ActionState)
        ensures
            !r.up,
            !r.down,
    {
        ActionState { up: false, down: false }
    }

    pub open spec fn pressed_spec(self, action: Action) -> bool {
        match action {
            Action::Up => self.up,
            Action::Down => self.down,
        }
    }

    /// Whether `action` is held.
    pub fn pressed(&self, action: Action) -> (r: bool)
        ensures
            r == self.pressed_spec(action),
    {
        match action {
            Action::Up => self.up,
            Action::Down => self.down,
        }
    }

    /// Holds or releases `action`, leaving the other as it was.
    pub fn set(&mut self, action: Action, held: bool)
        ensures
            action == Action::Up ==> final(self).up == held && final(self).down == old(self).down,
            action == Action::Down ==> final(self).down == held && final(self).up == old(self).up,
    {
        match action {
            Action::Up => self.up = held,
            Action::Down => self.down = held,
        }
    }

    /// The vertical intent: one up, minus one down.
    pub open spec fn direction_spec(self) -> int {
        (if self.up { 1int } else { 0int }) - (if self.down { 1int } else { 0int })
    }

    /// The vertical intent, in {-1, 0, +1}.
    pub fn direction(&self) -> (r: i64)
        ensures
            r == self.direction_spec(),
            -1 <= r <= 1,
    {
        let mut d: i64 = 0;
        if self.up {
            d = d + 1;
        }
        if self.down {
            d = d - 1;
        }
        d
    }
}

/// `y` brought into `[lo, hi]`.
pub open spec fn clamp_spec(y: int, lo: int, hi: int) -> int {
    if y < lo {
        lo
    } else if y > hi {
        hi
    } else {
        y
    }
}

/// Brings `y` into `[lo, hi]`.
pub fn clamp(y: i64, lo: i64, hi: i64) -> (r: i64)
    requires
        lo <= hi,
    ensures
        r == clamp_spec(y as int, lo as int, hi as int),
{
    if y < lo {
        lo
    } else if y > hi {
        hi
    } else {
        y
    }
}

/// Clamping twice is clamping once.
pub proof fn lemma_clamp_idempotent(y: int, lo: int, hi: int)
    requires
        lo <= hi,
    ensures
        clamp_spec(clamp_spec(y, lo, hi), lo, hi) == clamp_spec(y, lo, hi),
        lo <= clamp_spec(y, lo, hi) <= hi,
{
}

/// Where a paddle at height `y` goes in `dt` ticks with the given intent,
/// before clamping.
pub open spec fn candidate_y(y: int, direction: int, dt: int) -> int {
    y + direction * PADDLE_SPEED * dt
}

/// The height of a paddle at `y` after `dt` ticks with the given intent,
/// kept within `[lo, hi]`.
pub open spec fn paddle_step(y: int, direction: int, dt: int, lo: int, hi: int) -> int {
    clamp_spec(candidate_y(y, direction, dt), lo, hi)
}

/// Moves a paddle at `y` by its intent for `dt` ticks and keeps it within
/// `[lo, hi]`.
pub fn next_paddle_y(y: i64, direction: i64, dt: i64, lo: i64, hi: i64) -> (r: i64)
    requires
        -1 <= direction <= 1,
        lo <= hi,
    ensures
        r == paddle_step(y as int, direction as int, dt as int, lo as int, hi as int),
{
    proof {
        assert(-0x8000_0000_0000_0000 * 900 <= direction * PADDLE_SPEED * dt <= 0x8000_0000_0000_0000
            * 900) by (nonlinear_arith)
            requires
                -1 <= direction <= 1,
                i64::MIN <= dt <= i64::MAX,
        ;
    }
    let candidate: i128 = y as i128 + (direction as i128) * (PADDLE_SPEED as i128) * (dt as i128);
    if candidate < lo as i128 {
        lo
    } else if candidate > hi as i128 {
        hi
    } else {
        candidate as i64
    }
}

/// The height of a paddle that starts at `y` and is moved `dt` ticks at a
/// time by each of `directions` in turn.
pub open spec fn paddle_after(y: int, directions: Seq<int>, dt: int) -> int
    decreases directions.len(),
{
    if directions.len() == 0 {
        y
    } else {
        paddle_step(
            paddle_after(y, directions.drop_last(), dt),
            directions.last(),
            dt,
            BOTTOM_BOUND as int,
            TOP_BOUND as int,
        )
    }
}

/// Whatever the intents, a paddle that has been moved at least once, or
/// that started within bounds, lies within `[BOTTOM_BOUND, TOP_BOUND]`.
pub proof fn lemma_paddle_stays_in_bounds(y: int, directions: Seq<int>, dt: int)
    requires
        directions.len() > 0 || BOTTOM_BOUND <= y <= TOP_BOUND,
    ensures
        BOTTOM_BOUND <= paddle_after(y, directions, dt) <= TOP_BOUND,
    decreases directions.len(),
{
}

/// One paddle: its side, its box and the actions its player holds.
#[derive(Clone, Copy, Debug, PartialEq, Eq, Structural)]
pub struct PlayerBundle {
    pub side: PlayerSide,
    pub body: Aabb,
    pub input: ActionState,
}

impl PlayerBundle {
    /// A paddle of `side`, centered at `(init_position, 0)`, with nothing held.
    pub fn new(side: PlayerSide, init_position: i64) -> (r: PlayerBundle)
        ensures
            r.side == side,
            r.body.center == (Vec2 { x: init_position, y: 0 }),
            r.body.half == (Vec2 { x: PADDLE_HALF_WIDTH, y: PADDLE_HALF_HEIGHT }),
            !r.input.up,
            !r.input.down,
    {
        PlayerBundle {
            side,
            body: Aabb::new(
                Vec2::new(init_position, 0),
                Vec2::new(PADDLE_HALF_WIDTH, PADDLE_HALF_HEIGHT),
            ),
            input: ActionState::new(),
        }
    }

    /// This paddle after `dt` ticks of the controller.
    pub open spec fn moved(self, dt: int) -> PlayerBundle {
        PlayerBundle {
            body: Aabb {
                center: Vec2 {
                    x: self.body.center.x,
                    y: paddle_step(
                        self.body.center.y as int,
                        self.input.direction_spec(),
                        dt,
                        BOTTOM_BOUND as int,
                        TOP_BOUND as int,
                    ) as i64,
                },
                ..self.body
            },
            ..self
        }
    }
}

/// The left paddle and the right paddle, in that order.
pub fn spawn_paddles() -> (r: Vec<PlayerBundle>)
    ensures
        r@.len() == 2,
        r@[0].side == PlayerSide::Left,
        r@[1].side == PlayerSide::Right,
        r@[0].body.center == (Vec2 { x: (-PADDLE_INIT_POSITION) as i64, y: 0 }),
        r@[1].body.center == (Vec2 { x: PADDLE_INIT_POSITION, y: 0 }),
        forall|i: int|
            0 <= i < 2 ==> r@[i].body.half == (Vec2 { x: PADDLE_HALF_WIDTH, y: PADDLE_HALF_HEIGHT }),
{
    let mut paddles: Vec<PlayerBundle> = Vec::new();
    paddles.push(PlayerBundle::new(PlayerSide::Left, -PADDLE_INIT_POSITION));
    paddles.push(PlayerBundle::new(PlayerSide::Right, PADDLE_INIT_POSITION));
    paddles
}

/// Moves every paddle by its player's intent for `dt` ticks, keeping its
/// center within `[BOTTOM_BOUND, TOP_BOUND]`.
pub fn paddle_movement(paddles: &mut Vec<PlayerBundle>, dt: i64)
    ensures
        final(paddles)@.len() == old(paddles)@.len(),
        forall|i: int|
            0 <= i < old(paddles)@.len() ==> #[trigger] final(paddles)@[i] == old(paddles)@[i].moved(
                dt as int,
            ),
        forall|i: int|
            0 <= i < old(paddles)@.len() ==> BOTTOM_BOUND <= #[trigger] final(paddles)@[i].body.center.y
                <= TOP_BOUND,
{
    let mut i: usize = 0;
    while i < paddles.len()
        invariant
            paddles@.len() == old(paddles)@.len(),
            0 <= i <= paddles@.len(),
            forall|j: int| 0 <= j < i ==> #[trigger] paddles@[j] == old(paddles)@[j].moved(dt as int),
            forall|j: int| i <= j < paddles@.len() ==> #[trigger] paddles@[j] == old(paddles)@[j],
        decreases paddles@.len() - i,
    {
        let mut p = paddles[i];
        let y = next_paddle_y(p.body.center.y, p.input.direction(), dt, BOTTOM_BOUND, TOP_BOUND);
        p.body.center.y = y;
        paddles.set(i, p);
        i = i + 1;
    }
}

} // verus!
