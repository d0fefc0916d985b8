use pong::constants::SUBPIXELS_PER_PIXEL;
use pong::player::{
    clamp, next_paddle_y, paddle_movement, spawn_paddles, Action, ActionState, Key, PlayerBundle,
    PlayerSide, BOTTOM_BOUND, PADDLE_HALF_HEIGHT, PADDLE_HALF_WIDTH, PADDLE_INIT_POSITION,
    PADDLE_SPEED, TOP_BOUND,
};

fn px(v: i64) -> i64 {
    v * SUBPIXELS_PER_PIXEL
}

#[test]
fn paddle_past_top_is_clamped() {
    // 290 px moving up at 900 px/s for one sixtieth of a second: 305 px raw
    assert_eq!(px(290) + PADDLE_SPEED, px(305));
    assert_eq!(next_paddle_y(px(290), 1, 1, px(-280), px(280)), px(280));
}

#[test]
fn paddle_moves_freely_within_bounds() {
    assert_eq!(next_paddle_y(0, 1, 1, BOTTOM_BOUND, TOP_BOUND), 900);
    assert_eq!(next_paddle_y(0, -1, 2, BOTTOM_BOUND, TOP_BOUND), -1800);
    assert_eq!(next_paddle_y(123, 0, 5, BOTTOM_BOUND, TOP_BOUND), 123);
    assert_eq!(next_paddle_y(BOTTOM_BOUND + 10, -1, 1, BOTTOM_BOUND, TOP_BOUND), BOTTOM_BOUND);
}

#[test]
fn bounds_come_from_the_arena() {
    assert_eq!(TOP_BOUND, px(300 - 5 - 60 - 10));
    assert_eq!(BOTTOM_BOUND, -px(300 - 5 - 60 - 10));
}

#[test]
fn clamp_is_idempotent() {
    for y in [-100_000, BOTTOM_BOUND - 1, BOTTOM_BOUND, 0, TOP_BOUND, TOP_BOUND + 1, 100_000] {
        let once = clamp(y, BOTTOM_BOUND, TOP_BOUND);
        assert_eq!(clamp(once, BOTTOM_BOUND, TOP_BOUND), once);
        assert!(BOTTOM_BOUND <= once && once <= TOP_BOUND);
    }
    assert_eq!(clamp(5, 7, 7), 7);
}

#[test]
fn paddles_stay_in_bounds_over_many_ticks() {
    let mut paddles = spawn_paddles();
    paddles[0].input.set(Action::Up, true);
    paddles[1].input.set(Action::Down, true);
    for tick in 0..200 {
        if tick == 100 {
            paddles[0].input = ActionState::new();
            paddles[0].input.set(Action::Down, true);
            paddles[1].input.set(Action::Up, true);
        }
        paddle_movement(&mut paddles, 1);
        for p in &paddles {
            assert!(BOTTOM_BOUND <= p.body.center.y && p.body.center.y <= TOP_BOUND);
        }
    }
    assert_eq!(paddles[0].body.center.y, BOTTOM_BOUND);
    // the right paddle holds both keys after tick 100 and so stays put
    assert_eq!(paddles[1].body.center.y, BOTTOM_BOUND);
    assert_eq!(paddles[0].body.center.x, -PADDLE_INIT_POSITION);
}

#[test]
fn paddles_spawn_on_both_sides() {
    let paddles = spawn_paddles();
    assert_eq!(paddles.len(), 2);
    assert_eq!(paddles[0].side, PlayerSide::Left);
    assert_eq!(paddles[1].side, PlayerSide::Right);
    assert_eq!(paddles[0].body.center.x, px(-300));
    assert_eq!(paddles[1].body.center.x, px(300));
    assert_eq!(paddles[1].body.half.x, PADDLE_HALF_WIDTH);
    assert_eq!(paddles[1].body.half.y, PADDLE_HALF_HEIGHT);
    let p = PlayerBundle::new(PlayerSide::Right, 7);
    assert_eq!(p.body.center.x, 7);
    assert!(!p.input.pressed(Action::Up) && !p.input.pressed(Action::Down));
}

#[test]
fn each_side_has_its_own_keys() {
    assert_eq!(PlayerSide::Left.movement_keys(), (Key::W, Key::S));
    assert_eq!(PlayerSide::Right.movement_keys(), (Key::Up, Key::Down));
    assert_eq!(PlayerSide::Left.action_for(Key::W), Some(Action::Up));
    assert_eq!(PlayerSide::Left.action_for(Key::S), Some(Action::Down));
    assert_eq!(PlayerSide::Left.action_for(Key::Up), None);
    assert_eq!(PlayerSide::Right.action_for(Key::Down), Some(Action::Down));
    assert_eq!(PlayerSide::Right.action_for(Key::W), None);
}

#[test]
fn direction_from_held_actions() {
    let mut s = ActionState::new();
    assert_eq!(s.direction(), 0);
    s.set(Action::Up, true);
    assert_eq!(s.direction(), 1);
    s.set(Action::Down, true);
    assert_eq!(s.direction(), 0);
    s.set(Action::Up, false);
    assert_eq!(s.direction(), -1);
    assert!(s.pressed(Action::Down));
}
