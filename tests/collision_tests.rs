use pong::ball::BALL_HALF_SIZE;
use pong::collision::{check_collisions, collide, reflect, Collision};
use pong::constants::SUBPIXELS_PER_PIXEL;
use pong::geometry::{Aabb, Vec2};
use pong::movement::apply_velocity;

fn px(v: i64) -> i64 {
    v * SUBPIXELS_PER_PIXEL
}

fn pbox(cx: i64, cy: i64, hx: i64, hy: i64) -> Aabb {
    Aabb::new(Vec2::new(px(cx), px(cy)), Vec2::new(px(hx), px(hy)))
}

#[test]
fn ball_reaching_wall_bounces_back() {
    let wall = pbox(400, 0, 10, 500);
    let mut ball = Aabb::new(Vec2::new(0, 0), Vec2::new(BALL_HALF_SIZE, BALL_HALF_SIZE));
    let mut v = Vec2::new(200, 0);
    let mut ticks = 0;
    loop {
        apply_velocity(&mut ball.center, v, 1);
        ticks += 1;
        if let Some(c) = collide(&ball, &wall) {
            assert_eq!(c, Collision::Left);
            v = reflect(v, c);
            break;
        }
        assert!(ticks < 1000);
    }
    // the right edge passes the wall's left edge at 390 pixels on this tick
    assert_eq!(ticks, 112);
    assert_eq!(ball.center.x + ball.half.x, px(390) + 200);
    assert_eq!(v, Vec2::new(-200, 0));
}

#[test]
fn corner_hit_flips_both_axes() {
    let ball = pbox(0, 0, 20, 20);
    let right_wall = pbox(25, 0, 10, 500);
    let top_wall = pbox(0, 25, 500, 10);
    assert_eq!(collide(&ball, &right_wall), Some(Collision::Left));
    assert_eq!(collide(&ball, &top_wall), Some(Collision::Bottom));
    let colliders = vec![right_wall, top_wall];
    let v = check_collisions(&ball, Vec2::new(100, 50), &colliders);
    assert_eq!(v, Vec2::new(-100, -50));
}

#[test]
fn same_hit_twice_does_not_flip_back() {
    let ball = pbox(0, 0, 20, 20);
    let wall = pbox(25, 0, 10, 500);
    let v = check_collisions(&ball, Vec2::new(100, 50), &vec![wall]);
    assert_eq!(v, Vec2::new(-100, 50));
    let again = check_collisions(&ball, v, &vec![wall]);
    assert_eq!(again, Vec2::new(-100, 50));
}

#[test]
fn separate_boxes_do_not_collide() {
    let ball = pbox(0, 0, 20, 20);
    assert_eq!(collide(&ball, &pbox(100, 0, 10, 10)), None);
    // touching edges do not overlap
    assert_eq!(collide(&ball, &pbox(30, 0, 10, 10)), None);
    assert_eq!(check_collisions(&ball, Vec2::new(5, 7), &vec![]), Vec2::new(5, 7));
}

#[test]
fn classification_of_each_edge() {
    let target = pbox(0, 0, 100, 100);
    assert_eq!(collide(&pbox(-105, 0, 10, 10), &target), Some(Collision::Left));
    assert_eq!(collide(&pbox(105, 0, 10, 10), &target), Some(Collision::Right));
    assert_eq!(collide(&pbox(0, 105, 10, 10), &target), Some(Collision::Top));
    assert_eq!(collide(&pbox(0, -105, 10, 10), &target), Some(Collision::Bottom));
    assert_eq!(collide(&pbox(0, 0, 10, 10), &target), Some(Collision::Inside));
    // a box that covers the other entirely crosses no edge
    assert_eq!(collide(&pbox(0, 0, 200, 200), &target), Some(Collision::Inside));
}

#[test]
fn shallower_penetration_decides_at_a_corner() {
    let target = pbox(0, 0, 100, 100);
    // 5 deep past the left edge, 15 deep past the bottom edge
    assert_eq!(collide(&pbox(-105, -95, 10, 10), &target), Some(Collision::Left));
    // 15 deep past the left edge, 5 deep past the bottom edge
    assert_eq!(collide(&pbox(-95, -105, 10, 10), &target), Some(Collision::Bottom));
    // equal depths: the horizontal edge decides
    assert_eq!(collide(&pbox(-105, -105, 10, 10), &target), Some(Collision::Left));
}

#[test]
fn reflection_only_into_the_edge() {
    let v = Vec2::new(30, -40);
    assert_eq!(reflect(v, Collision::Left), Vec2::new(-30, -40));
    assert_eq!(reflect(v, Collision::Right), v);
    assert_eq!(reflect(v, Collision::Top), Vec2::new(30, 40));
    assert_eq!(reflect(v, Collision::Bottom), v);
    let w = Vec2::new(-30, 40);
    assert_eq!(reflect(w, Collision::Left), w);
    assert_eq!(reflect(w, Collision::Right), Vec2::new(30, 40));
    assert_eq!(reflect(w, Collision::Top), w);
    assert_eq!(reflect(w, Collision::Bottom), Vec2::new(-30, -40));
    assert_eq!(reflect(Vec2::new(0, 0), Collision::Left), Vec2::new(0, 0));
}

#[test]
fn reflection_keeps_speed() {
    let v = Vec2::new(343, -206);
    for c in [Collision::Left, Collision::Right, Collision::Top, Collision::Bottom, Collision::Inside] {
        let r = reflect(v, c);
        assert_eq!(r.x * r.x + r.y * r.y, v.x * v.x + v.y * v.y);
    }
}

#[test]
fn inside_leaves_velocity() {
    let v = Vec2::new(-12, 99);
    assert_eq!(reflect(v, Collision::Inside), v);
    let ball = pbox(0, 0, 10, 10);
    let big = pbox(0, 0, 100, 100);
    assert_eq!(check_collisions(&ball, v, &vec![big]), v);
}

#[test]
fn integration_adds_velocity_times_ticks() {
    let mut p = Vec2::new(10, -20);
    apply_velocity(&mut p, Vec2::new(343, 206), 3);
    assert_eq!(p, Vec2::new(10 + 343 * 3, -20 + 206 * 3));
    apply_velocity(&mut p, Vec2::new(-5, 0), 0);
    assert_eq!(p, Vec2::new(10 + 343 * 3, -20 + 206 * 3));
}

#[test]
fn boxes_intersect_only_with_open_overlap() {
    let a = pbox(0, 0, 10, 10);
    assert!(a.intersects(&pbox(19, 19, 10, 10)));
    assert!(!a.intersects(&pbox(20, 0, 10, 10)));
    assert!(!a.intersects(&pbox(0, -20, 10, 10)));
}
