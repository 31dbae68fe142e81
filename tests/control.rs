use the_crypt::aim::{aim_offset, fire, Projectile};
use the_crypt::entity::Player;
use the_crypt::geometry::{Collider, Vec2};
use the_crypt::movement::{direction, move_player, move_position, MoveInput};

const UNIT: i64 = 1_000_000;
const SECOND: u64 = 1_000_000;

fn keys(up: bool, down: bool, left: bool, right: bool) -> MoveInput {
    MoveInput { up, down, left, right }
}

#[test]
fn right_for_one_second_moves_a_hundred_units() {
    let p = move_position(Vec2::zero(), keys(false, false, false, true), 100, SECOND);
    assert_eq!(p, Vec2::new(100 * UNIT, 0));
}

#[test]
fn diagonal_is_not_normalised() {
    let p = move_position(Vec2::zero(), keys(true, false, false, true), 100, SECOND);
    assert_eq!(p, Vec2::new(100 * UNIT, 100 * UNIT));
    let len = ((p.x as f64).powi(2) + (p.y as f64).powi(2)).sqrt() / UNIT as f64;
    assert!((len - 141.42).abs() < 0.01);
}

#[test]
fn movement_over_many_frames_adds_up() {
    let mut p = Vec2::zero();
    for _ in 0..60 {
        p = move_position(p, keys(false, false, true, false), 100, 16_667);
    }
    assert_eq!(p, Vec2::new(-100 * 60 * 16_667, 0));
    let mut q = Vec2::new(5, 5);
    for _ in 0..4 {
        q = move_position(q, keys(false, true, false, false), 100, 250_000);
    }
    assert_eq!(q, Vec2::new(5, 5 - 100 * UNIT));
}

#[test]
fn opposite_keys_resolve_to_down_and_right() {
    assert_eq!(direction(keys(true, true, true, true)), (1, -1));
    assert_eq!(direction(keys(true, false, true, false)), (-1, 1));
    assert_eq!(direction(keys(false, false, false, false)), (0, 0));
}

#[test]
fn no_input_or_no_time_stays_put() {
    let p = Vec2::new(3, -4);
    assert_eq!(move_position(p, keys(false, false, false, false), 100, SECOND), p);
    assert_eq!(move_position(p, keys(true, false, false, true), 100, 0), p);
}

#[test]
fn movement_saturates() {
    let p = move_position(Vec2::new(i64::MAX - 1, i64::MIN + 1), keys(false, true, false, true), i64::MAX, u64::MAX);
    assert_eq!(p, Vec2::new(i64::MAX, i64::MIN));
    let q = move_position(Vec2::new(0, 0), keys(true, false, true, false), i64::MIN, u64::MAX);
    assert_eq!(q, Vec2::new(i64::MAX, i64::MIN));
}

#[test]
fn moving_the_player_keeps_its_box_in_step() {
    let player = Player::new(50, 100, 100);
    let mut pos = Vec2::zero();
    let mut collider = Collider::new(Vec2::new(7, 7), Vec2::new(20 * UNIT, 20 * UNIT));
    move_player(&mut pos, &mut collider, &player, keys(true, false, false, false), SECOND / 2);
    assert_eq!(pos, Vec2::new(0, 50 * UNIT));
    assert_eq!(collider.get_position(), pos);
    assert_eq!(collider.get_dimensions(), Vec2::new(20 * UNIT, 20 * UNIT));
}

#[test]
fn aim_straight_up_gives_angle_zero() {
    let v = aim_offset(Vec2::zero(), Some(Vec2::new(0, 10 * UNIT))).unwrap();
    assert_eq!(v, Vec2::new(0, 10 * UNIT));
    let angle = (v.x as f64).atan2(v.y as f64);
    assert_eq!(angle, 0.0);
    assert_eq!(-angle, 0.0);
}

#[test]
fn aim_to_the_right_gives_a_quarter_turn() {
    let v = aim_offset(Vec2::zero(), Some(Vec2::new(10 * UNIT, 0))).unwrap();
    assert_eq!(v, Vec2::new(10 * UNIT, 0));
    let angle = (v.x as f64).atan2(v.y as f64);
    assert!((angle - std::f64::consts::FRAC_PI_2).abs() < 1e-12);
}

#[test]
fn aim_is_relative_to_the_weapon() {
    let v = aim_offset(Vec2::new(3, 4), Some(Vec2::new(-1, 10)));
    assert_eq!(v, Some(Vec2::new(-4, 6)));
    let far = aim_offset(Vec2::new(i64::MIN, 0), Some(Vec2::new(i64::MAX, 0)));
    assert_eq!(far, Some(Vec2::new(i64::MAX, 0)));
}

#[test]
fn no_cursor_means_no_aim() {
    assert_eq!(aim_offset(Vec2::zero(), None), None);
}

#[test]
fn firing_follows_the_trigger() {
    assert_eq!(fire(true, Vec2::new(1, 2)), Some(Projectile { origin: Vec2::new(1, 2) }));
    assert_eq!(fire(false, Vec2::new(1, 2)), None);
}
