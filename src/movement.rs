use vstd::prelude::*;
use crate::entity::Player;
use crate::geometry::{Collider, Vec2};
use crate::skills::{clamp_i64, saturate_i64, Entity};

verus! {

/// The four directional inputs of one frame.
#[derive(Clone, Copy, PartialEq, Eq, Structural, Debug)]
pub struct MoveInput {
    pub up: bool,
    pub down: bool,
    pub left: bool,
    pub right: bool,
}

/// The horizontal direction of `i`: right wins over left.
pub open spec fn dir_x(i: MoveInput) -> int {
    if i.right {
        1
    } else if i.left {
        -1
    } else {
        0
    }
}

/// The vertical direction of `i`: down wins over up.
pub open spec fn dir_y(i: MoveInput) -> int {
    if i.down {
        -1
    } else if i.up {
        1
    } else {
        0
    }
}

/// Where `pos` goes when input `i` is held for `dt` microseconds at `speed`
/// world units per second: each axis moves by its direction times speed
/// times time, in micro-units, saturating at the bounds of `i64`. Diagonal
/// movement is not normalised.
pub open spec fn moved(pos: Vec2, i: MoveInput, speed: i64, dt: u64) -> Vec2 {
    Vec2 {
        x: clamp_i64(pos.x + dir_x(i) * (speed * dt)) as i64,
        y: clamp_i64(pos.y + dir_y(i) * (speed * dt)) as i64,
    }
}

/// One coordinate moved by `dir` (one of -1, 0, 1) times `step`.
fn shift(coord: i64, dir: i8, step: i128) -> (r: i64)
    requires
        -1 <= dir <= 1,
        -0x7fff_ffff_ffff_ffff_8000_0000_0000_0000 <= step <= 0x7fff_ffff_ffff_ffff_8000_0000_0000_0000,
    ensures
        r == clamp_i64(coord + dir * step),
{
    if dir > 0 {
        assert(dir * step == step) by (nonlinear_arith)
            requires
                dir == 1,
        ;
        saturate_i64(coord as i128 + step)
    } else if dir < 0 {
        assert(dir * step == -step) by (nonlinear_arith)
            requires
                dir == -1,
        ;
        saturate_i64(coord as i128 - step)
    } else {
        coord
    }
}

/// The displacement in micro-units of `dt` microseconds at `speed` world
/// units per second.
fn step_of(speed: i64, dt: u64) -> (r: i128)
    ensures
        r == speed * dt,
        -0x7fff_ffff_ffff_ffff_8000_0000_0000_0000 <= r <= 0x7fff_ffff_ffff_ffff_8000_0000_0000_0000,
{
    let s = speed as i128;
    let t = dt as i128;
    proof {
        let si = s as int;
        let ti = t as int;
        assert(-0x8000_0000_0000_0000 <= si <= 0x7fff_ffff_ffff_ffff);
        assert(0 <= ti <= 0xffff_ffff_ffff_ffff);
        assert(si * ti <= 0x7fff_ffff_ffff_ffff * 0xffff_ffff_ffff_ffff) by (nonlinear_arith)
            requires
                si <= 0x7fff_ffff_ffff_ffff,
                0 <= ti <= 0xffff_ffff_ffff_ffff,
        ;
        assert(si * ti >= -0x8000_0000_0000_0000 * 0xffff_ffff_ffff_ffff) by (nonlinear_arith)
            requires
                -0x8000_0000_0000_0000 <= si,
                0 <= ti <= 0xffff_ffff_ffff_ffff,
        ;
    }
    s * t
}

/// The direction of `i` on each axis, as (x, y).
pub fn direction(i: MoveInput) -> (r: (i8, i8))
    ensures
        r.0 == dir_x(i),
        r.1 == dir_y(i),
{
    let mut dx: i8 = 0;
    let mut dy: i8 = 0;
    if i.up {
        dy = 1;
    }
    if i.down {
        dy = -1;
    }
    if i.left {
        dx = -1;
    }
    if i.right {
        dx = 1;
    }
    (dx, dy)
}

/// Moves `pos` by input `i` held for `dt` microseconds at `speed`.
pub fn move_position(pos: Vec2, i: MoveInput, speed: i64, dt: u64) -> (r: Vec2)
    ensures
        r == moved(pos, i, speed, dt),
{
    let (dx, dy) = direction(i);
    let step = step_of(speed, dt);
    Vec2 { x: shift(pos.x, dx, step), y: shift(pos.y, dy, step) }
}

/// Moves the player's position by the frame's input at the player's speed,
/// then puts the player's box at the new position.
pub fn move_player(
    position: &mut Vec2,
    collider: &mut Collider,
    player: &Player,
    i: MoveInput,
    dt: u64,
)
    ensures
        *final(position) == moved(*old(position), i, player.skills().speed, dt),
        final(collider).pos() == *final(position),
        final(collider).dims() == old(collider).dims(),
{
    let speed = player.get_skillset().get_speed();
    *position = move_position(*position, i, speed, dt);
    collider.set_position(*position);
}

/// Holding the same input for two frames moves as far as holding it for
/// their total time in one frame, wherever no coordinate saturates.
pub proof fn lemma_movement_splits_over_frames(pos: Vec2, i: MoveInput, speed: i64, d1: u64, d2: u64)
    requires
        d1 + d2 <= u64::MAX,
        i64::MIN <= pos.x + dir_x(i) * (speed * d1) <= i64::MAX,
        i64::MIN <= pos.y + dir_y(i) * (speed * d1) <= i64::MAX,
        i64::MIN <= pos.x + dir_x(i) * (speed * (d1 + d2)) <= i64::MAX,
        i64::MIN <= pos.y + dir_y(i) * (speed * (d1 + d2)) <= i64::MAX,
    ensures
        moved(moved(pos, i, speed, d1), i, speed, d2) == moved(pos, i, speed, (d1 + d2) as u64),
{
    let s = speed as int;
    let a = d1 as int;
    let b = d2 as int;
    assert(s * (a + b) == s * a + s * b) by (nonlinear_arith);
    assert(dir_x(i) * (s * (a + b)) == dir_x(i) * (s * a) + dir_x(i) * (s * b)) by (nonlinear_arith);
    assert(dir_y(i) * (s * (a + b)) == dir_y(i) * (s * a) + dir_y(i) * (s * b)) by (nonlinear_arith);
}

} // verus!
