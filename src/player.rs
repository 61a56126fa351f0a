use vstd::prelude::*;
use crate::actor::{Player, Point};

verus! {

/// Half the width of the area the player may move in, in position units:
/// 600 world units.
pub const BOUND_X: i32 = 36_000;

/// Half the height of the area the player may move in, in position units:
/// 320 world units.
pub const BOUND_Y: i32 = 19_200;

/// The arrow keys held down during a tick.
#[derive(Clone, Copy, Debug, PartialEq, Eq, Structural)]
pub struct Keys {
    pub left: bool,
    pub right: bool,
    pub up: bool,
    pub down: bool,
}

/// The move along one axis for the keys of its two directions: `dist` one
/// way or the other when exactly one is held, else none.
pub open spec fn axis_offset(negative: bool, positive: bool, dist: int) -> int {
    if positive && !negative {
        dist
    } else if negative && !positive {
        -dist
    } else {
        0
    }
}

pub open spec fn clamp(v: int, lo: int, hi: int) -> int {
    if v < lo { lo } else if v > hi { hi } else { v }
}

fn axis_step(negative: bool, positive: bool, dist: u32) -> (r: i64)
    ensures
        r == axis_offset(negative, positive, dist as int),
        -(dist as int) <= r <= dist,
{
    if positive && !negative {
        dist as i64
    } else if negative && !positive {
        -(dist as i64)
    } else {
        0
    }
}

fn clamp_coordinate(v: i64, bound: i32) -> (r: i32)
    requires
        bound >= 0,
    ensures
        r == clamp(v as int, -bound, bound as int),
{
    if v < -(bound as i64) {
        -bound
    } else if v > bound as i64 {
        bound
    } else {
        v as i32
    }
}

/// One tick of player movement: the held arrow keys move the player by its
/// speed times one tick, `movement_speed` position units, on each axis, and
/// the result is kept within `-BOUND_X..=BOUND_X` by `-BOUND_Y..=BOUND_Y`.
pub fn player_movement_system(keys: &Keys, player: &Player, position: &mut Point)
    ensures
        final(position).x == clamp(
            old(position).x + axis_offset(keys.left, keys.right, player.movement_speed as int),
            -BOUND_X,
            BOUND_X as int,
        ),
        final(position).y == clamp(
            old(position).y + axis_offset(keys.down, keys.up, player.movement_speed as int),
            -BOUND_Y,
            BOUND_Y as int,
        ),
{
    let dx: i64 = axis_step(keys.left, keys.right, player.movement_speed);
    let dy: i64 = axis_step(keys.down, keys.up, player.movement_speed);
    let x: i32 = clamp_coordinate(position.x as i64 + dx, BOUND_X);
    let y: i32 = clamp_coordinate(position.y as i64 + dy, BOUND_Y);
    *position = Point { x, y };
}

} // verus!
