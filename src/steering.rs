use vstd::prelude::*;
use crate::actor::{Enemy, Point, Pose};
use crate::angle::{angular_offset, offset_between, turn_toward, turned_heading, valid_heading};

verus! {

/// The length of a unit forward vector in the fixed-point form that
/// `steer` takes.
pub const FORWARD_SCALE: i32 = 4096;

/// Simulation ticks per second; one tick lasts `1 / TICKS_PER_SECOND` seconds.
/// Position and heading units are chosen so that one tick of a speed per
/// second is the speed itself.
pub const TICKS_PER_SECOND: u32 = 60;

/// Each component of `f` lies within one unit of fixed-point length.
pub open spec fn is_scaled_direction(f: Point) -> bool {
    -(FORWARD_SCALE as int) <= f.x <= FORWARD_SCALE as int && -(FORWARD_SCALE as int) <= f.y
        <= FORWARD_SCALE as int
}

/// How far one component moves when an actor goes `dist` units along a
/// direction whose component is `f` (fixed point), rounded toward zero.
pub open spec fn forward_offset(f: int, dist: int) -> int {
    if f < 0 {
        -((-f) * dist / (FORWARD_SCALE as int))
    } else {
        f * dist / (FORWARD_SCALE as int)
    }
}

/// `v` held within the range of `i32`: a move never leaves the integer plane.
pub open spec fn saturate(v: int) -> int {
    if v < i32::MIN { i32::MIN as int } else if v > i32::MAX { i32::MAX as int } else { v }
}

/// The actor need not turn this tick: it stands on the target, so it has no
/// direction to turn to, or it already faces the bearing.
pub open spec fn already_facing(pose: Pose, target: Point, bearing: u32) -> bool {
    pose.position == target || angular_offset(pose.heading as int, bearing as int) == 0
}

fn scaled_offset(f: i32, dist: u32) -> (r: i64)
    requires
        -(FORWARD_SCALE as int) <= f <= FORWARD_SCALE as int,
    ensures
        r == forward_offset(f as int, dist as int),
        -(dist as int) <= r <= dist as int,
{
    let mag: u64 = if f < 0 { (-(f as i64)) as u64 } else { f as u64 };
    assert(mag * dist <= 4096 * 0xffff_ffff) by (nonlinear_arith)
        requires
            mag <= 4096,
            dist <= 0xffff_ffff,
    ;
    let m: u64 = mag * dist as u64 / FORWARD_SCALE as u64;
    assert(m <= dist) by (nonlinear_arith)
        requires
            mag <= 4096,
            m == mag * dist / 4096,
    ;
    if f < 0 {
        -(m as i64)
    } else {
        m as i64
    }
}

fn saturating_move(c: i32, d: i64) -> (r: i32)
    requires
        -0x1_0000_0000 <= d <= 0x1_0000_0000,
    ensures
        r == saturate(c + d),
{
    let v: i64 = c as i64 + d;
    if v < i32::MIN as i64 {
        i32::MIN
    } else if v > i32::MAX as i64 {
        i32::MAX
    } else {
        v as i32
    }
}

/// One tick of an enemy chasing `target`. `bearing` is the heading that
/// points from the enemy's position to `target`, and `forward` is the unit
/// vector of the enemy's current heading scaled by `FORWARD_SCALE`.
///
/// When the enemy stands on the target or already faces it, nothing changes.
/// Otherwise it turns toward `bearing` by `rotation_speed` heading units (its
/// turn rate times one tick), or by less where that would pass the bearing,
/// and moves `movement_speed` position units (its speed times one tick) along
/// the heading it had before turning.
pub fn steer(pose: &mut Pose, enemy: &Enemy, target: Point, bearing: u32, forward: Point)
    requires
        old(pose).wf(),
        valid_heading(bearing as int),
        is_scaled_direction(forward),
    ensures
        final(pose).wf(),
        already_facing(*old(pose), target, bearing) ==> *final(pose) == *old(pose),
        !already_facing(*old(pose), target, bearing) ==> {
            &&& final(pose).heading == turned_heading(
                old(pose).heading as int,
                bearing as int,
                enemy.rotation_speed as int,
            )
            &&& final(pose).position.x == saturate(
                old(pose).position.x + forward_offset(forward.x as int, enemy.movement_speed as int),
            )
            &&& final(pose).position.y == saturate(
                old(pose).position.y + forward_offset(forward.y as int, enemy.movement_speed as int),
            )
        },
{
    if pose.position == target || offset_between(pose.heading, bearing) == 0 {
        return;
    }
    let heading: u32 = turn_toward(pose.heading, bearing, enemy.rotation_speed);
    let dx: i64 = scaled_offset(forward.x, enemy.movement_speed);
    let dy: i64 = scaled_offset(forward.y, enemy.movement_speed);
    pose.heading = heading;
    pose.position = Point {
        x: saturating_move(pose.position.x, dx),
        y: saturating_move(pose.position.y, dy),
    };
}

} // verus!
