use vstd::prelude::*;

verus! {

/// Position units in one world unit. One tick lasts a sixtieth of a second,
/// so a speed in world units per second is exactly the distance in position
/// units that one tick covers.
pub const UNIT: i32 = 60;

/// A point of the play field in position units (see `UNIT`); +Y is up.
#[derive(Clone, Copy, Debug, PartialEq, Eq, Structural)]
pub struct Point {
    pub x: i32,
    pub y: i32,
}

/// Where an actor stands and where it faces (a heading in units of
/// `FULL_TURN`).
#[derive(Clone, Copy, Debug, PartialEq, Eq, Structural)]
pub struct Pose {
    pub position: Point,
    pub heading: u32,
}

/// Movement profile of an enemy: turn rate in millidegrees per second and
/// forward speed in world units per second. In one tick these are exactly
/// `rotation_speed` heading units and `movement_speed` position units.
#[derive(Clone, Copy, Debug, PartialEq, Eq, Structural)]
pub struct Enemy {
    pub rotation_speed: u32,
    pub movement_speed: u32,
}

/// Movement profile of the player: speed in world units per second, which is
/// `movement_speed` position units per tick.
#[derive(Clone, Copy, Debug, PartialEq, Eq, Structural)]
pub struct Player {
    pub movement_speed: u32,
}

/// One entity of the world with the capabilities the rules look at: an enemy
/// profile if it is an enemy, and whether it carries a gun.
#[derive(Clone, Copy, Debug)]
pub struct Actor {
    pub id: u64,
    pub pose: Pose,
    pub enemy: Option<Enemy>,
    pub has_gun: bool,
}

impl Pose {
    pub open spec fn wf(self) -> bool {
        crate::angle::valid_heading(self.heading as int)
    }
}

impl Actor {
    /// Whether a gun may pick this actor as its target: an enemy without a gun.
    pub open spec fn is_target_candidate(self) -> bool {
        self.enemy is Some && !self.has_gun
    }
}

/// The square of the Euclidean distance between two points.
pub open spec fn distance_squared(a: Point, b: Point) -> int {
    (a.x - b.x) * (a.x - b.x) + (a.y - b.y) * (a.y - b.y)
}

/// The square of the distance between `a` and `b`, exactly.
pub fn distance_squared_between(a: Point, b: Point) -> (r: u128)
    ensures
        r as int == distance_squared(a, b),
{
    let dx: i128 = a.x as i128 - b.x as i128;
    let dy: i128 = a.y as i128 - b.y as i128;
    assert(0 <= dx * dx <= 0x1_0000_0000_0000_0000) by (nonlinear_arith)
        requires
            -0x1_0000_0000 <= dx <= 0x1_0000_0000,
    ;
    assert(0 <= dy * dy <= 0x1_0000_0000_0000_0000) by (nonlinear_arith)
        requires
            -0x1_0000_0000 <= dy <= 0x1_0000_0000,
    ;
    (dx * dx + dy * dy) as u128
}

} // verus!
