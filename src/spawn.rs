use vstd::prelude::*;
use crate::actor::{Point, UNIT};
use vstd::arithmetic::div_mod::lemma_mod_multiples_basic;

verus! {

/// Width of the play field in world units.
pub const FIELD_WIDTH: u32 = 1600;

/// Height of the play field in world units.
pub const FIELD_HEIGHT: u32 = 900;

/// Number of enemies placed at start.
pub const ENEMY_COUNT: usize = 100;

/// Relies on rand::Rng::gen_range over rand::thread_rng (rand 0.8): a value
/// in `lo..hi`, drawn anew on each call; it panics on an empty range.
#[verifier::external_body]
fn random_in_range(lo: i32, hi: i32) -> (r: i32)
    requires
        lo < hi,
    ensures
        lo <= r < hi,
{
    rand::Rng::gen_range(&mut rand::thread_rng(), lo..hi)
}

/// A coordinate on a whole world unit within the half-open span
/// `[-size/2, size/2)` world units, centred on the origin.
pub open spec fn on_spawn_grid(c: int, size: int) -> bool {
    -(size / 2) * UNIT <= c < (size / 2) * UNIT && c % (UNIT as int) == 0
}

/// The point `p` stands on a whole world unit of the half-open field of
/// `width` by `height` world units centred on the origin.
pub open spec fn in_spawn_area(p: Point, width: int, height: int) -> bool {
    on_spawn_grid(p.x as int, width) && on_spawn_grid(p.y as int, height)
}

/// A random whole world unit in `[-half, half)`, in position units.
fn random_grid_coordinate(half: i32, size: Ghost<int>) -> (r: i32)
    requires
        half == size@ / 2,
        1 <= half <= 35_000_000,
    ensures
        on_spawn_grid(r as int, size@),
{
    let k: i32 = random_in_range(-half, half);
    proof {
        lemma_mod_multiples_basic(k as int, UNIT as int);
        assert(-half * UNIT <= k * UNIT < half * UNIT) by (nonlinear_arith)
            requires
                -half <= k < half,
        ;
    }
    k * UNIT
}

/// `count` random starting points, each on a whole world unit of the
/// half-open field of `width` by `height` world units centred on the origin.
pub fn spawn_positions(count: usize, width: u32, height: u32) -> (r: Vec<Point>)
    requires
        2 <= width <= 70_000_000,
        2 <= height <= 70_000_000,
    ensures
        r@.len() == count,
        forall|i: int| 0 <= i < r@.len() ==> in_spawn_area(#[trigger] r@[i], width as int, height as int),
{
    let half_x: i32 = (width / 2) as i32;
    let half_y: i32 = (height / 2) as i32;
    let mut r: Vec<Point> = Vec::new();
    while r.len() < count
        invariant
            r@.len() <= count,
            2 <= width <= 70_000_000,
            2 <= height <= 70_000_000,
            half_x == width / 2,
            half_y == height / 2,
            forall|i: int| 0 <= i < r@.len() ==> in_spawn_area(#[trigger] r@[i], width as int, height as int),
        decreases count - r@.len(),
    {
        let x: i32 = random_grid_coordinate(half_x, Ghost(width as int));
        let y: i32 = random_grid_coordinate(half_y, Ghost(height as int));
        r.push(Point { x, y });
    }
    r
}

} // verus!
