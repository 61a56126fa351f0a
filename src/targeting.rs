use vstd::prelude::*;
use crate::actor::{distance_squared, distance_squared_between, Actor, Point, Pose};

verus! {

/// How far a gun reaches, in position units: 250 world units.
pub const GUN_RANGE: u32 = 15_000;

/// `a` may be picked from `origin` with reach `max_dist`: it is a candidate and
/// strictly closer than `max_dist`.
pub open spec fn in_reach(a: Actor, origin: Point, max_dist: int) -> bool {
    a.is_target_candidate() && distance_squared(a.pose.position, origin) < max_dist * max_dist
}

/// No actor of `s` may be picked.
pub open spec fn no_target(s: Seq<Actor>, origin: Point, max_dist: int) -> bool {
    forall|j: int| 0 <= j < s.len() ==> !in_reach(#[trigger] s[j], origin, max_dist)
}

/// Among the first `upto` actors of `s`, the one at `k` may be picked, none is
/// closer, and every one before it is farther.
pub open spec fn is_first_closest_upto(s: Seq<Actor>, origin: Point, max_dist: int, k: int, upto: int) -> bool {
    &&& 0 <= k < upto <= s.len()
    &&& in_reach(s[k], origin, max_dist)
    &&& forall|j: int|
        0 <= j < upto && in_reach(#[trigger] s[j], origin, max_dist) ==> distance_squared(
            s[k].pose.position,
            origin,
        ) <= distance_squared(s[j].pose.position, origin)
    &&& forall|j: int|
        0 <= j < k && in_reach(#[trigger] s[j], origin, max_dist) ==> distance_squared(
            s[k].pose.position,
            origin,
        ) < distance_squared(s[j].pose.position, origin)
}

/// The actor at `k` is the nearest one in reach, the first in order among equals.
pub open spec fn is_first_closest(s: Seq<Actor>, origin: Point, max_dist: int, k: int) -> bool {
    is_first_closest_upto(s, origin, max_dist, k, s.len() as int)
}

/// The index of the nearest actor to `pos` that may be targeted and lies
/// strictly within `max_dist`; among equally near ones, the first.
pub fn closest_index(actors: &Vec<Actor>, pos: Point, max_dist: u32) -> (r: Option<usize>)
    ensures
        r is None <==> no_target(actors@, pos, max_dist as int),
        r matches Some(k) ==> is_first_closest(actors@, pos, max_dist as int, k as int),
{
    assert(0 <= max_dist as int * max_dist as int <= 0xffff_ffff * 0xffff_ffff) by (nonlinear_arith)
        requires
            0 <= max_dist <= 0xffff_ffff,
    ;
    let limit: u128 = max_dist as u128 * max_dist as u128;
    let mut best: Option<usize> = None;
    let mut best_dist: u128 = 0;
    let mut i: usize = 0;
    while i < actors.len()
        invariant
            0 <= i <= actors@.len(),
            limit == max_dist as int * max_dist as int,
            best is None ==> forall|j: int| 0 <= j < i ==> !in_reach(#[trigger] actors@[j], pos, max_dist as int),
            best matches Some(k) ==> is_first_closest_upto(actors@, pos, max_dist as int, k as int, i as int)
                && best_dist == distance_squared(actors@[k as int].pose.position, pos),
        decreases actors@.len() - i,
    {
        let a = &actors[i];
        let candidate = match a.enemy {
            Some(_) => !a.has_gun,
            None => false,
        };
        if candidate {
            let d = distance_squared_between(a.pose.position, pos);
            let better = match best {
                None => true,
                Some(_) => d < best_dist,
            };
            if d < limit && better {
                best = Some(i);
                best_dist = d;
            }
        }
        i = i + 1;
    }
    best
}

/// The identity and pose of the nearest actor to `pos` that may be targeted
/// and lies strictly within `max_dist`; among equally near ones, the first in
/// order. `None` when no actor qualifies.
pub fn find_closest(actors: &Vec<Actor>, pos: Point, max_dist: u32) -> (r: Option<(u64, Pose)>)
    ensures
        r is None <==> no_target(actors@, pos, max_dist as int),
        r matches Some((id, pose)) ==> exists|k: int|
            is_first_closest(actors@, pos, max_dist as int, k) && actors@[k].id == id
                && actors@[k].pose == pose,
{
    match closest_index(actors, pos, max_dist) {
        Some(k) => Some((actors[k].id, actors[k].pose)),
        None => None,
    }
}

/// The identity of the actor that a gun at `gun_position` shoots when it fires:
/// the nearest candidate strictly within `GUN_RANGE`, if any.
pub fn shoot_target(actors: &Vec<Actor>, gun_position: Point) -> (r: Option<u64>)
    ensures
        r is None <==> no_target(actors@, gun_position, GUN_RANGE as int),
        r matches Some(id) ==> exists|k: int|
            is_first_closest(actors@, gun_position, GUN_RANGE as int, k) && actors@[k].id == id,
{
    match find_closest(actors, gun_position, GUN_RANGE) {
        Some((id, _)) => Some(id),
        None => None,
    }
}

/// At most one actor is the first nearest one in reach, so the pick is
/// determined by the actors and their order alone.
pub proof fn lemma_first_closest_unique(s: Seq<Actor>, origin: Point, max_dist: int, k1: int, k2: int)
    requires
        is_first_closest(s, origin, max_dist, k1),
        is_first_closest(s, origin, max_dist, k2),
    ensures
        k1 == k2,
{
    if k1 < k2 {
        assert(in_reach(s[k1], origin, max_dist));
    } else if k2 < k1 {
        assert(in_reach(s[k2], origin, max_dist));
    }
}

/// With no actors there is nothing to pick.
pub proof fn lemma_empty_has_no_target(s: Seq<Actor>, origin: Point, max_dist: int)
    requires
        s.len() == 0,
    ensures
        no_target(s, origin, max_dist),
{
}

/// When every actor stands at `max_dist` or farther there is nothing to pick.
pub proof fn lemma_all_out_of_reach(s: Seq<Actor>, origin: Point, max_dist: int)
    requires
        max_dist >= 0,
        forall|j: int|
            0 <= j < s.len() ==> distance_squared(#[trigger] s[j].pose.position, origin) >= max_dist
                * max_dist,
    ensures
        no_target(s, origin, max_dist),
{
}

/// Reach is strict: a candidate exactly `max_dist` away is out of reach, one
/// strictly nearer is in reach.
pub proof fn lemma_reach_is_strict(a: Actor, origin: Point, max_dist: int)
    requires
        a.is_target_candidate(),
    ensures
        distance_squared(a.pose.position, origin) == max_dist * max_dist ==> !in_reach(a, origin, max_dist),
        distance_squared(a.pose.position, origin) < max_dist * max_dist ==> in_reach(a, origin, max_dist),
{
}

} // verus!
