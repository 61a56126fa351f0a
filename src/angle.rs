use vstd::prelude::*;

verus! {

/// Heading units in one full turn. A heading unit is a sixtieth of a
/// millidegree, so a turn rate in millidegrees per second is exactly the
/// turn in heading units of one tick (a sixtieth of a second). A heading is a
/// value in `0..FULL_TURN`, measured counter-clockwise from the +Y axis.
pub const FULL_TURN: u32 = 21_600_000;

/// Heading units in half a turn.
pub const HALF_TURN: u32 = 10_800_000;

pub open spec fn full_turn() -> int {
    FULL_TURN as int
}

pub open spec fn valid_heading(h: int) -> bool {
    0 <= h < full_turn()
}

/// The signed shortest rotation that takes heading `h` onto heading `b`:
/// positive is counter-clockwise. A target exactly behind gives minus half a
/// turn, so the actor then turns clockwise.
pub open spec fn angular_offset(h: int, b: int) -> int {
    let d = if b - h < 0 { b - h + full_turn() } else { b - h };
    if d < HALF_TURN as int { d } else { d - full_turn() }
}

/// The rotation applied in one tick: toward `b`, by at most `step`, and never
/// past facing `b` exactly.
pub open spec fn turn_amount(h: int, b: int, step: int) -> int {
    let d = angular_offset(h, b);
    if d > 0 {
        if d < step { d } else { step }
    } else if d < 0 {
        if -d < step { d } else { -step }
    } else {
        0
    }
}

/// Brings an angle in `-FULL_TURN..2*FULL_TURN` back into `0..FULL_TURN`.
pub open spec fn wrap(x: int) -> int {
    if x < 0 { x + full_turn() } else if x >= full_turn() { x - full_turn() } else { x }
}

pub open spec fn turned_heading(h: int, b: int, step: int) -> int {
    wrap(h + turn_amount(h, b, step))
}

/// The heading after `n` ticks of turning toward a fixed bearing `b`.
pub open spec fn heading_after_turns(h: int, b: int, step: int, n: nat) -> int
    decreases n,
{
    if n == 0 {
        h
    } else {
        turned_heading(heading_after_turns(h, b, step, (n - 1) as nat), b, step)
    }
}

pub open spec fn abs(x: int) -> int {
    if x < 0 { -x } else { x }
}

/// One tick moves the remaining offset toward zero by exactly the rotation applied.
proof fn lemma_offset_after_turn(h: int, b: int, step: int)
    requires
        valid_heading(h),
        valid_heading(b),
        step >= 0,
    ensures
        valid_heading(turned_heading(h, b, step)),
        angular_offset(turned_heading(h, b, step), b) == angular_offset(h, b) - turn_amount(h, b, step),
        abs(angular_offset(turned_heading(h, b, step), b)) == if abs(angular_offset(h, b)) < step {
            0
        } else {
            abs(angular_offset(h, b)) - step
        },
{
}

proof fn lemma_offset_after_turns(h: int, b: int, step: int, n: nat)
    requires
        valid_heading(h),
        valid_heading(b),
        step >= 0,
    ensures
        valid_heading(heading_after_turns(h, b, step, n)),
        abs(angular_offset(heading_after_turns(h, b, step, n), b)) == if abs(angular_offset(h, b)) < n * step {
            0
        } else {
            abs(angular_offset(h, b)) - n * step
        },
    decreases n,
{
    if n > 0 {
        let m = (n - 1) as nat;
        lemma_offset_after_turns(h, b, step, m);
        lemma_offset_after_turn(heading_after_turns(h, b, step, m), b, step);
        assert(m * step + step == n * step) by (nonlinear_arith)
            requires m + 1 == n;
    }
}

/// Turning toward a fixed bearing at a positive rate faces it exactly after
/// `ceil(angle / step)` ticks, not before, and from then on a tick changes
/// nothing.
pub proof fn lemma_turn_toward_converges(h: int, b: int, step: int, m: nat)
    requires
        valid_heading(h),
        valid_heading(b),
        step > 0,
    ensures
        ({
            let n = ((abs(angular_offset(h, b)) + step - 1) / step) as nat;
            &&& heading_after_turns(h, b, step, n) == b
            &&& turned_heading(b, b, step) == b
            &&& (m < n ==> heading_after_turns(h, b, step, m) != b)
        }),
{
    let a = abs(angular_offset(h, b));
    let n = ((a + step - 1) / step) as nat;
    assert(a >= 0);
    assert(n * step >= a && (n - 1) * step < a) by (nonlinear_arith)
        requires
            a >= 0,
            step > 0,
            n == (a + step - 1) / step,
    ;
    lemma_offset_after_turns(h, b, step, n);
    if m < n {
        lemma_offset_after_turns(h, b, step, m);
        assert(m * step <= (n - 1) * step) by (nonlinear_arith)
            requires
                m < n,
                step > 0,
        ;
    }
}

/// One tick turns by exactly the smaller of the turn rate and the angle left
/// to the bearing, so it never overshoots; and a full wrap of the new heading
/// is the old one moved by that turn.
pub proof fn lemma_turn_never_overshoots(h: int, b: int, step: int)
    requires
        valid_heading(h),
        valid_heading(b),
        step >= 0,
    ensures
        abs(turn_amount(h, b, step)) == if step < abs(angular_offset(h, b)) {
            step
        } else {
            abs(angular_offset(h, b))
        },
        abs(turn_amount(h, b, step)) <= step,
        abs(turn_amount(h, b, step)) <= abs(angular_offset(h, b)),
        angular_offset(h, turned_heading(h, b, step)) == turn_amount(h, b, step),
{
}

/// The signed shortest rotation from `heading` onto `bearing`.
pub fn offset_between(heading: u32, bearing: u32) -> (r: i64)
    requires
        valid_heading(heading as int),
        valid_heading(bearing as int),
    ensures
        r == angular_offset(heading as int, bearing as int),
{
    let raw: i64 = bearing as i64 - heading as i64;
    let d: i64 = if raw < 0 { raw + FULL_TURN as i64 } else { raw };
    if d < HALF_TURN as i64 { d } else { d - FULL_TURN as i64 }
}

/// The signed rotation, in heading units, that one tick applies to an actor
/// heading `heading` that turns toward `bearing` by at most `max_turn`.
pub fn rotation_toward(heading: u32, bearing: u32, max_turn: u32) -> (r: i64)
    requires
        valid_heading(heading as int),
        valid_heading(bearing as int),
    ensures
        r == turn_amount(heading as int, bearing as int, max_turn as int),
{
    let offset: i64 = offset_between(heading, bearing);
    if offset > 0 {
        if offset < max_turn as i64 { offset } else { max_turn as i64 }
    } else if offset < 0 {
        if -offset < max_turn as i64 { offset } else { -(max_turn as i64) }
    } else {
        0
    }
}

/// The heading after one tick of turning from `heading` toward `bearing` by
/// at most `max_turn`.
pub fn turn_toward(heading: u32, bearing: u32, max_turn: u32) -> (r: u32)
    requires
        valid_heading(heading as int),
        valid_heading(bearing as int),
    ensures
        r as int == turned_heading(heading as int, bearing as int, max_turn as int),
        valid_heading(r as int),
{
    let turned: i64 = heading as i64 + rotation_toward(heading, bearing, max_turn);
    let wrapped: i64 = if turned < 0 {
        turned + FULL_TURN as i64
    } else if turned >= FULL_TURN as i64 {
        turned - FULL_TURN as i64
    } else {
        turned
    };
    wrapped as u32
}

} // verus!
