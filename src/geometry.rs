use vstd::prelude::*;

verus! {

/// Number of microseconds in one second: durations are given in
/// microseconds, speeds per second.
pub const MICROS_PER_SECOND: u128 = 1_000_000;

/// A point or a displacement in the plane.
#[derive(Clone, Copy, Debug, PartialEq, Eq, Structural)]
pub struct Vec2 {
    pub x: i64,
    pub y: i64,
}

impl Vec2 {
    pub fn new(x: i64, y: i64) -> (r: Vec2)
        ensures
            r.x == x,
            r.y == y,
    {
        Vec2 { x, y }
    }
}

pub open spec fn abs(v: int) -> int {
    if v < 0 {
        -v
    } else {
        v
    }
}

pub open spec fn fits_i64(v: int) -> bool {
    i64::MIN <= v <= i64::MAX
}

/// Two axis-aligned boxes, each given by its center and its half extents,
/// overlap when on both axes the centers lie closer than the sum of the
/// half extents.
pub open spec fn boxes_overlap(a: Vec2, a_half: Vec2, b: Vec2, b_half: Vec2) -> bool {
    &&& abs(a.x - b.x) < a_half.x + b_half.x
    &&& abs(a.y - b.y) < a_half.y + b_half.y
}

/// Whether the box around `a` with half extents `a_half` overlaps the box
/// around `b` with half extents `b_half`.
pub fn overlaps(a: Vec2, a_half: Vec2, b: Vec2, b_half: Vec2) -> (r: bool)
    ensures
        r == boxes_overlap(a, a_half, b, b_half),
{
    let dx: i128 = a.x as i128 - b.x as i128;
    let dy: i128 = a.y as i128 - b.y as i128;
    let adx: i128 = if dx < 0 {
        -dx
    } else {
        dx
    };
    let ady: i128 = if dy < 0 {
        -dy
    } else {
        dy
    };
    adx < a_half.x as i128 + b_half.x as i128 && ady < a_half.y as i128 + b_half.y as i128
}

/// The distance covered in `dt` microseconds at `speed` units per second,
/// rounded toward zero.
pub open spec fn travel(speed: int, dt: int) -> int {
    if speed >= 0 {
        speed * dt / MICROS_PER_SECOND as int
    } else {
        -((-speed) * dt / MICROS_PER_SECOND as int)
    }
}

pub fn displacement(speed: i64, dt: u32) -> (r: i128)
    ensures
        r == travel(speed as int, dt as int),
        abs(r as int) <= 0x8000_0000_0000_0000 * 0x1_0000_0000,
{
    let magnitude: u128 = if speed < 0 {
        (-(speed as i128)) as u128
    } else {
        speed as u128
    };
    assert(magnitude * dt <= 0x8000_0000_0000_0000 * 0x1_0000_0000) by (nonlinear_arith)
        requires
            magnitude <= 0x8000_0000_0000_0000,
            dt <= 0x1_0000_0000,
    ;
    let distance: u128 = magnitude * dt as u128 / MICROS_PER_SECOND;
    assert(distance <= magnitude * dt) by (nonlinear_arith)
        requires
            distance == magnitude * dt / 1_000_000,
            0 <= magnitude * dt,
    ;
    if speed < 0 {
        -(distance as i128)
    } else {
        distance as i128
    }
}

/// The distance covered never exceeds the speed times the duration, and has
/// the sign of the speed.
pub proof fn lemma_travel_bounded(speed: int, dt: int, bound: int)
    requires
        0 <= dt,
        abs(speed) <= bound,
    ensures
        abs(travel(speed, dt)) <= bound * dt / MICROS_PER_SECOND as int,
        speed >= 0 ==> travel(speed, dt) >= 0,
        speed <= 0 ==> travel(speed, dt) <= 0,
{
    let m = abs(speed);
    assert(m * dt <= bound * dt) by (nonlinear_arith)
        requires
            0 <= dt,
            0 <= m <= bound,
    ;
    assert(m * dt / 1_000_000 <= bound * dt / 1_000_000) by (nonlinear_arith)
        requires
            m * dt <= bound * dt,
            0 <= m * dt,
    ;
    assert(m * dt / 1_000_000 >= 0) by (nonlinear_arith)
        requires
            0 <= dt,
            0 <= m,
    ;
    if speed < 0 {
        assert((-speed) * dt == m * dt);
    } else {
        assert(speed * dt == m * dt);
        assert(speed == 0 ==> m * dt == 0) by (nonlinear_arith)
            requires
                m == speed,
        ;
    }
}

} // verus!
