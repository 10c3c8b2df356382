//! Arena geometry: directions, positions, clamping and circle overlap.
//!
//! Lengths are integers in thousandths of a pixel, so that the simulation is
//! exact and free of floating point.
use vstd::prelude::*;

verus! {

/// `v` held to the range of `i64`.
pub open spec fn sat(v: int) -> int {
    if v > i64::MAX {
        i64::MAX as int
    } else if v < i64::MIN {
        i64::MIN as int
    } else {
        v
    }
}

/// Saturating addition on `i64`.
pub fn sat_add(a: i64, b: i64) -> (r: i64)
    ensures
        r == sat(a + b),
{
    let v: i128 = a as i128 + b as i128;
    if v > i64::MAX as i128 {
        i64::MAX
    } else if v < i64::MIN as i128 {
        i64::MIN
    } else {
        v as i64
    }
}

/// Largest radius an entity may report for hit-testing.
pub const MAX_RADIUS: i64 = 0x4000_0000_0000_0000;

/// A heading in screen coordinates, where y grows downward.
#[derive(Clone, Copy, Debug, PartialEq, Eq, Structural)]
pub enum Direction {
    North,
    South,
    East,
    West,
}

/// Horizontal component of a direction's unit vector.
pub open spec fn unit_x(d: Direction) -> int {
    match d {
        Direction::East => 1,
        Direction::West => -1,
        _ => 0,
    }
}

/// Vertical component of a direction's unit vector.
pub open spec fn unit_y(d: Direction) -> int {
    match d {
        Direction::South => 1,
        Direction::North => -1,
        _ => 0,
    }
}

impl Direction {
    /// The unit vector of this direction.
    pub fn unit(self) -> (r: (i64, i64))
        ensures
            r.0 == unit_x(self),
            r.1 == unit_y(self),
    {
        match self {
            Direction::North => (0, -1),
            Direction::South => (0, 1),
            Direction::East => (1, 0),
            Direction::West => (-1, 0),
        }
    }
}

#[derive(Clone, Copy, Debug, PartialEq, Eq, Structural)]
pub struct Position {
    pub x: i64,
    pub y: i64,
}

impl Position {
    pub fn new(x: i64, y: i64) -> (r: Position)
        ensures
            r.x == x,
            r.y == y,
    {
        Position { x, y }
    }
}

/// `v` limited above by `hi`, then below by `lo` (the lower bound wins when
/// the two cross).
pub open spec fn clamp_coord(v: int, lo: int, hi: int) -> int {
    let m = if v < hi { v } else { hi };
    if m < lo { lo } else { m }
}

pub open spec fn within_arena(p: Position, radius: int, width: int, height: int) -> bool {
    &&& radius <= p.x <= width - radius
    &&& radius <= p.y <= height - radius
}

/// Pulls a position back so that a circle of `radius` around it stays inside
/// the arena `[0, width] x [0, height]`.
pub fn clamp_to_bounds(pos: &mut Position, radius: i64, width: i64, height: i64)
    requires
        0 <= radius,
        0 <= width,
        0 <= height,
    ensures
        final(pos).x == clamp_coord(old(pos).x as int, radius as int, width - radius),
        final(pos).y == clamp_coord(old(pos).y as int, radius as int, height - radius),
        width >= 2 * radius && height >= 2 * radius ==> within_arena(
            *final(pos),
            radius as int,
            width as int,
            height as int,
        ),
{
    let hx = width - radius;
    let hy = height - radius;
    if pos.x > hx {
        pos.x = hx;
    }
    if pos.x < radius {
        pos.x = radius;
    }
    if pos.y > hy {
        pos.y = hy;
    }
    if pos.y < radius {
        pos.y = radius;
    }
}

/// Two circles overlap when the distance between their centres is less than
/// the sum of their radii (compared in squares, both sides being non-negative).
pub open spec fn overlaps(a: Position, ar: int, b: Position, br: int) -> bool {
    let dx = a.x - b.x;
    let dy = a.y - b.y;
    dx * dx + dy * dy < (ar + br) * (ar + br)
}

pub open spec fn valid_radius(r: int) -> bool {
    0 <= r <= MAX_RADIUS
}

/// Circle-circle hit test.
pub fn collides(a: &Position, ar: i64, b: &Position, br: i64) -> (r: bool)
    requires
        valid_radius(ar as int),
        valid_radius(br as int),
    ensures
        r == overlaps(*a, ar as int, *b, br as int),
{
    let dx: i128 = a.x as i128 - b.x as i128;
    let dy: i128 = a.y as i128 - b.y as i128;
    let s: i128 = ar as i128 + br as i128;
    let adx: i128 = if dx < 0 { -dx } else { dx };
    let ady: i128 = if dy < 0 { -dy } else { dy };
    proof {
        assert(dx * dx == adx * adx) by (nonlinear_arith)
            requires adx == dx || adx == -dx;
        assert(dy * dy == ady * ady) by (nonlinear_arith)
            requires ady == dy || ady == -dy;
        assert(0 <= dy * dy) by (nonlinear_arith);
        assert(0 <= dx * dx) by (nonlinear_arith);
    }
    if adx >= s {
        proof {
            assert(adx * adx >= s * s) by (nonlinear_arith)
                requires adx >= s, s >= 0;
        }
        false
    } else if ady >= s {
        proof {
            assert(ady * ady >= s * s) by (nonlinear_arith)
                requires ady >= s, s >= 0;
        }
        false
    } else {
        proof {
            assert(adx * adx < s * s) by (nonlinear_arith)
                requires 0 <= adx < s;
            assert(ady * ady < s * s) by (nonlinear_arith)
                requires 0 <= ady < s;
            assert(s * s <= 0x8000_0000_0000_0000 * 0x8000_0000_0000_0000) by (nonlinear_arith)
                requires 0 <= s <= 0x8000_0000_0000_0000;
        }
        dx * dx + dy * dy < s * s
    }
}

/// Hit-testing does not depend on which of the two circles is asked first.
pub proof fn lemma_collides_symmetric(a: Position, ar: int, b: Position, br: int)
    ensures
        overlaps(a, ar, b, br) == overlaps(b, br, a, ar),
{
    assert((a.x - b.x) * (a.x - b.x) == (b.x - a.x) * (b.x - a.x)) by (nonlinear_arith);
    assert((a.y - b.y) * (a.y - b.y) == (b.y - a.y) * (b.y - a.y)) by (nonlinear_arith);
    assert((ar + br) * (ar + br) == (br + ar) * (br + ar));
}

} // verus!
