//! Integer 2D geometry helpers: rectangle and circle overlap tests, squared
//! and rooted distances, clamping and interpolation.

use vstd::prelude::*;

verus! {

/// Number of position units in one pixel.
pub const SUBPIXELS_PER_PIXEL: i64 = 1_000_000;

/// Number of velocity units in one pixel per second.
pub const SPEED_UNITS_PER_PIXEL_PER_SECOND: i64 = 1_000;

/// Bound on coordinates and sizes the geometry functions accept, so that
/// squares and scaled products of coordinates fit in 128-bit intermediates.
pub const WORLD_LIMIT: i64 = 1_000_000_000_000;

/// A coordinate within the world bound.
pub open spec fn in_world(v: int) -> bool {
    -WORLD_LIMIT <= v <= WORLD_LIMIT
}

/// A point, size or velocity in the 2D plane.
#[derive(Clone, Copy, PartialEq, Eq, Structural, Debug)]
pub struct Vec2i {
    pub x: i64,
    pub y: i64,
}

impl Vec2i {
    /// Both components within the world bound.
    pub open spec fn wf(self) -> bool {
        in_world(self.x as int) && in_world(self.y as int)
    }

    pub fn new(x: i64, y: i64) -> (r: Vec2i)
        ensures
            r == (Vec2i { x, y }),
    {
        Vec2i { x, y }
    }
}

/// Square of the Euclidean distance between two points.
pub open spec fn dist_sq(a: Vec2i, b: Vec2i) -> int {
    (a.x - b.x) * (a.x - b.x) + (a.y - b.y) * (a.y - b.y)
}

/// A product of two values is bounded by the product of their bounds.
pub proof fn lemma_mul_le(a: int, b: int, ca: int, cb: int)
    by (nonlinear_arith)
    requires
        -ca <= a <= ca,
        -cb <= b <= cb,
        0 <= ca,
        0 <= cb,
    ensures
        -(ca * cb) <= a * b <= ca * cb,
{
}

/// A square is nonnegative and bounded by the square of the bound.
pub proof fn lemma_sq_le(v: int, c: int)
    by (nonlinear_arith)
    requires
        -c <= v <= c,
        0 <= c,
    ensures
        0 <= v * v <= c * c,
{
}

/// Dividing by 1000 keeps a value within its bound.
pub proof fn lemma_div_1000_bound(x: int, c: int)
    by (nonlinear_arith)
    requires
        -c <= x <= c,
        0 <= c,
    ensures
        -c <= x / 1000 <= c,
{
}

/// Two axis-aligned rectangles, each given by its centre and full size,
/// overlap with positive area. Stated over doubled differences so that no
/// halving of odd sizes is needed: centres closer than the sum of the half
/// sizes on both axes.
pub open spec fn rects_overlap(pos1: Vec2i, size1: Vec2i, pos2: Vec2i, size2: Vec2i) -> bool {
    &&& 2 * (pos1.x - pos2.x) < size1.x + size2.x
    &&& 2 * (pos2.x - pos1.x) < size1.x + size2.x
    &&& 2 * (pos1.y - pos2.y) < size1.y + size2.y
    &&& 2 * (pos2.y - pos1.y) < size1.y + size2.y
}

/// A point lies in the closed axis-aligned rectangle given by centre and
/// full size.
pub open spec fn point_in_rect_spec(point: Vec2i, rect_pos: Vec2i, rect_size: Vec2i) -> bool {
    &&& 2 * (rect_pos.x - point.x) <= rect_size.x
    &&& 2 * (point.x - rect_pos.x) <= rect_size.x
    &&& 2 * (rect_pos.y - point.y) <= rect_size.y
    &&& 2 * (point.y - rect_pos.y) <= rect_size.y
}

/// AABB overlap test for two centred rectangles.
pub fn check_rect_collision(pos1: Vec2i, size1: Vec2i, pos2: Vec2i, size2: Vec2i) -> (r: bool)
    ensures
        r == rects_overlap(pos1, size1, pos2, size2),
{
    let dx: i128 = pos1.x as i128 - pos2.x as i128;
    let dy: i128 = pos1.y as i128 - pos2.y as i128;
    let sx: i128 = size1.x as i128 + size2.x as i128;
    let sy: i128 = size1.y as i128 + size2.y as i128;
    2 * dx < sx && 2 * (-dx) < sx && 2 * dy < sy && 2 * (-dy) < sy
}

/// Closed-rectangle membership test.
pub fn point_in_rect(point: Vec2i, rect_pos: Vec2i, rect_size: Vec2i) -> (r: bool)
    ensures
        r == point_in_rect_spec(point, rect_pos, rect_size),
{
    let dx: i128 = point.x as i128 - rect_pos.x as i128;
    let dy: i128 = point.y as i128 - rect_pos.y as i128;
    2 * (-dx) <= rect_size.x as i128 && 2 * dx <= rect_size.x as i128
        && 2 * (-dy) <= rect_size.y as i128 && 2 * dy <= rect_size.y as i128
}

/// The sign of a coordinate difference: -1, 0 or 1.
pub open spec fn sign(v: int) -> int {
    if v > 0 {
        1
    } else if v < 0 {
        -1
    } else {
        0
    }
}

/// Componentwise direction from one point toward another, as signs.
pub fn direction_vector(from: Vec2i, to: Vec2i) -> (r: Vec2i)
    ensures
        r.x == sign(to.x - from.x),
        r.y == sign(to.y - from.y),
{
    let x: i64 = if to.x > from.x {
        1
    } else if to.x < from.x {
        -1
    } else {
        0
    };
    let y: i64 = if to.y > from.y {
        1
    } else if to.y < from.y {
        -1
    } else {
        0
    };
    Vec2i { x, y }
}

/// Whether one point lies within `range` of another: the distance compared
/// as squares, which is exact for integer coordinates.
pub fn is_within_range(pos1: Vec2i, pos2: Vec2i, range: i64) -> (r: bool)
    requires
        pos1.wf(),
        pos2.wf(),
        in_world(range as int),
    ensures
        r == (range >= 0 && dist_sq(pos1, pos2) <= range * range),
{
    if range < 0 {
        return false;
    }
    let dx: i128 = pos1.x as i128 - pos2.x as i128;
    let dy: i128 = pos1.y as i128 - pos2.y as i128;
    proof {
        lemma_sq_le(dx as int, 2 * WORLD_LIMIT as int);
        lemma_sq_le(dy as int, 2 * WORLD_LIMIT as int);
        lemma_sq_le(range as int, WORLD_LIMIT as int);
    }
    dx * dx + dy * dy <= range as i128 * range as i128
}

/// Whether one point lies strictly within `range` of another, again by
/// comparing squares.
pub fn is_within_range_strict(pos1: Vec2i, pos2: Vec2i, range: i64) -> (r: bool)
    requires
        pos1.wf(),
        pos2.wf(),
        0 <= range <= WORLD_LIMIT,
    ensures
        r == (dist_sq(pos1, pos2) < range * range),
{
    let dx: i128 = pos1.x as i128 - pos2.x as i128;
    let dy: i128 = pos1.y as i128 - pos2.y as i128;
    proof {
        lemma_sq_le(dx as int, 2 * WORLD_LIMIT as int);
        lemma_sq_le(dy as int, 2 * WORLD_LIMIT as int);
        lemma_sq_le(range as int, WORLD_LIMIT as int);
    }
    dx * dx + dy * dy < range as i128 * range as i128
}

/// Floor of the Euclidean distance between two points, by binary search for
/// the integer square root of the squared distance.
pub fn distance_between_points(a: Vec2i, b: Vec2i) -> (r: u64)
    requires
        a.wf(),
        b.wf(),
    ensures
        r * r <= dist_sq(a, b) < (r + 1) * (r + 1),
{
    let dx: i128 = a.x as i128 - b.x as i128;
    let dy: i128 = a.y as i128 - b.y as i128;
    proof {
        lemma_sq_le(dx as int, 2 * WORLD_LIMIT as int);
        lemma_sq_le(dy as int, 2 * WORLD_LIMIT as int);
    }
    let d2: u128 = (dx * dx + dy * dy) as u128;
    // The squared distance is at most 8 * WORLD_LIMIT^2, so the root is
    // below 3 * WORLD_LIMIT.
    let mut lo: u64 = 0;
    let mut hi: u64 = 3_000_000_000_000;
    while lo + 1 < hi
        invariant
            lo < hi,
            hi <= 3_000_000_000_000,
            (lo as int) * (lo as int) <= d2,
            d2 < (hi as int) * (hi as int),
        decreases hi - lo,
    {
        let mid: u64 = lo + (hi - lo) / 2;
        proof {
            lemma_sq_le(mid as int, 3_000_000_000_000int);
        }
        if (mid as u128) * (mid as u128) <= d2 {
            lo = mid;
        } else {
            hi = mid;
        }
    }
    lo
}

/// Clamp a value into a closed interval.
pub fn clamp(value: i64, min: i64, max: i64) -> (r: i64)
    requires
        min <= max,
    ensures
        r == if value < min {
            min
        } else if value > max {
            max
        } else {
            value
        },
{
    if value < min {
        min
    } else if value > max {
        max
    } else {
        value
    }
}

/// Linear interpolation from `a` to `b` with the fraction `t` in
/// thousandths, rounded down.
pub fn lerp(a: i64, b: i64, t: i64) -> (r: i64)
    requires
        in_world(a as int),
        in_world(b as int),
        0 <= t <= 1000,
    ensures
        r == a + (b - a) * t / 1000,
{
    let diff: i128 = b as i128 - a as i128;
    proof {
        lemma_mul_le(diff as int, t as int, 2 * WORLD_LIMIT as int, 1000);
        lemma_div_1000_bound(diff as int * t as int, 2000 * WORLD_LIMIT as int);
    }
    let scaled: i128 = diff * t as i128;
    let q: i128 = match scaled.checked_div_euclid(1000) {
        Some(q) => q,
        // The divisor is positive and the quotient fits, so the division
        // cannot fail.
        None => {
            proof {
                assert(false);
            }
            0
        },
    };
    (a as i128 + q) as i64
}

/// Multiply a value by a per-mille factor, rounded down.
pub fn scale_permille(v: i64, f: i64) -> (r: i64)
    requires
        in_world(v as int),
        -100_000 <= f <= 100_000,
    ensures
        r == v * f / 1000,
{
    proof {
        lemma_mul_le(v as int, f as int, WORLD_LIMIT as int, 100_000);
        lemma_div_1000_bound(v as int * f as int, 100_000 * WORLD_LIMIT as int);
    }
    let scaled: i128 = v as i128 * f as i128;
    let q: i128 = match scaled.checked_div_euclid(1000) {
        Some(q) => q,
        // The divisor is positive and the quotient fits, so the division
        // cannot fail.
        None => {
            proof {
                assert(false);
            }
            0
        },
    };
    q as i64
}

/// Half of a nonnegative value, rounded down.
pub fn half(v: i64) -> (r: i64)
    requires
        v >= 0,
    ensures
        r == v / 2,
{
    ((v as u64) / 2) as i64
}

} // verus!
