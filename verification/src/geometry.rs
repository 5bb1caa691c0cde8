//! Exact 2D geometry kernel: points, vectors, segments and oriented
//! rectangles over fixed-point (millipixel) integer coordinates.
//!
//! Every operation is pure and deterministic.  Square roots are integer
//! square roots (the floor of the real root); divisions truncate toward
//! zero.  Degenerate inputs (a zero-length vector where a direction is
//! needed) are excluded by precondition rather than produced as NaN.

use vstd::prelude::*;

use crate::COORD_LIMIT;
use crate::VEC_LIMIT;

verus! {

/// The integer square root: the largest `r` with `r * r <= n`.
pub open spec fn isqrt(n: nat) -> nat
    decreases n,
{
    if n == 0 {
        0
    } else {
        let r = isqrt((n - 1) as nat);
        if (r + 1) * (r + 1) <= n {
            r + 1
        } else {
            r
        }
    }
}

/// `isqrt(n)` is the floor of the real square root of `n`.
pub proof fn lemma_isqrt_bounds(n: nat)
    ensures
        isqrt(n) * isqrt(n) <= n,
        n < (isqrt(n) + 1) * (isqrt(n) + 1),
    decreases n,
{
    if n > 0 {
        lemma_isqrt_bounds((n - 1) as nat);
        let r = isqrt((n - 1) as nat);
        if (r + 1) * (r + 1) <= n {
            assert(isqrt(n) == r + 1);
            assert(isqrt(n) * isqrt(n) <= n) by (nonlinear_arith)
                requires
                    isqrt(n) == r + 1,
                    (r + 1) * (r + 1) <= n,
            ;
            assert(n < (isqrt(n) + 1) * (isqrt(n) + 1)) by (nonlinear_arith)
                requires
                    isqrt(n) == r + 1,
                    (n - 1) < (r + 1) * (r + 1),
            ;
        } else {
            assert(isqrt(n) == r);
            assert(isqrt(n) * isqrt(n) <= n) by (nonlinear_arith)
                requires
                    isqrt(n) == r,
                    r * r <= n - 1,
            ;
            assert(n < (isqrt(n) + 1) * (isqrt(n) + 1)) by (nonlinear_arith)
                requires
                    isqrt(n) == r,
                    !((r + 1) * (r + 1) <= n),
            ;
        }
    } else {
        assert(isqrt(n) == 0);
        assert(isqrt(n) * isqrt(n) <= n && n < (isqrt(n) + 1) * (isqrt(n) + 1))
            by (nonlinear_arith)
            requires
                isqrt(n) == 0,
                n == 0,
        ;
    }
}

/// No two distinct naturals can both be the integer square root of `n`.
pub proof fn lemma_isqrt_unique(n: nat, r: nat)
    requires
        r * r <= n,
        n < (r + 1) * (r + 1),
    ensures
        r == isqrt(n),
{
    lemma_isqrt_bounds(n);
    let s = isqrt(n);
    if r < s {
        assert(s * s > n) by (nonlinear_arith)
            requires
                r + 1 <= s,
                n < (r + 1) * (r + 1),
        ;
    }
    if s < r {
        assert(r * r > n) by (nonlinear_arith)
            requires
                s + 1 <= r,
                n < (s + 1) * (s + 1),
        ;
    }
}

/// Integer square root of a `u64`, by binary search.
pub fn isqrt_u64(n: u64) -> (r: u64)
    requires
        n <= 9_000_000_000_000_000_000,
    ensures
        r == isqrt(n as nat),
        r <= 3_000_000_000,
{
    let mut lo: u64 = 0;
    let mut hi: u64 = 3_000_000_000;
    proof {
        assert((3_000_000_000 + 1) * (3_000_000_000 + 1) > 9_000_000_000_000_000_000int)
            by (nonlinear_arith);
    }
    while lo < hi
        invariant
            lo <= hi <= 3_000_000_000,
            lo * lo <= n,
            n < (hi + 1) * (hi + 1),
        decreases hi - lo,
    {
        let mid: u64 = lo + (hi - lo + 1) / 2;
        proof {
            assert(mid * mid <= 9_000_000_000_000_000_000) by (nonlinear_arith)
                requires
                    mid <= 3_000_000_000,
            ;
        }
        let sq: u64 = mid * mid;
        if sq <= n {
            lo = mid;
        } else {
            hi = mid - 1;
        }
    }
    proof {
        lemma_isqrt_unique(n as nat, lo as nat);
    }
    lo
}

/// A point in pixel space, coordinates in millipixels.
#[derive(Clone, Copy, Debug, PartialEq, Eq, Structural)]
pub struct Point {
    pub x: i64,
    pub y: i64,
}

/// A direction with magnitude, components in millipixels.
#[derive(Clone, Copy, Debug, PartialEq, Eq, Structural)]
pub struct Vector2 {
    pub x: i64,
    pub y: i64,
}

impl Point {
    /// Both coordinates within the kernel's working range.
    pub open spec fn valid(self) -> bool {
        &&& -COORD_LIMIT <= self.x <= COORD_LIMIT
        &&& -COORD_LIMIT <= self.y <= COORD_LIMIT
    }

    /// The scalar 2D cross product of `self` and `o` read as vectors from
    /// the origin.
    pub open spec fn spec_cross(self, o: Point) -> int {
        self.x * o.y - o.x * self.y
    }

    /// The squared Euclidean distance to `o`.
    pub open spec fn dist_sq(self, o: Point) -> int {
        (self.x - o.x) * (self.x - o.x) + (self.y - o.y) * (self.y - o.y)
    }

    pub fn origin() -> (r: Point)
        ensures
            r == (Point { x: 0, y: 0 }),
    {
        Point { x: 0, y: 0 }
    }

    /// The scalar cross product against another point read as a vector.
    pub fn cross(self, o: Point) -> (r: i64)
        requires
            self.valid(),
            o.valid(),
        ensures
            r == self.spec_cross(o),
    {
        proof {
            assert(-4_000_000_000_000_000_000 <= self.x * o.y <= 4_000_000_000_000_000_000)
                by (nonlinear_arith)
                requires
                    -COORD_LIMIT <= self.x <= COORD_LIMIT,
                    -COORD_LIMIT <= o.y <= COORD_LIMIT,
            ;
            assert(-4_000_000_000_000_000_000 <= o.x * self.y <= 4_000_000_000_000_000_000)
                by (nonlinear_arith)
                requires
                    -COORD_LIMIT <= o.x <= COORD_LIMIT,
                    -COORD_LIMIT <= self.y <= COORD_LIMIT,
            ;
        }
        self.x * o.y - o.x * self.y
    }

    /// The Euclidean distance to `o`, rounded down to whole millipixels.
    pub fn distance_to(self, o: Point) -> (r: i64)
        requires
            self.valid(),
            o.valid(),
        ensures
            r == isqrt(self.dist_sq(o) as nat),
            0 <= r <= 3_000_000_000,
    {
        let dx: i64 = self.x - o.x;
        let dy: i64 = self.y - o.y;
        proof {
            assert(0 <= dx * dx <= 4_000_000_000_000_000_000) by (nonlinear_arith)
                requires
                    -VEC_LIMIT <= dx <= VEC_LIMIT,
            ;
            assert(0 <= dy * dy <= 4_000_000_000_000_000_000) by (nonlinear_arith)
                requires
                    -VEC_LIMIT <= dy <= VEC_LIMIT,
            ;
        }
        let sq: u64 = (dx * dx + dy * dy) as u64;
        let r = isqrt_u64(sq);
        r as i64
    }

    /// Translation by a vector.
    pub fn translate(self, v: Vector2) -> (r: Point)
        requires
            self.valid(),
            v.valid(),
        ensures
            r.x == self.x + v.x,
            r.y == self.y + v.y,
    {
        Point { x: self.x + v.x, y: self.y + v.y }
    }
}

impl Vector2 {
    /// Both components within the range a segment between valid points can
    /// produce.
    pub open spec fn valid(self) -> bool {
        &&& -VEC_LIMIT <= self.x <= VEC_LIMIT
        &&& -VEC_LIMIT <= self.y <= VEC_LIMIT
    }

    /// The squared magnitude.
    pub open spec fn mag_sq(self) -> int {
        self.x * self.x + self.y * self.y
    }

    /// The dot product with `o`.
    pub open spec fn spec_dot(self, o: Vector2) -> int {
        self.x * o.x + self.y * o.y
    }

    /// The unit vector along the X axis, in millipixels.
    pub fn i() -> (r: Vector2)
        ensures
            r == (Vector2 { x: crate::SCALE, y: 0 }),
    {
        Vector2 { x: crate::SCALE, y: 0 }
    }

    /// The unit vector along the Y axis, in millipixels.
    pub fn j() -> (r: Vector2)
        ensures
            r == (Vector2 { x: 0, y: crate::SCALE }),
    {
        Vector2 { x: 0, y: crate::SCALE }
    }

    /// Scaling by an integer factor.
    pub fn scale(self, k: i64) -> (r: Vector2)
        requires
            self.valid(),
            -1_000 <= k <= 1_000,
        ensures
            r.x == self.x * k,
            r.y == self.y * k,
    {
        proof {
            assert(-2_000_000_000_000 <= self.x * k <= 2_000_000_000_000) by (nonlinear_arith)
                requires
                    -VEC_LIMIT <= self.x <= VEC_LIMIT,
                    -1_000 <= k <= 1_000,
            ;
            assert(-2_000_000_000_000 <= self.y * k <= 2_000_000_000_000) by (nonlinear_arith)
                requires
                    -VEC_LIMIT <= self.y <= VEC_LIMIT,
                    -1_000 <= k <= 1_000,
            ;
        }
        Vector2 { x: self.x * k, y: self.y * k }
    }

    /// The dot product with `o`.
    pub fn dot(self, o: Vector2) -> (r: i64)
        requires
            self.valid(),
            o.valid(),
        ensures
            r == self.spec_dot(o),
            -8_000_000_000_000_000_000 <= r <= 8_000_000_000_000_000_000,
    {
        proof {
            assert(-4_000_000_000_000_000_000 <= self.x * o.x <= 4_000_000_000_000_000_000)
                by (nonlinear_arith)
                requires
                    -VEC_LIMIT <= self.x <= VEC_LIMIT,
                    -VEC_LIMIT <= o.x <= VEC_LIMIT,
            ;
            assert(-4_000_000_000_000_000_000 <= self.y * o.y <= 4_000_000_000_000_000_000)
                by (nonlinear_arith)
                requires
                    -VEC_LIMIT <= self.y <= VEC_LIMIT,
                    -VEC_LIMIT <= o.y <= VEC_LIMIT,
            ;
        }
        self.x * o.x + self.y * o.y
    }

    /// The magnitude, rounded down to whole millipixels.
    pub fn magnitude(self) -> (r: i64)
        requires
            self.valid(),
        ensures
            r == isqrt(self.mag_sq() as nat),
            0 <= r <= 3_000_000_000,
    {
        proof {
            assert(0 <= self.x * self.x <= 4_000_000_000_000_000_000) by (nonlinear_arith)
                requires
                    -VEC_LIMIT <= self.x <= VEC_LIMIT,
            ;
            assert(0 <= self.y * self.y <= 4_000_000_000_000_000_000) by (nonlinear_arith)
                requires
                    -VEC_LIMIT <= self.y <= VEC_LIMIT,
            ;
        }
        let sq: u64 = (self.x * self.x + self.y * self.y) as u64;
        let r = isqrt_u64(sq);
        r as i64
    }

    /// The orthogonal vector, rotated a quarter turn clockwise.
    pub fn orthogonal_cw(self) -> (r: Vector2)
        requires
            self.valid(),
        ensures
            r.x == self.y,
            r.y == -self.x,
    {
        Vector2 { x: self.y, y: -self.x }
    }

    /// The orthogonal vector, rotated a quarter turn counterclockwise.
    pub fn orthogonal_ccw(self) -> (r: Vector2)
        requires
            self.valid(),
        ensures
            r.x == -self.y,
            r.y == self.x,
    {
        Vector2 { x: -self.y, y: self.x }
    }
}

} // verus!

verus! {

/// Division truncated toward zero, for a positive divisor: the semantics of
/// every coordinate division in this kernel.
pub open spec fn trunc_div(n: int, d: int) -> int {
    if n >= 0 {
        n / d
    } else {
        -((-n) / d)
    }
}

/// Truncating division on `i64`, with exact semantics.
pub fn div_trunc_i64(n: i64, d: i64) -> (r: i64)
    requires
        d > 0,
        n > i64::MIN,
    ensures
        r == trunc_div(n as int, d as int),
        n >= 0 ==> 0 <= r <= n,
        n < 0 ==> n <= r <= 0,
{
    if n >= 0 {
        let q: u64 = (n as u64) / (d as u64);
        proof {
            vstd::arithmetic::div_mod::lemma_div_nonincreasing(n as int, d as int);
            vstd::arithmetic::div_mod::lemma_div_pos_is_pos(n as int, d as int);
        }
        q as i64
    } else {
        let m: u64 = (-n) as u64;
        let q: u64 = m / (d as u64);
        proof {
            vstd::arithmetic::div_mod::lemma_div_nonincreasing(m as int, d as int);
            vstd::arithmetic::div_mod::lemma_div_pos_is_pos(m as int, d as int);
        }
        -(q as i64)
    }
}

/// Truncating division on `i128`, with exact semantics.
pub fn div_trunc_i128(n: i128, d: i128) -> (r: i128)
    requires
        d > 0,
        n > i128::MIN,
    ensures
        r == trunc_div(n as int, d as int),
        n >= 0 ==> 0 <= r <= n,
        n < 0 ==> n <= r <= 0,
{
    if n >= 0 {
        let q: u128 = (n as u128) / (d as u128);
        proof {
            vstd::arithmetic::div_mod::lemma_div_nonincreasing(n as int, d as int);
            vstd::arithmetic::div_mod::lemma_div_pos_is_pos(n as int, d as int);
        }
        q as i128
    } else {
        let m: u128 = (-n) as u128;
        let q: u128 = m / (d as u128);
        proof {
            vstd::arithmetic::div_mod::lemma_div_nonincreasing(m as int, d as int);
            vstd::arithmetic::div_mod::lemma_div_pos_is_pos(m as int, d as int);
        }
        -(q as i128)
    }
}

/// Is `p1` between `p2` and `p3` (inclusive at the endpoints)?
pub open spec fn spec_between(p1: int, p2: int, p3: int) -> bool {
    (p2 < p1 && p1 < p3) || (p3 < p1 && p1 < p2) || p1 == p2 || p1 == p3
}

/// Is `p1` between `p2` and `p3`?
pub fn between(p1: i64, p2: i64, p3: i64) -> (r: bool)
    ensures
        r == spec_between(p1 as int, p2 as int, p3 as int),
{
    (p2 < p1 && p1 < p3) || (p3 < p1 && p1 < p2) || p1 == p2 || p1 == p3
}

/// An ordered pair of points.
#[derive(Clone, Copy, Debug, PartialEq, Eq, Structural)]
pub struct Segment {
    pub from: Point,
    pub to: Point,
}

impl Segment {
    pub open spec fn valid(self) -> bool {
        self.from.valid() && self.to.valid()
    }

    /// The cross product of the segment's direction with the direction from
    /// its start to `needle`: zero on the line through the segment, negative
    /// to its right, positive to its left.
    pub open spec fn side_cross(self, needle: Point) -> int {
        (self.to.x - self.from.x) * (needle.y - self.from.y) - (needle.x - self.from.x) * (
        self.to.y - self.from.y)
    }

    /// `needle` lies on the infinite line through the segment.
    pub open spec fn spec_contains(self, needle: Point) -> bool {
        self.side_cross(needle) == 0
    }

    /// `needle` lies strictly to the right of the line through the segment.
    pub open spec fn spec_is_right_of_line(self, needle: Point) -> bool {
        self.side_cross(needle) < 0
    }

    /// Both coordinate deltas agree: the segments run in the same direction
    /// at the same speed.
    pub open spec fn spec_is_parallel(self, other: Segment) -> bool {
        &&& self.from.y - self.to.y == other.from.y - other.to.y
        &&& self.from.x - self.to.x == other.from.x - other.to.x
    }

    /// Non-parallel, and `other` either touches the line through `self` or
    /// straddles it.
    pub open spec fn spec_intersects(self, other: Segment) -> bool {
        &&& !self.spec_is_parallel(other)
        &&& {
            ||| self.spec_contains(other.from)
            ||| self.spec_contains(other.to)
            ||| (self.spec_is_right_of_line(other.from) != self.spec_is_right_of_line(other.to))
        }
    }

    pub open spec fn dist_sq(self) -> int {
        self.from.dist_sq(self.to)
    }

    pub fn new(a: Point, b: Point) -> (r: Segment)
        ensures
            r.from == a,
            r.to == b,
    {
        Segment { from: a, to: b }
    }

    /// The midpoint, each coordinate rounded toward zero.
    pub fn midpoint(self) -> (r: Point)
        requires
            self.valid(),
        ensures
            r.x == trunc_div(self.from.x + self.to.x, 2),
            r.y == trunc_div(self.from.y + self.to.y, 2),
    {
        Point {
            x: div_trunc_i64(self.from.x + self.to.x, 2),
            y: div_trunc_i64(self.from.y + self.to.y, 2),
        }
    }

    /// The segment's length in millipixels, rounded down.
    pub fn length(self) -> (r: i64)
        requires
            self.valid(),
        ensures
            r == isqrt(self.dist_sq() as nat),
            0 <= r <= 3_000_000_000,
    {
        self.from.distance_to(self.to)
    }

    /// Collinearity of `needle` with the segment: the exact form of a
    /// cross-product-within-epsilon test.
    pub fn contains(self, needle: Point) -> (r: bool)
        requires
            self.valid(),
            needle.valid(),
        ensures
            r == self.spec_contains(needle),
    {
        self.side_cross_exec(needle) == 0
    }

    /// Is `needle` strictly to the right of the line through this segment?
    pub fn is_right_of_line(self, needle: Point) -> (r: bool)
        requires
            self.valid(),
            needle.valid(),
        ensures
            r == self.spec_is_right_of_line(needle),
    {
        self.side_cross_exec(needle) < 0
    }

    fn side_cross_exec(self, needle: Point) -> (r: i64)
        requires
            self.valid(),
            needle.valid(),
        ensures
            r == self.side_cross(needle),
    {
        let tx: i64 = self.to.x - self.from.x;
        let ty: i64 = self.to.y - self.from.y;
        let bx: i64 = needle.x - self.from.x;
        let by: i64 = needle.y - self.from.y;
        proof {
            assert(-4_000_000_000_000_000_000 <= tx * by <= 4_000_000_000_000_000_000)
                by (nonlinear_arith)
                requires
                    -VEC_LIMIT <= tx <= VEC_LIMIT,
                    -VEC_LIMIT <= by <= VEC_LIMIT,
            ;
            assert(-4_000_000_000_000_000_000 <= bx * ty <= 4_000_000_000_000_000_000)
                by (nonlinear_arith)
                requires
                    -VEC_LIMIT <= bx <= VEC_LIMIT,
                    -VEC_LIMIT <= ty <= VEC_LIMIT,
            ;
        }
        tx * by - bx * ty
    }

    /// Equal coordinate deltas on both axes.
    pub fn is_parallel(self, other: Segment) -> (r: bool)
        requires
            self.valid(),
            other.valid(),
        ensures
            r == self.spec_is_parallel(other),
    {
        self.from.y - self.to.y == other.from.y - other.to.y && self.from.x - self.to.x
            == other.from.x - other.to.x
    }

    /// The intersection test used for hit detection.
    pub fn intersects(self, other: Segment) -> (r: bool)
        requires
            self.valid(),
            other.valid(),
        ensures
            r == self.spec_intersects(other),
    {
        !self.is_parallel(other) && (self.contains(other.from) || self.contains(other.to) || (
        self.is_right_of_line(other.from) ^ self.is_right_of_line(other.to)))
    }
}

} // verus!

verus! {

/// A component of a vector scaled by `len / m`, truncated toward zero.
pub open spec fn scaled(c: int, len: int, m: int) -> int {
    if c >= 0 {
        (c * len) / m
    } else {
        -(((-c) * len) / m)
    }
}

/// One scaled component: `|c| * len / m`, truncated, with the sign of `c`.
fn scale_component(c: i64, len: i64, m: i64) -> (r: i64)
    requires
        0 <= len <= VEC_LIMIT,
        1 <= m <= 3_000_000_000,
        -m <= c <= m,
    ensures
        r == scaled(c as int, len as int, m as int),
        -len <= r <= len,
{
    let a: u64 = if c >= 0 {
        c as u64
    } else {
        (-c) as u64
    };
    proof {
        assert(a * len <= m * len <= 6_000_000_000_000_000_000) by (nonlinear_arith)
            requires
                0 <= a <= m <= 3_000_000_000,
                0 <= len <= VEC_LIMIT,
        ;
    }
    let prod: u64 = a * (len as u64);
    let q: u64 = prod / (m as u64);
    proof {
        vstd::arithmetic::div_mod::lemma_div_is_ordered(
            (a * len) as int,
            (m * len) as int,
            m as int,
        );
        vstd::arithmetic::mul::lemma_mul_is_commutative(m as int, len as int);
        vstd::arithmetic::div_mod::lemma_div_multiples_vanish(len as int, m as int);
        assert(q <= len);
    }
    if c >= 0 {
        q as i64
    } else {
        -(q as i64)
    }
}

impl Vector2 {
    /// The magnitude as a mathematical value.
    pub open spec fn spec_magnitude(self) -> nat {
        isqrt(self.mag_sq() as nat)
    }

    pub open spec fn spec_orthogonal_cw(self) -> Vector2 {
        Vector2 { x: self.y, y: (-(self.x as int)) as i64 }
    }

    pub open spec fn spec_orthogonal_ccw(self) -> Vector2 {
        Vector2 { x: (-(self.y as int)) as i64, y: self.x }
    }

    /// The vector rescaled to the given length: each component is
    /// `c * len / m` truncated toward zero, where `m` is the magnitude.
    pub open spec fn spec_with_length(self, len: int) -> Vector2 {
        Vector2 {
            x: scaled(self.x as int, len, self.spec_magnitude() as int) as i64,
            y: scaled(self.y as int, len, self.spec_magnitude() as int) as i64,
        }
    }

    /// Rescale to the given length.  The vector must not be degenerate:
    /// a zero vector has no direction to keep.
    pub fn with_length(self, length: i64) -> (r: Vector2)
        requires
            self.valid(),
            0 <= length <= VEC_LIMIT,
            self.mag_sq() > 0,
        ensures
            r == self.spec_with_length(length as int),
            -length <= r.x <= length,
            -length <= r.y <= length,
            r.valid(),
    {
        let m: i64 = self.magnitude();
        proof {
            lemma_isqrt_bounds(self.mag_sq() as nat);
            assert(m >= 1) by (nonlinear_arith)
                requires
                    m >= 0,
                    self.mag_sq() > 0,
                    self.mag_sq() < (m + 1) * (m + 1),
            ;
            assert(self.x * self.x >= 0 && self.y * self.y >= 0) by (nonlinear_arith);
            assert(-m <= self.x <= m && -m <= self.y <= m) by (nonlinear_arith)
                requires
                    m >= 0,
                    self.x * self.x + self.y * self.y < (m + 1) * (m + 1),
                    self.x * self.x >= 0,
                    self.y * self.y >= 0,
            ;
        }
        let rx = scale_component(self.x, length, m);
        let ry = scale_component(self.y, length, m);
        Vector2 { x: rx, y: ry }
    }

    /// The projection of `self` onto `b`: `b * (self . b / b . b)`, each
    /// component truncated toward zero.
    pub open spec fn spec_project_onto(self, b: Vector2) -> Vector2 {
        Vector2 {
            x: trunc_div(b.x * self.spec_dot(b), b.mag_sq()) as i64,
            y: trunc_div(b.y * self.spec_dot(b), b.mag_sq()) as i64,
        }
    }

    /// Project `self` onto the direction of `b`.
    pub fn project_onto(self, b: Vector2) -> (r: Vector2)
        requires
            self.valid(),
            b.valid(),
            b.mag_sq() > 0,
        ensures
            r == self.spec_project_onto(b),
    {
        let d: i64 = self.dot(b);
        let bb: i64 = b.mag_sq_exec();
        proof {
            assert(b.x * b.x >= 0 && b.y * b.y >= 0) by (nonlinear_arith);
        }
        let qx: i128 = project_component(b.x, d, bb);
        let qy: i128 = project_component(b.y, d, bb);
        Vector2 { x: qx as i64, y: qy as i64 }
    }

    /// The squared magnitude.
    pub fn mag_sq_exec(self) -> (r: i64)
        requires
            self.valid(),
        ensures
            r == self.mag_sq(),
    {
        proof {
            assert(0 <= self.x * self.x <= 4_000_000_000_000_000_000) by (nonlinear_arith)
                requires
                    -VEC_LIMIT <= self.x <= VEC_LIMIT,
            ;
            assert(0 <= self.y * self.y <= 4_000_000_000_000_000_000) by (nonlinear_arith)
                requires
                    -VEC_LIMIT <= self.y <= VEC_LIMIT,
            ;
        }
        self.x * self.x + self.y * self.y
    }
}

/// One component of a projection: `c * d / bb` truncated toward zero, with
/// `bb` the squared magnitude of the vector projected onto and `c` one of
/// its components.
fn project_component(c: i64, d: i64, bb: i64) -> (q: i128)
    requires
        -VEC_LIMIT <= c <= VEC_LIMIT,
        -8_000_000_000_000_000_000 <= d <= 8_000_000_000_000_000_000,
        bb >= 1,
        c * c <= bb,
    ensures
        q == trunc_div(c * d, bb as int),
        -8_000_000_000_000_000_000 <= q <= 8_000_000_000_000_000_000,
{
    proof {
        assert(-200_000_000_000_000_000_000_000_000_000 <= (c as int) * (d as int)
            <= 200_000_000_000_000_000_000_000_000_000) by (nonlinear_arith)
            requires
                -VEC_LIMIT <= c <= VEC_LIMIT,
                i64::MIN <= d <= i64::MAX,
        ;
    }
    let n: i128 = (c as i128) * (d as i128);
    let q: i128 = div_trunc_i128(n, bb as i128);
    proof {
        let ca = if c >= 0 { c as int } else { -c as int };
        let da = if d >= 0 { d as int } else { -d as int };
        assert(ca * da == n || ca * da == -n) by (nonlinear_arith)
            requires
                ca == (if c >= 0 { c as int } else { -c as int }),
                da == (if d >= 0 { d as int } else { -d as int }),
                n == c * d,
        ;
        assert(ca <= bb) by (nonlinear_arith)
            requires
                ca == (if c >= 0 { c as int } else { -c as int }),
                c * c <= bb,
        ;
        vstd::arithmetic::mul::lemma_mul_inequality(ca, bb as int, da);
        assert(ca * da <= bb * da);
        vstd::arithmetic::div_mod::lemma_div_is_ordered(ca * da, (bb as int) * da, bb as int);
        vstd::arithmetic::mul::lemma_mul_is_commutative(bb as int, da);
        vstd::arithmetic::div_mod::lemma_div_multiples_vanish(da, bb as int);
        assert((ca * da) / (bb as int) <= da);
        vstd::arithmetic::div_mod::lemma_div_pos_is_pos(ca * da, bb as int);
        if n >= 0 {
            assert(q == (n as int) / (bb as int));
            assert(n == ca * da);
        } else {
            assert(q == -((-(n as int)) / (bb as int)));
            assert(-n == ca * da);
        }
        assert(-da <= q <= da);
    }
    q
}

} // verus!

verus! {

impl Vector2 {
    /// The vector from a segment's end to its start (`from - to`).
    pub fn from_segment(s: Segment) -> (r: Vector2)
        requires
            s.valid(),
        ensures
            r.x == s.from.x - s.to.x,
            r.y == s.from.y - s.to.y,
            r.valid(),
    {
        Vector2 { x: s.from.x - s.to.x, y: s.from.y - s.to.y }
    }

    /// A point read as a vector from the origin.
    pub fn to_point(pt: Point) -> (r: Vector2)
        requires
            pt.valid(),
        ensures
            r.x == pt.x,
            r.y == pt.y,
            r.valid(),
    {
        Vector2::from_segment(Segment::new(pt, Point { x: 0, y: 0 }))
    }

    /// The segment that starts at `p` and runs along this vector.
    pub fn anchor_at(self, p: Point) -> (r: Segment)
        requires
            self.valid(),
            p.valid(),
        ensures
            r.from == p,
            r.to.x == p.x + self.x,
            r.to.y == p.y + self.y,
    {
        Segment { from: p, to: p.translate(self) }
    }
}

/// An oriented rectangle: a centerline segment from `base_a` to `base_b`,
/// inflated to the width `height` perpendicular to it.
#[derive(Clone, Copy, Debug, PartialEq, Eq, Structural)]
pub struct Rectangle {
    pub base_a: Point,
    pub base_b: Point,
    pub height: i64,
}

impl Rectangle {
    pub open spec fn valid(self) -> bool {
        &&& self.base_a.valid()
        &&& self.base_b.valid()
        &&& 0 <= self.height <= VEC_LIMIT
    }

    /// Containment in the closed rectangle, stated in the frame of the
    /// centerline: the projection of `needle - base_a` onto the centerline
    /// direction must fall between the two base points, and the distance
    /// from the centerline must be at most half the height.  Both
    /// comparisons are exact (cross- and dot-product form, no rounding).
    pub open spec fn spec_contains(self, needle: Point) -> bool {
        let dx = self.base_b.x - self.base_a.x;
        let dy = self.base_b.y - self.base_a.y;
        let wx = needle.x - self.base_a.x;
        let wy = needle.y - self.base_a.y;
        let dd = dx * dx + dy * dy;
        let along = wx * dx + wy * dy;
        let across = wx * dy - dx * wy;
        &&& 0 <= along <= dd
        &&& 4 * across * across <= self.height * self.height * dd
    }

    /// Hit test against the closed rectangle.  The base points must be
    /// distinct: a degenerate rectangle has no orientation.
    pub fn contains(&self, needle: Point) -> (r: bool)
        requires
            self.valid(),
            needle.valid(),
            self.base_a != self.base_b,
        ensures
            r == self.spec_contains(needle),
    {
        let dx: i64 = self.base_b.x - self.base_a.x;
        let dy: i64 = self.base_b.y - self.base_a.y;
        let wx: i64 = needle.x - self.base_a.x;
        let wy: i64 = needle.y - self.base_a.y;
        proof {
            assert(0 <= dx * dx <= 4_000_000_000_000_000_000 && 0 <= dy * dy
                <= 4_000_000_000_000_000_000) by (nonlinear_arith)
                requires
                    -VEC_LIMIT <= dx <= VEC_LIMIT,
                    -VEC_LIMIT <= dy <= VEC_LIMIT,
            ;
            assert(-4_000_000_000_000_000_000 <= wx * dx <= 4_000_000_000_000_000_000
                && -4_000_000_000_000_000_000 <= wy * dy <= 4_000_000_000_000_000_000
                && -4_000_000_000_000_000_000 <= wx * dy <= 4_000_000_000_000_000_000
                && -4_000_000_000_000_000_000 <= dx * wy <= 4_000_000_000_000_000_000)
                by (nonlinear_arith)
                requires
                    -VEC_LIMIT <= dx <= VEC_LIMIT,
                    -VEC_LIMIT <= dy <= VEC_LIMIT,
                    -VEC_LIMIT <= wx <= VEC_LIMIT,
                    -VEC_LIMIT <= wy <= VEC_LIMIT,
            ;
        }
        let dd: i64 = dx * dx + dy * dy;
        let along: i64 = wx * dx + wy * dy;
        let across: i64 = wx * dy - dx * wy;
        if !(0 <= along && along <= dd) {
            return false;
        }
        let across_abs: u128 = if across >= 0 {
            across as u128
        } else {
            (-across) as u128
        };
        proof {
            assert(4 * across_abs * across_abs == 4 * across * across
                && 4 * across_abs * across_abs
                <= 340_000_000_000_000_000_000_000_000_000_000_000_000) by (nonlinear_arith)
                requires
                    across_abs == (if across >= 0 { across as int } else { -across as int }),
                    -8_000_000_000_000_000_000 <= across <= 8_000_000_000_000_000_000,
            ;
            assert(0 <= self.height * self.height * dd
                <= 340_000_000_000_000_000_000_000_000_000_000_000_000) by (nonlinear_arith)
                requires
                    0 <= self.height <= VEC_LIMIT,
                    0 <= dd <= 8_000_000_000_000_000_000,
            ;
        }
        let lhs: u128 = 4 * across_abs * across_abs;
        proof {
            assert(0 <= (self.height as int) * (self.height as int)
                <= 4_000_000_000_000_000_000) by (nonlinear_arith)
                requires
                    0 <= self.height <= VEC_LIMIT,
            ;
            assert((self.height as int) * (self.height as int) * (dd as int)
                <= 32_000_000_000_000_000_000_000_000_000_000_000_000) by (nonlinear_arith)
                requires
                    0 <= (self.height as int) * (self.height as int) <= 4_000_000_000_000_000_000,
                    0 <= dd <= 8_000_000_000_000_000_000,
            ;
        }
        let hh: u128 = (self.height as u128) * (self.height as u128);
        let rhs: u128 = hh * (dd as u128);
        proof {
            assert((self.height as u128) * (self.height as u128) * (dd as u128)
                == self.height * self.height * dd) by (nonlinear_arith)
                requires
                    0 <= self.height,
                    0 <= dd,
            ;
        }
        lhs <= rhs
    }

    /// The centre of the rectangle: the midpoint of the diagonal between
    /// the two corners `base_a + ccw` and `base_b + cw`, where `ccw` and
    /// `cw` are the half-height orthogonal offsets of the centerline.
    pub open spec fn spec_center(self) -> Point {
        let v = Vector2 {
            x: (self.base_a.x - self.base_b.x) as i64,
            y: (self.base_a.y - self.base_b.y) as i64,
        };
        let h2 = trunc_div(self.height as int, 2);
        let v1 = v.spec_orthogonal_ccw().spec_with_length(h2);
        let v2 = v.spec_orthogonal_cw().spec_with_length(h2);
        Point {
            x: trunc_div(self.base_a.x + v1.x + self.base_b.x + v2.x, 2) as i64,
            y: trunc_div(self.base_a.y + v1.y + self.base_b.y + v2.y, 2) as i64,
        }
    }

    /// The centre point (exact to the kernel's truncating arithmetic).
    pub fn center(&self) -> (r: Point)
        requires
            self.valid(),
            self.base_a != self.base_b,
        ensures
            r == self.spec_center(),
    {
        let v = Vector2::from_segment(Segment { from: self.base_a, to: self.base_b });
        let h2: i64 = div_trunc_i64(self.height, 2);
        let o1 = v.orthogonal_ccw();
        let o2 = v.orthogonal_cw();
        proof {
            assert(o1.mag_sq() > 0 && o2.mag_sq() > 0) by (nonlinear_arith)
                requires
                    o1.x == -v.y && o1.y == v.x,
                    o2.x == v.y && o2.y == -v.x,
                    !(v.x == 0 && v.y == 0),
            ;
        }
        let v1 = o1.with_length(h2);
        let v2 = o2.with_length(h2);
        let p1 = self.base_a.translate(v1);
        let p3 = self.base_b.translate(v2);
        Point {
            x: div_trunc_i64(p1.x + p3.x, 2),
            y: div_trunc_i64(p1.y + p3.y, 2),
        }
    }
}

impl Segment {
    /// The rectangle that inflates this segment to the fixed hit-test
    /// width of one grid cell (20 px), whatever width is requested.
    pub fn to_rectangle(self, _width: usize) -> (r: Rectangle)
        ensures
            r.base_a == self.from,
            r.base_b == self.to,
            r.height == 20 * crate::SCALE,
    {
        Rectangle { base_a: self.from, base_b: self.to, height: 20 * 1_000 }
    }
}

/// A discrete grid address, row-major, on the fixed 20 px grid.
#[derive(Clone, Copy, Debug, PartialEq, Eq, Structural)]
pub struct Cell {
    pub row: usize,
    pub col: usize,
}

impl Cell {
    /// Small enough that every derived pixel coordinate stays in range.
    pub open spec fn valid(self) -> bool {
        self.row < 50_000 && self.col < 50_000
    }

    pub fn new(row: usize, col: usize) -> (r: Cell)
        ensures
            r.row == row,
            r.col == col,
    {
        Cell { row, col }
    }

    /// The pixel midpoint of the cell, in millipixels.
    pub fn to_mid_point(self) -> (r: Point)
        requires
            self.valid(),
        ensures
            r.x == 20_000 * self.col + 10_000,
            r.y == 20_000 * self.row + 10_000,
            r.valid(),
    {
        Point {
            x: (20_000 * self.col + 10_000) as i64,
            y: (20_000 * self.row + 10_000) as i64,
        }
    }

    /// The midpoint of the cell's bottom edge, in millipixels.
    pub fn to_corner(self) -> (r: Point)
        requires
            self.valid(),
        ensures
            r.x == 20_000 * self.col + 10_000,
            r.y == 20_000 * self.row + 20_000,
            r.valid(),
    {
        Point {
            x: (20_000 * self.col + 10_000) as i64,
            y: (20_000 * self.row + 20_000) as i64,
        }
    }

    /// The midpoint of the cell's top edge, in millipixels.
    pub fn to_top_mid(self) -> (r: Point)
        requires
            self.valid(),
        ensures
            r.x == 20_000 * self.col + 10_000,
            r.y == 20_000 * self.row,
            r.valid(),
    {
        Point { x: (20_000 * self.col + 10_000) as i64, y: (20_000 * self.row) as i64 }
    }
}

/// A circle, used for the endpoint markers of a drawn segment.
#[derive(Clone, Copy, Debug, PartialEq, Eq, Structural)]
pub struct Circle {
    pub x: i64,
    pub y: i64,
    pub radius: i64,
}

impl Circle {
    pub fn new(center: Point, radius: i64) -> (r: Circle)
        ensures
            r.x == center.x,
            r.y == center.y,
            r.radius == radius,
    {
        Circle { x: center.x, y: center.y, radius }
    }
}

} // verus!

verus! {

/// A segment never intersects itself (it is parallel to itself), while
/// both of its endpoints lie on its own line: the intersection test and
/// the collinearity test agree on coincident endpoints.
pub proof fn lemma_self_intersection(s: Segment)
    ensures
        !s.spec_intersects(s),
        s.spec_contains(s.from),
        s.spec_contains(s.to),
{
    let tx = s.to.x - s.from.x;
    let ty = s.to.y - s.from.y;
    assert(tx * 0 - 0 * ty == 0) by (nonlinear_arith);
    assert(tx * ty - tx * ty == 0) by (nonlinear_arith);
}

/// Rescaling a non-degenerate vector to length `len` yields a vector
/// whose magnitude is `len` up to the kernel's rounding: strictly below
/// `len * (m + 1) / m` where `m` is the original magnitude, and at least
/// `len - 3` millipixels.
pub proof fn lemma_with_length_magnitude(v: Vector2, len: int)
    requires
        v.valid(),
        v.mag_sq() > 0,
        6 <= len <= VEC_LIMIT,
    ensures
        ({
            let m = v.spec_magnitude() as int;
            let r = v.spec_with_length(len);
            let mag = isqrt(r.mag_sq() as nat) as int;
            &&& m * mag < (m + 1) * len
            &&& mag >= len - 3
        }),
{
    let x = v.x as int;
    let y = v.y as int;
    let a = if x >= 0 { x } else { -x };
    let b = if y >= 0 { y } else { -y };
    let s = v.mag_sq();
    assert(s == a * a + b * b && a * a <= s && b * b <= s) by (nonlinear_arith)
        requires
            s == x * x + y * y,
            a == (if x >= 0 { x } else { -x }),
            b == (if y >= 0 { y } else { -y }),
    ;
    lemma_isqrt_bounds(s as nat);
    let m = isqrt(s as nat) as int;
    assert(m >= 1) by (nonlinear_arith)
        requires
            m >= 0,
            s > 0,
            s < (m + 1) * (m + 1),
    ;
    assert(a <= m && b <= m) by (nonlinear_arith)
        requires
            m >= 0,
            a >= 0,
            b >= 0,
            a * a <= s,
            b * b <= s,
            s < (m + 1) * (m + 1),
    ;
    let ra = (a * len) / m;
    let rb = (b * len) / m;
    vstd::arithmetic::div_mod::lemma_fundamental_div_mod(a * len, m);
    vstd::arithmetic::div_mod::lemma_mod_bound(a * len, m);
    vstd::arithmetic::div_mod::lemma_fundamental_div_mod(b * len, m);
    vstd::arithmetic::div_mod::lemma_mod_bound(b * len, m);
    assert(a * len >= 0 && b * len >= 0) by (nonlinear_arith)
        requires
            a >= 0,
            b >= 0,
            len >= 0,
    ;
    vstd::arithmetic::div_mod::lemma_div_pos_is_pos(a * len, m);
    vstd::arithmetic::div_mod::lemma_div_pos_is_pos(b * len, m);
    let rem_a = (a * len) % m;
    let rem_b = (b * len) % m;
    assert(m * ra <= a * len && a * len < m * (ra + 1)) by (nonlinear_arith)
        requires
            a * len == m * ra + rem_a,
            0 <= rem_a < m,
    ;
    assert(m * rb <= b * len && b * len < m * (rb + 1)) by (nonlinear_arith)
        requires
            b * len == m * rb + rem_b,
            0 <= rem_b < m,
    ;
    assert(scaled(x, len, m) == ra || scaled(x, len, m) == -ra);
    assert(scaled(y, len, m) == rb || scaled(y, len, m) == -rb);
    let r = v.spec_with_length(len);
    assert(r.x == scaled(x, len, m) as i64 && r.y == scaled(y, len, m) as i64);
    assert(ra <= len && rb <= len) by (nonlinear_arith)
        requires
            m >= 1,
            a <= m,
            b <= m,
            len >= 0,
            ra >= 0,
            rb >= 0,
            m * ra <= a * len,
            m * rb <= b * len,
    ;
    let q = r.mag_sq();
    assert(q == ra * ra + rb * rb) by (nonlinear_arith)
        requires
            r.x == scaled(x, len, m) as i64,
            r.y == scaled(y, len, m) as i64,
            scaled(x, len, m) == ra || scaled(x, len, m) == -ra,
            scaled(y, len, m) == rb || scaled(y, len, m) == -rb,
            0 <= ra <= len <= VEC_LIMIT,
            0 <= rb <= len <= VEC_LIMIT,
            q == r.x * r.x + r.y * r.y,
    ;
    lemma_isqrt_bounds(q as nat);
    let mag = isqrt(q as nat) as int;
    // Upper bound: m^2 q <= s len^2 < ((m+1) len)^2, hence m mag < (m+1) len.
    assert((m * ra) * (m * ra) <= (a * len) * (a * len)) by (nonlinear_arith)
        requires
            0 <= m * ra,
            m * ra <= a * len,
    ;
    assert((m * rb) * (m * rb) <= (b * len) * (b * len)) by (nonlinear_arith)
        requires
            0 <= m * rb,
            m * rb <= b * len,
    ;
    assert(m * m * (ra * ra) == (m * ra) * (m * ra)) by (nonlinear_arith);
    assert(m * m * (rb * rb) == (m * rb) * (m * rb)) by (nonlinear_arith);
    assert(m * m * q == m * m * (ra * ra) + m * m * (rb * rb)) by (nonlinear_arith)
        requires
            q == ra * ra + rb * rb,
    ;
    assert((a * len) * (a * len) + (b * len) * (b * len) == s * (len * len)) by (nonlinear_arith)
        requires
            s == a * a + b * b,
    ;
    assert(m * m * q <= s * (len * len));
    assert(s * (len * len) < ((m + 1) * len) * ((m + 1) * len)) by (nonlinear_arith)
        requires
            s < (m + 1) * (m + 1),
            0 < len,
    ;
    assert(m * mag < (m + 1) * len) by (nonlinear_arith)
        requires
            mag >= 0,
            m >= 1,
            len >= 1,
            mag * mag <= q,
            m * m * q <= s * (len * len),
            s * (len * len) < ((m + 1) * len) * ((m + 1) * len),
    ;
    // Lower bound: (ra+1)^2 + (rb+1)^2 > len^2, so q > len^2 - 2(ra+rb) - 2,
    // and with ra, rb <= len this forces mag >= len - 3.
    assert((m * (ra + 1)) * (m * (ra + 1)) > (a * len) * (a * len)) by (nonlinear_arith)
        requires
            0 <= a * len,
            a * len < m * (ra + 1),
    ;
    assert((m * (rb + 1)) * (m * (rb + 1)) > (b * len) * (b * len)) by (nonlinear_arith)
        requires
            0 <= b * len,
            b * len < m * (rb + 1),
    ;
    assert(s * (len * len) >= (m * m) * (len * len)) by (nonlinear_arith)
        requires
            s >= m * m,
            len >= 0,
    ;
    assert(m * m * ((ra + 1) * (ra + 1)) == (m * (ra + 1)) * (m * (ra + 1))) by (nonlinear_arith);
    assert(m * m * ((rb + 1) * (rb + 1)) == (m * (rb + 1)) * (m * (rb + 1))) by (nonlinear_arith);
    assert(m * m * ((ra + 1) * (ra + 1) + (rb + 1) * (rb + 1)) == m * m * ((ra + 1) * (ra + 1))
        + m * m * ((rb + 1) * (rb + 1))) by (nonlinear_arith);
    assert(m * m * ((ra + 1) * (ra + 1) + (rb + 1) * (rb + 1)) > m * m * (len * len));
    assert((ra + 1) * (ra + 1) + (rb + 1) * (rb + 1) > len * len) by (nonlinear_arith)
        requires
            m >= 1,
            m * m * ((ra + 1) * (ra + 1) + (rb + 1) * (rb + 1)) > m * m * (len * len),
    ;
    assert(mag >= len - 3) by (nonlinear_arith)
        requires
            q == ra * ra + rb * rb,
            (ra + 1) * (ra + 1) + (rb + 1) * (rb + 1) > len * len,
            0 <= ra <= len,
            0 <= rb <= len,
            len >= 6,
            mag >= 0,
            q < (mag + 1) * (mag + 1),
    ;
}

/// Both base points of a non-degenerate rectangle lie inside it: the zero
/// offset and the full centerline offset both pass the containment test.
pub proof fn lemma_rect_contains_bases(r: Rectangle)
    requires
        r.valid(),
        r.base_a != r.base_b,
    ensures
        r.spec_contains(r.base_a),
        r.spec_contains(r.base_b),
{
    let dx = r.base_b.x - r.base_a.x;
    let dy = r.base_b.y - r.base_a.y;
    let dd = dx * dx + dy * dy;
    assert(dd >= 0) by (nonlinear_arith)
        requires
            dd == dx * dx + dy * dy,
    ;
    assert(dx * 0 - 0 * dy == 0 && 0 * dx + 0 * dy == 0) by (nonlinear_arith);
    assert(dx * dy - dx * dy == 0) by (nonlinear_arith);
    assert(4 * 0 * 0 <= r.height * r.height * dd && 0 * 0 <= r.height * r.height * dd)
        by (nonlinear_arith)
        requires
            dd >= 0,
            r.height >= 0,
    ;
}

/// A point reached by walking farther than the full height perpendicular
/// to the centerline lies outside the rectangle.
pub proof fn lemma_rect_excludes_far(r: Rectangle, p: Point, t: int)
    requires
        r.valid(),
        r.base_a != r.base_b,
        t > r.height,
        p.x - r.base_a.x == -t * (r.base_b.y - r.base_a.y),
        p.y - r.base_a.y == t * (r.base_b.x - r.base_a.x),
    ensures
        !r.spec_contains(p),
{
    let dx = r.base_b.x - r.base_a.x;
    let dy = r.base_b.y - r.base_a.y;
    let dd = dx * dx + dy * dy;
    let wx = p.x - r.base_a.x;
    let wy = p.y - r.base_a.y;
    let cr = wx * dy - dx * wy;
    assert(dd >= 1) by (nonlinear_arith)
        requires
            !(dx == 0 && dy == 0),
            dd == dx * dx + dy * dy,
    ;
    assert(cr == -t * dd) by (nonlinear_arith)
        requires
            wx == -t * dy,
            wy == t * dx,
            cr == wx * dy - dx * wy,
            dd == dx * dx + dy * dy,
    ;
    assert(4 * cr * cr > r.height * r.height * dd) by (nonlinear_arith)
        requires
            cr == -t * dd,
            dd >= 1,
            t > r.height >= 0,
    ;
}

} // verus!

verus! {

/// The midpoint of the centerline (whenever it is exact, i.e. both
/// coordinate deltas are even) lies inside the rectangle: a point
/// strictly between the two base lines and exactly on the centerline.
pub proof fn lemma_rect_contains_centerline_midpoint(r: Rectangle, p: Point)
    requires
        r.valid(),
        r.base_a != r.base_b,
        2 * (p.x - r.base_a.x) == r.base_b.x - r.base_a.x,
        2 * (p.y - r.base_a.y) == r.base_b.y - r.base_a.y,
    ensures
        r.spec_contains(p),
{
    let hx = p.x - r.base_a.x;
    let hy = p.y - r.base_a.y;
    let dx = r.base_b.x - r.base_a.x;
    let dy = r.base_b.y - r.base_a.y;
    let dd = dx * dx + dy * dy;
    assert(hx * dx + hy * dy == 2 * (hx * hx + hy * hy) && dd == 4 * (hx * hx + hy * hy)
        && hx * dy - dx * hy == 0 && hx * hx + hy * hy >= 0) by (nonlinear_arith)
        requires
            dx == 2 * hx,
            dy == 2 * hy,
            dd == dx * dx + dy * dy,
    ;
    assert(4 * 0 * 0 <= r.height * r.height * dd) by (nonlinear_arith)
        requires
            dd >= 0,
            r.height >= 0,
    ;
}

} // verus!
