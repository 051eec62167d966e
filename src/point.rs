use vstd::prelude::*;

verus! {

/// Largest magnitude a coordinate may have (2^53, the range in which a double
/// holds every integer exactly).
pub const MAX_COORD: i64 = 9007199254740992;

/// Whether an integer lies in the coordinate range.
pub open spec fn in_range(v: int) -> bool {
    -MAX_COORD <= v <= MAX_COORD
}

/// A 2-D point (or vector) with integer coordinates.
#[derive(Clone, Copy, Debug, PartialEq, Eq, Structural)]
pub struct Point {
    pub x: i64,
    pub y: i64,
}

impl Point {
    /// Both coordinates lie in the coordinate range.
    pub open spec fn wf(self) -> bool {
        in_range(self.x as int) && in_range(self.y as int)
    }

    pub fn new(x: i64, y: i64) -> (r: Point)
        ensures
            r.x == x,
            r.y == y,
    {
        Point { x, y }
    }

    /// Component-wise sum.
    pub fn add(self, rhs: Point) -> (r: Point)
        requires
            i64::MIN <= self.x + rhs.x <= i64::MAX,
            i64::MIN <= self.y + rhs.y <= i64::MAX,
        ensures
            r.x == self.x + rhs.x,
            r.y == self.y + rhs.y,
    {
        Point { x: self.x + rhs.x, y: self.y + rhs.y }
    }

    /// Component-wise difference.
    pub fn sub(self, rhs: Point) -> (r: Point)
        requires
            i64::MIN <= self.x - rhs.x <= i64::MAX,
            i64::MIN <= self.y - rhs.y <= i64::MAX,
        ensures
            r.x == self.x - rhs.x,
            r.y == self.y - rhs.y,
    {
        Point { x: self.x - rhs.x, y: self.y - rhs.y }
    }

    /// Scalar multiple.
    pub fn mul(self, k: i64) -> (r: Point)
        requires
            i64::MIN <= self.x * k <= i64::MAX,
            i64::MIN <= self.y * k <= i64::MAX,
        ensures
            r.x == self.x * k,
            r.y == self.y * k,
    {
        Point { x: self.x * k, y: self.y * k }
    }

    /// Scalar quotient, rounded down (towards negative infinity for a positive
    /// divisor).
    pub fn div(self, k: i64) -> (r: Point)
        requires
            k > 0,
        ensures
            r.x == self.x as int / k as int,
            r.y == self.y as int / k as int,
    {
        let x = match self.x.checked_div_euclid(k) {
            Some(v) => v,
            None => 0,
        };
        let y = match self.y.checked_div_euclid(k) {
            Some(v) => v,
            None => 0,
        };
        proof {
            assert(i64::MIN <= self.x as int / k as int <= i64::MAX) by (nonlinear_arith)
                requires k > 0, i64::MIN <= self.x <= i64::MAX;
            assert(i64::MIN <= self.y as int / k as int <= i64::MAX) by (nonlinear_arith)
                requires k > 0, i64::MIN <= self.y <= i64::MAX;
        }
        Point { x, y }
    }
}

} // verus!
