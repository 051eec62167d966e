use vstd::prelude::*;
use crate::point::{in_range, Point, MAX_COORD};
use crate::tick_timer::STEPS;

verus! {

/// The chord tolerance is `1 / EPSILON_DENOM` (0.05).
pub const EPSILON_DENOM: i128 = 20;

pub open spec fn abs_int(v: int) -> int {
    if v < 0 { -v } else { v }
}

/// Numerator of the quadratic Bernstein blend at tick `k`; the denominator is
/// `STEPS^2`.
pub open spec fn square_num(s: int, p1: int, e: int, k: int) -> int {
    let d = STEPS - k;
    s * (d * d) + p1 * (2 * k * d) + e * (k * k)
}

/// One coordinate of the quadratic Bezier curve at `t = k / STEPS`, rounded
/// down: `s(1-t)^2 + 2 p1 t(1-t) + e t^2`.
pub open spec fn square_coord(s: int, p1: int, e: int, k: int) -> int {
    square_num(s, p1, e, k) / (STEPS * STEPS)
}

/// Numerator of the cubic Bernstein blend at tick `k`; the denominator is
/// `STEPS^3`.
pub open spec fn cubic_num(s: int, p1: int, p2: int, e: int, k: int) -> int {
    let d = STEPS - k;
    s * (d * d * d) + p1 * (3 * k * d * d) + p2 * (3 * k * k * d) + e * (k * k * k)
}

/// One coordinate of the cubic Bezier curve at `t = k / STEPS`, rounded down:
/// `s(1-t)^3 + 3 p1 t(1-t)^2 + 3 p2 t^2(1-t) + e t^3`.
pub open spec fn cubic_coord(s: int, p1: int, p2: int, e: int, k: int) -> int {
    cubic_num(s, p1, p2, e, k) / (STEPS * STEPS * STEPS)
}

/// `p` lies on the chord from `a` to `b`: the parametric ratios
/// `(p.x - a.x) / (b.x - a.x)` and `(p.y - a.y) / (b.y - a.y)` (each 0 where its
/// denominator is 0) differ by less than `1 / EPSILON_DENOM`, stated here with
/// the ratios cross-multiplied.
pub open spec fn on_lane(a: Point, b: Point, p: Point) -> bool {
    let vx = b.x - a.x;
    let vy = b.y - a.y;
    let ux = p.x - a.x;
    let uy = p.y - a.y;
    if vx == 0 && vy == 0 {
        true
    } else if vx == 0 {
        EPSILON_DENOM * abs_int(uy) < abs_int(vy)
    } else if vy == 0 {
        EPSILON_DENOM * abs_int(ux) < abs_int(vx)
    } else {
        EPSILON_DENOM * abs_int(ux * vy - uy * vx) < abs_int(vx * vy)
    }
}

proof fn lemma_scaled_bound(c: int, w: int, m: int)
    requires
        -m <= c <= m,
        w >= 0,
    ensures
        -m * w <= c * w <= m * w,
{
    assert(-m * w <= c * w <= m * w) by (nonlinear_arith)
        requires
            -m <= c <= m,
            w >= 0,
    ;
}

proof fn lemma_floor_div_bound(n: int, w: int, m: int)
    requires
        w > 0,
        -m * w <= n <= m * w,
    ensures
        -m <= n / w <= m,
{
    assert(-m <= n / w <= m) by (nonlinear_arith)
        requires
            w > 0,
            -m * w <= n <= m * w,
    ;
}

/// A blended coordinate stays in the coordinate range.
proof fn lemma_square_in_range(s: int, p1: int, e: int, k: int)
    requires
        in_range(s),
        in_range(p1),
        in_range(e),
        0 <= k <= STEPS,
    ensures
        in_range(square_coord(s, p1, e, k)),
{
    let d = STEPS - k;
    let ghost m = MAX_COORD as int;
    assert(d * d >= 0 && 2 * k * d >= 0 && k * k >= 0) by (nonlinear_arith)
        requires
            d >= 0,
            k >= 0,
    ;
    assert(d * d + 2 * k * d + k * k == STEPS * STEPS) by (nonlinear_arith)
        requires
            d == STEPS - k,
    ;
    lemma_scaled_bound(s, d * d, m);
    lemma_scaled_bound(p1, 2 * k * d, m);
    lemma_scaled_bound(e, k * k, m);
    assert(m * (d * d) + m * (2 * k * d) + m * (k * k) == m * (STEPS * STEPS)) by (
    nonlinear_arith)
        requires
            d * d + 2 * k * d + k * k == STEPS * STEPS,
    ;
    lemma_floor_div_bound(square_num(s, p1, e, k), STEPS * STEPS, m);
}

/// A blended coordinate stays in the coordinate range.
proof fn lemma_cubic_in_range(s: int, p1: int, p2: int, e: int, k: int)
    requires
        in_range(s),
        in_range(p1),
        in_range(p2),
        in_range(e),
        0 <= k <= STEPS,
    ensures
        in_range(cubic_coord(s, p1, p2, e, k)),
{
    let d = STEPS - k;
    let ghost m = MAX_COORD as int;
    assert(d * d * d >= 0 && 3 * k * d * d >= 0 && 3 * k * k * d >= 0 && k * k * k >= 0)
        by (nonlinear_arith)
        requires
            d >= 0,
            k >= 0,
    ;
    assert(d * d * d + 3 * k * d * d + 3 * k * k * d + k * k * k == STEPS * STEPS * STEPS)
        by (nonlinear_arith)
        requires
            d == STEPS - k,
    ;
    lemma_scaled_bound(s, d * d * d, m);
    lemma_scaled_bound(p1, 3 * k * d * d, m);
    lemma_scaled_bound(p2, 3 * k * k * d, m);
    lemma_scaled_bound(e, k * k * k, m);
    assert(m * (d * d * d) + m * (3 * k * d * d) + m * (3 * k * k * d) + m * (k * k * k) == m
        * (STEPS * STEPS * STEPS)) by (nonlinear_arith)
        requires
            d * d * d + 3 * k * d * d + 3 * k * k * d + k * k * k == STEPS * STEPS * STEPS,
    ;
    lemma_floor_div_bound(cubic_num(s, p1, p2, e, k), STEPS * STEPS * STEPS, m);
}

fn square_blend(s: i64, p1: i64, e: i64, k: u32) -> (r: i64)
    requires
        in_range(s as int),
        in_range(p1 as int),
        in_range(e as int),
        k <= STEPS,
    ensures
        r == square_coord(s as int, p1 as int, e as int, k as int),
        in_range(r as int),
{
    proof {
        lemma_square_in_range(s as int, p1 as int, e as int, k as int);
    }
    let kk = k as i128;
    let d = (STEPS - k) as i128;
    proof {
        assert(0 <= d * d <= 1000000 && 0 <= 2 * kk * d <= 2000000 && 0 <= kk * kk <= 1000000)
            by (nonlinear_arith)
            requires
                0 <= d <= 1000,
                0 <= kk <= 1000,
        ;
    }
    let w0 = d * d;
    let w1 = 2 * kk * d;
    let w2 = kk * kk;
    let ghost m = MAX_COORD as int;
    proof {
        assert(0 <= w0 <= 1000000 && 0 <= w1 <= 2000000 && 0 <= w2 <= 1000000) by (
        nonlinear_arith)
            requires
                0 <= d <= 1000,
                0 <= kk <= 1000,
                w0 == d * d,
                w1 == 2 * kk * d,
                w2 == kk * kk,
        ;
        lemma_scaled_bound(s as int, w0 as int, m);
        lemma_scaled_bound(p1 as int, w1 as int, m);
        lemma_scaled_bound(e as int, w2 as int, m);
        assert(m * w0 <= m * 1000000 && m * w1 <= m * 2000000 && m * w2 <= m * 1000000) by (
        nonlinear_arith)
            requires
                m > 0,
                w0 <= 1000000,
                w1 <= 2000000,
                w2 <= 1000000,
        ;
    }
    let num = (s as i128) * w0 + (p1 as i128) * w1 + (e as i128) * w2;
    let den = (STEPS as i128) * (STEPS as i128);
    match num.checked_div_euclid(den) {
        Some(q) => q as i64,
        None => 0,
    }
}

fn cubic_blend(s: i64, p1: i64, p2: i64, e: i64, k: u32) -> (r: i64)
    requires
        in_range(s as int),
        in_range(p1 as int),
        in_range(p2 as int),
        in_range(e as int),
        k <= STEPS,
    ensures
        r == cubic_coord(s as int, p1 as int, p2 as int, e as int, k as int),
        in_range(r as int),
{
    proof {
        lemma_cubic_in_range(s as int, p1 as int, p2 as int, e as int, k as int);
    }
    let kk = k as i128;
    let d = (STEPS - k) as i128;
    proof {
        assert(0 <= d * d <= 1000000 && 0 <= d * d * d <= 1000000000 && 0 <= 3 * kk * d
            <= 3000000 && 0 <= 3 * kk * d * d <= 3000000000 && 0 <= 3 * kk * kk <= 3000000
            && 0 <= 3 * kk * kk * d <= 3000000000 && 0 <= kk * kk <= 1000000 && 0 <= kk * kk
            * kk <= 1000000000) by (nonlinear_arith)
            requires
                0 <= d <= 1000,
                0 <= kk <= 1000,
        ;
    }
    let w0 = d * d * d;
    let w1 = 3 * kk * d * d;
    let w2 = 3 * kk * kk * d;
    let w3 = kk * kk * kk;
    let ghost m = MAX_COORD as int;
    proof {
        assert(0 <= w0 <= 1000000000 && 0 <= w1 <= 3000000000 && 0 <= w2 <= 3000000000 && 0
            <= w3 <= 1000000000) by (nonlinear_arith)
            requires
                0 <= d <= 1000,
                0 <= kk <= 1000,
                w0 == d * d * d,
                w1 == 3 * kk * d * d,
                w2 == 3 * kk * kk * d,
                w3 == kk * kk * kk,
        ;
        lemma_scaled_bound(s as int, w0 as int, m);
        lemma_scaled_bound(p1 as int, w1 as int, m);
        lemma_scaled_bound(p2 as int, w2 as int, m);
        lemma_scaled_bound(e as int, w3 as int, m);
        assert(m * w0 <= m * 1000000000 && m * w1 <= m * 3000000000 && m * w2 <= m * 3000000000
            && m * w3 <= m * 1000000000) by (nonlinear_arith)
            requires
                m > 0,
                w0 <= 1000000000,
                w1 <= 3000000000,
                w2 <= 3000000000,
                w3 <= 1000000000,
        ;
    }
    let num = (s as i128) * w0 + (p1 as i128) * w1 + (p2 as i128) * w2 + (e as i128) * w3;
    let den = (STEPS as i128) * (STEPS as i128) * (STEPS as i128);
    match num.checked_div_euclid(den) {
        Some(q) => q as i64,
        None => 0,
    }
}

/// The quadratic Bezier curve from `start` through control `p1` to `end`,
/// at tick `k`.
pub fn square_curve(start: Point, p1: Point, end: Point, k: u32) -> (r: Point)
    requires
        start.wf(),
        p1.wf(),
        end.wf(),
        k <= STEPS,
    ensures
        r.x == square_coord(start.x as int, p1.x as int, end.x as int, k as int),
        r.y == square_coord(start.y as int, p1.y as int, end.y as int, k as int),
        r.wf(),
{
    Point { x: square_blend(start.x, p1.x, end.x, k), y: square_blend(start.y, p1.y, end.y, k) }
}

/// The cubic Bezier curve from `start` with controls `p1`, `p2` to `end`, at
/// tick `k`.
pub fn cubic_curve(start: Point, p1: Point, p2: Point, end: Point, k: u32) -> (r: Point)
    requires
        start.wf(),
        p1.wf(),
        p2.wf(),
        end.wf(),
        k <= STEPS,
    ensures
        r.x == cubic_coord(start.x as int, p1.x as int, p2.x as int, end.x as int, k as int),
        r.y == cubic_coord(start.y as int, p1.y as int, p2.y as int, end.y as int, k as int),
        r.wf(),
{
    Point {
        x: cubic_blend(start.x, p1.x, p2.x, end.x, k),
        y: cubic_blend(start.y, p1.y, p2.y, end.y, k),
    }
}

fn abs_i128(v: i128) -> (r: i128)
    requires
        v > i128::MIN,
    ensures
        r == abs_int(v as int),
{
    if v < 0 { -v } else { v }
}

/// Whether `p` lies on the chord from `lane_start` to `lane_end` within the
/// tolerance.
pub fn is_point_on_lane(lane_start: &Point, lane_end: &Point, p: &Point) -> (r: bool)
    requires
        lane_start.wf(),
        lane_end.wf(),
        p.wf(),
    ensures
        r == on_lane(*lane_start, *lane_end, *p),
{
    let vx = lane_end.x as i128 - lane_start.x as i128;
    let vy = lane_end.y as i128 - lane_start.y as i128;
    let ux = p.x as i128 - lane_start.x as i128;
    let uy = p.y as i128 - lane_start.y as i128;
    let ghost b: int = 2 * MAX_COORD as int;
    assert(b == 18014398509481984);
    if vx == 0 && vy == 0 {
        true
    } else if vx == 0 {
        EPSILON_DENOM * abs_i128(uy) < abs_i128(vy)
    } else if vy == 0 {
        EPSILON_DENOM * abs_i128(ux) < abs_i128(vx)
    } else {
        proof {
            assert(-b * b <= ux * vy <= b * b && -b * b <= uy * vx <= b * b && -b * b <= vx * vy
                <= b * b) by (nonlinear_arith)
                requires
                    -b <= vx <= b,
                    -b <= vy <= b,
                    -b <= ux <= b,
                    -b <= uy <= b,
                    b > 0,
            ;
        }
        let cross = ux * vy - uy * vx;
        let prod = vx * vy;
        EPSILON_DENOM * abs_i128(cross) < abs_i128(prod)
    }
}

} // verus!
