use vstd::prelude::*;

verus! {

/// One tenth of a degree in microdegrees: the pointing precision of the mount.
pub const TOLERANCE_UNIT: i64 = 100_000;

/// The lowest elevation, 5 degrees in microdegrees, that the mount is ever commanded to.
pub const LOWEST_ALLOWED_ELEVATION: i64 = 5_000_000;

/// A local horizontal pointing. Both angles are in microdegrees.
#[derive(Clone, Copy, Debug, PartialEq, Eq, Structural)]
pub struct Direction {
    pub azimuth: i64,
    pub elevation: i64,
}

pub open spec fn abs_diff(a: i64, b: i64) -> int {
    if a >= b { a - b } else { b - a }
}

/// The allowed gap, per axis, for a tolerance multiplier `tol`.
pub open spec fn tolerance(tol: u32) -> int {
    tol * TOLERANCE_UNIT
}

pub open spec fn close(a: Direction, b: Direction, tol: u32) -> bool {
    abs_diff(a.azimuth, b.azimuth) < tolerance(tol)
        && abs_diff(a.elevation, b.elevation) < tolerance(tol)
}

fn abs_gap(a: i64, b: i64) -> (r: u64)
    ensures
        r == abs_diff(a, b),
{
    if a >= b {
        (a as i128 - b as i128) as u64
    } else {
        (b as i128 - a as i128) as u64
    }
}

/// Whether `a` and `b` lie less than `tol` tenths of a degree apart on both axes.
pub fn directions_are_close(a: Direction, b: Direction, tol: u32) -> (r: bool)
    ensures
        r == close(a, b, tol),
{
    proof {
        assert(tol as u64 * 100_000 <= 0xffff_ffffu64 * 100_000) by (nonlinear_arith)
            requires tol <= 0xffff_ffffu32;
    }
    let epsilon: u64 = tol as u64 * TOLERANCE_UNIT as u64;
    abs_gap(a.azimuth, b.azimuth) < epsilon && abs_gap(a.elevation, b.elevation) < epsilon
}

/// Closeness is symmetric and its threshold grows linearly with the multiplier:
/// `tol` units of one tenth of a degree (100 000 microdegrees) on both axes.
pub proof fn lemma_close_symmetric_and_linear(a: Direction, b: Direction, tol: u32)
    ensures
        close(a, b, tol) == close(b, a, tol),
        tolerance(tol) == tol * tolerance(1),
        tolerance(1) == 100_000,
        close(a, b, tol) == (abs_diff(a.azimuth, b.azimuth) < tol * 100_000 && abs_diff(
            a.elevation,
            b.elevation,
        ) < tol * 100_000),
{
}

/// `d` with both angles multiplied by `k`.
pub open spec fn scaled(d: Direction, k: int) -> Direction {
    Direction { azimuth: (k * d.azimuth) as i64, elevation: (k * d.elevation) as i64 }
}

pub open spec fn fits_i64(x: int) -> bool {
    i64::MIN <= x <= i64::MAX
}

proof fn lemma_axis_scales(x: i64, y: i64, k: int, t: int)
    requires
        k > 0,
        fits_i64(k * x),
        fits_i64(k * y),
    ensures
        (abs_diff(x, y) < t) == (abs_diff((k * x) as i64, (k * y) as i64) < k * t),
{
    let kx = (k * x) as i64;
    let ky = (k * y) as i64;
    assert(kx == k * x && ky == k * y);
    if x >= y {
        assert(k * x >= k * y) by (nonlinear_arith)
            requires
                x >= y,
                k > 0,
        ;
        assert(abs_diff(kx, ky) == k * (x - y)) by (nonlinear_arith)
            requires
                kx == k * x,
                ky == k * y,
                kx >= ky,
                abs_diff(kx, ky) == kx - ky,
        ;
    } else {
        assert(k * x < k * y) by (nonlinear_arith)
            requires
                x < y,
                k > 0,
        ;
        assert(abs_diff(kx, ky) == k * (y - x)) by (nonlinear_arith)
            requires
                kx == k * x,
                ky == k * y,
                kx < ky,
                abs_diff(kx, ky) == ky - kx,
        ;
    }
    let g = abs_diff(x, y);
    assert((g < t) == (k * g < k * t)) by (nonlinear_arith)
        requires
            k > 0,
    ;
}

/// Closeness is kept when both directions and the multiplier are scaled by the
/// same factor `k`, and a larger multiplier accepts every pair that a smaller one
/// accepts.
pub proof fn lemma_close_scaling(a: Direction, b: Direction, tol: u32, k: u32, larger: u32)
    requires
        k > 0,
        k * tol <= u32::MAX,
        fits_i64(k * a.azimuth),
        fits_i64(k * a.elevation),
        fits_i64(k * b.azimuth),
        fits_i64(k * b.elevation),
    ensures
        close(a, b, tol) == close(scaled(a, k as int), scaled(b, k as int), (k * tol) as u32),
        tol <= larger ==> (close(a, b, tol) ==> close(a, b, larger)),
{
    let t = tol * TOLERANCE_UNIT;
    assert(tolerance((k * tol) as u32) == k * t) by (nonlinear_arith)
        requires
            t == tol * TOLERANCE_UNIT,
            k * tol <= u32::MAX,
            k * tol >= 0,
    ;
    lemma_axis_scales(a.azimuth, b.azimuth, k as int, t);
    lemma_axis_scales(a.elevation, b.elevation, k as int, t);
    assert(tol <= larger ==> tolerance(tol) <= tolerance(larger)) by (nonlinear_arith);
}

} // verus!
