//! Fixed-point angle arithmetic: normalization, sine, cosine, arctangent,
//! and an exact integer square root.
//!
//! Angles are micro-radians. Sine and cosine use the classical rational
//! approximation `sin x = 16x(pi-x) / (5 pi^2 - 4x(pi-x))` on `[0, pi]`,
//! extended by point symmetry; the arctangent uses a quadratic
//! approximation on the unit interval with octant reduction. Each function
//! equals its spec-level mirror exactly, so every caller is deterministic.

use vstd::prelude::*;
use vstd::arithmetic::div_mod::{
    lemma_fundamental_div_mod, lemma_mod_multiples_vanish, lemma_small_mod,
};
use crate::fixed::{Fix, SCALE, fcl, iabs, fdiv, dtz};

verus! {

/// Half turn in micro-radians.
pub const PI_FIX: i64 = 3_141_592;

/// Full turn in micro-radians.
pub const TWO_PI_FIX: i64 = 6_283_184;

/// Quarter turn in micro-radians.
pub const HALF_PI_FIX: i64 = 1_570_796;

/// Eighth turn in micro-radians.
pub const QUARTER_PI_FIX: i64 = 785_398;

/// Arctangent approximation coefficient (0.273).
pub const ATAN_K: i64 = 273_000;

/// An angle reduced into `[0, TWO_PI_FIX)`.
pub open spec fn ang_norm(a: int) -> int {
    a % (TWO_PI_FIX as int)
}

/// Rational sine approximation on `[0, PI_FIX]`, scaled to micro-units.
pub open spec fn bhask(x: int) -> int {
    let pii = PI_FIX as int;
    let si = SCALE as int;
    (16 * x * (pii - x) * si) / (5 * pii * pii - 4 * x * (pii - x))
}

/// Sine of an angle in micro-radians, in micro-units.
pub open spec fn sin_s(a: int) -> int {
    let n = ang_norm(a);
    if n <= PI_FIX as int {
        bhask(n)
    } else {
        -bhask(n - PI_FIX)
    }
}

/// Cosine of an angle in micro-radians, in micro-units.
pub open spec fn cos_s(a: int) -> int {
    sin_s(ang_norm(a) + HALF_PI_FIX as int)
}

/// Arctangent approximation on `[0, SCALE]`, in micro-radians.
pub open spec fn atan_unit_s(z: int) -> int {
    let si = SCALE as int;
    (z * (QUARTER_PI_FIX as int)) / si + ((ATAN_K as int) * z * (si - z)) / (si * si)
}

/// Four-quadrant arctangent of `y/x`, in micro-radians in `[-PI_FIX, PI_FIX]`.
pub open spec fn atan2_s(y: int, x: int) -> int {
    let ax = iabs(x);
    let ay = iabs(y);
    let base = if ax >= ay {
        atan_unit_s(fdiv(ay, ax))
    } else {
        HALF_PI_FIX - atan_unit_s(fdiv(ax, ay))
    };
    if x >= 0 && y >= 0 {
        base
    } else if x < 0 && y >= 0 {
        PI_FIX - base
    } else if x < 0 {
        -(PI_FIX - base)
    } else {
        -base
    }
}

/// Reduce an angle into `[0, TWO_PI_FIX)`.
pub fn normalize_angle(a: Fix) -> (r: Fix)
    ensures
        r@ == ang_norm(a@),
        0 <= r@ < TWO_PI_FIX as int,
{
    let v: i64 = a.micros();
    let m: i64 = if v >= 0 {
        v % TWO_PI_FIX
    } else {
        let t: i64 = (-v) % TWO_PI_FIX;
        if t == 0 {
            0
        } else {
            TWO_PI_FIX - t
        }
    };
    proof {
        let t2 = TWO_PI_FIX as int;
        if v < 0 {
            let u = -(v as int);
            lemma_fundamental_div_mod(u, t2);
            let q = u / t2;
            let t = u % t2;
            if t == 0 {
                assert(v as int == (-q) * t2 + 0) by (nonlinear_arith)
                    requires
                        u == q * t2,
                        u == -(v as int),
                ;
                lemma_mod_multiples_vanish(-q, 0, t2);
            } else {
                assert(v as int == (-q - 1) * t2 + (t2 - t)) by (nonlinear_arith)
                    requires
                        u == q * t2 + t,
                        u == -(v as int),
                ;
                lemma_mod_multiples_vanish(-q - 1, t2 - t, t2);
                lemma_small_mod((t2 - t) as nat, t2 as nat);
            }
        }
        assert(fcl(m as int) == m as int);
    }
    Fix::from_micros(m)
}

/// The sine rational approximation, exactly as in [`bhask`].
fn bhask_exec(x: i64) -> (r: i64)
    requires
        0 <= x <= PI_FIX,
    ensures
        r as int == bhask(x as int),
        0 <= r <= SCALE,
{
    let xu: u128 = x as u128;
    let piu: u128 = PI_FIX as u128;
    let d: u128 = piu - xu;
    proof {
        assert((xu as int) * (d as int) <= 3_141_592 * 3_141_592) by (nonlinear_arith)
            requires
                0 <= (xu as int),
                xu as int <= 3_141_592,
                0 <= (d as int),
                d as int <= 3_141_592,
        ;
    }
    let w: u128 = xu * d;
    proof {
        assert(4 * (w as int) <= 3_141_592 * 3_141_592) by (nonlinear_arith)
            requires
                w as int == (xu as int) * (d as int),
                0 <= (xu as int),
                xu as int <= 3_141_592,
                d as int == 3_141_592 - (xu as int),
        ;
        assert(3_141_592 * 3_141_592 == 9_869_600_294_464) by (nonlinear_arith);
    }
    let num: u128 = 16 * w * 1_000_000;
    let den: u128 = 5 * 9_869_600_294_464 - 4 * w;
    proof {
        let xi = x as int;
        let pii = PI_FIX as int;
        let wi = w as int;
        let si = SCALE as int;
        assert(pii * pii == 9_869_600_294_464) by (nonlinear_arith)
            requires
                pii == 3_141_592,
        ;
        assert(num as int == 16 * xi * (pii - xi) * si) by (nonlinear_arith)
            requires
                wi == xi * (pii - xi),
                num as int == 16 * wi * si,
        ;
        assert(den as int == 5 * pii * pii - 4 * xi * (pii - xi)) by (nonlinear_arith)
            requires
                wi == xi * (pii - xi),
                den as int == 5 * (pii * pii) - 4 * wi,
        ;
        assert(num as int <= den as int * si) by (nonlinear_arith)
            requires
                4 * wi <= pii * pii,
                0 <= wi,
                num as int == 16 * wi * si,
                den as int == 5 * pii * pii - 4 * wi,
                si == SCALE as int,
                pii == PI_FIX as int,
        ;
        assert((num as int) / (den as int) <= si) by (nonlinear_arith)
            requires
                num as int <= den as int * si,
                den as int > 0,
                0 <= (num as int),
                si > 0,
        ;
    }
    let q: u128 = num / den;
    q as i64
}

/// Sine of an angle (micro-radians in, micro-units out).
pub fn sin_fix(a: Fix) -> (r: Fix)
    ensures
        r@ == sin_s(a@),
        -(SCALE as int) <= r@ <= SCALE as int,
{
    let n = normalize_angle(a);
    let nv: i64 = n.micros();
    if nv <= PI_FIX {
        let b = bhask_exec(nv);
        proof {
            assert(fcl(b as int) == b as int);
        }
        Fix::from_micros(b)
    } else {
        let b = bhask_exec(nv - PI_FIX);
        proof {
            assert(fcl(-(b as int)) == -(b as int));
        }
        Fix::from_micros(-b)
    }
}

/// Cosine of an angle (micro-radians in, micro-units out).
pub fn cos_fix(a: Fix) -> (r: Fix)
    ensures
        r@ == cos_s(a@),
        -(SCALE as int) <= r@ <= SCALE as int,
{
    let n = normalize_angle(a);
    let shifted = Fix::from_micros(n.micros() + HALF_PI_FIX);
    proof {
        assert(fcl(n@ + HALF_PI_FIX as int) == n@ + HALF_PI_FIX as int);
    }
    sin_fix(shifted)
}

/// The arctangent approximation on the unit interval, as in [`atan_unit_s`].
fn atan_unit_exec(z: i64) -> (r: i64)
    requires
        0 <= z <= SCALE,
    ensures
        r as int == atan_unit_s(z as int),
        0 <= r <= QUARTER_PI_FIX + ATAN_K,
{
    let zu: u128 = z as u128;
    let su: u128 = SCALE as u128;
    let lin: u128 = (zu * 785_398) / su;
    let kz: u128 = 273_000 * zu;
    let dz: u128 = su - zu;
    proof {
        assert((kz as int) * (dz as int) <= 273_000_000_000 * 1_000_000) by (nonlinear_arith)
            requires
                0 <= (kz as int),
                kz as int <= 273_000_000_000,
                0 <= (dz as int),
                dz as int <= 1_000_000,
        ;
    }
    let quad: u128 = (kz * dz) / 1_000_000_000_000;
    proof {
        let zi = z as int;
        let si = SCALE as int;
        let ki = ATAN_K as int;
        let qi = QUARTER_PI_FIX as int;
        assert(si * si == 1_000_000_000_000) by (nonlinear_arith)
            requires
                si == 1_000_000,
        ;
        assert(lin as int == (zi * qi) / si);
        assert(quad as int == (ki * zi * (si - zi)) / (si * si)) by (nonlinear_arith)
            requires
                quad as int == ((ki * zi) * (si - zi)) / (si * si),
        ;
        assert((zi * qi) / si <= qi) by (nonlinear_arith)
            requires
                0 <= zi,
                zi <= si,
                0 < si,
                0 < qi,
        ;
        assert((ki * zi * (si - zi)) / (si * si) <= ki) by (nonlinear_arith)
            requires
                0 <= zi,
                zi <= si,
                0 < si,
                0 < ki,
        ;
    }
    (lin as i64) + (quad as i64)
}

/// Four-quadrant arctangent of `y/x` (micro-radians), total in both
/// arguments; `atan2_s(0, 0)` is `0`.
pub fn atan2_fix(y: Fix, x: Fix) -> (r: Fix)
    ensures
        r@ == atan2_s(y@, x@),
        -(PI_FIX as int) <= r@ <= PI_FIX as int,
{
    let ax = x.abs();
    let ay = y.abs();
    let base: i64 = if ax.ge(ay) {
        let z = ay.div(ax);
        proof {
            assert(0 <= fdiv(ay@, ax@) <= SCALE as int) by {
                if ax@ == 0 {
                } else {
                    assert(iabs(ay@ * (SCALE as int)) / iabs(ax@) <= SCALE as int)
                        by (nonlinear_arith)
                        requires
                            0 <= ay@ <= ax@,
                            0 < iabs(ax@),
                            iabs(ay@ * (SCALE as int)) == ay@ * (SCALE as int),
                            iabs(ax@) == ax@,
                    ;
                    assert(iabs(ay@ * (SCALE as int)) == ay@ * (SCALE as int))
                        by (nonlinear_arith)
                        requires
                            0 <= ay@,
                    ;
                }
            }
        }
        atan_unit_exec(z.micros())
    } else {
        let z = ax.div(ay);
        proof {
            assert(iabs(ax@ * (SCALE as int)) == ax@ * (SCALE as int)) by (nonlinear_arith)
                requires
                    0 <= ax@,
            ;
            assert(iabs(ax@ * (SCALE as int)) / iabs(ay@) <= SCALE as int) by (nonlinear_arith)
                requires
                    0 <= ax@ < ay@,
                    0 < iabs(ay@),
                    iabs(ax@ * (SCALE as int)) == ax@ * (SCALE as int),
                    iabs(ay@) == ay@,
            ;
        }
        HALF_PI_FIX - atan_unit_exec(z.micros())
    };
    let xv = x.micros();
    let yv = y.micros();
    let m: i64 = if xv >= 0 && yv >= 0 {
        base
    } else if xv < 0 && yv >= 0 {
        PI_FIX - base
    } else if xv < 0 {
        -(PI_FIX - base)
    } else {
        -base
    };
    proof {
        assert(fcl(m as int) == m as int);
    }
    Fix::from_micros(m)
}

/// Exact integer square root: the greatest `r` with `r * r <= n`.
pub fn isqrt_u128(n: u128) -> (r: u128)
    ensures
        (r as int) * (r as int) <= n as int,
        (n as int) < ((r as int) + 1) * ((r as int) + 1),
{
    let mut lo: u128 = 0;
    let mut hi: u128 = 0x1_0000_0000_0000_0000;
    proof {
        assert((hi as int) * (hi as int) > (n as int)) by (nonlinear_arith)
            requires
                hi as int == 0x1_0000_0000_0000_0000,
                (n as int) < 0x1_0000_0000_0000_0000 * 0x1_0000_0000_0000_0000,
        ;
    }
    while hi - lo > 1
        invariant
            lo < hi <= 0x1_0000_0000_0000_0000,
            (lo as int) * (lo as int) <= n as int,
            (n as int) < (hi as int) * (hi as int),
        decreases hi - lo,
    {
        let mid: u128 = lo + (hi - lo) / 2;
        proof {
            assert((mid as int) * (mid as int) < 0x1_0000_0000_0000_0000 * 0x1_0000_0000_0000_0000)
                by (nonlinear_arith)
                requires
                    0 <= (mid as int),
                    (mid as int) < 0x1_0000_0000_0000_0000,
            ;
        }
        if mid * mid <= n {
            lo = mid;
        } else {
            hi = mid;
        }
    }
    lo
}

} // verus!
