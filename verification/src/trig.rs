//! Trigonometric routines over the fixed-point scalar: sine and cosine by
//! range reduction and truncated Taylor series, and the two-argument arc
//! tangent by argument halving.  Each routine's contract pins its result to
//! the same evaluation at the specification level; the truncation error of
//! the series is below the fifteenth power of the reduced argument.

use crate::fx::{fadd, fdiv, fmul, fsqrt, fsub, mag, sat, tdiv, Fix, SCALE};
use vstd::prelude::*;

verus! {

/// Raw value of two pi.
pub const TWO_PI_RAW: i64 = 442139859501778;

/// Raw value of pi.
pub const PI_RAW: i64 = 221069929750889;

/// Raw value of half pi.
pub const HALF_PI_RAW: i64 = 110534964875444;

/// Raw value of a quarter pi.
pub const QUARTER_PI_RAW: i64 = 55267482437722;

/// Raw value of the sine series on `[-pi/4, pi/4]`: the odd Taylor
/// polynomial through the thirteenth power, by the Horner scheme.
pub open spec fn sin_poly(x: int) -> int {
    let s = SCALE as int;
    let x2 = fmul(x, x);
    let t = fsub(tdiv(s, 39916800), fmul(x2, tdiv(s, 6227020800)));
    let t = fsub(tdiv(s, 362880), fmul(x2, t));
    let t = fsub(tdiv(s, 5040), fmul(x2, t));
    let t = fsub(tdiv(s, 120), fmul(x2, t));
    let t = fsub(tdiv(s, 6), fmul(x2, t));
    let t = fsub(s, fmul(x2, t));
    fmul(x, t)
}

/// Raw value of the cosine series on `[-pi/4, pi/4]`: the even Taylor
/// polynomial through the twelfth power.
pub open spec fn cos_poly(x: int) -> int {
    let s = SCALE as int;
    let x2 = fmul(x, x);
    let t = fsub(tdiv(s, 3628800), fmul(x2, tdiv(s, 479001600)));
    let t = fsub(tdiv(s, 40320), fmul(x2, t));
    let t = fsub(tdiv(s, 720), fmul(x2, t));
    let t = fsub(tdiv(s, 24), fmul(x2, t));
    let t = fsub(tdiv(s, 2), fmul(x2, t));
    fsub(s, fmul(x2, t))
}

/// The angle reduced into `[-pi/4, pi/4]` with its quadrant count: while the
/// remainder exceeds a quarter pi and a half turn away stays above the
/// negative quarter pi, a half pi is peeled off, at most seven times.
pub open spec fn reduce_quadrant(r: int, k: int) -> (int, int)
    decreases 7 - k,
{
    if r > QUARTER_PI_RAW as int && k < 7 {
        let r2 = fsub(r, HALF_PI_RAW as int);
        if r2 >= -(QUARTER_PI_RAW as int) {
            reduce_quadrant(r2, k + 1)
        } else {
            (r, k)
        }
    } else {
        (r, k)
    }
}

/// Raw value of the angle brought into one full turn from zero: the whole
/// number of turns (truncated toward zero) is subtracted, and a negative
/// remainder gets one more turn.
pub open spec fn reduce_turn(theta: int) -> int {
    let k = tdiv(theta, TWO_PI_RAW as int);
    let r = fsub(theta, fmul(sat(k * (SCALE as int)), TWO_PI_RAW as int));
    if r < 0 {
        fadd(r, TWO_PI_RAW as int)
    } else {
        r
    }
}

/// Raw values of the sine and cosine of an angle: the reduced argument's
/// series values, rearranged and signed by the quadrant.
pub open spec fn sin_cos_spec(theta: int) -> (int, int) {
    let rk = reduce_quadrant(reduce_turn(theta), 0);
    let sp = sin_poly(rk.0);
    let cp = cos_poly(rk.0);
    let k = rk.1 % 4;
    if k == 0 {
        (sp, cp)
    } else if k == 1 {
        (cp, -sp)
    } else if k == 2 {
        (-sp, -cp)
    } else {
        (-cp, sp)
    }
}

/// The whole number of turns in an angle, truncated toward zero.
fn turns(theta: Fix) -> (r: i64)
    ensures
        r as int == tdiv(theta@, TWO_PI_RAW as int),
{
    proof {
        use_type_invariant(theta);
    }
    let raw = theta.raw();
    if raw >= 0 {
        let q = (raw as u64) / (TWO_PI_RAW as u64);
        proof {
            assert(q <= raw as u64) by (nonlinear_arith)
                requires
                    q == (raw as u64) / (TWO_PI_RAW as u64),
                    raw >= 0,
            ;
        }
        q as i64
    } else {
        let m = (-raw) as u64;
        let q = m / (TWO_PI_RAW as u64);
        proof {
            assert(q <= m) by (nonlinear_arith)
                requires
                    q == m / (TWO_PI_RAW as u64),
            ;
        }
        -(q as i64)
    }
}

/// The sine and cosine of an angle in radians.
pub fn sin_cos(theta: Fix) -> (r: (Fix, Fix))
    ensures
        (r.0@, r.1@) == sin_cos_spec(theta@),
{
    let two_pi = Fix::from_raw(TWO_PI_RAW);
    let half_pi = Fix::from_raw(HALF_PI_RAW);
    let quarter_pi = Fix::from_raw(QUARTER_PI_RAW);
    let k = turns(theta);
    let mut r = theta.sub(Fix::from_int(k).mul(two_pi));
    if r.lt(Fix::zero()) {
        r = r.add(two_pi);
    }
    proof {
        assert(r@ == reduce_turn(theta@));
    }
    let mut k: usize = 0;
    let ghost r0 = r@;
    while r.gt(quarter_pi) && k < 7 && r.sub(half_pi).ge(quarter_pi.neg())
        invariant
            k <= 7,
            quarter_pi@ == QUARTER_PI_RAW as int,
            half_pi@ == HALF_PI_RAW as int,
            reduce_quadrant(r@, k as int) == reduce_quadrant(r0, 0),
        decreases 7 - k,
    {
        r = r.sub(half_pi);
        k = k + 1;
    }
    proof {
        assert((r@, k as int) == reduce_quadrant(r0, 0));
    }
    let sp = sin_poly_at(r);
    let cp = cos_poly_at(r);
    let k = k % 4;
    if k == 0 {
        (sp, cp)
    } else if k == 1 {
        (cp, sp.neg())
    } else if k == 2 {
        (sp.neg(), cp.neg())
    } else {
        (cp.neg(), sp)
    }
}

/// The sine series, executably.
fn sin_poly_at(x: Fix) -> (r: Fix)
    ensures
        r@ == sin_poly(x@),
{
    let x2 = x.mul(x);
    let t = Fix::from_ratio(1, 39916800).sub(x2.mul(Fix::from_ratio(1, 6227020800)));
    let t = Fix::from_ratio(1, 362880).sub(x2.mul(t));
    let t = Fix::from_ratio(1, 5040).sub(x2.mul(t));
    let t = Fix::from_ratio(1, 120).sub(x2.mul(t));
    let t = Fix::from_ratio(1, 6).sub(x2.mul(t));
    let t = Fix::one().sub(x2.mul(t));
    x.mul(t)
}

/// The cosine series, executably.
fn cos_poly_at(x: Fix) -> (r: Fix)
    ensures
        r@ == cos_poly(x@),
{
    let x2 = x.mul(x);
    let t = Fix::from_ratio(1, 3628800).sub(x2.mul(Fix::from_ratio(1, 479001600)));
    let t = Fix::from_ratio(1, 40320).sub(x2.mul(t));
    let t = Fix::from_ratio(1, 720).sub(x2.mul(t));
    let t = Fix::from_ratio(1, 24).sub(x2.mul(t));
    let t = Fix::from_ratio(1, 2).sub(x2.mul(t));
    Fix::one().sub(x2.mul(t))
}

/// Raw value of the arc tangent series for small arguments: the odd Taylor
/// polynomial through the fifteenth power.
pub open spec fn atan_poly(x: int) -> int {
    let s = SCALE as int;
    let x2 = fmul(x, x);
    let t = fsub(tdiv(s, 13), fmul(x2, tdiv(s, 15)));
    let t = fsub(tdiv(s, 11), fmul(x2, t));
    let t = fsub(tdiv(s, 9), fmul(x2, t));
    let t = fsub(tdiv(s, 7), fmul(x2, t));
    let t = fsub(tdiv(s, 5), fmul(x2, t));
    let t = fsub(tdiv(s, 3), fmul(x2, t));
    let t = fsub(s, fmul(x2, t));
    fmul(x, t)
}

/// One halving of the arc tangent argument.
pub open spec fn atan_halve(y: int) -> int {
    fdiv(y, fadd(SCALE as int, fsqrt(fadd(SCALE as int, fmul(y, y)))))
}

/// Raw value of the arc tangent on `[0, 1]`: the argument is halved three
/// times and the series result scaled back by eight.
pub open spec fn atan01(x: int) -> int {
    fmul(8 * (SCALE as int), atan_poly(atan_halve(atan_halve(atan_halve(x)))))
}

/// Raw value of the two-argument arc tangent, in `(-pi, pi]`: the arc
/// tangent of the smaller magnitude over the larger, reflected into the
/// proper quadrant.
pub open spec fn atan2_spec(y: int, x: int) -> int {
    if y == 0 {
        if x >= 0 {
            0
        } else {
            PI_RAW as int
        }
    } else if x == 0 {
        if y > 0 {
            HALF_PI_RAW as int
        } else {
            -(HALF_PI_RAW as int)
        }
    } else {
        let base = if mag(y) <= mag(x) {
            atan01(fdiv(mag(y), mag(x)))
        } else {
            fsub(HALF_PI_RAW as int, atan01(fdiv(mag(x), mag(y))))
        };
        if x > 0 {
            if y > 0 {
                base
            } else {
                -base
            }
        } else {
            if y > 0 {
                fsub(PI_RAW as int, base)
            } else {
                -fsub(PI_RAW as int, base)
            }
        }
    }
}

/// The arc tangent series, executably.
fn atan_poly_at(x: Fix) -> (r: Fix)
    ensures
        r@ == atan_poly(x@),
{
    let x2 = x.mul(x);
    let t = Fix::from_ratio(1, 13).sub(x2.mul(Fix::from_ratio(1, 15)));
    let t = Fix::from_ratio(1, 11).sub(x2.mul(t));
    let t = Fix::from_ratio(1, 9).sub(x2.mul(t));
    let t = Fix::from_ratio(1, 7).sub(x2.mul(t));
    let t = Fix::from_ratio(1, 5).sub(x2.mul(t));
    let t = Fix::from_ratio(1, 3).sub(x2.mul(t));
    let t = Fix::one().sub(x2.mul(t));
    x.mul(t)
}

/// One halving of the arc tangent argument, executably.
fn atan_halve_at(y: Fix) -> (r: Fix)
    ensures
        r@ == atan_halve(y@),
{
    y.div(Fix::one().add(Fix::one().add(y.mul(y)).sqrt()))
}

/// The arc tangent of `x` in `[0, 1]`.
fn atan01_at(x: Fix) -> (r: Fix)
    ensures
        r@ == atan01(x@),
{
    let y = atan_halve_at(atan_halve_at(atan_halve_at(x)));
    Fix::from_int(8).mul(atan_poly_at(y))
}

/// The two-argument arc tangent: the angle of the point `(x, y)` in
/// `(-pi, pi]` radians.
pub fn atan2(y: Fix, x: Fix) -> (r: Fix)
    ensures
        r@ == atan2_spec(y@, x@),
{
    let zero = Fix::zero();
    let pi = Fix::from_raw(PI_RAW);
    let half_pi = Fix::from_raw(HALF_PI_RAW);
    if y.is_zero() {
        if x.ge(zero) {
            zero
        } else {
            pi
        }
    } else if x.is_zero() {
        if y.gt(zero) {
            half_pi
        } else {
            half_pi.neg()
        }
    } else {
        let ay = y.abs();
        let ax = x.abs();
        let base = if ay.le(ax) {
            atan01_at(ay.div(ax))
        } else {
            half_pi.sub(atan01_at(ax.div(ay)))
        };
        if x.gt(zero) {
            if y.gt(zero) {
                base
            } else {
                base.neg()
            }
        } else {
            if y.gt(zero) {
                pi.sub(base)
            } else {
                pi.sub(base).neg()
            }
        }
    }
}

} // verus!
