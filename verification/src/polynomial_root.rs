//! Roots of low-degree polynomials over the fixed-point scalar.

use crate::fx::{fadd, fdiv, fmul, fsqrt, fsub, Fix, SCALE};
use vstd::prelude::*;

verus! {

/// What [`quadratic_root`] returns: the two real roots of
/// `c0 + c1 t + c2 t^2` in ascending order, a double root for a linear
/// polynomial, and nothing for a constant polynomial or a negative
/// discriminant.
pub open spec fn quadratic_root_spec(c0: int, c1: int, c2: int) -> Option<(int, int)> {
    if c2 == 0 {
        if c1 == 0 {
            None
        } else {
            let r = fdiv(-c0, c1);
            Some((r, r))
        }
    } else {
        let det = fsub(fmul(c1, c1), fmul(fmul(4 * (SCALE as int), c2), c0));
        if det < 0 {
            None
        } else {
            let sq = fsqrt(det);
            let r0 = fdiv(fsub(-c1, sq), fmul(2 * (SCALE as int), c2));
            let r1 = fdiv(fadd(-c1, sq), fmul(2 * (SCALE as int), c2));
            if r0 <= r1 {
                Some((r0, r1))
            } else {
                Some((r1, r0))
            }
        }
    }
}

/// The real roots of the quadratic `c0 + c1 t + c2 t^2`, in ascending order.
pub fn quadratic_root(c0: Fix, c1: Fix, c2: Fix) -> (r: Option<(Fix, Fix)>)
    ensures
        r is Some <==> quadratic_root_spec(c0@, c1@, c2@) is Some,
        r matches Some((a, b)) ==> Some((a@, b@)) == quadratic_root_spec(c0@, c1@, c2@) && a@
            <= b@,
{
    let zero = Fix::zero();
    if c2.is_zero() {
        if c1.is_zero() {
            return None;
        }
        let r = c0.neg().div(c1);
        return Some((r, r));
    }
    let four = Fix::from_int(4);
    let det = c1.mul(c1).sub(four.mul(c2).mul(c0));
    if det.lt(zero) {
        return None;
    }
    let sq = det.sqrt();
    let two = Fix::two();
    let r0 = c1.neg().sub(sq).div(two.mul(c2));
    let r1 = c1.neg().add(sq).div(two.mul(c2));
    if r0.le(r1) {
        Some((r0, r1))
    } else {
        Some((r1, r0))
    }
}

} // verus!
