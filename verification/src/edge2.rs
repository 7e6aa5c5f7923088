//! Methods for 2D edges (line segments) of [`Fix`] endpoints.

use crate::fx::{fdiv, Fix, SCALE};
use crate::vec2::Vec2;
use vstd::prelude::*;

verus! {

/// Raw value of the barycentric coordinate of `v` along the edge from `e0`
/// to `e1`: the projection ratio, or one half for a degenerate edge.
pub open spec fn barycentric_spec(e0: Seq<Fix>, e1: Seq<Fix>, v: Seq<Fix>) -> int {
    let d0 = crate::fx::fsub(e1[0]@, e0[0]@);
    let d1 = crate::fx::fsub(e1[1]@, e0[1]@);
    let w0 = crate::fx::fsub(v[0]@, e0[0]@);
    let w1 = crate::fx::fsub(v[1]@, e0[1]@);
    let len2 = crate::fx::fadd(crate::fx::fmul(d0, d0), crate::fx::fmul(d1, d1));
    if len2 == 0 {
        (SCALE as int) / 2
    } else {
        fdiv(crate::fx::fadd(crate::fx::fmul(w0, d0), crate::fx::fmul(w1, d1)), len2)
    }
}

/// The barycentric coordinate of `v` along the edge from `e0` to `e1`:
/// zero at `e0`, one at `e1`, one half for a degenerate edge.
pub fn barycentric(e0: &[Fix; 2], e1: &[Fix; 2], v: &[Fix; 2]) -> (r: Fix)
    ensures
        r@ == barycentric_spec(e0@, e1@, v@),
{
    let d = Vec2::sub(e1, e0);
    let w = Vec2::sub(v, e0);
    let len2 = Vec2::dot(&d, &d);
    if len2.is_zero() {
        return Fix::half();
    }
    Vec2::dot(&w, &d).div(len2)
}

} // verus!
