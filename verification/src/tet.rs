//! Methods for tetrahedra of [`Fix`] vertices.

use crate::edge3::{rcross3, rdot3, rsub3};
use crate::fx::{fmul, raws, tdiv, Fix, SCALE};
use crate::vec3::Vec3;
use vstd::prelude::*;

verus! {

/// Raw value of the signed volume of a tetrahedron: a sixth of the scalar
/// triple product of the edges leaving the first vertex.
pub open spec fn tet_volume(p0: Seq<int>, p1: Seq<int>, p2: Seq<int>, p3: Seq<int>) -> int {
    fmul(
        rdot3(rcross3(rsub3(p1, p0), rsub3(p2, p0)), rsub3(p3, p0)),
        tdiv(SCALE as int, 6),
    )
}

/// The signed volume of a tetrahedron.
pub fn volume(p0: &[Fix; 3], p1: &[Fix; 3], p2: &[Fix; 3], p3: &[Fix; 3]) -> (r: Fix)
    ensures
        r@ == tet_volume(raws(p0@), raws(p1@), raws(p2@), raws(p3@)),
{
    let a = Vec3::sub(p1, p0);
    let b = Vec3::sub(p2, p0);
    let c = Vec3::sub(p3, p0);
    let sixth = Fix::one().div(Fix::from_int(6));
    let r = Vec3::dot(&Vec3::cross(&a, &b), &c).mul(sixth);
    proof {
        assert(rsub3(raws(p1@), raws(p0@)) =~= raws(a@));
        assert(rsub3(raws(p2@), raws(p0@)) =~= raws(b@));
        assert(rsub3(raws(p3@), raws(p0@)) =~= raws(c@));
        assert(rcross3(raws(a@), raws(b@)) =~= seq![
            crate::vec3::cross3(a@, b@)[0],
            crate::vec3::cross3(a@, b@)[1],
            crate::vec3::cross3(a@, b@)[2],
        ]);
        crate::fx::lemma_from_ratio_scale(1, 6);
    }
    r
}

} // verus!
