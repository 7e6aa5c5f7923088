//! Methods for quaternions stored as `[i, j, k, w]`.

use crate::fx::{fadd, fdiv, fmul, fsqrt, fsub, Fix, SCALE};
use vstd::prelude::*;

verus! {

/// Raw value of the saturating squared norm of a quaternion.
pub open spec fn quat_sq_norm(q: Seq<Fix>) -> int {
    fadd(
        fadd(fadd(fmul(q[0]@, q[0]@), fmul(q[1]@, q[1]@)), fmul(q[2]@, q[2]@)),
        fmul(q[3]@, q[3]@),
    )
}

/// Trait for quaternions.
pub trait Quaternion: Sized + View<V = Seq<Fix>> {
    /// The quaternion scaled by the reciprocal of its norm.
    fn normalized(&self) -> (r: Self)
        ensures
            r@.len() == 4,
            forall|i: int|
                0 <= i < 4 ==> r@[i]@ == fmul(
                    self@[i]@,
                    fdiv(SCALE as int, fsqrt(quat_sq_norm(self@))),
                ),
    ;

    /// The rotation matrix of a unit quaternion, in column-major storage.
    fn to_mat3_col_major(&self) -> (r: [Fix; 9])
        ensures
            ({
                let x = self@[0]@;
                let y = self@[1]@;
                let z = self@[2]@;
                let w = self@[3]@;
                let s = SCALE as int;
                let two = 2 * s;
                &&& r@[0]@ == fsub(fsub(s, fmul(two, fmul(y, y))), fmul(two, fmul(z, z)))
                &&& r@[1]@ == fadd(fmul(two, fmul(x, y)), fmul(two, fmul(w, z)))
                &&& r@[2]@ == fsub(fmul(two, fmul(x, z)), fmul(two, fmul(w, y)))
                &&& r@[3]@ == fsub(fmul(two, fmul(x, y)), fmul(two, fmul(w, z)))
                &&& r@[4]@ == fsub(fsub(s, fmul(two, fmul(x, x))), fmul(two, fmul(z, z)))
                &&& r@[5]@ == fadd(fmul(two, fmul(y, z)), fmul(two, fmul(w, x)))
                &&& r@[6]@ == fadd(fmul(two, fmul(x, z)), fmul(two, fmul(w, y)))
                &&& r@[7]@ == fsub(fmul(two, fmul(y, z)), fmul(two, fmul(w, x)))
                &&& r@[8]@ == fsub(fsub(s, fmul(two, fmul(x, x))), fmul(two, fmul(y, y)))
            }),
    ;
}

impl Quaternion for [Fix; 4] {
    fn normalized(&self) -> (r: Self) {
        let n = self[0].mul(self[0]).add(self[1].mul(self[1])).add(self[2].mul(self[2])).add(
            self[3].mul(self[3]),
        ).sqrt();
        let inv = Fix::one().div(n);
        [self[0].mul(inv), self[1].mul(inv), self[2].mul(inv), self[3].mul(inv)]
    }

    fn to_mat3_col_major(&self) -> (r: [Fix; 9]) {
        let two = Fix::two();
        let one = Fix::one();
        let x = self[0];
        let y = self[1];
        let z = self[2];
        let w = self[3];
        [
            one.sub(two.mul(y.mul(y))).sub(two.mul(z.mul(z))),
            two.mul(x.mul(y)).add(two.mul(w.mul(z))),
            two.mul(x.mul(z)).sub(two.mul(w.mul(y))),
            two.mul(x.mul(y)).sub(two.mul(w.mul(z))),
            one.sub(two.mul(x.mul(x))).sub(two.mul(z.mul(z))),
            two.mul(y.mul(z)).add(two.mul(w.mul(x))),
            two.mul(x.mul(z)).add(two.mul(w.mul(y))),
            two.mul(y.mul(z)).sub(two.mul(w.mul(x))),
            one.sub(two.mul(x.mul(x))).sub(two.mul(y.mul(y))),
        ]
    }
}

} // verus!
