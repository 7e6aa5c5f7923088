//! Methods for 3D vectors of [`Fix`] scalars.

use crate::fx::{fadd, fdiv, fmul, fsqrt, fsub, Fix, SCALE};
use vstd::prelude::*;

verus! {

/// Raw value of the saturating dot product of two 3-vectors.
pub open spec fn dot3(a: Seq<Fix>, b: Seq<Fix>) -> int {
    fadd(fadd(fmul(a[0]@, b[0]@), fmul(a[1]@, b[1]@)), fmul(a[2]@, b[2]@))
}

/// Raw values of the saturating cross product of two 3-vectors.
pub open spec fn cross3(a: Seq<Fix>, b: Seq<Fix>) -> Seq<int> {
    seq![
        fsub(fmul(a[1]@, b[2]@), fmul(a[2]@, b[1]@)),
        fsub(fmul(a[2]@, b[0]@), fmul(a[0]@, b[2]@)),
        fsub(fmul(a[0]@, b[1]@), fmul(a[1]@, b[0]@)),
    ]
}

/// Raw value of the saturating squared norm of a 3-vector.
pub open spec fn sq_norm3(a: Seq<Fix>) -> int {
    dot3(a, a)
}

/// Raw value of the fixed-point norm of a 3-vector.
pub open spec fn norm3(a: Seq<Fix>) -> int {
    fsqrt(sq_norm3(a))
}

/// Trait for 3D vectors.
pub trait Vec3: Sized + View<V = Seq<Fix>> {
    /// Component-wise saturating sum.
    fn add(&self, other: &Self) -> (r: Self)
        ensures
            r@.len() == 3,
            forall|i: int| 0 <= i < 3 ==> r@[i]@ == fadd(self@[i]@, other@[i]@),
    ;

    /// Component-wise saturating difference.
    fn sub(&self, other: &Self) -> (r: Self)
        ensures
            r@.len() == 3,
            forall|i: int| 0 <= i < 3 ==> r@[i]@ == fsub(self@[i]@, other@[i]@),
    ;

    /// Component-wise saturating product with a scalar.
    fn scale(&self, s: Fix) -> (r: Self)
        ensures
            r@.len() == 3,
            forall|i: int| 0 <= i < 3 ==> r@[i]@ == fmul(self@[i]@, s@),
    ;

    /// Saturating dot product.
    fn dot(&self, other: &Self) -> (r: Fix)
        ensures
            r@ == dot3(self@, other@),
    ;

    /// Saturating cross product.
    fn cross(&self, other: &Self) -> (r: Self)
        ensures
            r@.len() == 3,
            r@[0]@ == cross3(self@, other@)[0],
            r@[1]@ == cross3(self@, other@)[1],
            r@[2]@ == cross3(self@, other@)[2],
    ;

    /// Saturating squared norm.
    fn squared_norm(&self) -> (r: Fix)
        ensures
            r@ == sq_norm3(self@),
    ;

    /// Fixed-point norm.
    fn norm(&self) -> (r: Fix)
        ensures
            r@ == norm3(self@),
    ;

    /// The vector scaled by the reciprocal of its norm.
    fn normalize(&self) -> (r: Self)
        ensures
            r@.len() == 3,
            forall|i: int|
                0 <= i < 3 ==> r@[i]@ == fmul(
                    self@[i]@,
                    fdiv(SCALE as int, norm3(self@)),
                ),
    ;
}

impl Vec3 for [Fix; 3] {
    fn add(&self, other: &Self) -> (r: Self) {
        [self[0].add(other[0]), self[1].add(other[1]), self[2].add(other[2])]
    }

    fn sub(&self, other: &Self) -> (r: Self) {
        [self[0].sub(other[0]), self[1].sub(other[1]), self[2].sub(other[2])]
    }

    fn scale(&self, s: Fix) -> (r: Self) {
        [self[0].mul(s), self[1].mul(s), self[2].mul(s)]
    }

    fn dot(&self, other: &Self) -> (r: Fix) {
        self[0].mul(other[0]).add(self[1].mul(other[1])).add(self[2].mul(other[2]))
    }

    fn cross(&self, other: &Self) -> (r: Self) {
        [
            self[1].mul(other[2]).sub(self[2].mul(other[1])),
            self[2].mul(other[0]).sub(self[0].mul(other[2])),
            self[0].mul(other[1]).sub(self[1].mul(other[0])),
        ]
    }

    fn squared_norm(&self) -> (r: Fix) {
        Vec3::dot(self, self)
    }

    fn norm(&self) -> (r: Fix) {
        Vec3::squared_norm(self).sqrt()
    }

    fn normalize(&self) -> (r: Self) {
        let inv = Fix::one().div(Vec3::norm(self));
        Vec3::scale(self, inv)
    }
}

/// `alpha * x + y`, component-wise and saturating.
pub fn axpy(alpha: Fix, x: &[Fix; 3], y: &[Fix; 3]) -> (r: [Fix; 3])
    ensures
        forall|i: int| 0 <= i < 3 ==> r@[i]@ == fadd(fmul(x@[i]@, alpha@), y@[i]@),
{
    Vec3::add(&Vec3::scale(x, alpha), y)
}

/// Free-function saturating cross product.
pub fn cross(a: &[Fix; 3], b: &[Fix; 3]) -> (r: [Fix; 3])
    ensures
        r@[0]@ == cross3(a@, b@)[0],
        r@[1]@ == cross3(a@, b@)[1],
        r@[2]@ == cross3(a@, b@)[2],
{
    Vec3::cross(a, b)
}

/// Free-function normalization.
pub fn normalize(a: &[Fix; 3]) -> (r: [Fix; 3])
    ensures
        forall|i: int| 0 <= i < 3 ==> r@[i]@ == fmul(a@[i]@, fdiv(SCALE as int, norm3(a@))),
{
    Vec3::normalize(a)
}

/// The scalar triple product `(b x c) . a`.
pub fn scalar_triple_product(a: &[Fix; 3], b: &[Fix; 3], c: &[Fix; 3]) -> (r: Fix)
    ensures
        r@ == fadd(
            fadd(
                fmul(cross3(b@, c@)[0], a@[0]@),
                fmul(cross3(b@, c@)[1], a@[1]@),
            ),
            fmul(cross3(b@, c@)[2], a@[2]@),
        ),
{
    let bc = Vec3::cross(b, c);
    bc[0].mul(a[0]).add(bc[1].mul(a[1])).add(bc[2].mul(a[2]))
}

/// The 3D point of a homogeneous 4-vector, or `None` when the last
/// coordinate is zero.
pub fn from_homogeneous(v: &[Fix; 4]) -> (r: Option<[Fix; 3]>)
    ensures
        r is Some <==> v@[3]@ != 0,
        r matches Some(p) ==> forall|i: int| 0 <= i < 3 ==> p@[i]@ == fdiv(v@[i]@, v@[3]@),
{
    if v[3].is_zero() {
        return None;
    }
    Some([v[0].div(v[3]), v[1].div(v[3]), v[2].div(v[3])])
}

/// The basis vector of axis `idim` (0, 1 or 2), scaled by `mag`.
pub fn from_basis(idim: usize, mag: Fix) -> (r: [Fix; 3])
    requires
        idim < 3,
    ensures
        forall|i: int|
            0 <= i < 3 ==> r@[i]@ == if i == idim {
                mag@
            } else {
                0
            },
{
    let zero = Fix::zero();
    if idim == 0 {
        [mag, zero, zero]
    } else if idim == 1 {
        [zero, mag, zero]
    } else {
        [zero, zero, mag]
    }
}

/// The raw components of the first frame vector completing `n`: the cross
/// product of the world y axis with `n`, normalized when its length is at
/// least `10^-10`, and otherwise the cross product of the world x axis with
/// `n`, unnormalized.
pub open spec fn frame_x_of(n: Seq<int>) -> Seq<int> {
    let s = SCALE as int;
    let x0 = fsub(fmul(s, n[2]), fmul(0, n[1]));
    let x1 = fsub(fmul(0, n[0]), fmul(0, n[2]));
    let x2 = fsub(fmul(0, n[1]), fmul(s, n[0]));
    let lensq = fadd(fadd(fmul(x0, x0), fmul(x1, x1)), fmul(x2, x2));
    if fsqrt(lensq) < crate::fx::sat(crate::fx::tdiv(s, 10000000000)) {
        seq![
            fsub(fmul(0, n[2]), fmul(0, n[1])),
            fsub(fmul(0, n[0]), fmul(s, n[2])),
            fsub(fmul(s, n[1]), fmul(0, n[0])),
        ]
    } else {
        seq![
            fmul(x0, fdiv(s, fsqrt(lensq))),
            fmul(x1, fdiv(s, fsqrt(lensq))),
            fmul(x2, fdiv(s, fsqrt(lensq))),
        ]
    }
}

/// Two vectors completing `vec_n` to a frame: the first is [`frame_x_of`]
/// and the second is the cross product of `vec_n` with it.
pub fn frame_from_z_vector(vec_n: [Fix; 3]) -> (r: ([Fix; 3], [Fix; 3]))
    ensures
        crate::fx::raws(r.0@) =~= frame_x_of(crate::fx::raws(vec_n@)),
        r.1@[0]@ == cross3(vec_n@, r.0@)[0],
        r.1@[1]@ == cross3(vec_n@, r.0@)[1],
        r.1@[2]@ == cross3(vec_n@, r.0@)[2],
{
    let vec_s = [Fix::zero(), Fix::one(), Fix::zero()];
    let vec_x = Vec3::cross(&vec_s, &vec_n);
    let len = Vec3::norm(&vec_x);
    let threshold = Fix::from_ratio(1, 10000000000);
    if len.lt(threshold) {
        let vec_t = [Fix::one(), Fix::zero(), Fix::zero()];
        let vec_x2 = Vec3::cross(&vec_t, &vec_n);
        let vec_y = Vec3::cross(&vec_n, &vec_x2);
        proof {
            assert(crate::fx::raws(vec_x2@) =~= frame_x_of(crate::fx::raws(vec_n@)));
        }
        (vec_x2, vec_y)
    } else {
        let invlen = Fix::one().div(len);
        let vec_x2 = Vec3::scale(&vec_x, invlen);
        let vec_y = Vec3::cross(&vec_n, &vec_x2);
        proof {
            assert(crate::fx::raws(vec_x2@) =~= frame_x_of(crate::fx::raws(vec_n@)));
        }
        (vec_x2, vec_y)
    }
}

/// Raw normalization of a raw 3-vector by its reciprocal norm.
pub open spec fn rnormalize3(a: Seq<int>) -> Seq<int> {
    crate::edge3::rscale3(a, fdiv(SCALE as int, crate::edge3::rnorm3(a)))
}

/// The raw components of the first basis vector completing `n`: the
/// normalized cross product of a fixed world axis with `n`, the y axis when
/// the first component of `n` is large (above one tenth in magnitude) and
/// the x axis otherwise.
pub open spec fn basis_x_of(n: Seq<int>) -> Seq<int> {
    let t = if crate::fx::mag(n[0]) > crate::fx::tdiv(SCALE as int, 10) {
        seq![0int, SCALE as int, 0int]
    } else {
        seq![SCALE as int, 0int, 0int]
    };
    rnormalize3(crate::edge3::rcross3(t, n))
}

/// Two vectors completing `vec_n` (taken as a z axis) to a frame: the
/// normalized cross product of a fixed world axis with `vec_n` (see
/// [`basis_x_of`]) and the cross product of `vec_n` with that.
pub fn basis_xy_from_basis_z(vec_n: &[Fix; 3]) -> (r: ([Fix; 3], [Fix; 3]))
    ensures
        crate::fx::raws(r.0@) =~= basis_x_of(crate::fx::raws(vec_n@)),
        crate::fx::raws(r.1@) =~= crate::edge3::rcross3(
            crate::fx::raws(vec_n@),
            basis_x_of(crate::fx::raws(vec_n@)),
        ),
{
    let zero = Fix::zero();
    let one = Fix::one();
    let t = if vec_n[0].abs().gt(Fix::from_ratio(1, 10)) {
        [zero, one, zero]
    } else {
        [one, zero, zero]
    };
    let c = Vec3::cross(&t, vec_n);
    let x = Vec3::normalize(&c);
    let y = Vec3::cross(vec_n, &x);
    proof {
        let nraw = crate::fx::raws(vec_n@);
        let traw = if crate::fx::mag(nraw[0]) > crate::fx::tdiv(SCALE as int, 10) {
            seq![0int, SCALE as int, 0int]
        } else {
            seq![SCALE as int, 0int, 0int]
        };
        assert(crate::fx::raws(t@) =~= traw);
        assert(crate::edge3::rcross3(traw, nraw) =~= crate::fx::raws(c@));
        assert(rnormalize3(crate::fx::raws(c@)) =~= crate::fx::raws(x@));
        assert(crate::edge3::rcross3(nraw, crate::fx::raws(x@)) =~= crate::fx::raws(y@));
    }
    (x, y)
}

} // verus!
