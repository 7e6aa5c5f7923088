//! Methods for 2D vectors of [`Fix`] scalars.

use crate::fx::{fadd, fdiv, fmul, fsqrt, fsub, Fix, SCALE};
use vstd::prelude::*;

verus! {

/// Raw value of the saturating dot product of two 2-vectors.
pub open spec fn dot2(a: Seq<Fix>, b: Seq<Fix>) -> int {
    fadd(fmul(a[0]@, b[0]@), fmul(a[1]@, b[1]@))
}

/// Raw value of the saturating squared length of a 2-vector.
pub open spec fn sq_len2(a: Seq<Fix>) -> int {
    dot2(a, a)
}

/// Raw value of the signed area of the quadrilateral spanned by two
/// 2-vectors: their two-dimensional cross product.
pub open spec fn area2(a: Seq<Fix>, b: Seq<Fix>) -> int {
    fsub(fmul(a[0]@, b[1]@), fmul(a[1]@, b[0]@))
}

/// Trait for 2D vectors.
pub trait Vec2: Sized + View<V = Seq<Fix>> {
    /// Component-wise saturating difference.
    fn sub(&self, other: &Self) -> (r: Self)
        ensures
            r@.len() == 2,
            forall|i: int| 0 <= i < 2 ==> r@[i]@ == fsub(self@[i]@, other@[i]@),
    ;

    /// Component-wise saturating sum.
    fn add(&self, other: &Self) -> (r: Self)
        ensures
            r@.len() == 2,
            forall|i: int| 0 <= i < 2 ==> r@[i]@ == fadd(self@[i]@, other@[i]@),
    ;

    /// The image under a homogeneous transformation, or `None` when the
    /// image's last coordinate is zero.
    fn transform_homogeneous(&self, v: &[Fix; 9]) -> (r: Option<[Fix; 2]>)
        ensures
            r is Some <==> fadd(fadd(fmul(v@[2]@, self@[0]@), fmul(v@[5]@, self@[1]@)), v@[8]@)
                != 0,
            r matches Some(y) ==> {
                let y2 = fadd(fadd(fmul(v@[2]@, self@[0]@), fmul(v@[5]@, self@[1]@)), v@[8]@);
                &&& y@[0]@ == fdiv(
                    fadd(fadd(fmul(v@[0]@, self@[0]@), fmul(v@[3]@, self@[1]@)), v@[6]@),
                    y2,
                )
                &&& y@[1]@ == fdiv(
                    fadd(fadd(fmul(v@[1]@, self@[0]@), fmul(v@[4]@, self@[1]@)), v@[7]@),
                    y2,
                )
            },
    ;

    /// Saturating dot product.
    fn dot(&self, other: &Self) -> (r: Fix)
        ensures
            r@ == dot2(self@, other@),
    ;

    /// Component-wise saturating product with a scalar.
    fn scale(&self, s: Fix) -> (r: Self)
        ensures
            r@.len() == 2,
            forall|i: int| 0 <= i < 2 ==> r@[i]@ == fmul(self@[i]@, s@),
    ;

    /// The component of `v` orthogonal to `self`.
    fn orthogonalize(&self, v: &Self) -> (r: Self)
        ensures
            r@.len() == 2,
            forall|i: int|
                0 <= i < 2 ==> r@[i]@ == fsub(
                    v@[i]@,
                    fmul(self@[i]@, fdiv(dot2(self@, v@), dot2(self@, self@))),
                ),
    ;

    /// The fixed-point length.
    fn norm(&self) -> (r: Fix)
        ensures
            r@ == fsqrt(sq_len2(self@)),
    ;

    /// The saturating squared length.
    fn squared_norm(&self) -> (r: Fix)
        ensures
            r@ == sq_len2(self@),
    ;
}

impl Vec2 for [Fix; 2] {
    fn sub(&self, other: &Self) -> (r: Self) {
        crate::vec2::sub(self, other)
    }

    fn add(&self, other: &Self) -> (r: Self) {
        crate::vec2::add(self, other)
    }

    fn transform_homogeneous(&self, v: &[Fix; 9]) -> (r: Option<[Fix; 2]>) {
        crate::mat3_col_major::transform_homogeneous(v, self)
    }

    fn dot(&self, other: &Self) -> (r: Fix) {
        dot(self, other)
    }

    fn scale(&self, s: Fix) -> (r: Self) {
        scale(self, s)
    }

    fn orthogonalize(&self, v: &Self) -> (r: Self) {
        orthogonalize(self, v)
    }

    fn norm(&self) -> (r: Fix) {
        length(self)
    }

    fn squared_norm(&self) -> (r: Fix) {
        squared_length(self)
    }
}

/// The fixed-point length of a 2-vector.
pub fn length(p: &[Fix; 2]) -> (r: Fix)
    ensures
        r@ == fsqrt(sq_len2(p@)),
{
    p[0].mul(p[0]).add(p[1].mul(p[1])).sqrt()
}

/// The saturating squared length of a 2-vector.
pub fn squared_length(p: &[Fix; 2]) -> (r: Fix)
    ensures
        r@ == sq_len2(p@),
{
    p[0].mul(p[0]).add(p[1].mul(p[1]))
}

/// Component-wise saturating difference.
pub fn sub(a: &[Fix; 2], b: &[Fix; 2]) -> (r: [Fix; 2])
    ensures
        forall|i: int| 0 <= i < 2 ==> r@[i]@ == fsub(a@[i]@, b@[i]@),
{
    [a[0].sub(b[0]), a[1].sub(b[1])]
}

/// Component-wise saturating sum.
pub fn add(a: &[Fix; 2], b: &[Fix; 2]) -> (r: [Fix; 2])
    ensures
        forall|i: int| 0 <= i < 2 ==> r@[i]@ == fadd(a@[i]@, b@[i]@),
{
    [a[0].add(b[0]), a[1].add(b[1])]
}

/// Component-wise saturating product with a scalar.
pub fn scale(a: &[Fix; 2], s: Fix) -> (r: [Fix; 2])
    ensures
        forall|i: int| 0 <= i < 2 ==> r@[i]@ == fmul(a@[i]@, s@),
{
    [a[0].mul(s), a[1].mul(s)]
}

/// Saturating dot product.
pub fn dot(a: &[Fix; 2], b: &[Fix; 2]) -> (r: Fix)
    ensures
        r@ == dot2(a@, b@),
{
    a[0].mul(b[0]).add(a[1].mul(b[1]))
}

/// The signed area of the quadrilateral spanned by two 2-vectors.
pub fn area_quadrilateral(a: &[Fix; 2], b: &[Fix; 2]) -> (r: Fix)
    ensures
        r@ == area2(a@, b@),
{
    a[0].mul(b[1]).sub(a[1].mul(b[0]))
}

/// The 2D point of a homogeneous 3-vector, or `None` when the last
/// coordinate is zero: each coordinate divided by the last.
pub fn from_homogeneous(v: &[Fix; 3]) -> (r: Option<[Fix; 2]>)
    ensures
        r is Some <==> v@[2]@ != 0,
        r matches Some(p) ==> p@[0]@ == fdiv(v@[0]@, v@[2]@) && p@[1]@ == fdiv(v@[1]@, v@[2]@),
{
    if v[2].is_zero() {
        return None;
    }
    Some([v[0].div(v[2]), v[1].div(v[2])])
}

/// The vector scaled by the reciprocal of its length.
pub fn normalize(p: &[Fix; 2]) -> (r: [Fix; 2])
    ensures
        forall|i: int|
            0 <= i < 2 ==> r@[i]@ == fmul(p@[i]@, fdiv(SCALE as int, fsqrt(sq_len2(p@)))),
{
    let invl = Fix::one().div(p[0].mul(p[0]).add(p[1].mul(p[1])).sqrt());
    Vec2::scale(p, invl)
}

/// The component of `v` orthogonal to `u`.
pub fn orthogonalize(u: &[Fix; 2], v: &[Fix; 2]) -> (r: [Fix; 2])
    ensures
        forall|i: int|
            0 <= i < 2 ==> r@[i]@ == fsub(
                v@[i]@,
                fmul(u@[i]@, fdiv(dot2(u@, v@), dot2(u@, u@))),
            ),
{
    let t = Vec2::dot(u, v).div(Vec2::dot(u, u));
    Vec2::sub(v, &Vec2::scale(u, t))
}

/// `alpha * x + y`, component-wise and saturating.
pub fn axpy(alpha: Fix, x: &[Fix; 2], y: &[Fix; 2]) -> (r: [Fix; 2])
    ensures
        forall|i: int| 0 <= i < 2 ==> r@[i]@ == fadd(fmul(x@[i]@, alpha@), y@[i]@),
{
    Vec2::add(&Vec2::scale(x, alpha), y)
}

/// A borrowed 2D point.
#[derive(Debug, Clone, Copy)]
pub struct XY<'a> {
    pub p: &'a [Fix; 2],
}

impl XY<'_> {
    /// The degenerate bounding box holding just this point.
    pub fn aabb(&self) -> (r: [Fix; 4])
        ensures
            r@[0] == self.p@[0] && r@[1] == self.p@[1] && r@[2] == self.p@[0] && r@[3]
                == self.p@[1],
    {
        [self.p[0], self.p[1], self.p[0], self.p[1]]
    }
}

/// The angle from `a` to `b`, in radians in `(-pi, pi]`: the arc tangent of
/// the spanned area over the dot product.
pub fn angle_between_two_vecs(a: &[Fix; 2], b: &[Fix; 2]) -> (r: Fix)
    ensures
        r@ == crate::trig::atan2_spec(area2(a@, b@), dot2(a@, b@)),
{
    let d = dot(a, b);
    let area = area_quadrilateral(a, b);
    crate::trig::atan2(area, d)
}

/// The angle from `u` to `v` together with its gradients with respect to
/// the two vectors.
pub fn wdw_angle_between_two_vecs(u: &[Fix; 2], v: &[Fix; 2]) -> (r: (Fix, [[Fix; 2]; 2]))
    ensures
        ({
            let a = dot2(u@, v@);
            let b = area2(u@, v@);
            let tmp0 = fdiv(SCALE as int, fadd(fmul(a, a), fmul(b, b)));
            let dw_da = -fmul(b, tmp0);
            let dw_db = fmul(a, tmp0);
            &&& r.0@ == crate::trig::atan2_spec(b, a)
            &&& r.1@[0]@[0]@ == fadd(fmul(dw_da, v@[0]@), fmul(dw_db, v@[1]@))
            &&& r.1@[0]@[1]@ == fsub(fmul(dw_da, v@[1]@), fmul(dw_db, v@[0]@))
            &&& r.1@[1]@[0]@ == fsub(fmul(dw_da, u@[0]@), fmul(dw_db, u@[1]@))
            &&& r.1@[1]@[1]@ == fadd(fmul(dw_da, u@[1]@), fmul(dw_db, u@[0]@))
        }),
{
    let a = dot(u, v);
    let b = area_quadrilateral(u, v);
    let w = crate::trig::atan2(b, a);
    let tmp0 = Fix::one().div(a.mul(a).add(b.mul(b)));
    let dw_da = b.mul(tmp0).neg();
    let dw_db = a.mul(tmp0);
    let dw_du = [dw_da.mul(v[0]).add(dw_db.mul(v[1])), dw_da.mul(v[1]).sub(dw_db.mul(v[0]))];
    let dw_dv = [dw_da.mul(u[0]).sub(dw_db.mul(u[1])), dw_da.mul(u[1]).add(dw_db.mul(u[0]))];
    (w, [dw_du, dw_dv])
}

/// The point rotated by `theta` radians.
pub fn rotate(p: &[Fix; 2], theta: Fix) -> (r: [Fix; 2])
    ensures
        ({
            let sc = crate::trig::sin_cos_spec(theta@);
            &&& r@[0]@ == fsub(fmul(sc.1, p@[0]@), fmul(sc.0, p@[1]@))
            &&& r@[1]@ == fadd(fmul(sc.0, p@[0]@), fmul(sc.1, p@[1]@))
        }),
{
    let (s, c) = crate::trig::sin_cos(theta);
    [c.mul(p[0]).sub(s.mul(p[1])), s.mul(p[0]).add(c.mul(p[1]))]
}

} // verus!
