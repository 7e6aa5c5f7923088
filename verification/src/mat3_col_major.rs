//! Methods for a 3x3 matrix stored in column major order: entry `(r, c)` of
//! the matrix lives at index `c * 3 + r`.

use crate::fx::{fadd, fdiv, fmul, fsqrt, fsub, mag, raws, sat, Fix, SCALE};
use vstd::prelude::*;

verus! {

/// Raw entry `(r, c)` of a column-major matrix.
pub open spec fn at_col(m: Seq<Fix>, r: int, c: int) -> int {
    m[c * 3 + r]@
}

/// Raw value of entry `(r, c)` of the product of two column-major matrices.
pub open spec fn mul_col(a: Seq<Fix>, b: Seq<Fix>, r: int, c: int) -> int {
    fadd(
        fadd(fmul(at_col(a, r, 0), at_col(b, 0, c)), fmul(at_col(a, r, 1), at_col(b, 1, c))),
        fmul(at_col(a, r, 2), at_col(b, 2, c)),
    )
}

/// Raw value of the saturating determinant of a column-major matrix.
pub open spec fn det_col(b: Seq<Fix>) -> int {
    fsub(
        fsub(
            fsub(
                fadd(
                    fadd(
                        fmul(fmul(b[0]@, b[4]@), b[8]@),
                        fmul(fmul(b[3]@, b[7]@), b[2]@),
                    ),
                    fmul(fmul(b[6]@, b[1]@), b[5]@),
                ),
                fmul(fmul(b[0]@, b[7]@), b[5]@),
            ),
            fmul(fmul(b[6]@, b[4]@), b[2]@),
        ),
        fmul(fmul(b[3]@, b[1]@), b[8]@),
    )
}

/// Trait for 3x3 column-major matrices.
pub trait Mat3ColMajor: Sized + View<V = Seq<Fix>> {
    /// The matrix with the given diagonal and zero elsewhere.
    fn from_diagonal(diagonal: &[Fix; 3]) -> (r: Self)
        ensures
            r@.len() == 9,
            forall|i: int|
                0 <= i < 9 ==> r@[i]@ == if i == 0 {
                    diagonal@[0]@
                } else if i == 4 {
                    diagonal@[1]@
                } else if i == 8 {
                    diagonal@[2]@
                } else {
                    0
                },
    ;

    /// The identity matrix.
    fn from_identity() -> (r: Self)
        ensures
            r@.len() == 9,
            forall|i: int|
                0 <= i < 9 ==> r@[i]@ == if i == 0 || i == 4 || i == 8 {
                    SCALE as int
                } else {
                    0
                },
    ;

    /// Entry-wise saturating sum.
    fn add(&self, b: &Self) -> (r: Self)
        ensures
            r@.len() == 9,
            forall|i: int| 0 <= i < 9 ==> r@[i]@ == fadd(self@[i]@, b@[i]@),
    ;

    /// Entry-wise saturating difference.
    fn sub(&self, b: &Self) -> (r: Self)
        ensures
            r@.len() == 9,
            forall|i: int| 0 <= i < 9 ==> r@[i]@ == fsub(self@[i]@, b@[i]@),
    ;

    /// Entry-wise saturating product with a scalar.
    fn scale(&self, s: Fix) -> (r: Self)
        ensures
            r@.len() == 9,
            forall|i: int| 0 <= i < 9 ==> r@[i]@ == fmul(self@[i]@, s@),
    ;

    /// The saturating determinant.
    fn determinant(&self) -> (r: Fix)
        ensures
            r@ == det_col(self@),
    ;

    /// The inverse by the adjugate formula, or `None` when the determinant
    /// is exactly zero.
    fn try_inverse(&self) -> (r: Option<Self>)
        ensures
            r is Some <==> det_col(self@) != 0,
            r matches Some(inv) ==> inv@.len() == 9 && inverse_entries(self@, inv@),
    ;

    /// The transpose.
    fn transpose(&self) -> (r: Self)
        ensures
            r@.len() == 9,
            forall|rr: int, cc: int|
                0 <= rr < 3 && 0 <= cc < 3 ==> at_col(r@, rr, cc) == at_col(self@, cc, rr),
    ;

    /// The matrix product.
    fn mult_mat_col_major(&self, other: &Self) -> (r: Self)
        ensures
            r@.len() == 9,
            forall|rr: int, cc: int|
                0 <= rr < 3 && 0 <= cc < 3 ==> at_col(r@, rr, cc) == mul_col(self@, other@, rr, cc),
    ;

    /// The product with a 3-vector.
    fn mult_vec(&self, vec: &[Fix; 3]) -> (r: [Fix; 3])
        ensures
            forall|rr: int|
                0 <= rr < 3 ==> r@[rr]@ == fadd(
                    fadd(
                        fmul(at_col(self@, rr, 0), vec@[0]@),
                        fmul(at_col(self@, rr, 1), vec@[1]@),
                    ),
                    fmul(at_col(self@, rr, 2), vec@[2]@),
                ),
    ;

    /// The image of a 2D point under the homogeneous transformation, or
    /// `None` when the image's last coordinate is zero.
    fn transform_homogeneous(&self, x: &[Fix; 2]) -> (r: Option<[Fix; 2]>)
        ensures
            r is Some <==> fadd(fadd(fmul(self@[2]@, x@[0]@), fmul(self@[5]@, x@[1]@)), self@[8]@)
                != 0,
            r matches Some(y) ==> {
                let y2 = fadd(fadd(fmul(self@[2]@, x@[0]@), fmul(self@[5]@, x@[1]@)), self@[8]@);
                &&& y@[0]@ == fdiv(
                    fadd(fadd(fmul(self@[0]@, x@[0]@), fmul(self@[3]@, x@[1]@)), self@[6]@),
                    y2,
                )
                &&& y@[1]@ == fdiv(
                    fadd(fadd(fmul(self@[1]@, x@[0]@), fmul(self@[4]@, x@[1]@)), self@[7]@),
                    y2,
                )
            },
    ;

    /// The saturating squared Frobenius norm.
    fn squared_norm(&self) -> (r: Fix)
        ensures
            r@ == crate::mat3_row_major::sq_norm9(self@),
    ;

    /// The fixed-point Frobenius norm.
    fn norm(&self) -> (r: Fix)
        ensures
            r@ == crate::fx::fsqrt(crate::mat3_row_major::sq_norm9(self@)),
    ;
}

/// The adjugate-formula entries of the inverse: each entry of `inv` is the
/// matching cofactor scaled by the reciprocal of the determinant.
pub open spec fn inverse_entries(b: Seq<Fix>, inv: Seq<Fix>) -> bool {
    let id = fdiv(SCALE as int, det_col(b));
    &&& inv[0]@ == fmul(id, fsub(fmul(b[4]@, b[8]@), fmul(b[5]@, b[7]@)))
    &&& inv[1]@ == fmul(id, fsub(fmul(b[2]@, b[7]@), fmul(b[1]@, b[8]@)))
    &&& inv[2]@ == fmul(id, fsub(fmul(b[1]@, b[5]@), fmul(b[2]@, b[4]@)))
    &&& inv[3]@ == fmul(id, fsub(fmul(b[5]@, b[6]@), fmul(b[3]@, b[8]@)))
    &&& inv[4]@ == fmul(id, fsub(fmul(b[0]@, b[8]@), fmul(b[2]@, b[6]@)))
    &&& inv[5]@ == fmul(id, fsub(fmul(b[2]@, b[3]@), fmul(b[0]@, b[5]@)))
    &&& inv[6]@ == fmul(id, fsub(fmul(b[3]@, b[7]@), fmul(b[4]@, b[6]@)))
    &&& inv[7]@ == fmul(id, fsub(fmul(b[1]@, b[6]@), fmul(b[0]@, b[7]@)))
    &&& inv[8]@ == fmul(id, fsub(fmul(b[0]@, b[4]@), fmul(b[1]@, b[3]@)))
}

impl Mat3ColMajor for [Fix; 9] {
    fn from_diagonal(diagonal: &[Fix; 3]) -> (r: Self) {
        from_diagonal(diagonal)
    }

    fn from_identity() -> (r: Self) {
        from_identity()
    }

    fn add(&self, b: &Self) -> (r: Self) {
        crate::mat3_col_major::add(self, b)
    }

    fn sub(&self, b: &Self) -> (r: Self) {
        crate::mat3_col_major::sub(self, b)
    }

    fn scale(&self, s: Fix) -> (r: Self) {
        scale(self, s)
    }

    fn determinant(&self) -> (r: Fix) {
        determinant(self)
    }

    fn try_inverse(&self) -> (r: Option<Self>) {
        try_inverse(self)
    }

    fn transpose(&self) -> (r: Self) {
        transpose(self)
    }

    fn mult_mat_col_major(&self, other: &Self) -> (r: Self) {
        mult_mat_col_major(self, other)
    }

    fn mult_vec(&self, vec: &[Fix; 3]) -> (r: [Fix; 3]) {
        mult_vec(self, vec)
    }

    fn transform_homogeneous(&self, x: &[Fix; 2]) -> (r: Option<[Fix; 2]>) {
        transform_homogeneous(self, x)
    }

    fn squared_norm(&self) -> (r: Fix) {
        crate::mat3_row_major::squared_norm(self)
    }

    fn norm(&self) -> (r: Fix) {
        crate::mat3_row_major::norm(self)
    }
}

/// The matrix with diagonal `s` and zero elsewhere.
pub fn from_diagonal(s: &[Fix; 3]) -> (r: [Fix; 9])
    ensures
        forall|i: int|
            0 <= i < 9 ==> r@[i]@ == if i == 0 {
                s@[0]@
            } else if i == 4 {
                s@[1]@
            } else if i == 8 {
                s@[2]@
            } else {
                0
            },
{
    let zero = Fix::zero();
    [s[0], zero, zero, zero, s[1], zero, zero, zero, s[2]]
}

/// The matrix with the given columns.
pub fn from_columns(x: &[Fix; 3], y: &[Fix; 3], z: &[Fix; 3]) -> (r: [Fix; 9])
    ensures
        forall|i: int| 0 <= i < 3 ==> r@[i]@ == x@[i]@,
        forall|i: int| 0 <= i < 3 ==> r@[3 + i]@ == y@[i]@,
        forall|i: int| 0 <= i < 3 ==> r@[6 + i]@ == z@[i]@,
{
    [x[0], x[1], x[2], y[0], y[1], y[2], z[0], z[1], z[2]]
}

/// The three columns of a matrix.
pub fn to_columns(a: &[Fix; 9]) -> (r: ([Fix; 3], [Fix; 3], [Fix; 3]))
    ensures
        forall|i: int| 0 <= i < 3 ==> r.0@[i]@ == a@[i]@,
        forall|i: int| 0 <= i < 3 ==> r.1@[i]@ == a@[3 + i]@,
        forall|i: int| 0 <= i < 3 ==> r.2@[i]@ == a@[6 + i]@,
{
    ([a[0], a[1], a[2]], [a[3], a[4], a[5]], [a[6], a[7], a[8]])
}

/// The identity matrix.
pub fn from_identity() -> (r: [Fix; 9])
    ensures
        forall|i: int|
            0 <= i < 9 ==> r@[i]@ == if i == 0 || i == 4 || i == 8 {
                SCALE as int
            } else {
                0
            },
{
    let zero = Fix::zero();
    let one = Fix::one();
    [one, zero, zero, zero, one, zero, zero, zero, one]
}

/// The homogeneous 2D translation by `v`.
pub fn from_translate(v: &[Fix; 2]) -> (r: [Fix; 9])
    ensures
        forall|i: int|
            0 <= i < 9 ==> r@[i]@ == if i == 0 || i == 4 || i == 8 {
                SCALE as int
            } else if i == 6 {
                v@[0]@
            } else if i == 7 {
                v@[1]@
            } else {
                0
            },
{
    let zero = Fix::zero();
    let one = Fix::one();
    [one, zero, zero, zero, one, zero, v[0], v[1], one]
}

/// The outer product of `a` and `b`, scaled by `s`.
pub fn from_scaled_outer_product(s: Fix, a: &[Fix; 3], b: &[Fix; 3]) -> (r: [Fix; 9])
    ensures
        forall|rr: int, cc: int|
            0 <= rr < 3 && 0 <= cc < 3 ==> at_col(r@, rr, cc) == fmul(fmul(s@, a@[rr]@), b@[cc]@),
{
    [
        s.mul(a[0]).mul(b[0]),
        s.mul(a[1]).mul(b[0]),
        s.mul(a[2]).mul(b[0]),
        s.mul(a[0]).mul(b[1]),
        s.mul(a[1]).mul(b[1]),
        s.mul(a[2]).mul(b[1]),
        s.mul(a[0]).mul(b[2]),
        s.mul(a[1]).mul(b[2]),
        s.mul(a[2]).mul(b[2]),
    ]
}

/// Adds the outer product of `a` and `b`, scaled by `s`, into `m`.
pub fn add_in_place_scaled_outer_product(m: &mut [Fix; 9], s: Fix, a: &[Fix; 3], b: &[Fix; 3])
    ensures
        forall|rr: int, cc: int|
            0 <= rr < 3 && 0 <= cc < 3 ==> at_col(final (m)@, rr, cc) == fadd(
                at_col(old(m)@, rr, cc),
                fmul(fmul(s@, a@[rr]@), b@[cc]@),
            ),
{
    let p = from_scaled_outer_product(s, a, b);
    let r = crate::mat3_col_major::add(m, &p);
    *m = r;
    proof {
        assert forall|rr: int, cc: int| 0 <= rr < 3 && 0 <= cc < 3 implies at_col(m@, rr, cc)
            == fadd(at_col(old(m)@, rr, cc), fmul(fmul(s@, a@[rr]@), b@[cc]@)) by {
            assert(at_col(p@, rr, cc) == fmul(fmul(s@, a@[rr]@), b@[cc]@));
            assert(m@[cc * 3 + rr]@ == fadd(old(m)@[cc * 3 + rr]@, p@[cc * 3 + rr]@));
        }
    }
}

/// The skew-symmetric matrix of the cross product with `v`.
pub fn from_vec3_to_skew_mat(v: &[Fix; 3]) -> (r: [Fix; 9])
    ensures
        r@[0]@ == 0 && r@[4]@ == 0 && r@[8]@ == 0,
        r@[1]@ == v@[2]@ && r@[2]@ == -v@[1]@,
        r@[3]@ == -v@[2]@ && r@[5]@ == v@[0]@,
        r@[6]@ == v@[1]@ && r@[7]@ == -v@[0]@,
{
    let zero = Fix::zero();
    [zero, v[2], v[1].neg(), v[2].neg(), zero, v[0], v[1], v[0].neg(), zero]
}

/// The 3-vector dual to the skew-symmetric part of a matrix: component `i`
/// is half the difference of the two entries dual to axis `i`.
pub fn to_vec3_from_skew_mat(m: &[Fix; 9]) -> (r: [Fix; 3])
    ensures
        r@[0]@ == fmul(fsub(m@[5]@, m@[7]@), (SCALE as int) / 2),
        r@[1]@ == fmul(fsub(m@[6]@, m@[2]@), (SCALE as int) / 2),
        r@[2]@ == fmul(fsub(m@[1]@, m@[3]@), (SCALE as int) / 2),
{
    let half = Fix::half();
    [m[5].sub(m[7]).mul(half), m[6].sub(m[2]).mul(half), m[1].sub(m[3]).mul(half)]
}

/// Entry-wise saturating sum.
pub fn add(a: &[Fix; 9], b: &[Fix; 9]) -> (r: [Fix; 9])
    ensures
        forall|i: int| 0 <= i < 9 ==> r@[i]@ == fadd(a@[i]@, b@[i]@),
{
    [
        a[0].add(b[0]),
        a[1].add(b[1]),
        a[2].add(b[2]),
        a[3].add(b[3]),
        a[4].add(b[4]),
        a[5].add(b[5]),
        a[6].add(b[6]),
        a[7].add(b[7]),
        a[8].add(b[8]),
    ]
}

/// Entry-wise saturating difference.
pub fn sub(a: &[Fix; 9], b: &[Fix; 9]) -> (r: [Fix; 9])
    ensures
        forall|i: int| 0 <= i < 9 ==> r@[i]@ == fsub(a@[i]@, b@[i]@),
{
    [
        a[0].sub(b[0]),
        a[1].sub(b[1]),
        a[2].sub(b[2]),
        a[3].sub(b[3]),
        a[4].sub(b[4]),
        a[5].sub(b[5]),
        a[6].sub(b[6]),
        a[7].sub(b[7]),
        a[8].sub(b[8]),
    ]
}

/// Entry-wise saturating sum of three matrices.
pub fn add_three(a: &[Fix; 9], b: &[Fix; 9], c: &[Fix; 9]) -> (r: [Fix; 9])
    ensures
        forall|i: int| 0 <= i < 9 ==> r@[i]@ == fadd(fadd(a@[i]@, b@[i]@), c@[i]@),
{
    [
        a[0].add(b[0]).add(c[0]),
        a[1].add(b[1]).add(c[1]),
        a[2].add(b[2]).add(c[2]),
        a[3].add(b[3]).add(c[3]),
        a[4].add(b[4]).add(c[4]),
        a[5].add(b[5]).add(c[5]),
        a[6].add(b[6]).add(c[6]),
        a[7].add(b[7]).add(c[7]),
        a[8].add(b[8]).add(c[8]),
    ]
}

/// Entry-wise saturating product with a scalar.
pub fn scale(m: &[Fix; 9], s: Fix) -> (r: [Fix; 9])
    ensures
        forall|i: int| 0 <= i < 9 ==> r@[i]@ == fmul(m@[i]@, s@),
{
    [
        m[0].mul(s),
        m[1].mul(s),
        m[2].mul(s),
        m[3].mul(s),
        m[4].mul(s),
        m[5].mul(s),
        m[6].mul(s),
        m[7].mul(s),
        m[8].mul(s),
    ]
}

/// The saturating determinant.
pub fn determinant(b: &[Fix; 9]) -> (r: Fix)
    ensures
        r@ == det_col(b@),
{
    b[0].mul(b[4]).mul(b[8]).add(b[3].mul(b[7]).mul(b[2])).add(b[6].mul(b[1]).mul(b[5])).sub(
        b[0].mul(b[7]).mul(b[5]),
    ).sub(b[6].mul(b[4]).mul(b[2])).sub(b[3].mul(b[1]).mul(b[8]))
}

/// The inverse by the adjugate formula, or `None` when the determinant is
/// exactly zero.
pub fn try_inverse(b: &[Fix; 9]) -> (r: Option<[Fix; 9]>)
    ensures
        r is Some <==> det_col(b@) != 0,
        r matches Some(inv) ==> inverse_entries(b@, inv@),
{
    let det = determinant(b);
    if det.is_zero() {
        return None;
    }
    let inv_det = Fix::one().div(det);
    Some(
        [
            inv_det.mul(b[4].mul(b[8]).sub(b[5].mul(b[7]))),
            inv_det.mul(b[2].mul(b[7]).sub(b[1].mul(b[8]))),
            inv_det.mul(b[1].mul(b[5]).sub(b[2].mul(b[4]))),
            inv_det.mul(b[5].mul(b[6]).sub(b[3].mul(b[8]))),
            inv_det.mul(b[0].mul(b[8]).sub(b[2].mul(b[6]))),
            inv_det.mul(b[2].mul(b[3]).sub(b[0].mul(b[5]))),
            inv_det.mul(b[3].mul(b[7]).sub(b[4].mul(b[6]))),
            inv_det.mul(b[1].mul(b[6]).sub(b[0].mul(b[7]))),
            inv_det.mul(b[0].mul(b[4]).sub(b[1].mul(b[3]))),
        ],
    )
}

/// The image of a 2D point under the homogeneous transformation.
pub fn transform_homogeneous(transform: &[Fix; 9], x: &[Fix; 2]) -> (r: Option<[Fix; 2]>)
    ensures
        r is Some <==> fadd(
            fadd(fmul(transform@[2]@, x@[0]@), fmul(transform@[5]@, x@[1]@)),
            transform@[8]@,
        ) != 0,
        r matches Some(y) ==> {
            let y2 = fadd(
                fadd(fmul(transform@[2]@, x@[0]@), fmul(transform@[5]@, x@[1]@)),
                transform@[8]@,
            );
            &&& y@[0]@ == fdiv(
                fadd(
                    fadd(fmul(transform@[0]@, x@[0]@), fmul(transform@[3]@, x@[1]@)),
                    transform@[6]@,
                ),
                y2,
            )
            &&& y@[1]@ == fdiv(
                fadd(
                    fadd(fmul(transform@[1]@, x@[0]@), fmul(transform@[4]@, x@[1]@)),
                    transform@[7]@,
                ),
                y2,
            )
        },
{
    let y2 = transform[2].mul(x[0]).add(transform[5].mul(x[1])).add(transform[8]);
    if y2.is_zero() {
        return None;
    }
    let y0 = transform[0].mul(x[0]).add(transform[3].mul(x[1])).add(transform[6]);
    let y1 = transform[1].mul(x[0]).add(transform[4].mul(x[1])).add(transform[7]);
    Some([y0.div(y2), y1.div(y2)])
}

/// The image of a 2D direction: the linear part of the transformation
/// applied without the translation or the projective division.
pub fn transform_direction(transform: &[Fix; 9], x: &[Fix; 2]) -> (r: [Fix; 2])
    ensures
        r@[0]@ == fadd(
            fadd(fmul(transform@[0]@, x@[0]@), fmul(transform@[3]@, x@[1]@)),
            transform@[6]@,
        ),
        r@[1]@ == fadd(
            fadd(fmul(transform@[1]@, x@[0]@), fmul(transform@[4]@, x@[1]@)),
            transform@[7]@,
        ),
{
    [
        transform[0].mul(x[0]).add(transform[3].mul(x[1])).add(transform[6]),
        transform[1].mul(x[0]).add(transform[4].mul(x[1])).add(transform[7]),
    ]
}

/// The product with a 3-vector.
pub fn mult_vec(a: &[Fix; 9], b: &[Fix; 3]) -> (r: [Fix; 3])
    ensures
        forall|rr: int|
            0 <= rr < 3 ==> r@[rr]@ == fadd(
                fadd(fmul(at_col(a@, rr, 0), b@[0]@), fmul(at_col(a@, rr, 1), b@[1]@)),
                fmul(at_col(a@, rr, 2), b@[2]@),
            ),
{
    [
        a[0].mul(b[0]).add(a[3].mul(b[1])).add(a[6].mul(b[2])),
        a[1].mul(b[0]).add(a[4].mul(b[1])).add(a[7].mul(b[2])),
        a[2].mul(b[0]).add(a[5].mul(b[1])).add(a[8].mul(b[2])),
    ]
}

/// The transpose.
pub fn transpose(m: &[Fix; 9]) -> (r: [Fix; 9])
    ensures
        forall|rr: int, cc: int|
            0 <= rr < 3 && 0 <= cc < 3 ==> at_col(r@, rr, cc) == at_col(m@, cc, rr),
{
    [m[0], m[3], m[6], m[1], m[4], m[7], m[2], m[5], m[8]]
}

/// The product of two column-major matrices.
pub fn mult_mat_col_major(a: &[Fix; 9], b: &[Fix; 9]) -> (r: [Fix; 9])
    ensures
        forall|rr: int, cc: int|
            0 <= rr < 3 && 0 <= cc < 3 ==> at_col(r@, rr, cc) == mul_col(a@, b@, rr, cc),
{
    [
        a[0].mul(b[0]).add(a[3].mul(b[1])).add(a[6].mul(b[2])),
        a[1].mul(b[0]).add(a[4].mul(b[1])).add(a[7].mul(b[2])),
        a[2].mul(b[0]).add(a[5].mul(b[1])).add(a[8].mul(b[2])),
        a[0].mul(b[3]).add(a[3].mul(b[4])).add(a[6].mul(b[5])),
        a[1].mul(b[3]).add(a[4].mul(b[4])).add(a[7].mul(b[5])),
        a[2].mul(b[3]).add(a[5].mul(b[4])).add(a[8].mul(b[5])),
        a[0].mul(b[6]).add(a[3].mul(b[7])).add(a[6].mul(b[8])),
        a[1].mul(b[6]).add(a[4].mul(b[7])).add(a[7].mul(b[8])),
        a[2].mul(b[6]).add(a[5].mul(b[7])).add(a[8].mul(b[8])),
    ]
}

/// The product of this column-major matrix with a second operand whose
/// storage is read row major; equivalently, the product `a * (b transposed)`
/// of two column-major matrices.
pub fn mult_mat_row_major(a: &[Fix; 9], b: &[Fix; 9]) -> (r: [Fix; 9])
    ensures
        forall|rr: int, cc: int|
            0 <= rr < 3 && 0 <= cc < 3 ==> at_col(r@, rr, cc) == fadd(
                fadd(
                    fmul(at_col(a@, rr, 0), at_col(b@, cc, 0)),
                    fmul(at_col(a@, rr, 1), at_col(b@, cc, 1)),
                ),
                fmul(at_col(a@, rr, 2), at_col(b@, cc, 2)),
            ),
{
    [
        a[0].mul(b[0]).add(a[3].mul(b[3])).add(a[6].mul(b[6])),
        a[1].mul(b[0]).add(a[4].mul(b[3])).add(a[7].mul(b[6])),
        a[2].mul(b[0]).add(a[5].mul(b[3])).add(a[8].mul(b[6])),
        a[0].mul(b[1]).add(a[3].mul(b[4])).add(a[6].mul(b[7])),
        a[1].mul(b[1]).add(a[4].mul(b[4])).add(a[7].mul(b[7])),
        a[2].mul(b[1]).add(a[5].mul(b[4])).add(a[8].mul(b[7])),
        a[0].mul(b[2]).add(a[3].mul(b[5])).add(a[6].mul(b[8])),
        a[1].mul(b[2]).add(a[4].mul(b[5])).add(a[7].mul(b[8])),
        a[2].mul(b[2]).add(a[5].mul(b[5])).add(a[8].mul(b[8])),
    ]
}

/// Raw value of the saturating determinant over raw entries.
pub open spec fn det_col_raw(b: Seq<int>) -> int {
    fsub(
        fsub(
            fsub(
                fadd(
                    fadd(fmul(fmul(b[0], b[4]), b[8]), fmul(fmul(b[3], b[7]), b[2])),
                    fmul(fmul(b[6], b[1]), b[5]),
                ),
                fmul(fmul(b[0], b[7]), b[5]),
            ),
            fmul(fmul(b[6], b[4]), b[2]),
        ),
        fmul(fmul(b[3], b[1]), b[8]),
    )
}

/// The nine raw entries of a transposed column-major matrix.
pub open spec fn tr9_raw(m: Seq<int>) -> Seq<int> {
    seq![m[0], m[3], m[6], m[1], m[4], m[7], m[2], m[5], m[8]]
}

/// The transposed sequence of entries of a column-major matrix.
pub open spec fn tr9(m: Seq<Fix>) -> Seq<Fix> {
    seq![m[0], m[3], m[6], m[1], m[4], m[7], m[2], m[5], m[8]]
}

/// Raw entry `(r, c)` of the product of two column-major matrices given by
/// their raw entries.
pub open spec fn mul_col_raw(a: Seq<int>, b: Seq<int>, r: int, c: int) -> int {
    fadd(
        fadd(fmul(a[r], b[c * 3]), fmul(a[3 + r], b[c * 3 + 1])),
        fmul(a[6 + r], b[c * 3 + 2]),
    )
}

/// The raw entries of the product of two column-major matrices.
pub open spec fn mat9_raw(a: Seq<int>, b: Seq<int>) -> Seq<int> {
    Seq::new(9, |i: int| mul_col_raw(a, b, i % 3, i / 3))
}

/// Negating a raw value is exact.
proof fn lemma_fmul_neg(a: int, b: int)
    ensures
        fmul(-a, b) == -fmul(a, b),
        fmul(a, -b) == -fmul(a, b),
{
    reveal(fmul);
    assert((-a) * b == -(a * b) && a * (-b) == -(a * b)) by (nonlinear_arith);
}

/// Negation passes through the saturating sum and difference.
proof fn lemma_fadd_fsub_neg(a: int, b: int)
    ensures
        fadd(-a, -b) == -fadd(a, b),
        fsub(-a, -b) == -fsub(a, b),
{
    reveal(fadd);
    reveal(fsub);
}

/// The raw entries of a matrix whose third column is negated.
pub open spec fn flip_third_col(v: Seq<int>) -> Seq<int> {
    seq![v[0], v[1], v[2], v[3], v[4], v[5], -v[6], -v[7], -v[8]]
}

/// The raw entries of a singular value triple whose third value is negated.
pub open spec fn flip_third_sv(l: Seq<int>) -> Seq<int> {
    seq![l[0], l[1], -l[2]]
}

/// Negating the third column negates the saturating determinant: each of
/// the six determinant terms holds exactly one factor from that column.
pub proof fn lemma_flip_third_col_det(v: Seq<int>)
    requires
        v.len() == 9,
    ensures
        det_col_raw(flip_third_col(v)) == -det_col_raw(v),
{
    let f = flip_third_col(v);
    lemma_fmul_neg(fmul(v[0], v[4]), v[8]);
    lemma_fmul_neg(v[3], v[7]);
    lemma_fmul_neg(fmul(v[3], v[7]), v[2]);
    lemma_fmul_neg(v[6], v[1]);
    lemma_fmul_neg(fmul(v[6], v[1]), v[5]);
    lemma_fmul_neg(v[0], v[7]);
    lemma_fmul_neg(fmul(v[0], v[7]), v[5]);
    lemma_fmul_neg(v[6], v[4]);
    lemma_fmul_neg(fmul(v[6], v[4]), v[2]);
    lemma_fmul_neg(fmul(v[3], v[1]), v[8]);
    lemma_fadd_fsub_neg(fmul(fmul(v[0], v[4]), v[8]), fmul(fmul(v[3], v[7]), v[2]));
    let t12 = fadd(fmul(fmul(v[0], v[4]), v[8]), fmul(fmul(v[3], v[7]), v[2]));
    lemma_fadd_fsub_neg(t12, fmul(fmul(v[6], v[1]), v[5]));
    let t123 = fadd(t12, fmul(fmul(v[6], v[1]), v[5]));
    lemma_fadd_fsub_neg(t123, fmul(fmul(v[0], v[7]), v[5]));
    let t4 = fsub(t123, fmul(fmul(v[0], v[7]), v[5]));
    lemma_fadd_fsub_neg(t4, fmul(fmul(v[6], v[4]), v[2]));
    let t5 = fsub(t4, fmul(fmul(v[6], v[4]), v[2]));
    lemma_fadd_fsub_neg(t5, fmul(fmul(v[3], v[1]), v[8]));
}

/// What the rotation projector returns: whichever factor has a negative
/// determinant gets its third column negated, and each such flip also
/// negates the third singular value.
pub open spec fn enforce_rotation_spec(u: Seq<int>, l: Seq<int>, v: Seq<int>) -> (
    Seq<int>,
    Seq<int>,
    Seq<int>,
) {
    let v1 = if det_col_raw(v) < 0 {
        flip_third_col(v)
    } else {
        v
    };
    let l1 = if det_col_raw(v) < 0 {
        flip_third_sv(l)
    } else {
        l
    };
    let u1 = if det_col_raw(u) < 0 {
        flip_third_col(u)
    } else {
        u
    };
    let l2 = if det_col_raw(u) < 0 {
        flip_third_sv(l1)
    } else {
        l1
    };
    (u1, l2, v1)
}

/// Raw value of entry `(r, c)` of the reconstruction `u * diag(l) * v
/// transposed`, in exact integer arithmetic over the raw entries (no
/// truncation): the mathematical content of the triple.
pub open spec fn recon_entry(u: Seq<int>, l: Seq<int>, v: Seq<int>, r: int, c: int) -> int {
    u[r] * l[0] * v[c] + u[3 + r] * l[1] * v[3 + c] + u[6 + r] * l[2] * v[6 + c]
}

/// The rotation projector preserves the exact reconstruction: for every
/// entry, `u' * diag(l') * v' transposed` equals `u * diag(l) * v
/// transposed` in exact integer arithmetic, because each sign flip of a
/// third column is paired with a sign flip of the third singular value.
pub proof fn lemma_enforce_rotation_preserves_reconstruction(
    u: Seq<int>,
    l: Seq<int>,
    v: Seq<int>,
    r: int,
    c: int,
)
    requires
        u.len() == 9,
        l.len() == 3,
        v.len() == 9,
        0 <= r < 3,
        0 <= c < 3,
    ensures
        ({
            let (u1, l1, v1) = enforce_rotation_spec(u, l, v);
            recon_entry(u1, l1, v1, r, c) == recon_entry(u, l, v, r, c)
        }),
{
    let (u1, l1, v1) = enforce_rotation_spec(u, l, v);
    let a = u[6 + r];
    let b = l[2];
    let e = v[6 + c];
    if det_col_raw(v) < 0 && det_col_raw(u) < 0 {
        assert((-a) * b * (-e) == a * b * e) by (nonlinear_arith);
    } else if det_col_raw(v) < 0 {
        assert(a * (-b) * (-e) == a * b * e) by (nonlinear_arith);
    } else if det_col_raw(u) < 0 {
        assert((-a) * (-b) * e == a * b * e) by (nonlinear_arith);
    }
}

/// A triple whose factors are already proper rotations is left untouched.
pub proof fn lemma_enforce_rotation_noop_on_proper(u: Seq<int>, l: Seq<int>, v: Seq<int>)
    requires
        det_col_raw(u) >= 0,
        det_col_raw(v) >= 0,
    ensures
        enforce_rotation_spec(u, l, v) == (u, l, v),
{
}

/// Applying the rotation projector twice gives what one application gives.
pub proof fn lemma_enforce_rotation_idempotent(u: Seq<int>, l: Seq<int>, v: Seq<int>)
    requires
        u.len() == 9,
        l.len() == 3,
        v.len() == 9,
    ensures
        ({
            let (u1, l1, v1) = enforce_rotation_spec(u, l, v);
            enforce_rotation_spec(u1, l1, v1) == (u1, l1, v1)
        }),
{
    let (u1, l1, v1) = enforce_rotation_spec(u, l, v);
    if det_col_raw(v) < 0 {
        lemma_flip_third_col_det(v);
    }
    if det_col_raw(u) < 0 {
        lemma_flip_third_col_det(u);
    }
    lemma_enforce_rotation_noop_on_proper(u1, l1, v1);
}

/// The rotation projector: flips the sign of the third column of whichever
/// factor has a negative determinant, negating the third singular value with
/// each flip, so that both factors become proper rotations while the exact
/// reconstruction is preserved (see
/// [`lemma_enforce_rotation_preserves_reconstruction`]).
pub fn enforce_rotation_matrix_for_svd(u: &[Fix; 9], l: &[Fix; 3], v: &[Fix; 9]) -> (r: (
    [Fix; 9],
    [Fix; 3],
    [Fix; 9],
))
    ensures
        raws(r.0@) =~= enforce_rotation_spec(raws(u@), raws(l@), raws(v@)).0,
        raws(r.1@) =~= enforce_rotation_spec(raws(u@), raws(l@), raws(v@)).1,
        raws(r.2@) =~= enforce_rotation_spec(raws(u@), raws(l@), raws(v@)).2,
        det_col(r.0@) >= 0,
        det_col(r.2@) >= 0,
{
    let zero = Fix::zero();
    let det_v_neg = determinant(v).lt(zero);
    let det_u_neg = determinant(u).lt(zero);
    let v1 = if det_v_neg {
        [v[0], v[1], v[2], v[3], v[4], v[5], v[6].neg(), v[7].neg(), v[8].neg()]
    } else {
        *v
    };
    let l1 = if det_v_neg {
        [l[0], l[1], l[2].neg()]
    } else {
        *l
    };
    let u1 = if det_u_neg {
        [u[0], u[1], u[2], u[3], u[4], u[5], u[6].neg(), u[7].neg(), u[8].neg()]
    } else {
        *u
    };
    let l2 = if det_u_neg {
        [l1[0], l1[1], l1[2].neg()]
    } else {
        l1
    };
    proof {
        assert(det_col(v@) == det_col_raw(raws(v@)));
        assert(det_col(u@) == det_col_raw(raws(u@)));
        assert(raws(u1@) =~= enforce_rotation_spec(raws(u@), raws(l@), raws(v@)).0);
        assert(raws(l2@) =~= enforce_rotation_spec(raws(u@), raws(l@), raws(v@)).1);
        assert(raws(v1@) =~= enforce_rotation_spec(raws(u@), raws(l@), raws(v@)).2);
        if det_v_neg {
            lemma_flip_third_col_det(raws(v@));
        }
        if det_u_neg {
            lemma_flip_third_col_det(raws(u@));
        }
        assert(det_col(v1@) == det_col_raw(raws(v1@)));
        assert(det_col(u1@) == det_col_raw(raws(u1@)));
    }
    (u1, l2, v1)
}

/// Singular value decomposition of a column-major matrix: `f = u * diag(s)
/// * v transposed`.  Delegates to the row-major engine on the same entries
/// (which there describe the transposed matrix) and transposes the factors
/// back, so the row-major contract holds of the transposed outputs.
pub fn svd(f: &[Fix; 9], mode: crate::mat3_sym::EigenDecompositionModes) -> (ret: Option<
    ([Fix; 9], [Fix; 3], [Fix; 9]),
>)
    ensures
        ret is Some <==> crate::mat3_sym::sym_sq_norm(crate::mat3_row_major::gram_row(f@)) >= 1,
        ret matches Some((u, s, v)) ==> {
            &&& s@[0]@ >= 0 && s@[1]@ >= 0 && s@[2]@ >= 0
            &&& crate::mat3_row_major::u_cols_ok(f@, tr9(v@), s@, tr9(u@))
            &&& ({
                let sf = crate::mat3_sym::eigen_of(crate::mat3_row_major::gram_row(f@), mode);
                let nrm = crate::fx::fsqrt(
                    crate::mat3_sym::sym_sq_norm(crate::mat3_row_major::gram_row(f@)),
                );
                &&& tr9(u@)[0]@ == sf.v0 && tr9(u@)[1]@ == sf.v1 && tr9(u@)[2]@ == sf.v2
                &&& tr9(u@)[3]@ == sf.v3 && tr9(u@)[4]@ == sf.v4 && tr9(u@)[5]@ == sf.v5
                &&& tr9(u@)[6]@ == sf.v6 && tr9(u@)[7]@ == sf.v7 && tr9(u@)[8]@ == sf.v8
                &&& s@[0]@ == crate::fx::fsqrt(
                    if fmul(nrm, sf.m0) >= 0 {
                        fmul(nrm, sf.m0)
                    } else {
                        0
                    },
                )
                &&& s@[1]@ == crate::fx::fsqrt(
                    if fmul(nrm, sf.m1) >= 0 {
                        fmul(nrm, sf.m1)
                    } else {
                        0
                    },
                )
                &&& s@[2]@ == crate::fx::fsqrt(
                    if fmul(nrm, sf.m2) >= 0 {
                        fmul(nrm, sf.m2)
                    } else {
                        0
                    },
                )
            })
        },
{
    let rm = crate::mat3_row_major::svd(f, mode);
    match rm {
        Some((ur, s, vr)) => {
            let u = transpose(&vr);
            let v = transpose(&ur);
            proof {
                lemma_transpose_bridge(vr@, u@);
                lemma_transpose_bridge(ur@, v@);
            }
            Some((u, s, v))
        },
        None => None,
    }
}

/// The Jacobian of the singular value decomposition of a column-major
/// matrix, from a triple `(u, s, v)` produced by [`svd`].  Delegates to the
/// row-major differential on the transposed factors (the decomposition of
/// the transposed matrix) and swaps the left and right outputs back, so the
/// row-major contract holds of the swapped, transposed arguments.  Entry
/// `[component][i + 3 * j]` differentiates along input entry `(i, j)`.
pub fn svd_differential(u: [Fix; 9], s: [Fix; 3], v: [Fix; 9]) -> (r: (
    [[Fix; 9]; 3],
    [[Fix; 9]; 3],
    [[Fix; 9]; 3],
))
    ensures
        ({
            let ur = tr9(v@);
            let vr = tr9(u@);
            forall|n: int|
                0 <= n < 9 ==> {
                    &&& #[trigger] r.0@[0]@[n]@ == crate::mat3_row_major::omega_v(
                        ur,
                        s@,
                        vr,
                        n / 3,
                        n % 3,
                        1,
                        2,
                    )
                    &&& r.0@[1]@[n]@ == -crate::mat3_row_major::omega_v(
                        ur,
                        s@,
                        vr,
                        n / 3,
                        n % 3,
                        0,
                        2,
                    )
                    &&& r.0@[2]@[n]@ == crate::mat3_row_major::omega_v(ur, s@, vr, n / 3, n % 3, 0, 1)
                    &&& r.1@[0]@[n]@ == crate::mat3_row_major::dkl(ur, vr, n / 3, n % 3, 0, 0)
                    &&& r.1@[1]@[n]@ == crate::mat3_row_major::dkl(ur, vr, n / 3, n % 3, 1, 1)
                    &&& r.1@[2]@[n]@ == crate::mat3_row_major::dkl(ur, vr, n / 3, n % 3, 2, 2)
                    &&& r.2@[0]@[n]@ == crate::mat3_row_major::omega_u(ur, s@, vr, n / 3, n % 3, 1, 2)
                    &&& r.2@[1]@[n]@ == -crate::mat3_row_major::omega_u(
                        ur,
                        s@,
                        vr,
                        n / 3,
                        n % 3,
                        0,
                        2,
                    )
                    &&& r.2@[2]@[n]@ == crate::mat3_row_major::omega_u(ur, s@, vr, n / 3, n % 3, 0, 1)
                }
        }),
{
    let vt = transpose(&v);
    let ut = transpose(&u);
    proof {
        lemma_transpose_bridge(v@, vt@);
        lemma_transpose_bridge(u@, ut@);
    }
    let (du, ds, dv) = crate::mat3_row_major::svd_differential(vt, s, ut);
    (dv, ds, du)
}


/// A matrix and its transpose determine each other entry by entry: reading
/// the transpose back through the transposing permutation gives the
/// original, at the level of both values and raw entries.
proof fn lemma_transpose_bridge(a: Seq<Fix>, b: Seq<Fix>)
    requires
        a.len() == 9,
        b.len() == 9,
        forall|rr: int, cc: int|
            0 <= rr < 3 && 0 <= cc < 3 ==> at_col(b, rr, cc) == at_col(a, cc, rr),
    ensures
        tr9(b) =~= a,
        raws(b) =~= tr9_raw(raws(a)),
{
    assert forall|i: int| 0 <= i < 9 implies tr9(b)[i] == a[i] by {
        assert(at_col(b, i % 3, i / 3) == at_col(a, i / 3, i % 3));
        assert(at_col(b, i / 3, i % 3) == at_col(a, i % 3, i / 3));
        crate::fx::lemma_eq_raw_eq(tr9(b)[i], a[i]);
    }
    assert forall|i: int| 0 <= i < 9 implies raws(b)[i] == tr9_raw(raws(a))[i] by {
        assert(at_col(b, i % 3, i / 3) == at_col(a, i / 3, i % 3));
        assert(at_col(b, i / 3, i % 3) == at_col(a, i % 3, i / 3));
    }
}

/// The pin of the rotational component: the product of `u` with the
/// transpose of `v`, with the first row of that transpose negated first
/// whenever the product's determinant is not positive.
pub open spec fn rotational_pin(u: Seq<int>, v: Seq<int>, r: Seq<int>) -> bool {
    let vt = tr9_raw(v);
    let p = mat9_raw(u, vt);
    if det_col_raw(p) > 0 {
        r =~= p
    } else {
        let vtf = seq![-vt[0], vt[1], vt[2], -vt[3], vt[4], vt[5], -vt[6], vt[7], vt[8]];
        r =~= mat9_raw(u, vtf)
    }
}

/// A witness that `r` is the rotational component of `a`: a singular value
/// triple of `a` under twenty Jacobi rotations (pinned as in [`svd`]) whose
/// factors, combined by [`rotational_pin`], give `r`.
pub open spec fn rotational_witness(
    a: Seq<Fix>,
    t: ([Fix; 9], [Fix; 3], [Fix; 9]),
    r: Seq<Fix>,
) -> bool {
    let sf = crate::mat3_sym::jacobi_iter(
        crate::mat3_sym::jacobi_start(crate::mat3_row_major::gram_row(a)),
        20,
    );
    &&& crate::mat3_row_major::u_cols_ok(a, tr9(t.2@), t.1@, tr9(t.0@))
    &&& tr9(t.0@)[0]@ == sf.v0 && tr9(t.0@)[1]@ == sf.v1 && tr9(t.0@)[2]@ == sf.v2
    &&& tr9(t.0@)[3]@ == sf.v3 && tr9(t.0@)[4]@ == sf.v4 && tr9(t.0@)[5]@ == sf.v5
    &&& tr9(t.0@)[6]@ == sf.v6 && tr9(t.0@)[7]@ == sf.v7 && tr9(t.0@)[8]@ == sf.v8
    &&& rotational_pin(raws(t.0@), raws(t.2@), raws(r))
}

/// The closest proper rotation to `a`: with `a = u * diag(s) * v transposed`
/// under twenty Jacobi rotations, the product `u * v transposed`, with a
/// column of `v` negated when the product's determinant is not positive.
/// The input must not be degenerate (its Gram matrix must have a nonzero
/// norm), since a near-zero matrix has no rotational component.
pub fn rotational_component(a: &[Fix; 9]) -> (r: [Fix; 9])
    requires
        crate::mat3_sym::sym_sq_norm(crate::mat3_row_major::gram_row(a@)) >= 1,
    ensures
        exists|t: ([Fix; 9], [Fix; 3], [Fix; 9])| #[trigger] rotational_witness(a@, t, r@),
{
    let svd_result = svd(a, crate::mat3_sym::EigenDecompositionModes::JacobiNumIter(20));
    let (u, s, v) = match svd_result {
        Some(t) => t,
        None => {
            proof {
                assert(false);
            }
            (from_identity(), [Fix::one(), Fix::one(), Fix::one()], from_identity())
        },
    };
    let v_t = transpose(&v);
    let u_vt = mult_mat_col_major(&u, &v_t);
    proof {
        lemma_transpose_bridge(v@, v_t@);
        assert forall|i: int| 0 <= i < 9 implies raws(u_vt@)[i] == mat9_raw(
            raws(u@),
            raws(v_t@),
        )[i] by {
            assert(at_col(u_vt@, i % 3, i / 3) == mul_col(u@, v_t@, i % 3, i / 3));
        }
        assert(raws(u_vt@) =~= mat9_raw(raws(u@), raws(v_t@)));
    }
    let rr = if determinant(&u_vt).gt(Fix::zero()) {
        u_vt
    } else {
        let v_t2 = [
            v_t[0].neg(),
            v_t[1],
            v_t[2],
            v_t[3].neg(),
            v_t[4],
            v_t[5],
            v_t[6].neg(),
            v_t[7],
            v_t[8],
        ];
        let p2 = mult_mat_col_major(&u, &v_t2);
        proof {
            assert forall|i: int| 0 <= i < 9 implies raws(p2@)[i] == mat9_raw(
                raws(u@),
                raws(v_t2@),
            )[i] by {
                assert(at_col(p2@, i % 3, i / 3) == mul_col(u@, v_t2@, i % 3, i / 3));
            }
            assert(raws(p2@) =~= mat9_raw(raws(u@), raws(v_t2@)));
            let vt = tr9_raw(raws(v@));
            assert(raws(v_t2@) =~= seq![
                -vt[0],
                vt[1],
                vt[2],
                -vt[3],
                vt[4],
                vt[5],
                -vt[6],
                vt[7],
                vt[8],
            ]);
        }
        p2
    };
    proof {
        assert(rotational_witness(a@, (u, s, v), rr@));
    }
    rr
}

/// Raw value of entry `idx` of the symmetric quaternion-extraction matrix of
/// a rotation matrix `p`: the matrix whose largest diagonal entry selects
/// the numerically stable quaternion component.
pub open spec fn to_quat_smat(p: Seq<Fix>, idx: int) -> int {
    let s = SCALE as int;
    if idx == 0 {
        fsub(fsub(fadd(s, p[0]@), p[4]@), p[8]@)
    } else if idx == 1 {
        fadd(p[3]@, p[1]@)
    } else if idx == 2 {
        fadd(p[6]@, p[2]@)
    } else if idx == 3 {
        fsub(p[5]@, p[7]@)
    } else if idx == 4 {
        fadd(p[1]@, p[3]@)
    } else if idx == 5 {
        fsub(fadd(fsub(s, p[0]@), p[4]@), p[8]@)
    } else if idx == 6 {
        fadd(p[7]@, p[5]@)
    } else if idx == 7 {
        fsub(p[6]@, p[2]@)
    } else if idx == 8 {
        fadd(p[6]@, p[2]@)
    } else if idx == 9 {
        fadd(p[7]@, p[5]@)
    } else if idx == 10 {
        fadd(fsub(fsub(s, p[0]@), p[4]@), p[8]@)
    } else if idx == 11 {
        fsub(p[1]@, p[3]@)
    } else if idx == 12 {
        fsub(p[5]@, p[7]@)
    } else if idx == 13 {
        fsub(p[6]@, p[2]@)
    } else if idx == 14 {
        fsub(p[1]@, p[3]@)
    } else {
        fadd(fadd(fadd(s, p[0]@), p[4]@), p[8]@)
    }
}

/// The index of the largest diagonal entry of that matrix, the last on ties.
pub open spec fn to_quat_imax(p: Seq<Fix>) -> int {
    let m1 = if to_quat_smat(p, 5) >= to_quat_smat(p, 0) {
        1int
    } else {
        0int
    };
    let m2 = if to_quat_smat(p, 10) >= to_quat_smat(p, m1 * 4 + m1) {
        2int
    } else {
        m1
    };
    if to_quat_smat(p, 15) >= to_quat_smat(p, m2 * 4 + m2) {
        3int
    } else {
        m2
    }
}

/// A quaternion with `[i, j, k, w]` storage describing the same rotation as
/// the matrix `p`, which must be a rotation matrix.  The component dual to
/// the largest diagonal entry of the extraction matrix is recovered by a
/// square root and the rest by division, the numerically stable choice.
pub fn to_quaternion(p: &[Fix; 9]) -> (r: [Fix; 4])
    ensures
        ({
            let im = to_quat_imax(p@);
            let qim = fdiv(fsqrt(to_quat_smat(p@, im * 4 + im)), 2 * (SCALE as int));
            forall|k: int|
                0 <= k < 4 ==> #[trigger] r@[k]@ == if k == im {
                    qim
                } else {
                    fdiv(
                        fmul(to_quat_smat(p@, im * 4 + k), fdiv(SCALE as int, 4 * (SCALE as int))),
                        qim,
                    )
                }
        }),
{
    let one = Fix::one();
    let one4th = one.div(Fix::from_int(4));
    let smat = [
        one.add(p[0]).sub(p[4]).sub(p[8]),
        p[3].add(p[1]),
        p[6].add(p[2]),
        p[5].sub(p[7]),
        p[1].add(p[3]),
        one.sub(p[0]).add(p[4]).sub(p[8]),
        p[7].add(p[5]),
        p[6].sub(p[2]),
        p[6].add(p[2]),
        p[7].add(p[5]),
        one.sub(p[0]).sub(p[4]).add(p[8]),
        p[1].sub(p[3]),
        p[5].sub(p[7]),
        p[6].sub(p[2]),
        p[1].sub(p[3]),
        one.add(p[0]).add(p[4]).add(p[8]),
    ];
    proof {
        assert forall|i: int| 0 <= i < 16 implies #[trigger] smat@[i]@ == to_quat_smat(p@, i) by {
        }
    }
    let mut imax: usize = 0;
    if smat[5].ge(smat[0]) {
        imax = 1;
    }
    if smat[10].ge(smat[imax * 4 + imax]) {
        imax = 2;
    }
    if smat[15].ge(smat[imax * 4 + imax]) {
        imax = 3;
    }
    let qim = smat[imax * 4 + imax].sqrt().div(Fix::two());
    let mut quat = [Fix::zero(); 4];
    let mut k: usize = 0;
    while k < 4
        invariant
            k <= 4,
            imax < 4,
            quat@.len() == 4,
            imax as int == to_quat_imax(p@),
            qim@ == fdiv(
                fsqrt(to_quat_smat(p@, imax as int * 4 + imax as int)),
                2 * (SCALE as int),
            ),
            one4th@ == fdiv(SCALE as int, 4 * (SCALE as int)),
            forall|i: int| 0 <= i < 16 ==> #[trigger] smat@[i]@ == to_quat_smat(p@, i),
            forall|j: int|
                0 <= j < k ==> #[trigger] quat@[j]@ == if j == imax as int {
                    fdiv(
                        fsqrt(to_quat_smat(p@, imax as int * 4 + imax as int)),
                        2 * (SCALE as int),
                    )
                } else {
                    fdiv(
                        fmul(
                            to_quat_smat(p@, imax as int * 4 + j),
                            fdiv(SCALE as int, 4 * (SCALE as int)),
                        ),
                        fdiv(
                            fsqrt(to_quat_smat(p@, imax as int * 4 + imax as int)),
                            2 * (SCALE as int),
                        ),
                    )
                },
        decreases 4 - k,
    {
        if k == imax {
            quat[k] = qim;
        } else {
            quat[k] = smat[imax * 4 + k].mul(one4th).div(qim);
        }
        k = k + 1;
    }
    quat
}

/// What [`minimum_rotation_matrix`] returns; see that function.  `ha` is
/// half the unit raw value.
pub open spec fn min_rot_spec(v0: Seq<int>, v1: Seq<int>) -> Seq<int> {
    let s = SCALE as int;
    let ha = s / 2;
    let ep = crate::vec3::rnormalize3(v0);
    let eq = crate::vec3::rnormalize3(v1);
    let n = crate::edge3::rcross3(ep, eq);
    let st2 = crate::edge3::rdot3(n, n);
    let ct = crate::edge3::rdot3(ep, eq);
    if st2 < 1 {
        if ct > fsub(s, 1) {
            seq![
                fadd(s, fmul(ha, fsub(fmul(n[0], n[0]), st2))),
                fadd(-n[2], fmul(ha, fmul(n[0], n[1]))),
                fadd(n[1], fmul(ha, fmul(n[0], n[2]))),
                fadd(n[2], fmul(ha, fmul(n[1], n[0]))),
                fadd(s, fmul(ha, fsub(fmul(n[1], n[1]), st2))),
                fadd(-n[0], fmul(ha, fmul(n[1], n[2]))),
                fadd(-n[1], fmul(ha, fmul(n[2], n[0]))),
                fadd(n[0], fmul(ha, fmul(n[2], n[1]))),
                fadd(s, fmul(ha, fsub(fmul(n[2], n[2]), st2))),
            ]
        } else {
            let epx = crate::vec3::basis_x_of(ep);
            let epy = crate::edge3::rcross3(ep, epx);
            let eqx = crate::edge3::rsub3(
                epx,
                crate::edge3::rscale3(eq, crate::edge3::rdot3(eq, epx)),
            );
            let eqy = crate::edge3::rcross3(eq, eqx);
            seq![
                crate::edge3::rdot3(eqx, epx),
                crate::edge3::rdot3(eqy, epx),
                crate::edge3::rdot3(eq, epx),
                crate::edge3::rdot3(eqx, epy),
                crate::edge3::rdot3(eqy, epy),
                crate::edge3::rdot3(eq, epy),
                crate::edge3::rdot3(eqx, ep),
                crate::edge3::rdot3(eqy, ep),
                crate::edge3::rdot3(eq, ep),
            ]
        }
    } else {
        let st = fsqrt(st2);
        let nn = crate::vec3::rnormalize3(n);
        seq![
            fadd(ct, fmul(fsub(s, ct), fmul(nn[0], nn[0]))),
            fadd(fmul(-nn[2], st), fmul(fsub(s, ct), fmul(nn[0], nn[1]))),
            fadd(fmul(nn[1], st), fmul(fsub(s, ct), fmul(nn[0], nn[2]))),
            fadd(fmul(nn[2], st), fmul(fsub(s, ct), fmul(nn[1], nn[0]))),
            fadd(ct, fmul(fsub(s, ct), fmul(nn[1], nn[1]))),
            fadd(fmul(-nn[0], st), fmul(fsub(s, ct), fmul(nn[1], nn[2]))),
            fadd(fmul(-nn[1], st), fmul(fsub(s, ct), fmul(nn[2], nn[0]))),
            fadd(fmul(nn[0], st), fmul(fsub(s, ct), fmul(nn[2], nn[1]))),
            fadd(ct, fmul(fsub(s, ct), fmul(nn[2], nn[2]))),
        ]
    }
}

/// The minimal rotation relating the directions of `v0` and `v1`: read as
/// row-major data it turns `v0` onto `v1` (its column-major product with
/// the direction of `v1` gives the direction of `v0`).  A near-zero cross
/// product (below one quantum in squared norm) takes an
/// infinitesimal-rotation form when the directions agree, and an explicit
/// basis exchange when they are opposed; otherwise the rotation follows the
/// Rodrigues formula.
pub fn minimum_rotation_matrix(v0: &[Fix; 3], v1: &[Fix; 3]) -> (r: [Fix; 9])
    ensures
        raws(r@) =~= min_rot_spec(raws(v0@), raws(v1@)),
{
    let one = Fix::one();
    let half = Fix::half();
    let ep = crate::vec3::Vec3::normalize(v0);
    let eq = crate::vec3::Vec3::normalize(v1);
    let n = crate::vec3::Vec3::cross(&ep, &eq);
    let st2 = crate::vec3::Vec3::dot(&n, &n);
    let ct = crate::vec3::Vec3::dot(&ep, &eq);
    proof {
        assert(crate::vec3::rnormalize3(raws(v0@)) =~= raws(ep@));
        assert(crate::vec3::rnormalize3(raws(v1@)) =~= raws(eq@));
        assert(crate::edge3::rcross3(raws(ep@), raws(eq@)) =~= raws(n@));
    }
    if st2.lt(Fix::epsilon()) {
        if ct.gt(one.sub(Fix::epsilon())) {
            let rr = [
                one.add(half.mul(n[0].mul(n[0]).sub(st2))),
                n[2].neg().add(half.mul(n[0].mul(n[1]))),
                n[1].add(half.mul(n[0].mul(n[2]))),
                n[2].add(half.mul(n[1].mul(n[0]))),
                one.add(half.mul(n[1].mul(n[1]).sub(st2))),
                n[0].neg().add(half.mul(n[1].mul(n[2]))),
                n[1].neg().add(half.mul(n[2].mul(n[0]))),
                n[0].add(half.mul(n[2].mul(n[1]))),
                one.add(half.mul(n[2].mul(n[2]).sub(st2))),
            ];
            proof {
                assert(raws(rr@) =~= min_rot_spec(raws(v0@), raws(v1@)));
            }
            rr
        } else {
            let (epx, epy) = crate::vec3::basis_xy_from_basis_z(&ep);
            let eqx = crate::vec3::Vec3::sub(
                &epx,
                &crate::vec3::Vec3::scale(&eq, crate::vec3::Vec3::dot(&eq, &epx)),
            );
            let eqy = crate::vec3::Vec3::cross(&eq, &eqx);
            let rr = [
                crate::vec3::Vec3::dot(&eqx, &epx),
                crate::vec3::Vec3::dot(&eqy, &epx),
                crate::vec3::Vec3::dot(&eq, &epx),
                crate::vec3::Vec3::dot(&eqx, &epy),
                crate::vec3::Vec3::dot(&eqy, &epy),
                crate::vec3::Vec3::dot(&eq, &epy),
                crate::vec3::Vec3::dot(&eqx, &ep),
                crate::vec3::Vec3::dot(&eqy, &ep),
                crate::vec3::Vec3::dot(&eq, &ep),
            ];
            proof {
                assert(crate::edge3::rcross3(raws(ep@), crate::vec3::basis_x_of(raws(ep@))) =~= raws(
                    epy@,
                ));
                assert(crate::edge3::rscale3(
                    raws(eq@),
                    crate::edge3::rdot3(raws(eq@), raws(epx@)),
                ) =~= seq![
                    fmul(eq@[0]@, crate::vec3::dot3(eq@, epx@)),
                    fmul(eq@[1]@, crate::vec3::dot3(eq@, epx@)),
                    fmul(eq@[2]@, crate::vec3::dot3(eq@, epx@)),
                ]);
                assert(crate::edge3::rsub3(
                    raws(epx@),
                    crate::edge3::rscale3(raws(eq@), crate::edge3::rdot3(raws(eq@), raws(epx@))),
                ) =~= raws(eqx@));
                assert(crate::edge3::rcross3(raws(eq@), raws(eqx@)) =~= raws(eqy@));
                assert(raws(rr@) =~= min_rot_spec(raws(v0@), raws(v1@)));
            }
            rr
        }
    } else {
        let st = st2.sqrt();
        let nn = crate::vec3::Vec3::normalize(&n);
        proof {
            assert(crate::vec3::rnormalize3(raws(n@)) =~= raws(nn@));
        }
        let rr = [
            ct.add(one.sub(ct).mul(nn[0].mul(nn[0]))),
            nn[2].neg().mul(st).add(one.sub(ct).mul(nn[0].mul(nn[1]))),
            nn[1].mul(st).add(one.sub(ct).mul(nn[0].mul(nn[2]))),
            nn[2].mul(st).add(one.sub(ct).mul(nn[1].mul(nn[0]))),
            ct.add(one.sub(ct).mul(nn[1].mul(nn[1]))),
            nn[0].neg().mul(st).add(one.sub(ct).mul(nn[1].mul(nn[2]))),
            nn[1].neg().mul(st).add(one.sub(ct).mul(nn[2].mul(nn[0]))),
            nn[0].mul(st).add(one.sub(ct).mul(nn[2].mul(nn[1]))),
            ct.add(one.sub(ct).mul(nn[2].mul(nn[2]))),
        ];
        proof {
            assert(raws(rr@) =~= min_rot_spec(raws(v0@), raws(v1@)));
        }
        rr
    }
}

/// A 2x3 matrix in column-major storage: the homogeneous 2D transformation
/// with its last row dropped.
pub fn to_mat2x3_col_major_xy(m: &[Fix; 9]) -> (r: [Fix; 6])
    ensures
        r@[0] == m@[0] && r@[1] == m@[1] && r@[2] == m@[3] && r@[3] == m@[4] && r@[4] == m@[6]
            && r@[5] == m@[7],
{
    [m[0], m[1], m[3], m[4], m[6], m[7]]
}

/// The transformation from normalized device coordinates (both axes in
/// `[-1, 1]`, the y axis up) to pixel coordinates for an image of the given
/// width and height.
pub fn from_transform_ndc2pix(img_shape: (usize, usize)) -> (r: [Fix; 9])
    requires
        img_shape.0 < 0x8000000000000000,
        img_shape.1 < 0x8000000000000000,
    ensures
        ({
            let s = SCALE as int;
            let w = crate::fx::sat(img_shape.0 * s);
            let h = crate::fx::sat(img_shape.1 * s);
            &&& r@[0]@ == fmul(w, s / 2)
            &&& r@[1]@ == 0 && r@[2]@ == 0 && r@[3]@ == 0
            &&& r@[4]@ == -fmul(h, s / 2)
            &&& r@[5]@ == 0
            &&& r@[6]@ == fmul(w, s / 2)
            &&& r@[7]@ == fmul(h, s / 2)
            &&& r@[8]@ == s
        }),
{
    let zero = Fix::zero();
    let half = Fix::half();
    let w = Fix::from_int(img_shape.0 as i64);
    let h = Fix::from_int(img_shape.1 as i64);
    [w.mul(half), zero, zero, zero, h.mul(half).neg(), zero, w.mul(half), h.mul(half), Fix::one()]
}

/// The transformation from unit coordinates (both axes in `[0, 1]`, the y
/// axis up) to pixel coordinates for an image of the given width and height.
pub fn from_transform_unit2pix(img_shape: (usize, usize)) -> (r: [Fix; 9])
    requires
        img_shape.0 < 0x8000000000000000,
        img_shape.1 < 0x8000000000000000,
    ensures
        ({
            let s = SCALE as int;
            let w = crate::fx::sat(img_shape.0 * s);
            let h = crate::fx::sat(img_shape.1 * s);
            &&& r@[0]@ == w
            &&& r@[1]@ == 0 && r@[2]@ == 0 && r@[3]@ == 0
            &&& r@[4]@ == -h
            &&& r@[5]@ == 0 && r@[6]@ == 0
            &&& r@[7]@ == h
            &&& r@[8]@ == s
        }),
{
    let zero = Fix::zero();
    let w = Fix::from_int(img_shape.0 as i64);
    let h = Fix::from_int(img_shape.1 as i64);
    [w, zero, zero, zero, h.neg(), zero, zero, h, Fix::one()]
}

/// The frame whose local z axis is the direction of `n`, as a column-major
/// matrix: the columns are the two completion vectors of the normalized `n`
/// and the normalized `n` itself.
pub fn transform_lcl2world_given_local_z(n: &[Fix; 3]) -> (r: [Fix; 9])
    ensures
        ({
            let nn = crate::vec3::rnormalize3(raws(n@));
            let u = crate::vec3::basis_x_of(nn);
            let v = crate::edge3::rcross3(nn, u);
            &&& raws(r@) =~= u + v + nn
        }),
{
    let nn = crate::vec3::Vec3::normalize(n);
    let (u, v) = crate::vec3::basis_xy_from_basis_z(&nn);
    proof {
        assert(crate::vec3::rnormalize3(raws(n@)) =~= raws(nn@));
    }
    let rr = from_columns(&u, &v, &nn);
    proof {
        assert(raws(rr@) =~= raws(u@) + raws(v@) + raws(nn@));
    }
    rr
}

/// The raw entries of the rotation about the x axis by `theta` radians.
pub open spec fn rot_x_raw(theta: int) -> Seq<int> {
    let sc = crate::trig::sin_cos_spec(theta);
    let s = SCALE as int;
    seq![s, 0, 0, 0, sc.1, sc.0, 0, -sc.0, sc.1]
}

/// The raw entries of the rotation about the y axis by `theta` radians.
pub open spec fn rot_y_raw(theta: int) -> Seq<int> {
    let sc = crate::trig::sin_cos_spec(theta);
    let s = SCALE as int;
    seq![sc.1, 0, -sc.0, 0, s, 0, sc.0, 0, sc.1]
}

/// The raw entries of the rotation about the z axis by `theta` radians.
pub open spec fn rot_z_raw(theta: int) -> Seq<int> {
    let sc = crate::trig::sin_cos_spec(theta);
    let s = SCALE as int;
    seq![sc.1, sc.0, 0, -sc.0, sc.1, 0, 0, 0, s]
}

/// The rotation about the x axis by `theta` radians, column major.
pub fn from_rotate_x(theta: Fix) -> (r: [Fix; 9])
    ensures
        raws(r@) =~= rot_x_raw(theta@),
{
    let zero = Fix::zero();
    let one = Fix::one();
    let (s, c) = crate::trig::sin_cos(theta);
    [one, zero, zero, zero, c, s, zero, s.neg(), c]
}

/// The rotation about the y axis by `theta` radians, column major.
pub fn from_rotate_y(theta: Fix) -> (r: [Fix; 9])
    ensures
        raws(r@) =~= rot_y_raw(theta@),
{
    let zero = Fix::zero();
    let one = Fix::one();
    let (s, c) = crate::trig::sin_cos(theta);
    [c, zero, s.neg(), zero, one, zero, s, zero, c]
}

/// The rotation about the z axis by `theta` radians, column major.
pub fn from_rotate_z(theta: Fix) -> (r: [Fix; 9])
    ensures
        raws(r@) =~= rot_z_raw(theta@),
{
    let zero = Fix::zero();
    let one = Fix::one();
    let (s, c) = crate::trig::sin_cos(theta);
    [c, s, zero, s.neg(), c, zero, zero, zero, one]
}

/// The rotation applying the x, y and z axis rotations in sequence.
pub fn from_bryant_angles(rx: Fix, ry: Fix, rz: Fix) -> (r: [Fix; 9])
    ensures
        raws(r@) =~= mat9_raw(rot_z_raw(rz@), mat9_raw(rot_y_raw(ry@), rot_x_raw(rx@))),
{
    let x = from_rotate_x(rx);
    let y = from_rotate_y(ry);
    let z = from_rotate_z(rz);
    let yx = mult_mat_col_major(&y, &x);
    proof {
        assert forall|i: int| 0 <= i < 9 implies raws(yx@)[i] == mat9_raw(raws(y@), raws(x@))[i] by {
            assert(at_col(yx@, i % 3, i / 3) == mul_col(y@, x@, i % 3, i / 3));
        }
        assert(raws(yx@) =~= mat9_raw(rot_y_raw(ry@), rot_x_raw(rx@)));
    }
    let r = mult_mat_col_major(&z, &yx);
    proof {
        assert forall|i: int| 0 <= i < 9 implies raws(r@)[i] == mat9_raw(raws(z@), raws(yx@))[i] by {
            assert(at_col(r@, i % 3, i / 3) == mul_col(z@, yx@, i % 3, i / 3));
        }
        assert(raws(r@) =~= mat9_raw(rot_z_raw(rz@), mat9_raw(rot_y_raw(ry@), rot_x_raw(rx@))));
    }
    r
}

/// What [`to_vec3_axisangle_from_rot_mat`] returns; see that function.
pub open spec fn axisangle_spec(m: Seq<int>) -> Seq<int> {
    let s = SCALE as int;
    let ha = s / 2;
    let cos_t0 = fmul(fsub(fadd(fadd(m[0], m[4]), m[8]), s), ha);
    if mag(fsub(cos_t0, s)) <= 1 {
        seq![fmul(fsub(m[5], m[7]), ha), fmul(fsub(m[6], m[2]), ha), fmul(fsub(m[1], m[3]), ha)]
    } else {
        let t0 = crate::trig::atan2_spec(
            crate::fx::fsqrt(fsub(s, fmul(cos_t0, cos_t0))),
            cos_t0,
        );
        let c0 = fdiv(fmul(t0, ha), crate::trig::sin_cos_spec(t0).0);
        seq![
            fmul(c0, fsub(m[5], m[7])),
            fmul(c0, fsub(m[6], m[2])),
            fmul(c0, fsub(m[1], m[3])),
        ]
    }
}

/// The axis-angle vector of a rotation matrix: the rotation axis scaled by
/// the rotation angle.  A rotation within one quantum of the identity takes
/// the infinitesimal form; otherwise the angle is the arc cosine of the
/// trace formula (computed through the arc tangent) and the axis comes from
/// the skew-symmetric part.
pub fn to_vec3_axisangle_from_rot_mat(m: &[Fix; 9]) -> (r: [Fix; 3])
    ensures
        raws(r@) =~= axisangle_spec(raws(m@)),
{
    let one = Fix::one();
    let half = Fix::half();
    let cos_t0 = m[0].add(m[4]).add(m[8]).sub(one).mul(half);
    if cos_t0.sub(one).abs().le(Fix::epsilon()) {
        let rr = [
            m[5].sub(m[7]).mul(half),
            m[6].sub(m[2]).mul(half),
            m[1].sub(m[3]).mul(half),
        ];
        proof {
            assert(raws(rr@) =~= axisangle_spec(raws(m@)));
        }
        rr
    } else {
        let t0 = crate::trig::atan2(one.sub(cos_t0.mul(cos_t0)).sqrt(), cos_t0);
        let c0 = t0.mul(half).div(crate::trig::sin_cos(t0).0);
        let rr = [
            c0.mul(m[5].sub(m[7])),
            c0.mul(m[6].sub(m[2])),
            c0.mul(m[1].sub(m[3])),
        ];
        proof {
            assert(raws(rr@) =~= axisangle_spec(raws(m@)));
        }
        rr
    }
}

} // verus!
