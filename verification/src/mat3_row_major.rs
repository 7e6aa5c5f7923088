//! Methods for a 3x3 matrix stored in row major order: entry `(r, c)` of the
//! matrix lives at index `r * 3 + c`.  This module holds the singular value
//! decomposition engine and its analytic differential; the column-major
//! module delegates to them by transposition.

use crate::fx::{fadd, fdiv, fmul, fsqrt, fsub, raws, Fix, SCALE};
use crate::mat3_sym::{sym_sq_norm, EigenDecompositionModes};
use crate::vec3::Vec3;
use vstd::prelude::*;

verus! {

/// Raw entry `(r, c)` of a row-major matrix.
pub open spec fn at_row(m: Seq<Fix>, r: int, c: int) -> int {
    m[r * 3 + c]@
}

/// Raw value of the saturating squared Frobenius norm of nine entries.
pub open spec fn sq_norm9(m: Seq<Fix>) -> int {
    fadd(
        fadd(
            fadd(
                fadd(
                    fadd(
                        fadd(
                            fadd(fadd(fmul(m[0]@, m[0]@), fmul(m[1]@, m[1]@)), fmul(m[2]@, m[2]@)),
                            fmul(m[3]@, m[3]@),
                        ),
                        fmul(m[4]@, m[4]@),
                    ),
                    fmul(m[5]@, m[5]@),
                ),
                fmul(m[6]@, m[6]@),
            ),
            fmul(m[7]@, m[7]@),
        ),
        fmul(m[8]@, m[8]@),
    )
}

/// Trait for 3x3 row-major matrices.
pub trait Mat3RowMajor: Sized + View<V = Seq<Fix>> {
    /// The transpose.
    fn transpose(&self) -> (r: Self)
        ensures
            r@.len() == 9,
            forall|rr: int, cc: int|
                0 <= rr < 3 && 0 <= cc < 3 ==> at_row(r@, rr, cc) == at_row(self@, cc, rr),
    ;

    /// The matrix product of two row-major matrices.
    fn mult_mat_row_major(&self, other: &Self) -> (r: Self)
        ensures
            r@.len() == 9,
            forall|rr: int, cc: int|
                0 <= rr < 3 && 0 <= cc < 3 ==> at_row(r@, rr, cc) == fadd(
                    fadd(
                        fmul(at_row(self@, rr, 0), at_row(other@, 0, cc)),
                        fmul(at_row(self@, rr, 1), at_row(other@, 1, cc)),
                    ),
                    fmul(at_row(self@, rr, 2), at_row(other@, 2, cc)),
                ),
    ;

    /// Entry-wise saturating sum.
    fn add(&self, other: &Self) -> (r: Self)
        ensures
            r@.len() == 9,
            forall|i: int| 0 <= i < 9 ==> r@[i]@ == fadd(self@[i]@, other@[i]@),
    ;

    /// Entry-wise saturating difference.
    fn sub(&self, other: &Self) -> (r: Self)
        ensures
            r@.len() == 9,
            forall|i: int| 0 <= i < 9 ==> r@[i]@ == fsub(self@[i]@, other@[i]@),
    ;

    /// The saturating squared Frobenius norm.
    fn squared_norm(&self) -> (r: Fix)
        ensures
            r@ == sq_norm9(self@),
    ;

    /// The fixed-point Frobenius norm.
    fn norm(&self) -> (r: Fix)
        ensures
            r@ == fsqrt(sq_norm9(self@)),
    ;
}

impl Mat3RowMajor for [Fix; 9] {
    fn transpose(&self) -> (r: Self) {
        [
            self[0],
            self[3],
            self[6],
            self[1],
            self[4],
            self[7],
            self[2],
            self[5],
            self[8],
        ]
    }

    fn mult_mat_row_major(&self, other: &Self) -> (r: Self) {
        let a = self;
        let b = other;
        [
            a[0].mul(b[0]).add(a[1].mul(b[3])).add(a[2].mul(b[6])),
            a[0].mul(b[1]).add(a[1].mul(b[4])).add(a[2].mul(b[7])),
            a[0].mul(b[2]).add(a[1].mul(b[5])).add(a[2].mul(b[8])),
            a[3].mul(b[0]).add(a[4].mul(b[3])).add(a[5].mul(b[6])),
            a[3].mul(b[1]).add(a[4].mul(b[4])).add(a[5].mul(b[7])),
            a[3].mul(b[2]).add(a[4].mul(b[5])).add(a[5].mul(b[8])),
            a[6].mul(b[0]).add(a[7].mul(b[3])).add(a[8].mul(b[6])),
            a[6].mul(b[1]).add(a[7].mul(b[4])).add(a[8].mul(b[7])),
            a[6].mul(b[2]).add(a[7].mul(b[5])).add(a[8].mul(b[8])),
        ]
    }

    fn add(&self, other: &Self) -> (r: Self) {
        crate::mat3_col_major::add(self, other)
    }

    fn sub(&self, other: &Self) -> (r: Self) {
        crate::mat3_col_major::sub(self, other)
    }

    fn squared_norm(&self) -> (r: Fix) {
        squared_norm(self)
    }

    fn norm(&self) -> (r: Fix) {
        norm(self)
    }
}

/// The identity matrix.
pub fn from_identity() -> (r: [Fix; 9])
    ensures
        forall|i: int|
            0 <= i < 9 ==> r@[i]@ == if i == 0 || i == 4 || i == 8 {
                SCALE as int
            } else {
                0
            },
{
    crate::mat3_col_major::from_identity()
}

/// The saturating squared Frobenius norm.
pub fn squared_norm(m: &[Fix; 9]) -> (r: Fix)
    ensures
        r@ == sq_norm9(m@),
{
    m[0].mul(m[0]).add(m[1].mul(m[1])).add(m[2].mul(m[2])).add(m[3].mul(m[3])).add(
        m[4].mul(m[4]),
    ).add(m[5].mul(m[5])).add(m[6].mul(m[6])).add(m[7].mul(m[7])).add(m[8].mul(m[8]))
}

/// The fixed-point Frobenius norm.
pub fn norm(m: &[Fix; 9]) -> (r: Fix)
    ensures
        r@ == fsqrt(sq_norm9(m@)),
{
    squared_norm(m).sqrt()
}

/// The packed Gram matrix of a row-major matrix: the symmetric product of
/// the matrix's transpose with itself, in the packed layout of
/// [`crate::mat3_sym`].
pub open spec fn gram_row(f: Seq<Fix>) -> Seq<int> {
    let d = |a: int, b: int|
        fadd(
            fadd(fmul(at_row(f, 0, a), at_row(f, 0, b)), fmul(at_row(f, 1, a), at_row(f, 1, b))),
            fmul(at_row(f, 2, a), at_row(f, 2, b)),
        );
    seq![d(0, 0), d(1, 1), d(2, 2), d(1, 2), d(2, 0), d(0, 1)]
}

/// The packed Gram matrix, executably.
fn gram_of(f: &[Fix; 9]) -> (g: [Fix; 6])
    ensures
        raws(g@) =~= gram_row(f@),
{
    let d = |a: usize, b: usize| -> (r: Fix)
        requires
            a < 3,
            b < 3,
        ensures
            r@ == fadd(
                fadd(
                    fmul(at_row(f@, 0, a as int), at_row(f@, 0, b as int)),
                    fmul(at_row(f@, 1, a as int), at_row(f@, 1, b as int)),
                ),
                fmul(at_row(f@, 2, a as int), at_row(f@, 2, b as int)),
            ),
        { f[a].mul(f[b]).add(f[3 + a].mul(f[3 + b])).add(f[6 + a].mul(f[6 + b])) };
    [d(0, 0), d(1, 1), d(2, 2), d(1, 2), d(2, 0), d(0, 1)]
}

/// Threshold below which the image of an eigenvector through the input is
/// treated as degenerate (about `10^-7`).
pub const IMAGE_TOL_RAW: i64 = 0x800000;

/// Raw component `r` of the image of column `k` of `v` through `f`.
pub open spec fn wcol(f: Seq<Fix>, v: Seq<Fix>, k: int, r: int) -> int {
    fadd(
        fadd(fmul(at_row(f, r, 0), at_row(v, 0, k)), fmul(at_row(f, r, 1), at_row(v, 1, k))),
        fmul(at_row(f, r, 2), at_row(v, 2, k)),
    )
}

/// Raw norm of the image of column `k` of `v` through `f`.
pub open spec fn wnorm(f: Seq<Fix>, v: Seq<Fix>, k: int) -> int {
    fsqrt(
        fadd(
            fadd(
                fmul(wcol(f, v, k, 0), wcol(f, v, k, 0)),
                fmul(wcol(f, v, k, 1), wcol(f, v, k, 1)),
            ),
            fmul(wcol(f, v, k, 2), wcol(f, v, k, 2)),
        ),
    )
}

/// Whether the image of column `k` is non-degenerate.
pub open spec fn good_col(f: Seq<Fix>, v: Seq<Fix>, k: int) -> bool {
    wnorm(f, v, k) > IMAGE_TOL_RAW as int
}

/// Column `k` of `u` is the image of column `k` of `v` through `f`, scaled
/// by the reciprocal of its norm.
pub open spec fn norm_col_pinned(f: Seq<Fix>, v: Seq<Fix>, u: Seq<Fix>, k: int) -> bool {
    forall|r: int|
        0 <= r < 3 ==> at_row(u, r, k) == fmul(
            wcol(f, v, k, r),
            fdiv(SCALE as int, wnorm(f, v, k)),
        )
}

/// The index of the smallest of three values, earliest on ties.
pub open spec fn argmin3(s: Seq<Fix>) -> int {
    if s[0]@ <= s[1]@ && s[0]@ <= s[2]@ {
        0
    } else if s[1]@ <= s[2]@ {
        1
    } else {
        2
    }
}

/// The column after `k`, cyclically.
pub open spec fn cyc1(k: int) -> int {
    if k == 0 {
        1
    } else if k == 1 {
        2
    } else {
        0
    }
}

/// The column two after `k`, cyclically.
pub open spec fn cyc2(k: int) -> int {
    if k == 0 {
        2
    } else if k == 1 {
        0
    } else {
        1
    }
}

/// Raw component `r` of the cross product of columns `a` and `b` of a
/// row-major matrix.
pub open spec fn colcross(u: Seq<Fix>, a: int, b: int, r: int) -> int {
    if r == 0 {
        fsub(fmul(at_row(u, 1, a), at_row(u, 2, b)), fmul(at_row(u, 2, a), at_row(u, 1, b)))
    } else if r == 1 {
        fsub(fmul(at_row(u, 2, a), at_row(u, 0, b)), fmul(at_row(u, 0, a), at_row(u, 2, b)))
    } else {
        fsub(fmul(at_row(u, 0, a), at_row(u, 1, b)), fmul(at_row(u, 1, a), at_row(u, 0, b)))
    }
}

/// Raw component `r` of that cross product scaled by the reciprocal of its
/// norm.
pub open spec fn ncross(u: Seq<Fix>, a: int, b: int, r: int) -> int {
    fmul(
        colcross(u, a, b, r),
        fdiv(
            SCALE as int,
            fsqrt(
                fadd(
                    fadd(
                        fmul(colcross(u, a, b, 0), colcross(u, a, b, 0)),
                        fmul(colcross(u, a, b, 1), colcross(u, a, b, 1)),
                    ),
                    fmul(colcross(u, a, b, 2), colcross(u, a, b, 2)),
                ),
            ),
        ),
    )
}

/// Column `k` of `u` is the normalized cross product of its two cyclic
/// neighbour columns.
pub open spec fn cross_col_pinned(u: Seq<Fix>, k: int) -> bool {
    forall|r: int| 0 <= r < 3 ==> at_row(u, r, k) == ncross(u, cyc1(k), cyc2(k), r)
}

/// Column `k` of `u` is that normalized cross product, negated when it
/// points away from the image of column `k` of `v`.
pub open spec fn signed_cross_col_pinned(f: Seq<Fix>, v: Seq<Fix>, u: Seq<Fix>, k: int) -> bool {
    let a = cyc1(k);
    let b = cyc2(k);
    let d = fadd(
        fadd(fmul(ncross(u, a, b, 0), wcol(f, v, k, 0)), fmul(ncross(u, a, b, 1), wcol(f, v, k, 1))),
        fmul(ncross(u, a, b, 2), wcol(f, v, k, 2)),
    );
    forall|r: int|
        0 <= r < 3 ==> at_row(u, r, k) == if d < 0 {
            -ncross(u, a, b, r)
        } else {
            ncross(u, a, b, r)
        }
}

/// How the left factor's columns relate to the input and the right factor.
/// Non-degenerate columns are the normalized images of the right factor's
/// columns; when all three are non-degenerate, the column of the smallest
/// singular value is rebuilt as the cross product of the other two, signed
/// to match its image; when exactly one column is degenerate it is the
/// normalized cross product of the other two; with a single usable column
/// only that column is pinned here (the other two come from a deterministic
/// frame completion); with none, the left factor is the identity.
pub open spec fn u_cols_ok(f: Seq<Fix>, u: Seq<Fix>, s: Seq<Fix>, v: Seq<Fix>) -> bool {
    let g0 = good_col(f, v, 0);
    let g1 = good_col(f, v, 1);
    let g2 = good_col(f, v, 2);
    if g0 && g1 && g2 {
        let k = argmin3(s);
        &&& forall|kk: int| 0 <= kk < 3 && kk != k ==> norm_col_pinned(f, v, u, kk)
        &&& signed_cross_col_pinned(f, v, u, k)
    } else if g0 && g1 {
        norm_col_pinned(f, v, u, 0) && norm_col_pinned(f, v, u, 1) && cross_col_pinned(u, 2)
    } else if g1 && g2 {
        norm_col_pinned(f, v, u, 1) && norm_col_pinned(f, v, u, 2) && cross_col_pinned(u, 0)
    } else if g2 && g0 {
        norm_col_pinned(f, v, u, 2) && norm_col_pinned(f, v, u, 0) && cross_col_pinned(u, 1)
    } else if g0 {
        norm_col_pinned(f, v, u, 0)
    } else if g1 {
        norm_col_pinned(f, v, u, 1)
    } else if g2 {
        norm_col_pinned(f, v, u, 2)
    } else {
        forall|r: int, c: int|
            0 <= r < 3 && 0 <= c < 3 ==> at_row(u, r, c) == if r == c {
                SCALE as int
            } else {
                0
            }
    }
}

/// The image of column `k` of `v` through `f`.
fn image_col(f: &[Fix; 9], v: &[Fix; 9], k: usize) -> (w: [Fix; 3])
    requires
        k < 3,
    ensures
        forall|r: int| 0 <= r < 3 ==> w@[r]@ == wcol(f@, v@, k as int, r),
{
    [
        f[0].mul(v[k]).add(f[1].mul(v[3 + k])).add(f[2].mul(v[6 + k])),
        f[3].mul(v[k]).add(f[4].mul(v[3 + k])).add(f[5].mul(v[6 + k])),
        f[6].mul(v[k]).add(f[7].mul(v[3 + k])).add(f[8].mul(v[6 + k])),
    ]
}

/// A vector scaled by the reciprocal of the given norm.
fn norm_image(w: &[Fix; 3], n: Fix) -> (r: [Fix; 3])
    ensures
        forall|i: int| 0 <= i < 3 ==> r@[i]@ == fmul(w@[i]@, fdiv(SCALE as int, n@)),
{
    let inv = Fix::one().div(n);
    Vec3::scale(w, inv)
}

/// The normalized cross product of two column vectors.
fn cross_unit(ua: &[Fix; 3], ub: &[Fix; 3]) -> (r: [Fix; 3])
    ensures
        ({
            let c0 = fsub(fmul(ua@[1]@, ub@[2]@), fmul(ua@[2]@, ub@[1]@));
            let c1 = fsub(fmul(ua@[2]@, ub@[0]@), fmul(ua@[0]@, ub@[2]@));
            let c2 = fsub(fmul(ua@[0]@, ub@[1]@), fmul(ua@[1]@, ub@[0]@));
            let nn = fdiv(
                SCALE as int,
                fsqrt(fadd(fadd(fmul(c0, c0), fmul(c1, c1)), fmul(c2, c2))),
            );
            r@[0]@ == fmul(c0, nn) && r@[1]@ == fmul(c1, nn) && r@[2]@ == fmul(c2, nn)
        }),
{
    let c = Vec3::cross(ua, ub);
    let n = Vec3::norm(&c);
    norm_image(&c, n)
}

/// Singular value decomposition of a row-major matrix: `f = u * diag(s) * v
/// transposed`, with `u` and `v` orthogonal to solver tolerance and `s`
/// non-negative.
///
/// Returns `None` exactly when the squared Frobenius norm of the Gram matrix
/// of the input is below one quantum.  The right factor and the singular
/// values come from the eigendecomposition of the Gram matrix, pinned down
/// for either mode by [`crate::mat3_sym::eigen_of`]; the left factor's
/// columns are pinned by [`u_cols_ok`].
pub fn svd(f: &[Fix; 9], mode: EigenDecompositionModes) -> (ret: Option<
    ([Fix; 9], [Fix; 3], [Fix; 9]),
>)
    ensures
        ret is Some <==> sym_sq_norm(gram_row(f@)) >= 1,
        ret matches Some((u, s, v)) ==> {
            &&& s@[0]@ >= 0 && s@[1]@ >= 0 && s@[2]@ >= 0
            &&& u_cols_ok(f@, u@, s@, v@)
            &&& ({
                let sf = crate::mat3_sym::eigen_of(gram_row(f@), mode);
                let nrm = fsqrt(sym_sq_norm(gram_row(f@)));
                &&& v@[0]@ == sf.v0 && v@[1]@ == sf.v1 && v@[2]@ == sf.v2
                &&& v@[3]@ == sf.v3 && v@[4]@ == sf.v4 && v@[5]@ == sf.v5
                &&& v@[6]@ == sf.v6 && v@[7]@ == sf.v7 && v@[8]@ == sf.v8
                &&& s@[0]@ == fsqrt(if fmul(nrm, sf.m0) >= 0 { fmul(nrm, sf.m0) } else { 0 })
                &&& s@[1]@ == fsqrt(if fmul(nrm, sf.m1) >= 0 { fmul(nrm, sf.m1) } else { 0 })
                &&& s@[2]@ == fsqrt(if fmul(nrm, sf.m2) >= 0 { fmul(nrm, sf.m2) } else { 0 })
            })
        },
{
    let g = gram_of(f);
    let eig = match mode {
        EigenDecompositionModes::JacobiNumIter(nitr) => crate::mat3_sym::eigen_decomp(g, nitr),
        EigenDecompositionModes::Analytic => crate::mat3_sym::eigen_decomp_analytic(g),
    };
    let (v, lam) = match eig {
        Some(x) => x,
        None => {
            return None;
        },
    };
    let zero = Fix::zero();
    let s = [lam[0].max(zero).sqrt(), lam[1].max(zero).sqrt(), lam[2].max(zero).sqrt()];
    let w0 = image_col(f, &v, 0);
    let w1 = image_col(f, &v, 1);
    let w2 = image_col(f, &v, 2);
    let n0 = Vec3::norm(&w0);
    let n1 = Vec3::norm(&w1);
    let n2 = Vec3::norm(&w2);
    let tol = Fix::from_raw(IMAGE_TOL_RAW);
    let g0 = n0.gt(tol);
    let g1 = n1.gt(tol);
    let g2 = n2.gt(tol);
    proof {
        assert(n0@ == wnorm(f@, v@, 0));
        assert(n1@ == wnorm(f@, v@, 1));
        assert(n2@ == wnorm(f@, v@, 2));
    }
    let u = if g0 && g1 && g2 {
        let u0 = norm_image(&w0, n0);
        let u1 = norm_image(&w1, n1);
        let u2 = norm_image(&w2, n2);
        if s[0].le(s[1]) && s[0].le(s[2]) {
            let c = signed_cross(&u1, &u2, &w0);
            assemble(&c, &u1, &u2)
        } else if s[1].le(s[2]) {
            let c = signed_cross(&u2, &u0, &w1);
            assemble(&u0, &c, &u2)
        } else {
            let c = signed_cross(&u0, &u1, &w2);
            assemble(&u0, &u1, &c)
        }
    } else if g0 && g1 {
        let u0 = norm_image(&w0, n0);
        let u1 = norm_image(&w1, n1);
        let c = cross_unit(&u0, &u1);
        assemble(&u0, &u1, &c)
    } else if g1 && g2 {
        let u1 = norm_image(&w1, n1);
        let u2 = norm_image(&w2, n2);
        let c = cross_unit(&u1, &u2);
        assemble(&c, &u1, &u2)
    } else if g2 && g0 {
        let u2 = norm_image(&w2, n2);
        let u0 = norm_image(&w0, n0);
        let c = cross_unit(&u2, &u0);
        assemble(&u0, &c, &u2)
    } else if g0 {
        let u0 = norm_image(&w0, n0);
        let fr = crate::vec3::frame_from_z_vector(u0);
        assemble(&u0, &fr.0, &fr.1)
    } else if g1 {
        let u1 = norm_image(&w1, n1);
        let fr = crate::vec3::frame_from_z_vector(u1);
        assemble(&fr.1, &u1, &fr.0)
    } else if g2 {
        let u2 = norm_image(&w2, n2);
        let fr = crate::vec3::frame_from_z_vector(u2);
        assemble(&fr.0, &fr.1, &u2)
    } else {
        from_identity()
    };
    proof {
        assert(u_cols_ok(f@, u@, s@, v@));
    }
    Some((u, s, v))
}

/// The row-major matrix with the given columns.
fn assemble(c0: &[Fix; 3], c1: &[Fix; 3], c2: &[Fix; 3]) -> (r: [Fix; 9])
    ensures
        forall|i: int| 0 <= i < 3 ==> at_row(r@, i, 0) == c0@[i]@,
        forall|i: int| 0 <= i < 3 ==> at_row(r@, i, 1) == c1@[i]@,
        forall|i: int| 0 <= i < 3 ==> at_row(r@, i, 2) == c2@[i]@,
{
    [c0[0], c1[0], c2[0], c0[1], c1[1], c2[1], c0[2], c1[2], c2[2]]
}

/// The normalized cross product of two columns, negated when it points away
/// from the reference image vector.
fn signed_cross(ua: &[Fix; 3], ub: &[Fix; 3], w: &[Fix; 3]) -> (r: [Fix; 3])
    ensures
        ({
            let c0 = fsub(fmul(ua@[1]@, ub@[2]@), fmul(ua@[2]@, ub@[1]@));
            let c1 = fsub(fmul(ua@[2]@, ub@[0]@), fmul(ua@[0]@, ub@[2]@));
            let c2 = fsub(fmul(ua@[0]@, ub@[1]@), fmul(ua@[1]@, ub@[0]@));
            let nn = fdiv(
                SCALE as int,
                fsqrt(fadd(fadd(fmul(c0, c0), fmul(c1, c1)), fmul(c2, c2))),
            );
            let d = fadd(
                fadd(fmul(fmul(c0, nn), w@[0]@), fmul(fmul(c1, nn), w@[1]@)),
                fmul(fmul(c2, nn), w@[2]@),
            );
            &&& r@[0]@ == if d < 0 {
                -fmul(c0, nn)
            } else {
                fmul(c0, nn)
            }
            &&& r@[1]@ == if d < 0 {
                -fmul(c1, nn)
            } else {
                fmul(c1, nn)
            }
            &&& r@[2]@ == if d < 0 {
                -fmul(c2, nn)
            } else {
                fmul(c2, nn)
            }
        }),
{
    let c = cross_unit(ua, ub);
    let d = c[0].mul(w[0]).add(c[1].mul(w[1])).add(c[2].mul(w[2]));
    if d.lt(Fix::zero()) {
        [c[0].neg(), c[1].neg(), c[2].neg()]
    } else {
        c
    }
}

/// Raw value of the entry `(k, l)` of the rotated perturbation: the image of
/// the unit perturbation of input entry `(i, j)` in the singular bases.
pub open spec fn dkl(u: Seq<Fix>, v: Seq<Fix>, i: int, j: int, k: int, l: int) -> int {
    fmul(at_row(u, i, k), at_row(v, j, l))
}

/// Raw value of the left rotation generator coefficient for the axis pair
/// `(k, l)` under the unit perturbation of input entry `(i, j)`: the
/// solution of the two-by-two system built from the singular values.
pub open spec fn omega_u(
    u: Seq<Fix>,
    s: Seq<Fix>,
    v: Seq<Fix>,
    i: int,
    j: int,
    k: int,
    l: int,
) -> int {
    fdiv(
        fadd(fmul(s[l]@, dkl(u, v, i, j, k, l)), fmul(s[k]@, dkl(u, v, i, j, l, k))),
        fsub(fmul(s[l]@, s[l]@), fmul(s[k]@, s[k]@)),
    )
}

/// Raw value of the right rotation generator coefficient for the axis pair
/// `(k, l)`.
pub open spec fn omega_v(
    u: Seq<Fix>,
    s: Seq<Fix>,
    v: Seq<Fix>,
    i: int,
    j: int,
    k: int,
    l: int,
) -> int {
    fdiv(
        fadd(fmul(s[k]@, dkl(u, v, i, j, k, l)), fmul(s[l]@, dkl(u, v, i, j, l, k))),
        fsub(fmul(s[l]@, s[l]@), fmul(s[k]@, s[k]@)),
    )
}

/// The analytic Jacobian of the singular value decomposition of a row-major
/// matrix with factors `u`, `s`, `v`: for each of the nine input entries,
/// the infinitesimal rotation of each factor as the three coefficients of a
/// skew-symmetric generator, and the sensitivity of each singular value.
/// The formulas assume distinct, nonzero singular values; coinciding or
/// vanishing singular values make the two-by-two systems singular, and the
/// quotients then saturate.
///
/// Returns `(diff_u, diff_s, diff_v)`, each indexed `[component][entry]`.
pub fn svd_differential(u: [Fix; 9], s: [Fix; 3], v: [Fix; 9]) -> (r: (
    [[Fix; 9]; 3],
    [[Fix; 9]; 3],
    [[Fix; 9]; 3],
))
    ensures
        forall|n: int| 0 <= n < 9 ==> #[trigger] r.0@[0]@[n]@ == omega_u(u@, s@, v@, n / 3, n % 3, 1, 2),
        forall|n: int| 0 <= n < 9 ==> #[trigger] r.0@[1]@[n]@ == -omega_u(u@, s@, v@, n / 3, n % 3, 0, 2),
        forall|n: int| 0 <= n < 9 ==> #[trigger] r.0@[2]@[n]@ == omega_u(u@, s@, v@, n / 3, n % 3, 0, 1),
        forall|n: int| 0 <= n < 9 ==> #[trigger] r.1@[0]@[n]@ == dkl(u@, v@, n / 3, n % 3, 0, 0),
        forall|n: int| 0 <= n < 9 ==> #[trigger] r.1@[1]@[n]@ == dkl(u@, v@, n / 3, n % 3, 1, 1),
        forall|n: int| 0 <= n < 9 ==> #[trigger] r.1@[2]@[n]@ == dkl(u@, v@, n / 3, n % 3, 2, 2),
        forall|n: int| 0 <= n < 9 ==> #[trigger] r.2@[0]@[n]@ == omega_v(u@, s@, v@, n / 3, n % 3, 1, 2),
        forall|n: int| 0 <= n < 9 ==> #[trigger] r.2@[1]@[n]@ == -omega_v(u@, s@, v@, n / 3, n % 3, 0, 2),
        forall|n: int| 0 <= n < 9 ==> #[trigger] r.2@[2]@[n]@ == omega_v(u@, s@, v@, n / 3, n % 3, 0, 1),
{
    let zero = Fix::zero();
    let mut du0 = [zero; 9];
    let mut du1 = [zero; 9];
    let mut du2 = [zero; 9];
    let mut ds0 = [zero; 9];
    let mut ds1 = [zero; 9];
    let mut ds2 = [zero; 9];
    let mut dv0 = [zero; 9];
    let mut dv1 = [zero; 9];
    let mut dv2 = [zero; 9];
    let mut n: usize = 0;
    while n < 9
        invariant
            n <= 9,
            forall|m: int| 0 <= m < n ==> #[trigger] du0@[m]@ == omega_u(u@, s@, v@, m / 3, m % 3, 1, 2),
            forall|m: int| 0 <= m < n ==> #[trigger] du1@[m]@ == -omega_u(u@, s@, v@, m / 3, m % 3, 0, 2),
            forall|m: int| 0 <= m < n ==> #[trigger] du2@[m]@ == omega_u(u@, s@, v@, m / 3, m % 3, 0, 1),
            forall|m: int| 0 <= m < n ==> #[trigger] ds0@[m]@ == dkl(u@, v@, m / 3, m % 3, 0, 0),
            forall|m: int| 0 <= m < n ==> #[trigger] ds1@[m]@ == dkl(u@, v@, m / 3, m % 3, 1, 1),
            forall|m: int| 0 <= m < n ==> #[trigger] ds2@[m]@ == dkl(u@, v@, m / 3, m % 3, 2, 2),
            forall|m: int| 0 <= m < n ==> #[trigger] dv0@[m]@ == omega_v(u@, s@, v@, m / 3, m % 3, 1, 2),
            forall|m: int| 0 <= m < n ==> #[trigger] dv1@[m]@ == -omega_v(u@, s@, v@, m / 3, m % 3, 0, 2),
            forall|m: int| 0 <= m < n ==> #[trigger] dv2@[m]@ == omega_v(u@, s@, v@, m / 3, m % 3, 0, 1),
        decreases 9 - n,
    {
        let i = n / 3;
        let j = n % 3;
        ds0[n] = u[i * 3].mul(v[j * 3]);
        ds1[n] = u[i * 3 + 1].mul(v[j * 3 + 1]);
        ds2[n] = u[i * 3 + 2].mul(v[j * 3 + 2]);
        let d12 = u[i * 3 + 1].mul(v[j * 3 + 2]);
        let d21 = u[i * 3 + 2].mul(v[j * 3 + 1]);
        let den12 = s[2].mul(s[2]).sub(s[1].mul(s[1]));
        du0[n] = s[2].mul(d12).add(s[1].mul(d21)).div(den12);
        dv0[n] = s[1].mul(d12).add(s[2].mul(d21)).div(den12);
        let d02 = u[i * 3].mul(v[j * 3 + 2]);
        let d20 = u[i * 3 + 2].mul(v[j * 3]);
        let den02 = s[2].mul(s[2]).sub(s[0].mul(s[0]));
        du1[n] = s[2].mul(d02).add(s[0].mul(d20)).div(den02).neg();
        dv1[n] = s[0].mul(d02).add(s[2].mul(d20)).div(den02).neg();
        let d01 = u[i * 3].mul(v[j * 3 + 1]);
        let d10 = u[i * 3 + 1].mul(v[j * 3]);
        let den01 = s[1].mul(s[1]).sub(s[0].mul(s[0]));
        du2[n] = s[1].mul(d01).add(s[0].mul(d10)).div(den01);
        dv2[n] = s[0].mul(d01).add(s[1].mul(d10)).div(den01);
        n = n + 1;
    }
    ([du0, du1, du2], [ds0, ds1, ds2], [dv0, dv1, dv2])
}

} // verus!
