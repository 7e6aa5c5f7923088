//! Eigendecomposition of a packed symmetric 3x3 matrix.
//!
//! The packed layout stores the three diagonal entries first and then the
//! off-diagonal entries `(1,2)`, `(2,0)`, `(0,1)` once each:
//! `[m00, m11, m22, m12, m20, m01]`.

use crate::fx::{fadd, fdiv, fmul, fsqrt, fsub, mag, raws, Fix, SCALE};
use vstd::prelude::*;

verus! {

/// How the symmetric eigendecomposition inside the SVD engine is computed.
pub enum EigenDecompositionModes {
    /// Run exactly this many cyclic Jacobi rotations.
    JacobiNumIter(usize),
    /// Solve the characteristic polynomial directly.
    Analytic,
}

/// Raw value of the saturating squared Frobenius norm of a packed symmetric
/// matrix (off-diagonal entries count twice).
pub open spec fn sym_sq_norm(sm: Seq<int>) -> int {
    fadd(
        fadd(fadd(fmul(sm[0], sm[0]), fmul(sm[1], sm[1])), fmul(sm[2], sm[2])),
        fmul(
            2 * (SCALE as int),
            fadd(fadd(fmul(sm[3], sm[3]), fmul(sm[4], sm[4])), fmul(sm[5], sm[5])),
        ),
    )
}

/// The state of the Jacobi iteration: the packed working matrix and the
/// accumulated eigenvector matrix, all as raw fixed-point values.  The
/// eigenvector matrix is stored row major; its columns are the eigenvectors.
#[verifier::ext_equal]
pub struct JacobiState {
    pub m0: int,
    pub m1: int,
    pub m2: int,
    pub m3: int,
    pub m4: int,
    pub m5: int,
    pub v0: int,
    pub v1: int,
    pub v2: int,
    pub v3: int,
    pub v4: int,
    pub v5: int,
    pub v6: int,
    pub v7: int,
    pub v8: int,
}

/// The cosine and sine of the Givens half angle for off-diagonal value `y`
/// and diagonal difference `x`: the pair `(c, s)` with `c >= 0` such that
/// `c^2 - s^2 = x / h` and `2 c s = y / h` where `h = sqrt(x^2 + y^2)`.
/// A vanishing `y` gives the identity rotation or an exact quarter turn;
/// otherwise the inputs are rescaled by the larger magnitude, the smaller of
/// the two half-angle components comes from the double-angle identity and
/// the larger from its square root, the numerically stable pairing.
pub open spec fn givens(y: int, x: int) -> (int, int) {
    let s = SCALE as int;
    if y == 0 {
        if x >= 0 {
            (s, 0)
        } else {
            (0, s)
        }
    } else {
        let a = if mag(x) >= mag(y) {
            mag(x)
        } else {
            mag(y)
        };
        let xs = fdiv(x, a);
        let ys = fdiv(y, a);
        let h = fsqrt(fadd(fmul(xs, xs), fmul(ys, ys)));
        if h == 0 {
            (s, 0)
        } else {
            let c2 = fdiv(xs, h);
            let s2 = fdiv(ys, h);
            if c2 >= 0 {
                let ct = fsqrt(fmul(fadd(s, c2), s / 2));
                (ct, fdiv(s2, fmul(2 * s, ct)))
            } else {
                let stm = fsqrt(fmul(fsub(s, c2), s / 2));
                let st = if y >= 0 {
                    stm
                } else {
                    -stm
                };
                (fdiv(s2, fmul(2 * s, st)), st)
            }
        }
    }
}

/// One cyclic Jacobi rotation: annihilate the largest-magnitude off-diagonal
/// entry (ties broken in the order `(1,2)`, `(2,0)`, `(0,1)`) and accumulate
/// the rotation into the eigenvector matrix.
pub open spec fn jacobi_step(s: JacobiState) -> JacobiState {
    let a12 = mag(s.m3);
    let a20 = mag(s.m4);
    let a01 = mag(s.m5);
    let two = 2 * (SCALE as int);
    if a12 >= a20 && a12 >= a01 {
        let g = givens(fmul(two, s.m3), fsub(s.m2, s.m1));
        let ct = g.0;
        let st = g.1;
        JacobiState {
            m1: fsub(
                fadd(fmul(fmul(ct, ct), s.m1), fmul(fmul(st, st), s.m2)),
                fmul(fmul(fmul(two, st), ct), s.m3),
            ),
            m2: fadd(
                fadd(fmul(fmul(ct, ct), s.m2), fmul(fmul(st, st), s.m1)),
                fmul(fmul(fmul(two, st), ct), s.m3),
            ),
            m3: 0,
            m4: fadd(fmul(st, s.m5), fmul(ct, s.m4)),
            m5: fsub(fmul(ct, s.m5), fmul(st, s.m4)),
            v1: fsub(fmul(ct, s.v1), fmul(st, s.v2)),
            v2: fadd(fmul(st, s.v1), fmul(ct, s.v2)),
            v4: fsub(fmul(ct, s.v4), fmul(st, s.v5)),
            v5: fadd(fmul(st, s.v4), fmul(ct, s.v5)),
            v7: fsub(fmul(ct, s.v7), fmul(st, s.v8)),
            v8: fadd(fmul(st, s.v7), fmul(ct, s.v8)),
            ..s
        }
    } else if a20 >= a01 && a20 >= a12 {
        let g = givens(fmul(two, s.m4), fsub(s.m2, s.m0));
        let ct = g.0;
        let st = g.1;
        JacobiState {
            m0: fsub(
                fadd(fmul(fmul(ct, ct), s.m0), fmul(fmul(st, st), s.m2)),
                fmul(fmul(fmul(two, st), ct), s.m4),
            ),
            m2: fadd(
                fadd(fmul(fmul(ct, ct), s.m2), fmul(fmul(st, st), s.m0)),
                fmul(fmul(fmul(two, st), ct), s.m4),
            ),
            m3: fadd(fmul(st, s.m5), fmul(ct, s.m3)),
            m4: 0,
            m5: fsub(fmul(ct, s.m5), fmul(st, s.m3)),
            v0: fsub(fmul(ct, s.v0), fmul(st, s.v2)),
            v2: fadd(fmul(st, s.v0), fmul(ct, s.v2)),
            v3: fsub(fmul(ct, s.v3), fmul(st, s.v5)),
            v5: fadd(fmul(st, s.v3), fmul(ct, s.v5)),
            v6: fsub(fmul(ct, s.v6), fmul(st, s.v8)),
            v8: fadd(fmul(st, s.v6), fmul(ct, s.v8)),
            ..s
        }
    } else {
        let g = givens(fmul(two, s.m5), fsub(s.m1, s.m0));
        let ct = g.0;
        let st = g.1;
        JacobiState {
            m0: fsub(
                fadd(fmul(fmul(ct, ct), s.m0), fmul(fmul(st, st), s.m1)),
                fmul(fmul(fmul(two, st), ct), s.m5),
            ),
            m1: fadd(
                fadd(fmul(fmul(ct, ct), s.m1), fmul(fmul(st, st), s.m0)),
                fmul(fmul(fmul(two, st), ct), s.m5),
            ),
            m3: fadd(fmul(st, s.m4), fmul(ct, s.m3)),
            m4: fsub(fmul(ct, s.m4), fmul(st, s.m3)),
            m5: 0,
            v0: fsub(fmul(ct, s.v0), fmul(st, s.v1)),
            v1: fadd(fmul(st, s.v0), fmul(ct, s.v1)),
            v3: fsub(fmul(ct, s.v3), fmul(st, s.v4)),
            v4: fadd(fmul(st, s.v3), fmul(ct, s.v4)),
            v6: fsub(fmul(ct, s.v6), fmul(st, s.v7)),
            v7: fadd(fmul(st, s.v6), fmul(ct, s.v7)),
            ..s
        }
    }
}

/// `n` Jacobi rotations applied to a state.
pub open spec fn jacobi_iter(s: JacobiState, n: nat) -> JacobiState
    decreases n,
{
    if n == 0 {
        s
    } else {
        jacobi_step(jacobi_iter(s, (n - 1) as nat))
    }
}

/// The state abstracted from the executable working values.
pub open spec fn jacobi_abs(sms: Seq<Fix>, u: Seq<Fix>) -> JacobiState {
    JacobiState {
        m0: sms[0]@,
        m1: sms[1]@,
        m2: sms[2]@,
        m3: sms[3]@,
        m4: sms[4]@,
        m5: sms[5]@,
        v0: u[0]@,
        v1: u[1]@,
        v2: u[2]@,
        v3: u[3]@,
        v4: u[4]@,
        v5: u[5]@,
        v6: u[6]@,
        v7: u[7]@,
        v8: u[8]@,
    }
}

/// The state the Jacobi iteration starts from: the packed matrix scaled by
/// the reciprocal of its Frobenius norm, and the identity eigenvector matrix.
pub open spec fn jacobi_start(sm: Seq<int>) -> JacobiState {
    let inv = fdiv(SCALE as int, fsqrt(sym_sq_norm(sm)));
    JacobiState {
        m0: fmul(sm[0], inv),
        m1: fmul(sm[1], inv),
        m2: fmul(sm[2], inv),
        m3: fmul(sm[3], inv),
        m4: fmul(sm[4], inv),
        m5: fmul(sm[5], inv),
        v0: SCALE as int,
        v1: 0,
        v2: 0,
        v3: 0,
        v4: SCALE as int,
        v5: 0,
        v6: 0,
        v7: 0,
        v8: SCALE as int,
    }
}

/// The saturating squared Frobenius norm of a packed symmetric matrix.
fn squared_norm(sm: &[Fix; 6]) -> (r: Fix)
    ensures
        r@ == sym_sq_norm(raws(sm@)),
{
    let two = Fix::two();
    sm[0].mul(sm[0]).add(sm[1].mul(sm[1])).add(sm[2].mul(sm[2])).add(
        two.mul(sm[3].mul(sm[3]).add(sm[4].mul(sm[4])).add(sm[5].mul(sm[5]))),
    )
}

/// The cosine and sine of the Givens half angle, matching [`givens`].
fn givens_pair(y: Fix, x: Fix) -> (r: (Fix, Fix))
    ensures
        (r.0@, r.1@) == givens(y@, x@),
{
    let zero = Fix::zero();
    let one = Fix::one();
    let two = Fix::two();
    let half = Fix::half();
    if y.is_zero() {
        if x.ge(zero) {
            return (one, zero);
        } else {
            return (zero, one);
        }
    }
    let a = x.abs().max(y.abs());
    let xs = x.div(a);
    let ys = y.div(a);
    let h = xs.mul(xs).add(ys.mul(ys)).sqrt();
    if h.is_zero() {
        return (one, zero);
    }
    let c2 = xs.div(h);
    let s2 = ys.div(h);
    if c2.ge(zero) {
        let ct = one.add(c2).mul(half).sqrt();
        (ct, s2.div(two.mul(ct)))
    } else {
        let stm = one.sub(c2).mul(half).sqrt();
        let st = if y.ge(zero) {
            stm
        } else {
            stm.neg()
        };
        (s2.div(two.mul(st)), st)
    }
}

/// The Jacobi rotation annihilating off-diagonal entry (1,2),
/// applicable when that entry has the largest magnitude.
#[verifier::rlimit(100)]
fn jacobi_rotate_12(m: &[Fix; 6], v: &[Fix; 9]) -> (r: ([Fix; 6], [Fix; 9]))
    requires
        mag(m@[3]@) >= mag(m@[4]@),
        mag(m@[3]@) >= mag(m@[5]@),
    ensures
        jacobi_abs(r.0@, r.1@) == jacobi_step(jacobi_abs(m@, v@)),
{
    let two = Fix::two();
    let (ct, st) = givens_pair(two.mul(m[3]), m[2].sub(m[1]));
    let nm1 = ct.mul(ct).mul(m[1]).add(st.mul(st).mul(m[2])).sub(two.mul(st).mul(ct).mul(m[3]));
    let nm2 = ct.mul(ct).mul(m[2]).add(st.mul(st).mul(m[1])).add(two.mul(st).mul(ct).mul(m[3]));
    let nm4 = st.mul(m[5]).add(ct.mul(m[4]));
    let nm5 = ct.mul(m[5]).sub(st.mul(m[4]));
    let sms = [m[0], nm1, nm2, Fix::zero(), nm4, nm5];
    let u = [
        v[0],
        ct.mul(v[1]).sub(st.mul(v[2])),
        st.mul(v[1]).add(ct.mul(v[2])),
        v[3],
        ct.mul(v[4]).sub(st.mul(v[5])),
        st.mul(v[4]).add(ct.mul(v[5])),
        v[6],
        ct.mul(v[7]).sub(st.mul(v[8])),
        st.mul(v[7]).add(ct.mul(v[8])),
    ];
    proof {
        assert(jacobi_abs(sms@, u@) =~= jacobi_step(jacobi_abs(m@, v@)));
    }
    (sms, u)
}

/// The Jacobi rotation annihilating off-diagonal entry (2,0),
/// applicable when that entry has the largest magnitude.
#[verifier::rlimit(100)]
fn jacobi_rotate_20(m: &[Fix; 6], v: &[Fix; 9]) -> (r: ([Fix; 6], [Fix; 9]))
    requires
        !(mag(m@[3]@) >= mag(m@[4]@) && mag(m@[3]@) >= mag(m@[5]@)),
        mag(m@[4]@) >= mag(m@[5]@),
        mag(m@[4]@) >= mag(m@[3]@),
    ensures
        jacobi_abs(r.0@, r.1@) == jacobi_step(jacobi_abs(m@, v@)),
{
    let two = Fix::two();
    let (ct, st) = givens_pair(two.mul(m[4]), m[2].sub(m[0]));
    let nm0 = ct.mul(ct).mul(m[0]).add(st.mul(st).mul(m[2])).sub(two.mul(st).mul(ct).mul(m[4]));
    let nm2 = ct.mul(ct).mul(m[2]).add(st.mul(st).mul(m[0])).add(two.mul(st).mul(ct).mul(m[4]));
    let nm3 = st.mul(m[5]).add(ct.mul(m[3]));
    let nm5 = ct.mul(m[5]).sub(st.mul(m[3]));
    let sms = [nm0, m[1], nm2, nm3, Fix::zero(), nm5];
    let u = [
        ct.mul(v[0]).sub(st.mul(v[2])),
        v[1],
        st.mul(v[0]).add(ct.mul(v[2])),
        ct.mul(v[3]).sub(st.mul(v[5])),
        v[4],
        st.mul(v[3]).add(ct.mul(v[5])),
        ct.mul(v[6]).sub(st.mul(v[8])),
        v[7],
        st.mul(v[6]).add(ct.mul(v[8])),
    ];
    proof {
        assert(jacobi_abs(sms@, u@) =~= jacobi_step(jacobi_abs(m@, v@)));
    }
    (sms, u)
}

/// The Jacobi rotation annihilating off-diagonal entry (0,1),
/// applicable when that entry has the largest magnitude.
#[verifier::rlimit(100)]
fn jacobi_rotate_01(m: &[Fix; 6], v: &[Fix; 9]) -> (r: ([Fix; 6], [Fix; 9]))
    requires
        !(mag(m@[3]@) >= mag(m@[4]@) && mag(m@[3]@) >= mag(m@[5]@)),
        !(mag(m@[4]@) >= mag(m@[5]@) && mag(m@[4]@) >= mag(m@[3]@)),
    ensures
        jacobi_abs(r.0@, r.1@) == jacobi_step(jacobi_abs(m@, v@)),
{
    let two = Fix::two();
    let (ct, st) = givens_pair(two.mul(m[5]), m[1].sub(m[0]));
    let nm0 = ct.mul(ct).mul(m[0]).add(st.mul(st).mul(m[1])).sub(two.mul(st).mul(ct).mul(m[5]));
    let nm1 = ct.mul(ct).mul(m[1]).add(st.mul(st).mul(m[0])).add(two.mul(st).mul(ct).mul(m[5]));
    let nm3 = st.mul(m[4]).add(ct.mul(m[3]));
    let nm4 = ct.mul(m[4]).sub(st.mul(m[3]));
    let sms = [nm0, nm1, m[2], nm3, nm4, Fix::zero()];
    let u = [
        ct.mul(v[0]).sub(st.mul(v[1])),
        st.mul(v[0]).add(ct.mul(v[1])),
        v[2],
        ct.mul(v[3]).sub(st.mul(v[4])),
        st.mul(v[3]).add(ct.mul(v[4])),
        v[5],
        ct.mul(v[6]).sub(st.mul(v[7])),
        st.mul(v[6]).add(ct.mul(v[7])),
        v[8],
    ];
    proof {
        assert(jacobi_abs(sms@, u@) =~= jacobi_step(jacobi_abs(m@, v@)));
    }
    (sms, u)
}

/// Exactly `nitr` cyclic Jacobi rotations applied to a working matrix and
/// an accumulated eigenvector matrix.
pub fn jacobi_loop(sms0: [Fix; 6], u0: [Fix; 9], nitr: usize) -> (r: ([Fix; 6], [Fix; 9]))
    ensures
        jacobi_abs(r.0@, r.1@) == jacobi_iter(jacobi_abs(sms0@, u0@), nitr as nat),
{
    let mut sms = sms0;
    let mut u = u0;
    let ghost s0 = jacobi_abs(sms0@, u0@);
    let mut itr: usize = 0;
    while itr < nitr
        invariant
            itr <= nitr,
            jacobi_abs(sms@, u@) == jacobi_iter(s0, itr as nat),
        decreases nitr - itr,
    {
        let a12 = sms[3].abs();
        let a20 = sms[4].abs();
        let a01 = sms[5].abs();
        let next = if a12.ge(a20) && a12.ge(a01) {
            jacobi_rotate_12(&sms, &u)
        } else if a20.ge(a01) && a20.ge(a12) {
            jacobi_rotate_20(&sms, &u)
        } else {
            jacobi_rotate_01(&sms, &u)
        };
        sms = next.0;
        u = next.1;
        itr = itr + 1;
    }
    (sms, u)
}

/// Eigendecomposition of a packed symmetric 3x3 matrix by `nitr` cyclic
/// Jacobi rotations.
///
/// Returns `None` exactly when the squared Frobenius norm of the input is
/// below one quantum (a degenerate, near-zero matrix has no meaningful
/// eigenbasis).  Otherwise returns `Some((u, l))`: the row-major eigenvector
/// matrix `u`, whose columns are the accumulated rotations applied to the
/// identity, and the eigenvalue triple `l`, the final working diagonal
/// rescaled by the input's Frobenius norm.  The result is pinned down
/// exactly by the [`jacobi_iter`] recurrence.
pub fn eigen_decomp(sm: [Fix; 6], nitr: usize) -> (r: Option<([Fix; 9], [Fix; 3])>)
    ensures
        r is Some <==> sym_sq_norm(raws(sm@)) >= 1,
        r matches Some((u, l)) ==> {
            let sf = jacobi_iter(jacobi_start(raws(sm@)), nitr as nat);
            &&& u@[0]@ == sf.v0
            &&& u@[1]@ == sf.v1
            &&& u@[2]@ == sf.v2
            &&& u@[3]@ == sf.v3
            &&& u@[4]@ == sf.v4
            &&& u@[5]@ == sf.v5
            &&& u@[6]@ == sf.v6
            &&& u@[7]@ == sf.v7
            &&& u@[8]@ == sf.v8
            &&& l@[0]@ == fmul(fsqrt(sym_sq_norm(raws(sm@))), sf.m0)
            &&& l@[1]@ == fmul(fsqrt(sym_sq_norm(raws(sm@))), sf.m1)
            &&& l@[2]@ == fmul(fsqrt(sym_sq_norm(raws(sm@))), sf.m2)
        },
{
    let zero = Fix::zero();
    let one = Fix::one();
    let u = [one, zero, zero, zero, one, zero, zero, zero, one];
    let dnrm = squared_norm(&sm);
    if dnrm.lt(Fix::epsilon()) {
        return None;
    }
    let scale = dnrm.sqrt();
    let invscl = one.div(scale);
    let sms = [
        sm[0].mul(invscl),
        sm[1].mul(invscl),
        sm[2].mul(invscl),
        sm[3].mul(invscl),
        sm[4].mul(invscl),
        sm[5].mul(invscl),
    ];
    proof {
        assert(jacobi_abs(sms@, u@) =~= jacobi_start(raws(sm@)));
    }
    let r = jacobi_loop(sms, u, nitr);
    let sms = r.0;
    let u = r.1;
    let l = [scale.mul(sms[0]), scale.mul(sms[1]), scale.mul(sms[2])];
    Some((u, l))
}

/// Raw value of the characteristic polynomial of a normalized packed
/// symmetric matrix with trace `tr`, second invariant `q` and determinant
/// `dt`, evaluated at `lam` by the Horner scheme.
pub open spec fn char_poly_at(tr: int, q: int, dt: int, lam: int) -> int {
    fadd(fmul(fsub(fmul(fadd(-lam, tr), lam), q), lam), dt)
}

/// The characteristic polynomial, executably.
fn char_poly(tr: Fix, q: Fix, dt: Fix, lam: Fix) -> (r: Fix)
    ensures
        r@ == char_poly_at(tr@, q@, dt@, lam@),
{
    lam.neg().add(tr).mul(lam).sub(q).mul(lam).add(dt)
}

/// One bisection step on a decreasing crossing of the characteristic
/// polynomial: keep the half of the bracket on which the sign still flips.
pub open spec fn bisect_dec_step(tr: int, q: int, dt: int, ab: (int, int)) -> (int, int) {
    let mid = fmul(fadd(ab.0, ab.1), (SCALE as int) / 2);
    if char_poly_at(tr, q, dt, mid) >= 0 {
        (mid, ab.1)
    } else {
        (ab.0, mid)
    }
}

/// `n` bisection steps on a decreasing crossing.
pub open spec fn bisect_dec_iter(tr: int, q: int, dt: int, ab: (int, int), n: nat) -> (int, int)
    decreases n,
{
    if n == 0 {
        ab
    } else {
        bisect_dec_step(tr, q, dt, bisect_dec_iter(tr, q, dt, ab, (n - 1) as nat))
    }
}

/// The midpoint after sixty bisection steps on a decreasing crossing.
pub open spec fn bisect_dec_root(tr: int, q: int, dt: int, a: int, b: int) -> int {
    let ab = bisect_dec_iter(tr, q, dt, (a, b), 60);
    fmul(fadd(ab.0, ab.1), (SCALE as int) / 2)
}

/// The root of the characteristic polynomial inside `[a, b]`, found by a
/// fixed number of bisection steps; on `[a, b]` the polynomial is taken as
/// nonnegative at `a` and nonpositive at `b` (a decreasing crossing).
fn bisect_dec(tr: Fix, q: Fix, dt: Fix, a0: Fix, b0: Fix) -> (r: Fix)
    ensures
        r@ == bisect_dec_root(tr@, q@, dt@, a0@, b0@),
{
    let half = Fix::half();
    let mut a = a0;
    let mut b = b0;
    let mut i: usize = 0;
    while i < 60
        invariant
            i <= 60,
            half@ == (SCALE as int) / 2,
            (a@, b@) == bisect_dec_iter(tr@, q@, dt@, (a0@, b0@), i as nat),
        decreases 60 - i,
    {
        let mid = a.add(b).mul(half);
        if char_poly(tr, q, dt, mid).ge(Fix::zero()) {
            a = mid;
        } else {
            b = mid;
        }
        i = i + 1;
    }
    a.add(b).mul(half)
}

/// Raw components of the eigenvector [`sym_eigvec`] constructs.
pub open spec fn eigvec_of(m: Seq<int>, lam: int) -> Seq<int> {
    let b0 = seq![fsub(m[0], lam), m[5], m[4]];
    let b1 = seq![m[5], fsub(m[1], lam), m[3]];
    let b2 = seq![m[4], m[3], fsub(m[2], lam)];
    let c01 = crate::edge3::rcross3(b0, b1);
    let c12 = crate::edge3::rcross3(b1, b2);
    let c20 = crate::edge3::rcross3(b2, b0);
    let n01 = crate::edge3::rdot3(c01, c01);
    let n12 = crate::edge3::rdot3(c12, c12);
    let n20 = crate::edge3::rdot3(c20, c20);
    let best1 = if n12 > n01 {
        c12
    } else {
        c01
    };
    let nb1 = if n12 > n01 {
        n12
    } else {
        n01
    };
    let best = if n20 > nb1 {
        c20
    } else {
        best1
    };
    let nb = if n20 > nb1 {
        n20
    } else {
        nb1
    };
    if nb <= 1 {
        seq![SCALE as int, 0int, 0int]
    } else {
        let mc1 = if mag(best[0]) >= mag(best[1]) {
            mag(best[0])
        } else {
            mag(best[1])
        };
        let mc = if mc1 >= mag(best[2]) {
            mc1
        } else {
            mag(best[2])
        };
        let s0 = fdiv(best[0], mc);
        let s1 = fdiv(best[1], mc);
        let s2 = fdiv(best[2], mc);
        let n = fsqrt(fadd(fadd(fmul(s0, s0), fmul(s1, s1)), fmul(s2, s2)));
        seq![fdiv(s0, n), fdiv(s1, n), fdiv(s2, n)]
    }
}

/// An eigenvector of the normalized packed symmetric matrix `m` for the
/// eigenvalue `lam`: the largest of the three cross products of pairs of
/// columns of `m - lam I`, scaled by its largest component and normalized by
/// direct division.  A vanishing cross product (a repeated eigenvalue) falls
/// back to the first basis vector.
fn sym_eigvec(m: &[Fix; 6], lam: Fix) -> (r: [Fix; 3])
    ensures
        raws(r@) =~= eigvec_of(raws(m@), lam@),
{
    let b0 = [m[0].sub(lam), m[5], m[4]];
    let b1 = [m[5], m[1].sub(lam), m[3]];
    let b2 = [m[4], m[3], m[2].sub(lam)];
    let c01 = crate::vec3::cross(&b0, &b1);
    let c12 = crate::vec3::cross(&b1, &b2);
    let c20 = crate::vec3::cross(&b2, &b0);
    let n01 = crate::vec3::Vec3::squared_norm(&c01);
    let n12 = crate::vec3::Vec3::squared_norm(&c12);
    let n20 = crate::vec3::Vec3::squared_norm(&c20);
    let mut best = c01;
    let mut nb = n01;
    if n12.gt(nb) {
        best = c12;
        nb = n12;
    }
    if n20.gt(nb) {
        best = c20;
        nb = n20;
    }
    if nb.le(Fix::epsilon()) {
        let r = [Fix::one(), Fix::zero(), Fix::zero()];
        proof {
            assert(raws(r@) =~= eigvec_of(raws(m@), lam@));
        }
        return r;
    }
    let mc = best[0].abs().max(best[1].abs()).max(best[2].abs());
    let scaled = [best[0].div(mc), best[1].div(mc), best[2].div(mc)];
    let n = crate::vec3::Vec3::norm(&scaled);
    let r = [scaled[0].div(n), scaled[1].div(n), scaled[2].div(n)];
    proof {
        assert(raws(r@) =~= eigvec_of(raws(m@), lam@));
    }
    r
}

/// Raw entry `(r, c)` of the product of the normalized symmetric matrix
/// (packed entries `m`) with the row-major eigenvector matrix `u`.
pub open spec fn seed_mv_at(m: Seq<int>, u: Seq<int>, r: int, c: int) -> int {
    let a0 = if r == 0 {
        m[0]
    } else if r == 1 {
        m[5]
    } else {
        m[4]
    };
    let a1 = if r == 0 {
        m[5]
    } else if r == 1 {
        m[1]
    } else {
        m[3]
    };
    let a2 = if r == 0 {
        m[4]
    } else if r == 1 {
        m[3]
    } else {
        m[2]
    };
    fadd(fadd(fmul(a0, u[c]), fmul(a1, u[3 + c])), fmul(a2, u[6 + c]))
}

/// Raw entry `(r, c)` of the working matrix conjugated into the eigenvector
/// basis: the transpose of `u` times the product of [`seed_mv_at`].
pub open spec fn seed_vmv_at(m: Seq<int>, u: Seq<int>, r: int, c: int) -> int {
    fadd(
        fadd(fmul(u[r], seed_mv_at(m, u, 0, c)), fmul(u[3 + r], seed_mv_at(m, u, 1, c))),
        fmul(u[6 + r], seed_mv_at(m, u, 2, c)),
    )
}

/// The state the polishing rotations of the direct algebraic solve start
/// from: the eigenvector basis built from the characteristic cubic's roots
/// (bracketed by the critical points and bisected), and the working matrix
/// conjugated into that basis.
pub open spec fn analytic_seed(sm: Seq<int>) -> JacobiState {
    let st = jacobi_start(sm);
    let m = seq![st.m0, st.m1, st.m2, st.m3, st.m4, st.m5];
    let s = SCALE as int;
    let tr = fadd(fadd(m[0], m[1]), m[2]);
    let q = fadd(
        fadd(fsub(fmul(m[0], m[1]), fmul(m[5], m[5])), fsub(fmul(m[1], m[2]), fmul(m[3], m[3]))),
        fsub(fmul(m[0], m[2]), fmul(m[4], m[4])),
    );
    let dt = fadd(
        fsub(
            fmul(m[0], fsub(fmul(m[1], m[2]), fmul(m[3], m[3]))),
            fmul(m[5], fsub(fmul(m[5], m[2]), fmul(m[3], m[4]))),
        ),
        fmul(m[4], fsub(fmul(m[5], m[3]), fmul(m[1], m[4]))),
    );
    let disc = fsub(fmul(tr, tr), fmul(3 * s, q));
    let sq = fsqrt(
        if disc >= 0 {
            disc
        } else {
            0
        },
    );
    let third = fdiv(s, 3 * s);
    let t1 = fmul(fsub(tr, sq), third);
    let t2 = fmul(fadd(tr, sq), third);
    let r1 = bisect_dec_root(tr, q, dt, -(2 * s), t1);
    let r3 = bisect_dec_root(tr, q, dt, t2, 2 * s);
    let va = eigvec_of(m, r1);
    let vb0 = eigvec_of(m, r3);
    let dd = crate::edge3::rdot3(vb0, va);
    let vb1 = seq![
        fsub(vb0[0], fmul(dd, va[0])),
        fsub(vb0[1], fmul(dd, va[1])),
        fsub(vb0[2], fmul(dd, va[2])),
    ];
    let nb = fsqrt(crate::edge3::rdot3(vb1, vb1));
    let vb = if nb <= 0x800000 {
        crate::vec3::frame_x_of(va)
    } else {
        seq![fdiv(vb1[0], nb), fdiv(vb1[1], nb), fdiv(vb1[2], nb)]
    };
    let vc = crate::edge3::rcross3(va, vb);
    let u = seq![va[0], vc[0], vb[0], va[1], vc[1], vb[1], va[2], vc[2], vb[2]];
    JacobiState {
        m0: seed_vmv_at(m, u, 0, 0),
        m1: seed_vmv_at(m, u, 1, 1),
        m2: seed_vmv_at(m, u, 2, 2),
        m3: seed_vmv_at(m, u, 1, 2),
        m4: seed_vmv_at(m, u, 2, 0),
        m5: seed_vmv_at(m, u, 0, 1),
        v0: u[0],
        v1: u[1],
        v2: u[2],
        v3: u[3],
        v4: u[4],
        v5: u[5],
        v6: u[6],
        v7: u[7],
        v8: u[8],
    }
}

/// The eigendecomposition state a mode computes: the Jacobi recurrence run
/// for the requested number of rotations from the normalized start, or for
/// the fixed polishing count from the direct algebraic solve's seed.
pub open spec fn eigen_of(sm: Seq<int>, mode: EigenDecompositionModes) -> JacobiState {
    match mode {
        EigenDecompositionModes::JacobiNumIter(nitr) => jacobi_iter(jacobi_start(sm), nitr as nat),
        EigenDecompositionModes::Analytic => jacobi_iter(analytic_seed(sm), 8),
    }
}

/// Eigendecomposition of a packed symmetric 3x3 matrix by a direct
/// algebraic solve: the extreme eigenvalues are the outer roots of the
/// characteristic cubic, bracketed by the critical points from the quadratic
/// formula and extracted by bisection; their eigenvectors come from cross
/// products of columns, the middle one closes the basis, and a fixed number
/// of polishing rotations diagonalizes the conjugated matrix.  The result is
/// pinned down exactly by [`analytic_seed`] and the [`jacobi_iter`]
/// recurrence.
///
/// Returns `None` exactly when the squared Frobenius norm of the input is
/// below one quantum, as [`eigen_decomp`] does.
pub fn eigen_decomp_analytic(sm: [Fix; 6]) -> (r: Option<([Fix; 9], [Fix; 3])>)
    ensures
        r is Some <==> sym_sq_norm(raws(sm@)) >= 1,
        r matches Some((u, l)) ==> {
            let sf = jacobi_iter(analytic_seed(raws(sm@)), 8);
            &&& u@[0]@ == sf.v0
            &&& u@[1]@ == sf.v1
            &&& u@[2]@ == sf.v2
            &&& u@[3]@ == sf.v3
            &&& u@[4]@ == sf.v4
            &&& u@[5]@ == sf.v5
            &&& u@[6]@ == sf.v6
            &&& u@[7]@ == sf.v7
            &&& u@[8]@ == sf.v8
            &&& l@[0]@ == fmul(fsqrt(sym_sq_norm(raws(sm@))), sf.m0)
            &&& l@[1]@ == fmul(fsqrt(sym_sq_norm(raws(sm@))), sf.m1)
            &&& l@[2]@ == fmul(fsqrt(sym_sq_norm(raws(sm@))), sf.m2)
        },
{
    let zero = Fix::zero();
    let one = Fix::one();
    let dnrm = squared_norm(&sm);
    if dnrm.lt(Fix::epsilon()) {
        return None;
    }
    let scale = dnrm.sqrt();
    let invscl = one.div(scale);
    let m = [
        sm[0].mul(invscl),
        sm[1].mul(invscl),
        sm[2].mul(invscl),
        sm[3].mul(invscl),
        sm[4].mul(invscl),
        sm[5].mul(invscl),
    ];
    proof {
        let st = jacobi_start(raws(sm@));
        assert(raws(m@) =~= seq![st.m0, st.m1, st.m2, st.m3, st.m4, st.m5]);
    }
    let tr = m[0].add(m[1]).add(m[2]);
    let q = m[0].mul(m[1]).sub(m[5].mul(m[5])).add(m[1].mul(m[2]).sub(m[3].mul(m[3]))).add(
        m[0].mul(m[2]).sub(m[4].mul(m[4])),
    );
    let dt = m[0].mul(m[1].mul(m[2]).sub(m[3].mul(m[3]))).sub(
        m[5].mul(m[5].mul(m[2]).sub(m[3].mul(m[4]))),
    ).add(m[4].mul(m[5].mul(m[3]).sub(m[1].mul(m[4]))));
    let disc = tr.mul(tr).sub(Fix::from_int(3).mul(q));
    let sq = disc.max(zero).sqrt();
    let third = one.div(Fix::from_int(3));
    let t1 = tr.sub(sq).mul(third);
    let t2 = tr.add(sq).mul(third);
    let lo = Fix::from_int(2).neg();
    let hi = Fix::from_int(2);
    let r1 = bisect_dec(tr, q, dt, lo, t1);
    let r3 = bisect_dec(tr, q, dt, t2, hi);
    let va = sym_eigvec(&m, r1);
    let vb0 = sym_eigvec(&m, r3);
    let dd = crate::vec3::Vec3::dot(&vb0, &va);
    let vb1 = [vb0[0].sub(dd.mul(va[0])), vb0[1].sub(dd.mul(va[1])), vb0[2].sub(dd.mul(va[2]))];
    let nb = crate::vec3::Vec3::norm(&vb1);
    let vb = if nb.le(Fix::from_raw(0x800000)) {
        crate::vec3::frame_from_z_vector(va).0
    } else {
        [vb1[0].div(nb), vb1[1].div(nb), vb1[2].div(nb)]
    };
    let vc = crate::vec3::cross(&va, &vb);
    let u = [va[0], vc[0], vb[0], va[1], vc[1], vb[1], va[2], vc[2], vb[2]];
    let mv = [
        m[0].mul(u[0]).add(m[5].mul(u[3])).add(m[4].mul(u[6])),
        m[0].mul(u[1]).add(m[5].mul(u[4])).add(m[4].mul(u[7])),
        m[0].mul(u[2]).add(m[5].mul(u[5])).add(m[4].mul(u[8])),
        m[5].mul(u[0]).add(m[1].mul(u[3])).add(m[3].mul(u[6])),
        m[5].mul(u[1]).add(m[1].mul(u[4])).add(m[3].mul(u[7])),
        m[5].mul(u[2]).add(m[1].mul(u[5])).add(m[3].mul(u[8])),
        m[4].mul(u[0]).add(m[3].mul(u[3])).add(m[2].mul(u[6])),
        m[4].mul(u[1]).add(m[3].mul(u[4])).add(m[2].mul(u[7])),
        m[4].mul(u[2]).add(m[3].mul(u[5])).add(m[2].mul(u[8])),
    ];
    let sms = [
        u[0].mul(mv[0]).add(u[3].mul(mv[3])).add(u[6].mul(mv[6])),
        u[1].mul(mv[1]).add(u[4].mul(mv[4])).add(u[7].mul(mv[7])),
        u[2].mul(mv[2]).add(u[5].mul(mv[5])).add(u[8].mul(mv[8])),
        u[1].mul(mv[2]).add(u[4].mul(mv[5])).add(u[7].mul(mv[8])),
        u[2].mul(mv[0]).add(u[5].mul(mv[3])).add(u[8].mul(mv[6])),
        u[0].mul(mv[1]).add(u[3].mul(mv[4])).add(u[6].mul(mv[7])),
    ];
    proof {
        let smr = raws(sm@);
        let sd = analytic_seed(smr);
        assert(jacobi_abs(sms@, u@) =~= sd);
    }
    let res = jacobi_loop(sms, u, 8);
    let sms = res.0;
    let u = res.1;
    let l = [scale.mul(sms[0]), scale.mul(sms[1]), scale.mul(sms[2])];
    Some((u, l))
}

} // verus!
