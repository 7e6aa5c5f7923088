//! Methods for 3D edges (line segments) of [`Fix`] endpoints.

use crate::fx::{fadd, fdiv, fmul, fsqrt, fsub, raws, Fix, SCALE};
use crate::vec3::Vec3;
use vstd::prelude::*;

verus! {

/// Raw value of the distance between two points.
pub open spec fn edge_len(p0: Seq<Fix>, p1: Seq<Fix>) -> int {
    fsqrt(edge_sq_len(p0, p1))
}

/// Raw value of the squared distance between two points.
pub open spec fn edge_sq_len(p0: Seq<Fix>, p1: Seq<Fix>) -> int {
    let x = fsub(p0[0]@, p1[0]@);
    let y = fsub(p0[1]@, p1[1]@);
    let z = fsub(p0[2]@, p1[2]@);
    fadd(fadd(fmul(x, x), fmul(y, y)), fmul(z, z))
}

/// Trait for 3D edges.
pub trait Edge3Trait: Sized + View<V = Seq<Fix>> {
    /// The distance to another point.
    fn length(&self, other: &Self) -> (r: Fix)
        ensures
            r@ == edge_len(self@, other@),
    ;

    /// The squared distance to another point.
    fn squared_length(&self, other: &Self) -> (r: Fix)
        ensures
            r@ == edge_sq_len(self@, other@),
    ;

    /// The nearest point of the edge from `self` to `p1`, to `point_pos`.
    fn nearest_to_point3(&self, p1: &Self, point_pos: &Self) -> (r: (Fix, Fix))
        ensures
            (r.0@, r.1@) == nearest_point_spec(raws(self@), raws(p1@), raws(point_pos@)),
    ;
}

impl Edge3Trait for [Fix; 3] {
    fn length(&self, other: &Self) -> (r: Fix) {
        length(self, other)
    }

    fn squared_length(&self, other: &Self) -> (r: Fix) {
        squared_length(self, other)
    }

    fn nearest_to_point3(&self, p1: &Self, point_pos: &Self) -> (r: (Fix, Fix)) {
        nearest_to_point3(self, p1, point_pos)
    }
}

/// The distance between two points.
pub fn length(p0: &[Fix; 3], p1: &[Fix; 3]) -> (r: Fix)
    ensures
        r@ == edge_len(p0@, p1@),
{
    let x = p0[0].sub(p1[0]);
    let y = p0[1].sub(p1[1]);
    let z = p0[2].sub(p1[2]);
    x.mul(x).add(y.mul(y)).add(z.mul(z)).sqrt()
}

/// The squared distance between two points.
pub fn squared_length(p0: &[Fix; 3], p1: &[Fix; 3]) -> (r: Fix)
    ensures
        r@ == edge_sq_len(p0@, p1@),
{
    let x = p0[0].sub(p1[0]);
    let y = p0[1].sub(p1[1]);
    let z = p0[2].sub(p1[2]);
    x.mul(x).add(y.mul(y)).add(z.mul(z))
}

/// The point dividing the edge at the given ratio: ratio zero gives `p0`,
/// ratio one gives `p1`.
pub fn position_from_ratio(p0: &[Fix; 3], p1: &[Fix; 3], ratio: Fix) -> (r: [Fix; 3])
    ensures
        forall|i: int|
            0 <= i < 3 ==> r@[i]@ == fadd(
                fmul(fsub(SCALE as int, ratio@), p0@[i]@),
                fmul(ratio@, p1@[i]@),
            ),
{
    let one = Fix::one();
    [
        one.sub(ratio).mul(p0[0]).add(ratio.mul(p1[0])),
        one.sub(ratio).mul(p0[1]).add(ratio.mul(p1[1])),
        one.sub(ratio).mul(p0[2]).add(ratio.mul(p1[2])),
    ]
}

/// The component-wise difference of two points, as raw values.
pub open spec fn dvec(a: Seq<Fix>, b: Seq<Fix>) -> Seq<int> {
    seq![fsub(a[0]@, b[0]@), fsub(a[1]@, b[1]@), fsub(a[2]@, b[2]@)]
}

/// Raw dot product of two raw 3-vectors.
pub open spec fn rdot3(a: Seq<int>, b: Seq<int>) -> int {
    fadd(fadd(fmul(a[0], b[0]), fmul(a[1], b[1])), fmul(a[2], b[2]))
}

/// Raw component-wise difference.
pub open spec fn rsub3(a: Seq<int>, b: Seq<int>) -> Seq<int> {
    seq![fsub(a[0], b[0]), fsub(a[1], b[1]), fsub(a[2], b[2])]
}

/// Raw component-wise sum.
pub open spec fn radd3(a: Seq<int>, b: Seq<int>) -> Seq<int> {
    seq![fadd(a[0], b[0]), fadd(a[1], b[1]), fadd(a[2], b[2])]
}

/// Raw scaling of a 3-vector.
pub open spec fn rscale3(a: Seq<int>, s: int) -> Seq<int> {
    seq![fmul(a[0], s), fmul(a[1], s), fmul(a[2], s)]
}

/// Raw cross product of two raw 3-vectors.
pub open spec fn rcross3(a: Seq<int>, b: Seq<int>) -> Seq<int> {
    seq![
        fsub(fmul(a[1], b[2]), fmul(a[2], b[1])),
        fsub(fmul(a[2], b[0]), fmul(a[0], b[2])),
        fsub(fmul(a[0], b[1]), fmul(a[1], b[0])),
    ]
}

/// Raw norm of a raw 3-vector.
pub open spec fn rnorm3(a: Seq<int>) -> int {
    fsqrt(rdot3(a, a))
}

/// Raw `alpha * x + y`.
pub open spec fn raxpy3(alpha: int, x: Seq<int>, y: Seq<int>) -> Seq<int> {
    seq![
        fadd(fmul(x[0], alpha), y[0]),
        fadd(fmul(x[1], alpha), y[1]),
        fadd(fmul(x[2], alpha), y[2]),
    ]
}

/// Raw clamp into `[0, 1]`.
pub open spec fn rclamp01(t: int) -> int {
    if t < 0 {
        0
    } else if t > SCALE as int {
        SCALE as int
    } else {
        t
    }
}

/// What [`nearest_to_point3`] returns: the clamped ratio of the projection
/// of the point onto the edge's direction (one half for a degenerate edge),
/// and the distance from the point so parametrized.
pub open spec fn nearest_point_spec(p0: Seq<int>, p1: Seq<int>, q: Seq<int>) -> (int, int) {
    let d = rsub3(p1, p0);
    let dd = rdot3(d, d);
    let t = if dd > 1 {
        let ps = rsub3(p0, q);
        let b = rdot3(d, ps);
        rclamp01(fdiv(-b, dd))
    } else {
        (SCALE as int) / 2
    };
    let p = raxpy3(t, d, p0);
    (rnorm3(rsub3(p, q)), t)
}

/// The point of the edge `p0 p1` nearest to `point_pos`: returns the
/// distance and the ratio along the edge.  The ratio is the clamped
/// projection of the point onto the edge, or one half when the edge is
/// degenerate (squared direction below one quantum).
pub fn nearest_to_point3(p0: &[Fix; 3], p1: &[Fix; 3], point_pos: &[Fix; 3]) -> (r: (Fix, Fix))
    ensures
        (r.0@, r.1@) == nearest_point_spec(raws(p0@), raws(p1@), raws(point_pos@)),
{
    let zero = Fix::zero();
    let one = Fix::one();
    let half = Fix::half();
    let d = Vec3::sub(p1, p0);
    let dd = Vec3::dot(&d, &d);
    let t = if dd.gt(Fix::epsilon()) {
        let ps = Vec3::sub(p0, point_pos);
        let b = Vec3::dot(&d, &ps);
        b.neg().div(dd).clamp(zero, one)
    } else {
        half
    };
    let p = crate::vec3::axpy(t, &d, p0);
    let dist = length(&p, point_pos);
    proof {
        assert(rsub3(raws(p1@), raws(p0@)) =~= seq![d@[0]@, d@[1]@, d@[2]@]);
        assert(rsub3(raws(p0@), raws(point_pos@)) =~= seq![
            fsub(p0@[0]@, point_pos@[0]@),
            fsub(p0@[1]@, point_pos@[1]@),
            fsub(p0@[2]@, point_pos@[2]@),
        ]);
        assert(raxpy3(t@, seq![d@[0]@, d@[1]@, d@[2]@], raws(p0@)) =~= seq![
            p@[0]@,
            p@[1]@,
            p@[2]@,
        ]);
        assert(rsub3(seq![p@[0]@, p@[1]@, p@[2]@], raws(point_pos@)) =~= seq![
            fsub(p@[0]@, point_pos@[0]@),
            fsub(p@[1]@, point_pos@[1]@),
            fsub(p@[2]@, point_pos@[2]@),
        ]);
    }
    (dist, t)
}

/// What the integral routine's scalar pieces evaluate to; see
/// [`wdw_integral_of_inverse_distance_cubic`].  `f_at` is the antiderivative
/// `x / (a sqrt(a + x^2))`, `dfdx_at` and `dfda_at` its partial derivatives,
/// with the three-halves power computed as `t * sqrt(t)`.
pub open spec fn integral_f_at(a: int, x: int) -> int {
    fdiv(x, fmul(a, fsqrt(fadd(a, fmul(x, x)))))
}

/// The derivative of the antiderivative with respect to `x`.
pub open spec fn integral_dfdx_at(a: int, x: int) -> int {
    let t = fadd(a, fmul(x, x));
    fdiv(SCALE as int, fmul(t, fsqrt(t)))
}

/// The derivative of the antiderivative with respect to `a`.
pub open spec fn integral_dfda_at(a: int, x: int) -> int {
    let t = fadd(a, fmul(x, x));
    let num = fmul(x, fadd(fmul(3 * (SCALE as int), a), fmul(2 * (SCALE as int), fmul(x, x))));
    -fdiv(num, fmul(fmul(fmul(2 * (SCALE as int), fmul(a, a)), t), fsqrt(t)))
}

/// The antiderivative `x / (a sqrt(a + x^2))`, executably.
fn integral_f(a: Fix, x: Fix) -> (r: Fix)
    ensures
        r@ == integral_f_at(a@, x@),
{
    x.div(a.mul(a.add(x.mul(x)).sqrt()))
}

/// The derivative of the antiderivative with respect to `x`, executably.
fn integral_dfdx(a: Fix, x: Fix) -> (r: Fix)
    ensures
        r@ == integral_dfdx_at(a@, x@),
{
    let t = a.add(x.mul(x));
    Fix::one().div(t.mul(t.sqrt()))
}

/// The derivative of the antiderivative with respect to `a`, executably.
fn integral_dfda(a: Fix, x: Fix) -> (r: Fix)
    ensures
        r@ == integral_dfda_at(a@, x@),
{
    let two = Fix::two();
    let three = Fix::from_int(3);
    let t = a.add(x.mul(x));
    let num = x.mul(three.mul(a).add(two.mul(x.mul(x))));
    num.div(two.mul(a.mul(a)).mul(t).mul(t.sqrt())).neg()
}

/// The integral over the edge `p0 p1` of the inverse cube of the distance to
/// `q`, with its gradient with respect to `q`.  The distance along the edge
/// is reduced to a quadratic in the edge ratio and integrated in closed
/// form; the gradient differentiates the antiderivative's two scalar
/// arguments.
pub fn wdw_integral_of_inverse_distance_cubic(q: &[Fix; 3], p0: &[Fix; 3], p1: &[Fix; 3]) -> (r: (
    Fix,
    [Fix; 3],
))
    ensures
        ({
            let dpp = dvec(p1@, p0@);
            let lsq = fadd(fadd(fmul(dpp[0], dpp[0]), fmul(dpp[1], dpp[1])), fmul(dpp[2], dpp[2]));
            let len = fsqrt(lsq);
            let lsinv = fdiv(SCALE as int, fmul(len, len));
            let dpn = dvec(p0@, p1@);
            let dq = dvec(q@, p0@);
            let d = fmul(rdot3(dpn, dq), lsinv);
            let a = fsub(fmul(rdot3(dq, dq), lsinv), fmul(d, d));
            let v = fmul(fsub(integral_f_at(a, fadd(d, SCALE as int)), integral_f_at(a, d)), lsinv);
            let dd0 = fmul(dpn[0], lsinv);
            let dd1 = fmul(dpn[1], lsinv);
            let dd2 = fmul(dpn[2], lsinv);
            let da0 = fsub(fmul(fmul(dq[0], 2 * (SCALE as int)), lsinv), fmul(dd0, fmul(2 * (
            SCALE as int), d)));
            let da1 = fsub(fmul(fmul(dq[1], 2 * (SCALE as int)), lsinv), fmul(dd1, fmul(2 * (
            SCALE as int), d)));
            let da2 = fsub(fmul(fmul(dq[2], 2 * (SCALE as int)), lsinv), fmul(dd2, fmul(2 * (
            SCALE as int), d)));
            let tx = fsub(integral_dfdx_at(a, fadd(d, SCALE as int)), integral_dfdx_at(a, d));
            let ta = fsub(integral_dfda_at(a, fadd(d, SCALE as int)), integral_dfda_at(a, d));
            &&& r.0@ == v
            &&& r.1@[0]@ == fmul(fadd(fmul(dd0, tx), fmul(da0, ta)), lsinv)
            &&& r.1@[1]@ == fmul(fadd(fmul(dd1, tx), fmul(da1, ta)), lsinv)
            &&& r.1@[2]@ == fmul(fadd(fmul(dd2, tx), fmul(da2, ta)), lsinv)
        }),
{
    let one = Fix::one();
    let two = Fix::two();
    let len = Vec3::norm(&Vec3::sub(p1, p0));
    let lsinv = one.div(len.mul(len));
    let dpn = Vec3::sub(p0, p1);
    let dq = Vec3::sub(q, p0);
    let d = Vec3::dot(&dpn, &dq).mul(lsinv);
    let a = Vec3::dot(&dq, &dq).mul(lsinv).sub(d.mul(d));
    let v = integral_f(a, d.add(one)).sub(integral_f(a, d)).mul(lsinv);
    let dd = Vec3::scale(&dpn, lsinv);
    let da = Vec3::sub(&Vec3::scale(&Vec3::scale(&dq, two), lsinv), &Vec3::scale(&dd, two.mul(d)));
    let tx = integral_dfdx(a, d.add(one)).sub(integral_dfdx(a, d));
    let ta = integral_dfda(a, d.add(one)).sub(integral_dfda(a, d));
    let t0 = Vec3::scale(&dd, tx);
    let t1 = Vec3::scale(&da, ta);
    let dv = Vec3::add(&t0, &t1);
    proof {
        assert(dvec(p1@, p0@) =~= seq![
            fsub(p1@[0]@, p0@[0]@),
            fsub(p1@[1]@, p0@[1]@),
            fsub(p1@[2]@, p0@[2]@),
        ]);
        assert(dvec(p0@, p1@) =~= seq![
            fsub(p0@[0]@, p1@[0]@),
            fsub(p0@[1]@, p1@[1]@),
            fsub(p0@[2]@, p1@[2]@),
        ]);
        assert(dvec(q@, p0@) =~= seq![
            fsub(q@[0]@, p0@[0]@),
            fsub(q@[1]@, p0@[1]@),
            fsub(q@[2]@, p0@[2]@),
        ]);
    }
    (v, Vec3::scale(&dv, lsinv))
}

/// What [`nearest_to_edge3`] returns; see that function.
pub open spec fn nearest_edge_spec(p0: Seq<int>, p1: Seq<int>, q0: Seq<int>, q1: Seq<int>) -> (
    int,
    int,
    int,
) {
    let vp = rsub3(p1, p0);
    let vq = rsub3(q1, q0);
    if rnorm3(rcross3(vp, vq)) < 1 {
        let pq0 = rsub3(p0, q0);
        let uvp = rscale3(vp, fdiv(SCALE as int, rnorm3(vp)));
        let vert = rsub3(pq0, rscale3(uvp, rdot3(pq0, uvp)));
        let dist = rnorm3(vert);
        let lp0 = rdot3(p0, uvp);
        let lp1 = rdot3(p1, uvp);
        let lq0 = rdot3(q0, uvp);
        let lq1 = rdot3(q1, uvp);
        let qfwd = lq0 < lq1;
        let lq_min = if qfwd {
            lq0
        } else {
            lq1
        };
        let lq_max = if qfwd {
            lq1
        } else {
            lq0
        };
        let q_min = if qfwd {
            q0
        } else {
            q1
        };
        let q_max = if qfwd {
            q1
        } else {
            q0
        };
        let rq_min: int = if qfwd {
            0
        } else {
            SCALE as int
        };
        let rq_max: int = if qfwd {
            SCALE as int
        } else {
            0
        };
        if lp1 < lq_min {
            (rnorm3(rsub3(p1, q_min)), SCALE as int, rq_min)
        } else if lq_max < lp0 {
            (rnorm3(rsub3(q_max, p0)), 0, rq_max)
        } else {
            let lm_min = if lp0 >= lq_min {
                lp0
            } else {
                lq_min
            };
            let lm_max = if lp1 <= lq_max {
                lp1
            } else {
                lq_max
            };
            let lm = fmul(fadd(lm_min, lm_max), (SCALE as int) / 2);
            let ratio_p = fdiv(fsub(lm, lp0), fsub(lp1, lp0));
            let ratio_q = fdiv(fsub(lm, lq0), fsub(lq1, lq0));
            (dist, ratio_p, ratio_q)
        }
    } else {
        let t0 = rdot3(vp, vp);
        let t1 = rdot3(vq, vq);
        let t2 = rdot3(vp, vq);
        let t3 = rdot3(vp, rsub3(q0, p0));
        let t4 = rdot3(vq, rsub3(q0, p0));
        let det = fsub(fmul(t0, t1), fmul(t2, t2));
        let invdet = fdiv(SCALE as int, det);
        let rp1 = fmul(fsub(fmul(t1, t3), fmul(t2, t4)), invdet);
        let rq1 = fmul(fsub(fmul(t2, t3), fmul(t0, t4)), invdet);
        if 0 <= rp1 && rp1 <= SCALE as int && 0 <= rq1 && rq1 <= SCALE as int {
            let pc = radd3(p0, rscale3(vp, rp1));
            let qc = radd3(q0, rscale3(vq, rq1));
            (rnorm3(rsub3(pc, qc)), rp1, rq1)
        } else if 0 <= rp1 && rp1 <= SCALE as int && (rq1 <= 0 || SCALE as int <= rq1) {
            let rq1c = rclamp01(rq1);
            let qc = raxpy3(rq1c, vq, q0);
            let dr = nearest_point_spec(p0, p1, qc);
            (dr.0, dr.1, rq1c)
        } else if 0 <= rq1 && rq1 <= SCALE as int && (rp1 <= 0 || SCALE as int <= rp1) {
            let rp1c = rclamp01(rp1);
            let pc = raxpy3(rp1c, vp, p0);
            let dr = nearest_point_spec(q0, q1, pc);
            (dr.0, rp1c, dr.1)
        } else {
            let rp1c = rclamp01(rp1);
            let pc = radd3(p0, rscale3(vp, rp1c));
            let drq = nearest_point_spec(q0, q1, pc);
            let qc = radd3(q0, rscale3(rsub3(q1, q0), drq.1));
            let drp = nearest_point_spec(p0, p1, qc);
            let pc2 = radd3(p0, rscale3(rsub3(p1, p0), drp.1));
            let drq2 = nearest_point_spec(q0, q1, pc2);
            (drq2.0, drp.1, drq2.1)
        }
    }
}

/// The pair of nearest points between two edges: returns their distance and
/// the two ratios along the edges.  Non-parallel edges are solved by the
/// line-line system, with out-of-range solutions clamped and refined against
/// the opposite edge; parallel edges (cross product below one quantum) are
/// compared along their common direction.  Degenerate edges are excluded,
/// as is the parallel case with the first edge measured backwards along its
/// own direction (where no nearest pair is well defined).
pub fn nearest_to_edge3(p0: &[Fix; 3], p1: &[Fix; 3], q0: &[Fix; 3], q1: &[Fix; 3]) -> (r: (
    Fix,
    Fix,
    Fix,
))
    requires
        rnorm3(rsub3(raws(p1@), raws(p0@))) > 0,
        rnorm3(rsub3(raws(q1@), raws(q0@))) > 0,
        ({
            let vp = rsub3(raws(p1@), raws(p0@));
            let vq = rsub3(raws(q1@), raws(q0@));
            let uvp = rscale3(vp, fdiv(SCALE as int, rnorm3(vp)));
            rnorm3(rcross3(vp, vq)) < 1 ==> rdot3(raws(p0@), uvp) < rdot3(raws(p1@), uvp)
        }),
    ensures
        (r.0@, r.1@, r.2@) == nearest_edge_spec(raws(p0@), raws(p1@), raws(q0@), raws(q1@)),
{
    let zero = Fix::zero();
    let one = Fix::one();
    let half = Fix::half();
    let vp = Vec3::sub(p1, p0);
    let vq = Vec3::sub(q1, q0);
    proof {
        assert(rsub3(raws(p1@), raws(p0@)) =~= raws(vp@));
        assert(rsub3(raws(q1@), raws(q0@)) =~= raws(vq@));
        assert(rcross3(raws(vp@), raws(vq@)) =~= seq![
            crate::vec3::cross3(vp@, vq@)[0],
            crate::vec3::cross3(vp@, vq@)[1],
            crate::vec3::cross3(vp@, vq@)[2],
        ]);
    }
    if Vec3::norm(&Vec3::cross(&vp, &vq)).lt(Fix::epsilon()) {
        let pq0 = Vec3::sub(p0, q0);
        let uvp = Vec3::normalize(&vp);
        let vert = Vec3::sub(&pq0, &Vec3::scale(&uvp, Vec3::dot(&pq0, &uvp)));
        let dist = Vec3::norm(&vert);
        let lp0 = Vec3::dot(p0, &uvp);
        let lp1 = Vec3::dot(p1, &uvp);
        let lq0 = Vec3::dot(q0, &uvp);
        let lq1 = Vec3::dot(q1, &uvp);
        proof {
            assert(rsub3(raws(p0@), raws(q0@)) =~= raws(pq0@));
            assert(rscale3(raws(vp@), fdiv(SCALE as int, rnorm3(raws(vp@)))) =~= raws(uvp@));
            assert(rscale3(raws(uvp@), rdot3(raws(pq0@), raws(uvp@))) =~= seq![
                fmul(uvp@[0]@, crate::vec3::dot3(pq0@, uvp@)),
                fmul(uvp@[1]@, crate::vec3::dot3(pq0@, uvp@)),
                fmul(uvp@[2]@, crate::vec3::dot3(pq0@, uvp@)),
            ]);
            assert(rsub3(raws(pq0@), rscale3(raws(uvp@), rdot3(raws(pq0@), raws(uvp@)))) =~= raws(
                vert@,
            ));
        }
        let (lq_min, lq_max, q_min, q_max, rq_min, rq_max) = if lq0.lt(lq1) {
            (lq0, lq1, q0, q1, zero, one)
        } else {
            (lq1, lq0, q1, q0, one, zero)
        };
        if lp1.lt(lq_min) {
            let d = Vec3::sub(p1, q_min);
            proof {
                assert(rsub3(raws(p1@), raws(q_min@)) =~= raws(d@));
            }
            return (Vec3::norm(&d), one, rq_min);
        }
        if lq_max.lt(lp0) {
            let d = Vec3::sub(q_max, p0);
            proof {
                assert(rsub3(raws(q_max@), raws(p0@)) =~= raws(d@));
            }
            return (Vec3::norm(&d), zero, rq_max);
        }
        let lm_min = lp0.max(lq_min);
        let lm_max = lp1.min(lq_max);
        let lm = lm_min.add(lm_max).mul(half);
        let ratio_p = lm.sub(lp0).div(lp1.sub(lp0));
        let ratio_q = lm.sub(lq0).div(lq1.sub(lq0));
        return (dist, ratio_p, ratio_q);
    }
    let t0 = Vec3::dot(&vp, &vp);
    let t1 = Vec3::dot(&vq, &vq);
    let t2 = Vec3::dot(&vp, &vq);
    let qp = Vec3::sub(q0, p0);
    let t3 = Vec3::dot(&vp, &qp);
    let t4 = Vec3::dot(&vq, &qp);
    proof {
        assert(rsub3(raws(q0@), raws(p0@)) =~= raws(qp@));
    }
    let det = t0.mul(t1).sub(t2.mul(t2));
    let invdet = one.div(det);
    let rp1 = t1.mul(t3).sub(t2.mul(t4)).mul(invdet);
    let rq1 = t2.mul(t3).sub(t0.mul(t4)).mul(invdet);
    if zero.le(rp1) && rp1.le(one) && zero.le(rq1) && rq1.le(one) {
        let pc = Vec3::add(p0, &Vec3::scale(&vp, rp1));
        let qc = Vec3::add(q0, &Vec3::scale(&vq, rq1));
        let d = Vec3::sub(&pc, &qc);
        proof {
            assert(radd3(raws(p0@), rscale3(raws(vp@), rp1@)) =~= raws(pc@));
            assert(radd3(raws(q0@), rscale3(raws(vq@), rq1@)) =~= raws(qc@));
            assert(rsub3(raws(pc@), raws(qc@)) =~= raws(d@));
        }
        return (Vec3::norm(&d), rp1, rq1);
    }
    if zero.le(rp1) && rp1.le(one) && (rq1.le(zero) || one.le(rq1)) {
        let rq1c = rq1.clamp(zero, one);
        let qc = crate::vec3::axpy(rq1c, &vq, q0);
        proof {
            assert(raxpy3(rq1c@, raws(vq@), raws(q0@)) =~= raws(qc@));
        }
        let (dist, rp1b) = nearest_to_point3(p0, p1, &qc);
        return (dist, rp1b, rq1c);
    }
    if zero.le(rq1) && rq1.le(one) && (rp1.le(zero) || one.le(rp1)) {
        let rp1c = rp1.clamp(zero, one);
        let pc = crate::vec3::axpy(rp1c, &vp, p0);
        proof {
            assert(raxpy3(rp1c@, raws(vp@), raws(p0@)) =~= raws(pc@));
        }
        let (dist, rq1b) = nearest_to_point3(q0, q1, &pc);
        return (dist, rp1c, rq1b);
    }
    let rp1c = rp1.clamp(zero, one);
    let pc = Vec3::add(p0, &Vec3::scale(&vp, rp1c));
    proof {
        assert(radd3(raws(p0@), rscale3(raws(vp@), rp1c@)) =~= raws(pc@));
    }
    let (_dist, rq1b) = nearest_to_point3(q0, q1, &pc);
    let qc = Vec3::add(q0, &Vec3::scale(&Vec3::sub(q1, q0), rq1b));
    proof {
        assert(radd3(raws(q0@), rscale3(rsub3(raws(q1@), raws(q0@)), rq1b@)) =~= raws(qc@));
    }
    let (_dist2, rp1b) = nearest_to_point3(p0, p1, &qc);
    let pc2 = Vec3::add(p0, &Vec3::scale(&Vec3::sub(p1, p0), rp1b));
    proof {
        assert(radd3(raws(p0@), rscale3(rsub3(raws(p1@), raws(p0@)), rp1b@)) =~= raws(pc2@));
    }
    let (dist, rq1d) = nearest_to_point3(q0, q1, &pc2);
    (dist, rp1b, rq1d)
}

/// What [`intersection_edge3_when_coplanar`] returns when it succeeds; the
/// four ratios come from signed tetrahedron volumes against a point lifted
/// out of the plane.
pub open spec fn coplanar_spec(p0: Seq<int>, p1: Seq<int>, q0: Seq<int>, q1: Seq<int>) -> (
    int,
    int,
    int,
    int,
) {
    let n0 = rcross3(rsub3(p1, p0), rsub3(q0, p0));
    let n1 = rcross3(rsub3(p1, p0), rsub3(q1, p0));
    let n = if rdot3(n0, n0) < rdot3(n1, n1) {
        n1
    } else {
        n0
    };
    let p2 = radd3(p0, n);
    let rq1 = crate::tet::tet_volume(p0, p1, p2, q0);
    let rq0 = crate::tet::tet_volume(p0, p1, p2, q1);
    let rp1 = crate::tet::tet_volume(q0, q1, p2, p0);
    let rp0 = crate::tet::tet_volume(q0, q1, p2, p1);
    let tp = fdiv(SCALE as int, fsub(rp0, rp1));
    let tq = fdiv(SCALE as int, fsub(rq0, rq1));
    (fmul(rp0, tp), -fmul(rp1, tp), fmul(rq0, tq), -fmul(rq1, tq))
}

/// Whether the coplanar intersection is defined: both volume differences
/// are nonzero.
pub open spec fn coplanar_defined(p0: Seq<int>, p1: Seq<int>, q0: Seq<int>, q1: Seq<int>) -> bool {
    let n0 = rcross3(rsub3(p1, p0), rsub3(q0, p0));
    let n1 = rcross3(rsub3(p1, p0), rsub3(q1, p0));
    let n = if rdot3(n0, n0) < rdot3(n1, n1) {
        n1
    } else {
        n0
    };
    let p2 = radd3(p0, n);
    let rq1 = crate::tet::tet_volume(p0, p1, p2, q0);
    let rq0 = crate::tet::tet_volume(p0, p1, p2, q1);
    let rp1 = crate::tet::tet_volume(q0, q1, p2, p0);
    let rp0 = crate::tet::tet_volume(q0, q1, p2, p1);
    rp0 != rp1 && rq0 != rq1
}

/// The ratios at which two coplanar edges cross: `(rp0, rp1, rq0, rq1)` with
/// `rp0 + rp1 == 1` splitting the crossing along the first edge and likewise
/// for the second, or `None` when either edge is parallel to the other (a
/// vanishing volume difference).
pub fn intersection_edge3_when_coplanar(
    p0: &[Fix; 3],
    p1: &[Fix; 3],
    q0: &[Fix; 3],
    q1: &[Fix; 3],
) -> (r: Option<(Fix, Fix, Fix, Fix)>)
    ensures
        r is Some <==> coplanar_defined(raws(p0@), raws(p1@), raws(q0@), raws(q1@)),
        r matches Some((a, b, c, d)) ==> (a@, b@, c@, d@) == coplanar_spec(
            raws(p0@),
            raws(p1@),
            raws(q0@),
            raws(q1@),
        ),
{
    proof {
        reveal(crate::fx::fsub);
    }
    let vp = Vec3::sub(p1, p0);
    let n0 = Vec3::cross(&vp, &Vec3::sub(q0, p0));
    let n1 = Vec3::cross(&vp, &Vec3::sub(q1, p0));
    let n = if Vec3::squared_norm(&n0).lt(Vec3::squared_norm(&n1)) {
        n1
    } else {
        n0
    };
    let p2 = Vec3::add(p0, &n);
    proof {
        assert(rsub3(raws(p1@), raws(p0@)) =~= raws(vp@));
        assert(rsub3(raws(q0@), raws(p0@)) =~= seq![
            fsub(q0@[0]@, p0@[0]@),
            fsub(q0@[1]@, p0@[1]@),
            fsub(q0@[2]@, p0@[2]@),
        ]);
        assert(rsub3(raws(q1@), raws(p0@)) =~= seq![
            fsub(q1@[0]@, p0@[0]@),
            fsub(q1@[1]@, p0@[1]@),
            fsub(q1@[2]@, p0@[2]@),
        ]);
        assert(rcross3(raws(vp@), rsub3(raws(q0@), raws(p0@))) =~= raws(n0@));
        assert(rcross3(raws(vp@), rsub3(raws(q1@), raws(p0@))) =~= raws(n1@));
        assert(radd3(raws(p0@), raws(n@)) =~= raws(p2@));
    }
    let rq1 = crate::tet::volume(p0, p1, &p2, q0);
    let rq0 = crate::tet::volume(p0, p1, &p2, q1);
    let rp1 = crate::tet::volume(q0, q1, &p2, p0);
    let rp0 = crate::tet::volume(q0, q1, &p2, p1);
    if rp0.sub(rp1).abs().le(Fix::zero()) {
        return None;
    }
    if rq0.sub(rq1).abs().le(Fix::zero()) {
        return None;
    }
    let tp = Fix::one().div(rp0.sub(rp1));
    let tq = Fix::one().div(rq0.sub(rq1));
    Some((rp0.mul(tp), rp1.mul(tp).neg(), rq0.mul(tq), rq1.mul(tq).neg()))
}

} // verus!
