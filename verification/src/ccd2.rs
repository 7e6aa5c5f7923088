//! 2D continuous collision detection: the times at which moving points
//! become collinear and a moving vertex crosses a moving edge.

use crate::fx::{fadd, fdiv, fmul, fsub, Fix, SCALE};
use crate::polynomial_root::{quadratic_root, quadratic_root_spec};
use crate::vec2::Vec2;
use vstd::prelude::*;

verus! {

/// Three 2D points, a configuration at one time.
pub struct ThreePoints<'a> {
    pub p0: &'a [Fix; 2],
    pub p1: &'a [Fix; 2],
    pub p2: &'a [Fix; 2],
}

/// A 2D edge and a vertex, a configuration at one time.
pub struct EdgeVertex<'a> {
    pub e0: &'a [Fix; 2],
    pub e1: &'a [Fix; 2],
    pub v: &'a [Fix; 2],
}

/// Raw difference of two 2-vectors.
pub open spec fn rsub2(a: Seq<int>, b: Seq<int>) -> Seq<int> {
    seq![fsub(a[0], b[0]), fsub(a[1], b[1])]
}

/// Raw signed area spanned by two raw 2-vectors.
pub open spec fn rarea2(a: Seq<int>, b: Seq<int>) -> int {
    fsub(fmul(a[0], b[1]), fmul(a[1], b[0]))
}

/// The quadratic coefficients of the spanned area along the motion: with
/// the relative positions `x1, x2` at the start and their velocities
/// `v1, v2`, the area of `(x1 + t v1, x2 + t v2)` is
/// `c0 + (x1 x v2 + v1 x x2) t + (v1 x v2) t^2`, whose roots are the
/// collinearity times (up to the quadratic cross terms' truncation).
pub open spec fn coplanar_coeffs(
    sp0: Seq<int>,
    sp1: Seq<int>,
    sp2: Seq<int>,
    ep0: Seq<int>,
    ep1: Seq<int>,
    ep2: Seq<int>,
) -> (int, int, int) {
    let x1 = rsub2(sp1, sp0);
    let x2 = rsub2(sp2, sp0);
    let v1 = rsub2(rsub2(ep1, ep0), x1);
    let v2 = rsub2(rsub2(ep2, ep0), x2);
    let c0 = rarea2(x1, x2);
    let c1 = fadd(rarea2(x1, v2), rarea2(v1, x2));
    let c2 = rarea2(v1, v2);
    (c0, c1, c2)
}

/// The times at which the three moving points become collinear, in
/// ascending order: the roots of the quadratic interpolation of the spanned
/// area.
pub fn coplanar_time(s: ThreePoints, e: ThreePoints) -> (r: Option<(Fix, Fix)>)
    ensures
        ({
            let c = coplanar_coeffs(
                crate::fx::raws(s.p0@),
                crate::fx::raws(s.p1@),
                crate::fx::raws(s.p2@),
                crate::fx::raws(e.p0@),
                crate::fx::raws(e.p1@),
                crate::fx::raws(e.p2@),
            );
            &&& (r is Some <==> quadratic_root_spec(c.0, c.1, c.2) is Some)
            &&& (r matches Some((a, b)) ==> Some((a@, b@)) == quadratic_root_spec(c.0, c.1, c.2)
                && a@ <= b@)
        }),
{
    let x1 = Vec2::sub(s.p1, s.p0);
    let x2 = Vec2::sub(s.p2, s.p0);
    let v1 = Vec2::sub(&Vec2::sub(e.p1, e.p0), &x1);
    let v2 = Vec2::sub(&Vec2::sub(e.p2, e.p0), &x2);
    let c0 = crate::vec2::area_quadrilateral(&x1, &x2);
    let c1 = crate::vec2::area_quadrilateral(&x1, &v2).add(
        crate::vec2::area_quadrilateral(&v1, &x2),
    );
    let c2 = crate::vec2::area_quadrilateral(&v1, &v2);
    proof {
        assert(rsub2(crate::fx::raws(s.p1@), crate::fx::raws(s.p0@)) =~= crate::fx::raws(x1@));
        assert(rsub2(crate::fx::raws(s.p2@), crate::fx::raws(s.p0@)) =~= crate::fx::raws(x2@));
        assert(rsub2(crate::fx::raws(e.p1@), crate::fx::raws(e.p0@)) =~= seq![
            fsub(e.p1@[0]@, e.p0@[0]@),
            fsub(e.p1@[1]@, e.p0@[1]@),
        ]);
        assert(rsub2(
            rsub2(crate::fx::raws(e.p1@), crate::fx::raws(e.p0@)),
            crate::fx::raws(x1@),
        ) =~= crate::fx::raws(v1@));
        assert(rsub2(crate::fx::raws(e.p2@), crate::fx::raws(e.p0@)) =~= seq![
            fsub(e.p2@[0]@, e.p0@[0]@),
            fsub(e.p2@[1]@, e.p0@[1]@),
        ]);
        assert(rsub2(
            rsub2(crate::fx::raws(e.p2@), crate::fx::raws(e.p0@)),
            crate::fx::raws(x2@),
        ) =~= crate::fx::raws(v2@));
    }
    quadratic_root(c0, c1, c2)
}

/// Raw value of the interpolated barycentric coordinate of the vertex
/// against the edge at time `te`.
pub open spec fn ev_coord_at(
    se0: Seq<int>,
    se1: Seq<int>,
    sv: Seq<int>,
    ee0: Seq<int>,
    ee1: Seq<int>,
    ev: Seq<int>,
    te: int,
) -> int {
    let ts = fsub(SCALE as int, te);
    let e0x = fadd(fmul(se0[0], ts), fmul(ee0[0], te));
    let e0y = fadd(fmul(se0[1], ts), fmul(ee0[1], te));
    let e1x = fadd(fmul(se1[0], ts), fmul(ee1[0], te));
    let e1y = fadd(fmul(se1[1], ts), fmul(ee1[1], te));
    let vx = fadd(fmul(sv[0], ts), fmul(ev[0], te));
    let vy = fadd(fmul(sv[1], ts), fmul(ev[1], te));
    let d0 = fsub(e1x, e0x);
    let d1 = fsub(e1y, e0y);
    let w0 = fsub(vx, e0x);
    let w1 = fsub(vy, e0y);
    let len2 = fadd(fmul(d0, d0), fmul(d1, d1));
    if len2 == 0 {
        (SCALE as int) / 2
    } else {
        fdiv(fadd(fmul(w0, d0), fmul(w1, d1)), len2)
    }
}

/// The first collinearity time at which the vertex actually lies within the
/// edge (its interpolated barycentric coordinate lies in `[0, 1]`), or
/// `None` when neither root qualifies or no collinearity occurs.
pub fn intersecting_time_ev(s: EdgeVertex, e: EdgeVertex) -> (r: Option<Fix>)
    ensures
        ({
            let c = coplanar_coeffs(
                crate::fx::raws(s.e0@),
                crate::fx::raws(s.e1@),
                crate::fx::raws(s.v@),
                crate::fx::raws(e.e0@),
                crate::fx::raws(e.e1@),
                crate::fx::raws(e.v@),
            );
            let coord = |te: int|
                ev_coord_at(
                    crate::fx::raws(s.e0@),
                    crate::fx::raws(s.e1@),
                    crate::fx::raws(s.v@),
                    crate::fx::raws(e.e0@),
                    crate::fx::raws(e.e1@),
                    crate::fx::raws(e.v@),
                    te,
                );
            match quadratic_root_spec(c.0, c.1, c.2) {
                None => r is None,
                Some((t0, t1)) => if 0 <= coord(t0) <= SCALE as int {
                    r matches Some(te) && te@ == t0
                } else if 0 <= coord(t1) <= SCALE as int {
                    r matches Some(te) && te@ == t1
                } else {
                    r is None
                },
            }
        }),
{
    let roots = coplanar_time(
        ThreePoints { p0: s.e0, p1: s.e1, p2: s.v },
        ThreePoints { p0: e.e0, p1: e.e1, p2: e.v },
    );
    let (t0, t1) = match roots {
        Some(t) => t,
        None => {
            return None;
        },
    };
    if ev_coord_in_range(&s, &e, t0) {
        return Some(t0);
    }
    if ev_coord_in_range(&s, &e, t1) {
        return Some(t1);
    }
    None
}

/// Whether the interpolated barycentric coordinate at time `te` lies in
/// `[0, 1]`.
fn ev_coord_in_range(s: &EdgeVertex, e: &EdgeVertex, te: Fix) -> (r: bool)
    ensures
        r == (0 <= ev_coord_at(
            crate::fx::raws(s.e0@),
            crate::fx::raws(s.e1@),
            crate::fx::raws(s.v@),
            crate::fx::raws(e.e0@),
            crate::fx::raws(e.e1@),
            crate::fx::raws(e.v@),
            te@,
        ) <= SCALE as int),
{
    let zero = Fix::zero();
    let one = Fix::one();
    let ts = one.sub(te);
    let e0 = [
        s.e0[0].mul(ts).add(e.e0[0].mul(te)),
        s.e0[1].mul(ts).add(e.e0[1].mul(te)),
    ];
    let e1 = [
        s.e1[0].mul(ts).add(e.e1[0].mul(te)),
        s.e1[1].mul(ts).add(e.e1[1].mul(te)),
    ];
    let v = [
        s.v[0].mul(ts).add(e.v[0].mul(te)),
        s.v[1].mul(ts).add(e.v[1].mul(te)),
    ];
    let coord = crate::edge2::barycentric(&e0, &e1, &v);
    coord.ge(zero) && coord.le(one)
}

} // verus!
