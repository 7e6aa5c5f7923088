//! Tests of the 3D edge routines.

use del_geo_fix::ccd2::{intersecting_time_ev, EdgeVertex};
use del_geo_fix::polynomial_root::quadratic_root;
use del_geo_fix::edge3::{
    intersection_edge3_when_coplanar, length, nearest_to_edge3, nearest_to_point3,
    position_from_ratio, squared_length, wdw_integral_of_inverse_distance_cubic,
};
use del_geo_fix::fx::Fix;
use del_geo_fix::vec3::{axpy, Vec3};
use rand::RngExt;
use rand::SeedableRng;

const SCALE_F: f64 = 70368744177664.0;

fn fx(x: f64) -> Fix {
    Fix::from_raw((x * SCALE_F).round() as i64)
}

fn fl(x: Fix) -> f64 {
    x.raw() as f64 / SCALE_F
}

fn fv(p: &[f64; 3]) -> [Fix; 3] {
    [fx(p[0]), fx(p[1]), fx(p[2])]
}

fn sample_cube(rng: &mut rand_chacha::ChaChaRng) -> [f64; 3] {
    [rng.random::<f64>(), rng.random::<f64>(), rng.random::<f64>()]
}

fn subf(a: &[f64; 3], b: &[f64; 3]) -> [f64; 3] {
    [a[0] - b[0], a[1] - b[1], a[2] - b[2]]
}

fn normf(a: &[f64; 3]) -> f64 {
    (a[0] * a[0] + a[1] * a[1] + a[2] * a[2]).sqrt()
}

fn crossf(a: &[f64; 3], b: &[f64; 3]) -> [f64; 3] {
    [
        a[1] * b[2] - a[2] * b[1],
        a[2] * b[0] - a[0] * b[2],
        a[0] * b[1] - a[1] * b[0],
    ]
}

/// Height of `q` over the line through `p0` and `p1`.
fn heightf(p0: &[f64; 3], p1: &[f64; 3], q: &[f64; 3]) -> f64 {
    normf(&crossf(&subf(p1, p0), &subf(q, p0))) / normf(&subf(p1, p0))
}

fn numerical(q: &[f64; 3], p0: &[f64; 3], p1: &[f64; 3], n: usize, p: usize) -> f64 {
    let len = normf(&subf(p1, p0));
    let mut ret = 0.;
    for i_seg in 0..n {
        let r0 = i_seg as f64 / n as f64;
        let r1 = (i_seg + 1) as f64 / n as f64;
        let pr0 = [
            (1. - r0) * p0[0] + r0 * p1[0] - q[0],
            (1. - r0) * p0[1] + r0 * p1[1] - q[1],
            (1. - r0) * p0[2] + r0 * p1[2] - q[2],
        ];
        let pr1 = [
            (1. - r1) * p0[0] + r1 * p1[0] - q[0],
            (1. - r1) * p0[1] + r1 * p1[1] - q[1],
            (1. - r1) * p0[2] + r1 * p1[2] - q[2],
        ];
        let v0 = 1. / normf(&pr0).powi(p as i32);
        let v1 = 1. / normf(&pr1).powi(p as i32);
        ret += (v0 + v1) * 0.5;
    }
    ret * len / (n as f64)
}

#[test]
fn test_wdw_integral_of_inverse_distance_cubic() {
    let mut reng = rand_chacha::ChaChaRng::seed_from_u64(0u64);
    let mut tested = 0;
    for _i in 0..10000 {
        let p0 = sample_cube(&mut reng);
        let p1 = sample_cube(&mut reng);
        let q = sample_cube(&mut reng);
        let len = normf(&subf(&p0, &p1));
        let height = heightf(&p0, &p1, &q);
        // the scalar's range tops out near 65536, so the integrand must stay
        // clear of the edge: a larger clearance than the distances alone
        if height < 0.3 {
            continue;
        }
        if len < 0.3 {
            continue;
        }
        if normf(&subf(&p0, &q)) < 0.3 {
            continue;
        }
        if normf(&subf(&p1, &q)) < 0.3 {
            continue;
        }
        tested += 1;
        let (v0, dv0) = wdw_integral_of_inverse_distance_cubic(&fv(&q), &fv(&p0), &fv(&p1));
        let v0 = fl(v0);
        let dv0 = [fl(dv0[0]), fl(dv0[1]), fl(dv0[2])];
        assert!((v0 - numerical(&q, &p0, &p1, 1000, 3)).abs() < 1.0e-4 * v0.abs());
        let eps = 1.0e-4_f64;
        let qex = [q[0] + eps, q[1], q[2]];
        let qey = [q[0], q[1] + eps, q[2]];
        let qez = [q[0], q[1], q[2] + eps];
        let vx = (numerical(&qex, &p0, &p1, 1000, 3) - v0) / eps;
        let vy = (numerical(&qey, &p0, &p1, 1000, 3) - v0) / eps;
        let vz = (numerical(&qez, &p0, &p1, 1000, 3) - v0) / eps;
        let dv1 = [vx, vy, vz];
        assert!(normf(&subf(&dv0, &dv1)) < 0.03 * (normf(&dv0) + 1.0));
    }
    assert!(tested > 0);
}

#[test]
fn test_nearest_to_edge3() {
    let mut reng = rand_chacha::ChaChaRng::seed_from_u64(0u64);
    let eps = 1.0e-4;
    for _i in 0..10000 {
        let p0 = sample_cube(&mut reng);
        let p1 = sample_cube(&mut reng);
        let q0 = sample_cube(&mut reng);
        let q1 = sample_cube(&mut reng);
        let (dist, rp, rq) = nearest_to_edge3(&fv(&p0), &fv(&p1), &fv(&q0), &fv(&q1));
        let dist = fl(dist);
        let rp = fl(rp);
        let rq = fl(rq);
        let vp = subf(&p1, &p0);
        let pc0 = axpyf(f64::clamp(rp - eps, 0.0, 1.0), &vp, &p0);
        let pc1 = axpyf(rp, &vp, &p0);
        let pc2 = axpyf(f64::clamp(rp + eps, 0.0, 1.0), &vp, &p0);
        let vq = subf(&q1, &q0);
        let qc0 = axpyf(f64::clamp(rq - eps, 0.0, 1.0), &vq, &q0);
        let qc1 = axpyf(rq, &vq, &q0);
        let qc2 = axpyf(f64::clamp(rq + eps, 0.0, 1.0), &vq, &q0);
        assert!((dist - normf(&subf(&pc1, &qc1))).abs() < 1.0e-5);
        assert!(dist <= normf(&subf(&pc0, &qc0)) + 1e-12);
        assert!(dist <= normf(&subf(&pc0, &qc1)) + 1e-12);
        assert!(dist <= normf(&subf(&pc0, &qc2)) + 1e-12);
        assert!(dist <= normf(&subf(&pc1, &qc0)) + 1e-12);
        assert!(dist <= normf(&subf(&pc1, &qc2)) + 1e-12);
        assert!(dist <= normf(&subf(&pc2, &qc0)) + 1e-12);
        assert!(dist <= normf(&subf(&pc2, &qc1)) + 1e-12);
        assert!(dist <= normf(&subf(&pc2, &qc2)) + 1e-12);
    }
}

fn axpyf(alpha: f64, x: &[f64; 3], y: &[f64; 3]) -> [f64; 3] {
    [
        alpha * x[0] + y[0],
        alpha * x[1] + y[1],
        alpha * x[2] + y[2],
    ]
}

#[test]
fn test_edge_lengths() {
    let p0 = [fx(1.), fx(2.), fx(3.)];
    let p1 = [fx(4.), fx(6.), fx(3.)];
    assert_eq!(length(&p0, &p1), fx(5.));
    assert_eq!(squared_length(&p0, &p1), fx(25.));
    let mid = position_from_ratio(&p0, &p1, Fix::half());
    assert!(fl(mid.sub(&[fx(2.5), fx(4.), fx(3.)]).norm()) < 1.0e-10);
}

#[test]
fn test_nearest_to_point3_cases() {
    // the projection falls inside the edge
    let (d, t) = nearest_to_point3(&fv(&[0., 0., 0.]), &fv(&[2., 0., 0.]), &fv(&[1., 1., 0.]));
    assert!((fl(d) - 1.0).abs() < 1.0e-9);
    assert!((fl(t) - 0.5).abs() < 1.0e-9);
    // the projection is clamped to an endpoint
    let (d, t) = nearest_to_point3(&fv(&[0., 0., 0.]), &fv(&[2., 0., 0.]), &fv(&[3., 0., 1.]));
    assert!((fl(t) - 1.0).abs() < 1.0e-9);
    assert!((fl(d) - 2.0f64.sqrt()).abs() < 1.0e-9);
    // a degenerate edge reports the midpoint ratio
    let (_d, t) = nearest_to_point3(&fv(&[1., 1., 1.]), &fv(&[1., 1., 1.]), &fv(&[0., 0., 0.]));
    assert!((fl(t) - 0.5).abs() < 1.0e-12);
}

#[test]
fn test_intersection_edge3_when_coplanar_cases() {
    // two crossing segments in the plane z = 0
    let p0 = fv(&[0., 0., 0.]);
    let p1 = fv(&[1., 1., 0.]);
    let q0 = fv(&[1., 0., 0.]);
    let q1 = fv(&[0., 1., 0.]);
    let (rp0, rp1, rq0, rq1) = intersection_edge3_when_coplanar(&p0, &p1, &q0, &q1).unwrap();
    assert!((fl(rp0) - 0.5).abs() < 1.0e-6);
    assert!((fl(rp1) - 0.5).abs() < 1.0e-6);
    assert!((fl(rq0) - 0.5).abs() < 1.0e-6);
    assert!((fl(rq1) - 0.5).abs() < 1.0e-6);
    // parallel segments have no crossing
    let r0 = fv(&[0., 1., 0.]);
    let r1 = fv(&[1., 2., 0.]);
    assert!(intersection_edge3_when_coplanar(&p0, &p1, &r0, &r1).is_none());
}

#[test]
fn test_intersecting_time_ev_cases() {
    // a vertex moving straight down through a fixed horizontal edge meets it
    // halfway through the motion
    let se0 = [fx(0.), fx(0.)];
    let se1 = [fx(1.), fx(0.)];
    let sv = [fx(0.5), fx(1.)];
    let ee0 = [fx(0.), fx(0.)];
    let ee1 = [fx(1.), fx(0.)];
    let ev = [fx(0.5), fx(-1.)];
    let te = intersecting_time_ev(
        EdgeVertex { e0: &se0, e1: &se1, v: &sv },
        EdgeVertex { e0: &ee0, e1: &ee1, v: &ev },
    );
    let te = te.unwrap();
    assert!((fl(te) - 0.5).abs() < 1.0e-9);
    // a vertex beside the edge is collinear at the same times but never
    // inside the edge, so no time qualifies
    let sv2 = [fx(2.5), fx(1.)];
    let ev2 = [fx(2.5), fx(-1.)];
    let miss = intersecting_time_ev(
        EdgeVertex { e0: &se0, e1: &se1, v: &sv2 },
        EdgeVertex { e0: &ee0, e1: &ee1, v: &ev2 },
    );
    assert!(miss.is_none());
}

#[test]
fn test_quadratic_root_cases() {
    // (t - 1)(t - 3) = 3 - 4 t + t^2
    let (a, b) = quadratic_root(fx(3.), fx(-4.), fx(1.)).unwrap();
    assert!((fl(a) - 1.0).abs() < 1.0e-9);
    assert!((fl(b) - 3.0).abs() < 1.0e-9);
    // a positive-definite quadratic has no real root
    assert!(quadratic_root(fx(1.), fx(0.), fx(1.)).is_none());
    // a linear polynomial has a double root
    let (a, b) = quadratic_root(fx(2.), fx(-4.), fx(0.)).unwrap();
    assert_eq!(a, b);
    assert!((fl(a) - 0.5).abs() < 1.0e-9);
    // a constant polynomial has none
    assert!(quadratic_root(fx(2.), fx(0.), fx(0.)).is_none());
}
