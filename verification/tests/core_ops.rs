//! Tests of the scalar type and the vector and matrix arithmetic.

use del_geo_fix::aabb::AABB;
use del_geo_fix::fx::Fix;
use del_geo_fix::mat3_col_major::{
    add_in_place_scaled_outer_product, from_scaled_outer_product, from_transform_ndc2pix,
    from_translate, from_vec3_to_skew_mat, minimum_rotation_matrix, mult_vec, to_quaternion,
    to_vec3_from_skew_mat, transform_homogeneous, transform_lcl2world_given_local_z,
    Mat3ColMajor,
};
use del_geo_fix::quaternion::Quaternion;
use del_geo_fix::mat3_col_major::from_rotate_z;
use del_geo_fix::trig::HALF_PI_RAW;
use del_geo_fix::vec2::{
    angle_between_two_vecs, area_quadrilateral, dot, normalize, orthogonalize, rotate,
    wdw_angle_between_two_vecs,
};
use del_geo_fix::tet::volume;
use del_geo_fix::vec3::{
    basis_xy_from_basis_z, frame_from_z_vector, from_basis, from_homogeneous,
    scalar_triple_product, Vec3,
};
use del_geo_fix::vecn::{add_four, add_three, VecN};

const SCALE_F: f64 = 70368744177664.0;

fn fx(x: f64) -> Fix {
    Fix::from_raw((x * SCALE_F).round() as i64)
}

fn fl(x: Fix) -> f64 {
    x.raw() as f64 / SCALE_F
}

#[test]
fn test_add() {
    assert_eq!([fx(1.), fx(2.)].add(&[fx(2.), fx(3.)]), [fx(3.), fx(5.)]);
    assert_eq!([fx(1.), fx(2.)].sub(&[fx(2.), fx(3.)]), [fx(-1.), fx(-1.)]);
    assert_eq!([fx(4.), fx(3.)].norm(), fx(5.));
}

#[test]
fn test_try_inverse() {
    let m: [Fix; 9] = [
        fx(1.7),
        fx(3.),
        fx(2.3),
        fx(4.5),
        fx(5.),
        fx(1.5),
        fx(3.3),
        fx(2.),
        fx(4.2),
    ];
    let mi = m.try_inverse().unwrap();
    let mmi = m.mult_mat_col_major(&mi);
    let mim = mi.mult_mat_col_major(&m);
    for i in 0..3 {
        for j in 0..3 {
            let v = if i == j { 1. } else { 0. };
            assert!((v - fl(mmi[i + j * 3])).abs() < 1.0e-6);
            assert!((v - fl(mim[i + j * 3])).abs() < 1.0e-6);
        }
    }
}

#[test]
fn test_skew() {
    let v0 = [fx(1.1), fx(3.1), fx(2.5)];
    let m0 = from_vec3_to_skew_mat(&v0);
    {
        let v1 = [fx(2.1), fx(0.1), fx(4.5)];
        let c0 = v0.cross(&v1);
        let c1 = m0.mult_vec(&v1);
        assert!(fl(Vec3::norm(&Vec3::sub(&c0, &c1))) < 1.0e-10);
    }
    let v0a = to_vec3_from_skew_mat(&m0);
    assert!(fl(Vec3::norm(&Vec3::sub(&v0, &v0a))) < 1.0e-10);
}

#[test]
fn test_to_quaternion() {
    let quats = [
        [-3., -2., 0., -1.],
        [3., -2., 0., -1.],
        [-1., 3., -2., -1.],
        [-1., -3., -2., -1.],
        [-1., -2., 3., -1.],
        [-1., -2., -3., -1.],
        [-1., -2., 1., -4.],
        [-1., -2., -1., -4.],
    ];
    for quat0 in quats {
        let q0: [Fix; 4] = [fx(quat0[0]), fx(quat0[1]), fx(quat0[2]), fx(quat0[3])];
        let q0 = q0.normalized();
        let r_mat = q0.to_mat3_col_major();
        let q1 = to_quaternion(&r_mat);
        let mut dm = 0.0f64;
        let mut dp = 0.0f64;
        for k in 0..4 {
            dm += (fl(q0[k]) - fl(q1[k])) * (fl(q0[k]) - fl(q1[k]));
            dp += (fl(q0[k]) + fl(q1[k])) * (fl(q0[k]) + fl(q1[k]));
        }
        assert!(dm.sqrt().min(dp.sqrt()) < 1.0e-7);
    }
}

#[test]
fn test_fix_saturation_and_exactness() {
    // integer arithmetic on small values is exact
    assert_eq!(fx(3.0).add(fx(4.0)), fx(7.0));
    assert_eq!(fx(3.0).mul(fx(4.0)), fx(12.0));
    assert_eq!(fx(10.0).div(fx(4.0)), fx(2.5));
    assert_eq!(fx(9.0).sqrt(), fx(3.0));
    assert_eq!(fx(-5.0).abs(), fx(5.0));
    assert_eq!(fx(2.25).sqrt(), fx(1.5));
    // saturation clamps to the representable range
    let big = Fix::max_value();
    assert_eq!(big.add(big), big);
    assert_eq!(big.neg().sub(big), Fix::min_value());
    // division by zero saturates to the sign of the dividend
    assert_eq!(fx(1.0).div(Fix::zero()), Fix::max_value());
    assert_eq!(fx(-1.0).div(Fix::zero()), Fix::min_value());
    assert_eq!(Fix::zero().div(Fix::zero()), Fix::zero());
    // the square root of a negative value is zero
    assert_eq!(fx(-4.0).sqrt(), Fix::zero());
    // from_ratio truncates toward zero
    assert_eq!(Fix::from_ratio(1, 2), Fix::half());
    assert_eq!(Fix::from_ratio(-3, 2), fx(-1.5));
}

#[test]
fn test_determinant_exact() {
    // an integer matrix with known determinant: diag(2, 3, 4)
    let m: [Fix; 9] = [
        fx(2.),
        fx(0.),
        fx(0.),
        fx(0.),
        fx(3.),
        fx(0.),
        fx(0.),
        fx(0.),
        fx(4.),
    ];
    assert_eq!(m.determinant(), fx(24.));
    let s = del_geo_fix::mat3_col_major::determinant(&[
        fx(0.),
        fx(1.),
        fx(0.),
        fx(0.),
        fx(0.),
        fx(1.),
        fx(1.),
        fx(0.),
        fx(0.),
    ]);
    assert_eq!(s, fx(1.));
}

#[test]
fn test_aabb_queries() {
    let bb: AABB<2, 4> = AABB { aabb: [fx(0.), fx(0.), fx(2.), fx(4.)] };
    assert!(bb.is_include_point(&[fx(1.), fx(1.)]));
    assert!(!bb.is_include_point(&[fx(3.), fx(1.)]));
    let c = bb.center();
    assert_eq!(c, [fx(1.), fx(2.)]);
    // a ray from the left hits the box between t=1 and t=3
    let hit = bb.intersections_against_ray(&[fx(-1.), fx(1.)], &[fx(1.), fx(0.)]);
    let (tmin, tmax) = hit.unwrap();
    assert!((fl(tmin) - 1.0).abs() < 1.0e-10);
    assert!((fl(tmax) - 3.0).abs() < 1.0e-10);
    // a ray pointing away misses
    let miss = bb.intersections_against_ray(&[fx(-1.), fx(1.)], &[fx(-1.), fx(0.)]);
    assert!(miss.is_none());
    // an axis-parallel line outside a slab misses
    let miss2 = bb.intersections_against_line(&[fx(-1.), fx(1.)], &[fx(0.), fx(1.)]);
    assert!(miss2.is_none());
}

#[test]
fn test_vec2_from_homogeneous() {
    let p = del_geo_fix::vec2::from_homogeneous(&[fx(1.), fx(2.), fx(1.)]).unwrap();
    assert_eq!(p, [fx(1.), fx(2.)]);
    let q = del_geo_fix::vec2::from_homogeneous(&[fx(3.), fx(-4.), fx(2.)]).unwrap();
    assert_eq!(q, [fx(1.5), fx(-2.)]);
    assert!(del_geo_fix::vec2::from_homogeneous(&[fx(1.), fx(2.), fx(0.)]).is_none());
}

#[test]
fn test_vec2_ops() {
    let a = [fx(3.), fx(0.)];
    let b = [fx(1.), fx(2.)];
    assert_eq!(dot(&a, &b), fx(3.));
    assert_eq!(area_quadrilateral(&a, &b), fx(6.));
    let n = normalize(&b);
    let l = fl(n[0]) * fl(n[0]) + fl(n[1]) * fl(n[1]);
    assert!((l - 1.0).abs() < 1.0e-10);
    let o = orthogonalize(&a, &b);
    assert!(fl(dot(&a, &o)).abs() < 1.0e-10);
}

#[test]
fn test_transform_homogeneous_cases() {
    let t = from_translate(&[fx(2.), fx(3.)]);
    let p = transform_homogeneous(&t, &[fx(1.), fx(1.)]).unwrap();
    assert!((fl(p[0]) - 3.0).abs() < 1.0e-10);
    assert!((fl(p[1]) - 4.0).abs() < 1.0e-10);
    // a transformation sending the point to the plane at infinity gives None
    let bad: [Fix; 9] = [
        fx(1.),
        fx(0.),
        fx(0.),
        fx(0.),
        fx(1.),
        fx(0.),
        fx(0.),
        fx(0.),
        fx(0.),
    ];
    assert!(transform_homogeneous(&bad, &[fx(1.), fx(1.)]).is_none());
}

#[test]
fn test_minimum_rotation_matrix_relates_the_directions() {
    let v0 = [fx(1.), fx(0.2), fx(-0.3)];
    let v1 = [fx(-0.5), fx(1.1), fx(0.4)];
    let r = minimum_rotation_matrix(&v0, &v1);
    // read as row-major data the matrix turns v0 onto v1; under the
    // column-major product that is the inverse rotation
    let im = mult_vec(&r, &Vec3::normalize(&v1));
    let d = Vec3::sub(&im, &Vec3::normalize(&v0));
    assert!(fl(Vec3::norm(&d)) < 1.0e-6);
    assert!((fl(r.determinant()) - 1.0).abs() < 1.0e-6);
}

#[test]
fn test_angle_between_two_vecs() {
    let a = [fx(3f64.sqrt()), fx(1.0)];
    let b = [fx(-1.0), fx(1.0)];
    let theta0 = fl(angle_between_two_vecs(&a, &b));
    let theta1 = 7f64 / 12f64 * std::f64::consts::PI;
    assert!((theta0 - theta1).abs() < 1.0e-10);
}

#[test]
fn test_wdw_angle_between_two_vecs() {
    let a0 = [[3f64.sqrt(), 1.0], [-1.0, 1.0]];
    let (t0, dt0) = wdw_angle_between_two_vecs(&[fx(a0[0][0]), fx(a0[0][1])], &[
        fx(a0[1][0]),
        fx(a0[1][1]),
    ]);
    let t0 = fl(t0);
    let eps = 1.0e-5;
    for ino in 0..2 {
        for idim in 0..2 {
            let a1 = {
                let mut a1 = a0;
                a1[ino][idim] += eps;
                a1
            };
            let (t1, _dt1) = wdw_angle_between_two_vecs(&[fx(a1[0][0]), fx(a1[0][1])], &[
                fx(a1[1][0]),
                fx(a1[1][1]),
            ]);
            let v0 = (fl(t1) - t0) / eps;
            let v1 = fl(dt0[ino][idim]);
            assert!((v0 - v1).abs() < 1.0e-5);
        }
    }
}

#[test]
fn test_rotate_by_right_angle() {
    let p = [fx(1.0), fx(0.0)];
    let q = rotate(&p, Fix::from_raw(HALF_PI_RAW));
    assert!(fl(q[0]).abs() < 1.0e-10);
    assert!((fl(q[1]) - 1.0).abs() < 1.0e-10);
    let r = from_rotate_z(Fix::from_raw(HALF_PI_RAW));
    assert!((fl(r[1]) - 1.0).abs() < 1.0e-10);
    assert!((fl(r.determinant()) - 1.0).abs() < 1.0e-9);
}

#[test]
fn test_vector_sums_exact() {
    let a = [fx(1.), fx(2.), fx(3.)];
    let b = [fx(4.), fx(5.), fx(6.)];
    let c = [fx(7.), fx(8.), fx(9.)];
    let d = [fx(-1.), fx(-2.), fx(-3.)];
    assert_eq!(add_three(&a, &b, &c), [fx(12.), fx(15.), fx(18.)]);
    assert_eq!(add_four(&a, &b, &c, &d), [fx(11.), fx(13.), fx(15.)]);
}

#[test]
fn test_outer_product_exact() {
    let a = [fx(1.), fx(2.), fx(3.)];
    let b = [fx(4.), fx(5.), fx(6.)];
    let m = from_scaled_outer_product(fx(2.), &a, &b);
    // entry (r, c) is 2 a[r] b[c]; column major
    assert_eq!(m[0], fx(8.));
    assert_eq!(m[1], fx(16.));
    assert_eq!(m[5], fx(30.));
    assert_eq!(m[8], fx(36.));
    let mut acc = from_scaled_outer_product(fx(1.), &a, &b);
    add_in_place_scaled_outer_product(&mut acc, fx(1.), &a, &b);
    assert_eq!(acc[0], fx(8.));
    assert_eq!(acc[8], fx(36.));
}

#[test]
fn test_pixel_transforms_exact() {
    let t = from_transform_ndc2pix((640, 480));
    assert_eq!(t[0], fx(320.));
    assert_eq!(t[4], fx(-240.));
    assert_eq!(t[6], fx(320.));
    assert_eq!(t[7], fx(240.));
    assert_eq!(t[8], fx(1.));
}

#[test]
fn test_local_frame_is_orthonormal() {
    let n = [fx(0.3), fx(-0.7), fx(0.648074069840786)];
    let m = transform_lcl2world_given_local_z(&n);
    // the three columns are mutually orthogonal unit vectors
    for c0 in 0..3 {
        for c1 in 0..3 {
            let mut d = 0.0;
            for r in 0..3 {
                d += fl(m[c0 * 3 + r]) * fl(m[c1 * 3 + r]);
            }
            let expect = if c0 == c1 { 1.0 } else { 0.0 };
            assert!((d - expect).abs() < 1.0e-9, "{} {} {}", c0, c1, d);
        }
    }
    let nn = Vec3::normalize(&n);
    let (bx, by) = basis_xy_from_basis_z(&nn);
    assert!(fl(Vec3::dot(&bx, &nn)).abs() < 1.0e-9);
    assert!(fl(Vec3::dot(&by, &nn)).abs() < 1.0e-9);
    assert!(fl(Vec3::dot(&bx, &by)).abs() < 1.0e-9);
    let (ux, uy) = frame_from_z_vector(nn);
    assert!(fl(Vec3::dot(&ux, &nn)).abs() < 1.0e-9);
    assert!(fl(Vec3::dot(&ux, &uy)).abs() < 1.0e-9);
}

#[test]
fn test_vec3_helpers() {
    let e1 = from_basis(1, fx(2.5));
    assert_eq!(e1, [fx(0.), fx(2.5), fx(0.)]);
    let p = from_homogeneous(&[fx(2.), fx(4.), fx(6.), fx(2.)]).unwrap();
    assert_eq!(p, [fx(1.), fx(2.), fx(3.)]);
    assert!(from_homogeneous(&[fx(2.), fx(4.), fx(6.), fx(0.)]).is_none());
    // the volume of the unit basis parallelepiped is one
    let s = scalar_triple_product(
        &[fx(1.), fx(0.), fx(0.)],
        &[fx(0.), fx(1.), fx(0.)],
        &[fx(0.), fx(0.), fx(1.)],
    );
    assert_eq!(s, fx(1.));
}

#[test]
fn test_tet_volume_exact() {
    // the unit right tetrahedron has volume one sixth
    let v = volume(
        &[fx(0.), fx(0.), fx(0.)],
        &[fx(1.), fx(0.), fx(0.)],
        &[fx(0.), fx(1.), fx(0.)],
        &[fx(0.), fx(0.), fx(1.)],
    );
    assert!((fl(v) - 1.0 / 6.0).abs() < 1.0e-12);
}
