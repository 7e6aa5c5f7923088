//! Tests of the eigendecomposition, the SVD engine, the rotation projector
//! and the SVD differential.

use del_geo_fix::fx::Fix;
use del_geo_fix::mat3_col_major::{
    determinant, enforce_rotation_matrix_for_svd, from_diagonal, from_identity,
    rotational_component, svd, svd_differential, to_vec3_from_skew_mat, transpose, Mat3ColMajor,
};
use del_geo_fix::mat3_row_major::Mat3RowMajor;
use del_geo_fix::mat3_sym::{eigen_decomp, eigen_decomp_analytic, EigenDecompositionModes};
use rand::RngExt;
use rand::SeedableRng;

const SCALE_F: f64 = 70368744177664.0;

fn fx(x: f64) -> Fix {
    Fix::from_raw((x * SCALE_F).round() as i64)
}

fn fl(x: Fix) -> f64 {
    x.raw() as f64 / SCALE_F
}

#[test]
fn test_eigen_decomp() {
    let mut rng = rand_chacha::ChaChaRng::seed_from_u64(0u64);
    for _itr in 0..1000 {
        let sm: [Fix; 6] = std::array::from_fn(|_| fx(rng.random::<f64>() * 50.));
        let Some((u, _l)) = eigen_decomp(sm, 20) else {
            panic!()
        };
        {
            let ut = Mat3RowMajor::transpose(&u);
            let utu = u.mult_mat_row_major(&ut);
            let id = del_geo_fix::mat3_row_major::from_identity();
            let diff = Mat3RowMajor::sub(&id, &utu);
            let diffnorm = fl(Mat3RowMajor::squared_norm(&diff));
            assert!(diffnorm < 1.0e-20);
        }
    }
}

#[test]
fn test_eigen_decomp_reconstruction() {
    // eigendecomposition of random symmetric matrices with the full budget:
    // the eigenbasis is orthogonal and reproduces the input
    let mut rng = rand_chacha::ChaChaRng::seed_from_u64(7u64);
    for _itr in 0..200 {
        let smf: [f64; 6] = std::array::from_fn(|_| rng.random::<f64>() * 50.);
        let sm: [Fix; 6] = std::array::from_fn(|i| fx(smf[i]));
        let (u, l) = eigen_decomp(sm, 100).unwrap();
        let uf: [[f64; 3]; 3] = std::array::from_fn(|r| std::array::from_fn(|c| fl(u[r * 3 + c])));
        let lf: [f64; 3] = std::array::from_fn(|k| fl(l[k]));
        let mf = [
            [smf[0], smf[5], smf[4]],
            [smf[5], smf[1], smf[3]],
            [smf[4], smf[3], smf[2]],
        ];
        let mut orth = 0.0;
        let mut rec = 0.0;
        for i in 0..3 {
            for j in 0..3 {
                let mut s = 0.0;
                let mut t = 0.0;
                for k in 0..3 {
                    s += uf[k][i] * uf[k][j];
                    t += uf[i][k] * lf[k] * uf[j][k];
                }
                if i == j {
                    s -= 1.0;
                }
                orth += s * s;
                rec += (t - mf[i][j]) * (t - mf[i][j]);
            }
        }
        assert!(orth < 1.0e-18);
        assert!(rec < 1.0e-18);
    }
}

#[test]
fn test_eigen_decomp_degenerate() {
    // a zero matrix has no meaningful eigenbasis and must give None
    let zero = [Fix::zero(); 6];
    assert!(eigen_decomp(zero, 20).is_none());
    assert!(eigen_decomp_analytic(zero).is_none());
    // a barely nonzero matrix still decomposes
    let tiny: [Fix; 6] = std::array::from_fn(|_| fx(1.0e-5));
    assert!(eigen_decomp(tiny, 20).is_some());
    assert!(eigen_decomp_analytic(tiny).is_some());
}

#[test]
fn test_svd() {
    let mut rng = rand_chacha::ChaCha8Rng::seed_from_u64(0);
    for _iter in 0..100 {
        for i_mode_eigen in 0..2 {
            for is_rot in 0..2 {
                let m: [Fix; 9] = std::array::from_fn(|_| fx(rng.random_range(-1f64..1f64)));
                let (u, s, v) = {
                    let mode = match i_mode_eigen {
                        0 => EigenDecompositionModes::JacobiNumIter(100),
                        1 => EigenDecompositionModes::Analytic,
                        _ => unreachable!(),
                    };
                    svd(&m, mode).unwrap()
                };
                let (u, s, v) = if is_rot == 1 {
                    enforce_rotation_matrix_for_svd(&u, &s, &v)
                } else {
                    (u, s, v)
                };
                if is_rot == 1 {
                    let det_v = fl(determinant(&v));
                    assert!((det_v - 1.).abs() < 1.0e-10);
                    let det_u = fl(determinant(&u));
                    assert!((det_u - 1.).abs() < 1.0e-10);
                }
                {
                    let diff = fl(Mat3ColMajor::squared_norm(
                        &Mat3ColMajor::sub(&transpose(&u).mult_mat_col_major(&u), &from_identity()),
                    ));
                    assert!(diff < 1.0e-20, "{}", diff);
                }
                {
                    let diff = fl(Mat3ColMajor::squared_norm(
                        &Mat3ColMajor::sub(&transpose(&v).mult_mat_col_major(&v), &from_identity()),
                    ));
                    assert!(diff < 1.0e-20, "{}", diff);
                }
                {
                    let sd = from_diagonal(&s);
                    let m1 = u.mult_mat_col_major(&sd).mult_mat_col_major(&transpose(&v));
                    let diff = fl(Mat3ColMajor::squared_norm(&Mat3ColMajor::sub(&m1, &m)));
                    assert!(diff < 1.0e-20, "{}", diff);
                }
            }
        }
    }
}

#[test]
fn test_svd_degenerate() {
    // a zero matrix has a degenerate Gram matrix and must give None
    let zero = [Fix::zero(); 9];
    assert!(svd(&zero, EigenDecompositionModes::JacobiNumIter(20)).is_none());
    assert!(svd(&zero, EigenDecompositionModes::Analytic).is_none());
}

#[test]
fn test_enforce_rotation_idempotent() {
    // applying the rotation projector twice is the same as applying it once,
    // and a proper triple is untouched (checked exactly)
    let mut rng = rand_chacha::ChaCha8Rng::seed_from_u64(3);
    for _iter in 0..50 {
        let m: [Fix; 9] = std::array::from_fn(|_| fx(rng.random_range(-1f64..1f64)));
        let (u, s, v) = svd(&m, EigenDecompositionModes::JacobiNumIter(100)).unwrap();
        let (u1, s1, v1) = enforce_rotation_matrix_for_svd(&u, &s, &v);
        let (u2, s2, v2) = enforce_rotation_matrix_for_svd(&u1, &s1, &v1);
        assert_eq!(u1, u2);
        assert_eq!(s1, s2);
        assert_eq!(v1, v2);
    }
}

#[test]
fn test_rotational_component() {
    let mut rng = rand_chacha::ChaCha8Rng::seed_from_u64(0);
    for _iter in 0..100 {
        let m: [Fix; 9] = std::array::from_fn(|_| fx(rng.random_range(-1f64..1f64)));
        let r = rotational_component(&m);
        assert!((fl(r.determinant()) - 1.).abs() < 1.0e-8);
    }
}

#[test]
fn test_svd_differential() {
    let mut rng = rand_chacha::ChaCha8Rng::seed_from_u64(0);
    let eps = 1.0e-6;
    for _iter in 0..100 {
        let m0: [Fix; 9] = std::array::from_fn(|_| fx(rng.random::<f64>()));
        let (u0, s0, v0) = svd(&m0, EigenDecompositionModes::JacobiNumIter(100)).unwrap();
        let (diff_u, diff_s, diff_v) = svd_differential(u0, s0, v0);
        for i in 0..3 {
            for j in 0..3 {
                let m1 = {
                    let mut m1 = m0;
                    m1[i + 3 * j] = m1[i + 3 * j].add(fx(eps));
                    m1
                };
                let (u1, s1, v1) = svd(&m1, EigenDecompositionModes::JacobiNumIter(100)).unwrap();
                {
                    let du_num = to_vec3_from_skew_mat(&transpose(&u1).mult_mat_col_major(&u0));
                    let du_num = [fl(du_num[0]) / eps, fl(du_num[1]) / eps, fl(du_num[2]) / eps];
                    let du_ana = [
                        fl(diff_u[0][i + 3 * j]),
                        fl(diff_u[1][i + 3 * j]),
                        fl(diff_u[2][i + 3 * j]),
                    ];
                    let err = norm3f(&subf(&du_num, &du_ana));
                    assert!(
                        err < 1.0e-4 * (1.0 + norm3f(&du_ana)),
                        "du: {} {} {:?} {:?}",
                        i,
                        j,
                        du_ana,
                        du_num
                    );
                }
                {
                    let ds_num = [
                        (fl(s1[0]) - fl(s0[0])) / eps,
                        (fl(s1[1]) - fl(s0[1])) / eps,
                        (fl(s1[2]) - fl(s0[2])) / eps,
                    ];
                    let ds_ana = [
                        fl(diff_s[0][i + 3 * j]),
                        fl(diff_s[1][i + 3 * j]),
                        fl(diff_s[2][i + 3 * j]),
                    ];
                    let err = norm3f(&subf(&ds_num, &ds_ana));
                    // the forward difference carries a truncation error of
                    // the order of eps times the curvature; the documented
                    // relative tolerance for these estimates is 1e-4
                    assert!(
                        err < 1.0e-4 * (1.0 + norm3f(&ds_ana)),
                        "{} {} {:?} {:?}",
                        i,
                        j,
                        ds_ana,
                        ds_num
                    );
                }
                {
                    let dv_num = to_vec3_from_skew_mat(&transpose(&v1).mult_mat_col_major(&v0));
                    let dv_num = [fl(dv_num[0]) / eps, fl(dv_num[1]) / eps, fl(dv_num[2]) / eps];
                    let dv_ana = [
                        fl(diff_v[0][i + 3 * j]),
                        fl(diff_v[1][i + 3 * j]),
                        fl(diff_v[2][i + 3 * j]),
                    ];
                    let err = norm3f(&subf(&dv_num, &dv_ana));
                    assert!(err < 1.0e-3 * (1.0 + norm3f(&dv_ana)), "{:?}", dv_ana);
                }
            }
        }
    }
}

fn norm3f(a: &[f64; 3]) -> f64 {
    (a[0] * a[0] + a[1] * a[1] + a[2] * a[2]).sqrt()
}

fn subf(a: &[f64; 3], b: &[f64; 3]) -> [f64; 3] {
    [a[0] - b[0], a[1] - b[1], a[2] - b[2]]
}
