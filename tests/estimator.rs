use kalman_filtering_rs::{
    correct, extended_predict, extended_update, gain_for_innovation, make_k, make_m, new_cov,
    predict, update, EstimatorError,
};
use peroxide::fuga::{eye, matrix, zeros, LinearAlgebra, Matrix, MatrixTrait, Shape::Row};

const TOL: f64 = 1e-9;

fn close(a: &Matrix, b: &Matrix, tol: f64) -> bool {
    a.nrow() == b.nrow()
        && a.ncol() == b.ncol()
        && (0..a.nrow()).all(|i| (0..a.ncol()).all(|j| (a[(i, j)] - b[(i, j)]).abs() <= tol))
}

fn symmetric(a: &Matrix, tol: f64) -> bool {
    close(a, &a.t(), tol)
}

fn cv_phi(dt: f64) -> Matrix {
    matrix(vec![1.0, dt, 0.0, 1.0], 2, 2, Row)
}

fn cv_q(dt: f64) -> Matrix {
    matrix(
        vec![dt.powi(3) / 3.0, dt.powi(2) / 2.0, dt.powi(2) / 2.0, dt],
        2,
        2,
        Row,
    )
}

#[test]
fn make_m_propagates_covariance() {
    let phi = matrix(vec![1.0, 1.0, 0.0, 1.0], 2, 2, Row);
    let p = eye(2);
    let q = matrix(vec![0.5, 0.0, 0.0, 0.25], 2, 2, Row);
    let m = make_m(&phi, &p, &q);
    assert!(close(&m, &matrix(vec![2.5, 1.0, 1.0, 1.25], 2, 2, Row), TOL));
}

#[test]
fn make_k_scalar_gain() {
    let m = matrix(vec![4.0], 1, 1, Row);
    let h = matrix(vec![1.0], 1, 1, Row);
    let r = matrix(vec![4.0], 1, 1, Row);
    let k = make_k(&m, &h, &r).unwrap();
    assert!(close(&k, &matrix(vec![0.5], 1, 1, Row), TOL));
}

#[test]
fn make_k_two_measurements() {
    let m = matrix(vec![2.0, 0.0, 0.0, 3.0], 2, 2, Row);
    let h = eye(2);
    let r = matrix(vec![2.0, 0.0, 0.0, 1.0], 2, 2, Row);
    let k = make_k(&m, &h, &r).unwrap();
    assert!(close(&k, &matrix(vec![0.5, 0.0, 0.0, 0.75], 2, 2, Row), TOL));
}

#[test]
fn new_cov_simplified_form() {
    let k = matrix(vec![0.5, 0.25], 2, 1, Row);
    let h = matrix(vec![1.0, 0.0], 1, 2, Row);
    let m = matrix(vec![4.0, 2.0, 2.0, 3.0], 2, 2, Row);
    let p = new_cov(&k, &h, &m);
    // (I - K H) = [[0.5, 0], [-0.25, 1]]
    assert!(close(&p, &matrix(vec![2.0, 1.0, 1.0, 2.5], 2, 2, Row), TOL));
}

#[test]
fn predict_with_and_without_bias() {
    let x = matrix(vec![1.0, 2.0], 2, 1, Row);
    let p = eye(2);
    let phi = cv_phi(0.5);
    let q = zeros(2, 2);
    let (xp, pp) = predict(&x, &p, &phi, &q, None).unwrap();
    assert!(close(&xp, &matrix(vec![2.0, 2.0], 2, 1, Row), TOL));
    assert!(close(&pp, &matrix(vec![1.25, 0.5, 0.5, 1.0], 2, 2, Row), TOL));
    let g = matrix(vec![0.0, -9.81], 2, 1, Row);
    let (xg, pg) = predict(&x, &p, &phi, &q, Some(&g)).unwrap();
    assert!(close(&xg, &matrix(vec![2.0, -7.81], 2, 1, Row), TOL));
    assert!(close(&pg, &pp, TOL));
}

#[test]
fn update_scalar_values() {
    let x = matrix(vec![1.0], 1, 1, Row);
    let p = matrix(vec![4.0], 1, 1, Row);
    let h = matrix(vec![1.0], 1, 1, Row);
    let z = matrix(vec![3.0], 1, 1, Row);
    let r = matrix(vec![4.0], 1, 1, Row);
    let (xs, ps) = update(&x, &p, &h, &z, &r).unwrap();
    assert!(close(&xs, &matrix(vec![2.0], 1, 1, Row), TOL));
    // Joseph form: 0.5 * 4 * 0.5 + 0.5 * 4 * 0.5
    assert!(close(&ps, &matrix(vec![2.0], 1, 1, Row), TOL));
}

#[test]
fn predict_rejects_nonconforming_shapes() {
    let x = matrix(vec![1.0, 2.0], 2, 1, Row);
    let p = eye(2);
    let q = zeros(2, 2);
    let bad_phi = eye(3);
    assert_eq!(
        predict(&x, &p, &bad_phi, &q, None).unwrap_err(),
        EstimatorError::DimensionMismatch
    );
    let bad_g = matrix(vec![1.0, 2.0, 3.0], 3, 1, Row);
    assert_eq!(
        predict(&x, &p, &eye(2), &q, Some(&bad_g)).unwrap_err(),
        EstimatorError::DimensionMismatch
    );
    let row_state = matrix(vec![1.0, 2.0], 1, 2, Row);
    assert_eq!(
        predict(&row_state, &p, &eye(2), &q, None).unwrap_err(),
        EstimatorError::DimensionMismatch
    );
}

#[test]
fn update_rejects_nonconforming_shapes() {
    let x = matrix(vec![1.0, 2.0], 2, 1, Row);
    let p = eye(2);
    let h = matrix(vec![1.0, 0.0], 1, 2, Row);
    let z = matrix(vec![1.0, 2.0], 2, 1, Row);
    let r = matrix(vec![1.0], 1, 1, Row);
    assert_eq!(
        update(&x, &p, &h, &z, &r).unwrap_err(),
        EstimatorError::DimensionMismatch
    );
}

#[test]
fn update_reports_singular_innovation() {
    let x = matrix(vec![1.0, 2.0], 2, 1, Row);
    let p = zeros(2, 2);
    let h = matrix(vec![1.0, 0.0], 1, 2, Row);
    let z = matrix(vec![1.5], 1, 1, Row);
    let r = zeros(1, 1);
    assert_eq!(
        update(&x, &p, &h, &z, &r).unwrap_err(),
        EstimatorError::SingularInnovationCovariance
    );
}

#[test]
fn one_step_constant_velocity_scenario() {
    let x = matrix(vec![3.0, 0.0], 2, 1, Row);
    let p = eye(2);
    let phi = cv_phi(0.1);
    let q = cv_q(0.1);
    let h = matrix(vec![1.0, 0.0], 1, 2, Row);
    let r = matrix(vec![25.0], 1, 1, Row);
    let z = matrix(vec![3.2], 1, 1, Row);
    let (xp, pp) = predict(&x, &p, &phi, &q, None).unwrap();
    assert!((xp[(0, 0)] - 3.0).abs() <= TOL);
    let (xs, ps) = update(&xp, &pp, &h, &z, &r).unwrap();
    assert!(xs[(0, 0)] > 3.0 && xs[(0, 0)] < 3.2);
    assert!(ps[(0, 0)] < pp[(0, 0)]);
}

#[test]
fn covariances_stay_square_and_symmetric() {
    let x = matrix(vec![1.0, -2.0, 0.5], 3, 1, Row);
    let p = matrix(vec![4.0, 1.0, 0.5, 1.0, 3.0, 0.2, 0.5, 0.2, 2.0], 3, 3, Row);
    let phi = matrix(vec![1.0, 0.1, 0.005, 0.0, 1.0, 0.1, 0.0, 0.0, 1.0], 3, 3, Row);
    let q = matrix(vec![0.01, 0.0, 0.0, 0.0, 0.02, 0.0, 0.0, 0.0, 0.03], 3, 3, Row);
    let h = matrix(vec![1.0, 0.0, 0.0, 0.0, 1.0, 0.0], 2, 3, Row);
    let r = matrix(vec![0.5, 0.1, 0.1, 0.7], 2, 2, Row);
    let z = matrix(vec![1.2, -1.9], 2, 1, Row);
    let (mut xs, mut ps) = (x, p);
    for _ in 0..50 {
        let (xp, pp) = predict(&xs, &ps, &phi, &q, None).unwrap();
        assert_eq!((pp.nrow(), pp.ncol()), (3, 3));
        assert!(symmetric(&pp, 1e-9));
        let (xu, pu) = update(&xp, &pp, &h, &z, &r).unwrap();
        assert_eq!((pu.nrow(), pu.ncol()), (3, 3));
        assert_eq!((xu.nrow(), xu.ncol()), (3, 1));
        assert!(symmetric(&pu, 1e-9));
        xs = xu;
        ps = pu;
    }
}

#[test]
fn predict_update_matches_three_step_helpers() {
    let x = matrix(vec![0.3, -1.0, 2.0, 0.7], 4, 1, Row);
    let p = matrix(
        vec![
            2.0, 0.3, 0.1, 0.0, 0.3, 1.5, 0.2, 0.1, 0.1, 0.2, 1.0, 0.05, 0.0, 0.1, 0.05, 0.8,
        ],
        4,
        4,
        Row,
    );
    let phi = matrix(
        vec![
            1.0, 0.2, 0.0, 0.0, 0.0, 1.0, 0.0, 0.0, 0.0, 0.0, 1.0, 0.2, 0.0, 0.0, 0.0, 1.0,
        ],
        4,
        4,
        Row,
    );
    let q = eye(4) * 0.01;
    let h = matrix(vec![1.0, 0.0, 0.0, 0.0, 0.0, 0.0, 1.0, 0.0], 2, 4, Row);
    let r = matrix(vec![0.4, 0.0, 0.0, 0.6], 2, 2, Row);
    let z = matrix(vec![0.5, 2.4], 2, 1, Row);

    let (xp, pp) = predict(&x, &p, &phi, &q, None).unwrap();
    let (xs, ps) = update(&xp, &pp, &h, &z, &r).unwrap();

    let m = make_m(&phi, &p, &q);
    let k = make_k(&m, &h, &r).unwrap();
    let x_bar = &phi * &x;
    let x_hat = &x_bar + &(&k * &(&z - &(&h * &x_bar)));
    let p_hat = new_cov(&k, &h, &m);

    assert!(close(&pp, &m, 1e-12));
    assert!(close(&xs, &x_hat, 1e-9));
    assert!(close(&ps, &p_hat, 1e-9));
}

#[test]
fn noiseless_sensor_is_trusted() {
    let x = matrix(vec![1.0, 1.0], 2, 1, Row);
    let p = matrix(vec![3.0, 0.5, 0.5, 2.0], 2, 2, Row);
    let h = matrix(vec![1.0, 1.0], 1, 2, Row);
    let z = matrix(vec![5.0], 1, 1, Row);
    let r = matrix(vec![1e-12], 1, 1, Row);
    let (xs, _) = update(&x, &p, &h, &z, &r).unwrap();
    let hx = &h * &xs;
    assert!((hx[(0, 0)] - 5.0).abs() < 1e-6);
}

#[test]
fn infinitely_noisy_sensor_is_ignored() {
    let x = matrix(vec![1.0, 2.0], 2, 1, Row);
    let p = eye(2);
    let phi = cv_phi(1.0);
    let q = zeros(2, 2);
    let (xp, pp) = predict(&x, &p, &phi, &q, None).unwrap();
    let h = matrix(vec![1.0, 0.0], 1, 2, Row);
    let z = matrix(vec![100.0], 1, 1, Row);
    let r = matrix(vec![1e14], 1, 1, Row);
    let (xs, _) = update(&xp, &pp, &h, &z, &r).unwrap();
    assert!(close(&xs, &xp, 1e-9));
}

#[test]
fn predict_only_never_shrinks_variances() {
    let mut x = matrix(vec![0.0, 1.0], 2, 1, Row);
    let mut p = matrix(vec![1.0, 0.2, 0.2, 1.0], 2, 2, Row);
    let phi = cv_phi(0.1);
    let q = cv_q(0.1);
    for _ in 0..100 {
        let (xn, pn) = predict(&x, &p, &phi, &q, None).unwrap();
        for i in 0..2 {
            assert!(pn[(i, i)] >= p[(i, i)]);
        }
        x = xn;
        p = pn;
    }
}

#[test]
fn extended_steps_match_linear_for_linear_models() {
    let phi = cv_phi(0.1);
    let q = cv_q(0.1);
    let h = matrix(vec![1.0, 0.0], 1, 2, Row);
    let r = matrix(vec![4.0], 1, 1, Row);
    let z = matrix(vec![3.4], 1, 1, Row);
    let x = matrix(vec![3.0, 1.0], 2, 1, Row);
    let p = eye(2);
    let f = |s: &Matrix, _u: Option<&Matrix>| &cv_phi(0.1) * s;
    let hf = |s: &Matrix, _o: Option<&Matrix>| &matrix(vec![1.0, 0.0], 1, 2, Row) * s;

    let (xe, pe) = extended_predict(&f, &x, &p, &phi, &q, None).unwrap();
    let (xl, pl) = predict(&x, &p, &phi, &q, None).unwrap();
    assert!(close(&xe, &xl, TOL) && close(&pe, &pl, TOL));

    let (xeu, peu) = extended_update(&hf, &xe, &pe, &h, &z, &r, None).unwrap();
    let (xlu, plu) = update(&xl, &pl, &h, &z, &r).unwrap();
    assert!(close(&xeu, &xlu, TOL) && close(&peu, &plu, TOL));
}

#[test]
fn extended_predict_passes_context_on() {
    let x = matrix(vec![2.0, 0.0], 2, 1, Row);
    let p = eye(2);
    let jac = eye(2);
    let q = zeros(2, 2);
    let gravity = matrix(vec![0.0, -9.81], 2, 1, Row);
    let f = |s: &Matrix, u: Option<&Matrix>| match u {
        Some(g) => s + g,
        None => s.clone(),
    };
    let (xe, _) = extended_predict(&f, &x, &p, &jac, &q, Some(&gravity)).unwrap();
    assert!(close(&xe, &matrix(vec![2.0, -9.81], 2, 1, Row), TOL));
}

#[test]
fn extended_steps_reject_wrong_model_output() {
    let x = matrix(vec![1.0, 2.0], 2, 1, Row);
    let p = eye(2);
    let jac = eye(2);
    let q = zeros(2, 2);
    let f = |_s: &Matrix, _u: Option<&()>| zeros(3, 1);
    assert_eq!(
        extended_predict(&f, &x, &p, &jac, &q, None).unwrap_err(),
        EstimatorError::ModelOutputShapeMismatch
    );
    let h = matrix(vec![1.0, 0.0], 1, 2, Row);
    let z = matrix(vec![1.0], 1, 1, Row);
    let r = matrix(vec![1.0], 1, 1, Row);
    let hf = |_s: &Matrix, _o: Option<&()>| zeros(2, 1);
    assert_eq!(
        extended_update(&hf, &x, &p, &h, &z, &r, None).unwrap_err(),
        EstimatorError::ModelOutputShapeMismatch
    );
}

#[test]
fn extended_steps_check_shapes_first() {
    let x = matrix(vec![1.0, 2.0], 2, 1, Row);
    let p = eye(3);
    let f = |_s: &Matrix, _u: Option<&()>| -> Matrix { panic!("model must not be called") };
    assert_eq!(
        extended_predict(&f, &x, &p, &eye(2), &zeros(2, 2), None).unwrap_err(),
        EstimatorError::DimensionMismatch
    );
    let h = matrix(vec![1.0, 0.0], 1, 2, Row);
    let z = matrix(vec![1.0], 1, 1, Row);
    let r = matrix(vec![1.0], 1, 1, Row);
    assert_eq!(
        extended_update(&f, &x, &p, &h, &z, &r, None).unwrap_err(),
        EstimatorError::DimensionMismatch
    );
}

#[test]
fn make_k_reports_errors() {
    let m = zeros(2, 2);
    let h = matrix(vec![1.0, 0.0], 1, 2, Row);
    let r = zeros(1, 1);
    assert_eq!(
        make_k(&m, &h, &r).unwrap_err(),
        EstimatorError::SingularInnovationCovariance
    );
    assert_eq!(
        make_k(&m, &h, &eye(2)).unwrap_err(),
        EstimatorError::DimensionMismatch
    );
}

#[test]
fn correct_decides_on_the_given_innovation_covariance() {
    let x = matrix(vec![1.0], 1, 1, Row);
    let p = matrix(vec![4.0], 1, 1, Row);
    let h = matrix(vec![1.0], 1, 1, Row);
    let z = matrix(vec![3.0], 1, 1, Row);
    let r = matrix(vec![4.0], 1, 1, Row);
    let z_pred = matrix(vec![1.0], 1, 1, Row);
    let s = matrix(vec![8.0], 1, 1, Row);
    let (xs, ps) = correct(&x, &p, &h, &z, &r, &z_pred, &s).unwrap();
    assert!(close(&xs, &matrix(vec![2.0], 1, 1, Row), TOL));
    assert!(close(&ps, &matrix(vec![2.0], 1, 1, Row), TOL));
    assert_eq!(
        correct(&x, &p, &h, &z, &r, &z_pred, &zeros(1, 1)).unwrap_err(),
        EstimatorError::SingularInnovationCovariance
    );
    assert_eq!(
        correct(&x, &p, &h, &z, &r, &z_pred, &eye(2)).unwrap_err(),
        EstimatorError::DimensionMismatch
    );
}

#[test]
fn gain_for_innovation_uses_the_given_covariance() {
    let p = matrix(vec![4.0], 1, 1, Row);
    let h = matrix(vec![1.0], 1, 1, Row);
    let s = matrix(vec![8.0], 1, 1, Row);
    let k = gain_for_innovation(&p, &h, &s).unwrap();
    assert!(close(&k, &matrix(vec![0.5], 1, 1, Row), TOL));
    assert_eq!(
        gain_for_innovation(&p, &h, &zeros(1, 1)).unwrap_err(),
        EstimatorError::SingularInnovationCovariance
    );
    assert_eq!(
        gain_for_innovation(&p, &h, &eye(2)).unwrap_err(),
        EstimatorError::DimensionMismatch
    );
}

#[test]
fn update_rejects_an_empty_measurement() {
    let x = matrix(vec![1.0, 2.0], 2, 1, Row);
    let p = matrix(vec![2.0, 0.5, 0.5, 1.0], 2, 2, Row);
    let h = matrix(Vec::<f64>::new(), 0, 2, Row);
    let z = matrix(Vec::<f64>::new(), 0, 1, Row);
    let r = matrix(Vec::<f64>::new(), 0, 0, Row);
    assert_eq!(
        update(&x, &p, &h, &z, &r).unwrap_err(),
        EstimatorError::DimensionMismatch
    );
}
