//! The extended estimator: the state and the predicted measurement come from
//! caller-supplied nonlinear functions, the covariance from their Jacobians.
//!
//! Each model function receives the state and an optional context (control
//! input, sensor positions, ...) that the estimator hands on without looking
//! into it.

use crate::error::EstimatorError;
use crate::linear::{
    correct, correction_verdict, innovation, is_innovation_covariance, is_propagated_covariance,
    is_square, make_m, measurement_conforms, propagation_conformant, propagation_conforms,
    update_conformant,
};
use crate::matrix::{dims, has_shape, row_count};
use peroxide::fuga::Matrix;
use vstd::prelude::*;

verus! {

/// Whether `x` is a column of some length `n >= 1` and the covariance `P`,
/// the Jacobian `F` and the process noise `Q` are `n x n`.
pub open spec fn extended_predict_conformant(x: Matrix, p: Matrix, jac: Matrix, q: Matrix) -> bool {
    &&& has_shape(x, row_count(p), 1)
    &&& propagation_conformant(jac, p, q)
}

/// Extended predict: `x_pred = f(x, u)` and `P_pred = F P Fᵀ + Q`, where `F`
/// is the Jacobian of `f` at `x`.
///
/// Fails with `DimensionMismatch` exactly when the shapes do not conform,
/// without calling `f`; otherwise `f` is called once, and the step fails
/// with `ModelOutputShapeMismatch` exactly when what it returned is not a
/// column as long as `x`.
pub fn extended_predict<C, F: Fn(&Matrix, Option<&C>) -> Matrix>(
    f: &F,
    x: &Matrix,
    p: &Matrix,
    jac: &Matrix,
    q: &Matrix,
    u: Option<&C>,
) -> (res: Result<(Matrix, Matrix), EstimatorError>)
    requires
        f.requires((x, u)),
    ensures
        !extended_predict_conformant(*x, *p, *jac, *q) ==> res == Err::<(Matrix, Matrix), _>(
            EstimatorError::DimensionMismatch,
        ),
        extended_predict_conformant(*x, *p, *jac, *q) ==> exists|out: Matrix| #[trigger]
            f.ensures((x, u), out) && if has_shape(out, row_count(*x), 1) {
                res matches Ok((xs, ps)) && xs == out && is_square(ps, row_count(*x))
                    && is_propagated_covariance(ps, *jac, *p, *q)
            } else {
                res == Err::<(Matrix, Matrix), _>(EstimatorError::ModelOutputShapeMismatch)
            },
{
    let (n, _) = dims(p);
    let (x_rows, x_cols) = dims(x);
    if x_rows != n || x_cols != 1 || !propagation_conforms(jac, p, q) {
        return Err(EstimatorError::DimensionMismatch);
    }
    let state = f(x, u);
    let (out_rows, out_cols) = dims(&state);
    if out_rows != n || out_cols != 1 {
        return Err(EstimatorError::ModelOutputShapeMismatch);
    }
    let cov = make_m(jac, p, q);
    Ok((state, cov))
}

/// Extended update: innovation `y = z - h(x, o)`, where `H` is the Jacobian
/// of `h` at `x`; gain and covariance as in the linear update (Joseph form).
///
/// Fails with `DimensionMismatch` exactly when the shapes do not conform,
/// without calling `h`; otherwise `h` is called once, and the step fails
/// with `ModelOutputShapeMismatch` exactly when what it returned is not a
/// column as long as `z`, and then with `SingularInnovationCovariance`
/// exactly when the WAZ factorisation of the computed `H P Hᵀ + R` meets a
/// zero pivot.
pub fn extended_update<C, G: Fn(&Matrix, Option<&C>) -> Matrix>(
    h_fn: &G,
    x: &Matrix,
    p: &Matrix,
    h: &Matrix,
    z: &Matrix,
    r: &Matrix,
    o: Option<&C>,
) -> (res: Result<(Matrix, Matrix), EstimatorError>)
    requires
        h_fn.requires((x, o)),
    ensures
        !update_conformant(*x, *p, *h, *z, *r) ==> res == Err::<(Matrix, Matrix), _>(
            EstimatorError::DimensionMismatch,
        ),
        update_conformant(*x, *p, *h, *z, *r) ==> exists|z_pred: Matrix| #[trigger]
            h_fn.ensures((x, o), z_pred) && if has_shape(z_pred, row_count(*z), 1) {
                exists|s: Matrix|
                    is_square(s, row_count(*h)) && is_innovation_covariance(s, *p, *h, *r)
                        && #[trigger] correction_verdict(res, *x, *p, *h, *z, *r, z_pred, s)
            } else {
                res == Err::<(Matrix, Matrix), _>(EstimatorError::ModelOutputShapeMismatch)
            },
{
    let (n, _) = dims(p);
    let (m, _) = dims(h);
    let (x_rows, x_cols) = dims(x);
    let (z_rows, z_cols) = dims(z);
    if x_rows != n || x_cols != 1 || z_rows != m || z_cols != 1 || !measurement_conforms(p, h, r) {
        return Err(EstimatorError::DimensionMismatch);
    }
    let z_pred = h_fn(x, o);
    let (out_rows, out_cols) = dims(&z_pred);
    if out_rows != m || out_cols != 1 {
        return Err(EstimatorError::ModelOutputShapeMismatch);
    }
    let s = innovation(p, h, r);
    correct(x, p, h, z, r, &z_pred, &s)
}

} // verus!
