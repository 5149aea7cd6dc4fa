//! The linear estimator: predict and update for exact linear models, and the
//! three composable helpers `make_m`, `make_k` and `new_cov`.
//!
//! Each result is stated as the formula it computes, through relations such
//! as `is_propagated_covariance(m, Φ, P, Q)`: `m` is `Φ P Φᵀ + Q`, each
//! product computed on one of `dgemm`'s kernels (see `matrix`). The decision
//! that follows a product, whether the innovation covariance `S` can be
//! inverted, is made by `correct` and `gain_for_innovation`, which take the
//! computed `S` as an argument and are exact for every value of it.

use crate::error::EstimatorError;
use crate::matrix::{
    dims, entries_fit, fits, has_shape, has_waz_factors, identity, identity_matrix, is_inverse,
    is_product, matrix_difference, matrix_sum, minus, plus, row_count, times, transpose,
    transposed, waz_factorable, waz_solve,
};
use peroxide::fuga::Matrix;
use vstd::prelude::*;

verus! {

/// Whether `m` is a square matrix of size `n`.
pub open spec fn is_square(m: Matrix, n: nat) -> bool {
    has_shape(m, n, n)
}

/// Whether `Φ`, `P` and `Q` are square of one size `n >= 1` (whose `n x n`
/// entry count fits in `usize`). peroxide cannot multiply empty matrices.
pub open spec fn propagation_conformant(phi: Matrix, p: Matrix, q: Matrix) -> bool {
    let n = row_count(p);
    &&& n >= 1
    &&& fits(n, n)
    &&& is_square(phi, n)
    &&& is_square(p, n)
    &&& is_square(q, n)
}

/// Whether `P` is `n x n`, `H` is `m x n` and `R` is `m x m`, with
/// `n, m >= 1` (and the `n x n`, `n x m` and `m x m` entry counts fit in
/// `usize`). peroxide cannot multiply empty matrices.
pub open spec fn measurement_conformant(p: Matrix, h: Matrix, r: Matrix) -> bool {
    let n = row_count(p);
    let m = row_count(h);
    &&& n >= 1
    &&& m >= 1
    &&& fits(n, n)
    &&& fits(n, m)
    &&& fits(m, m)
    &&& is_square(p, n)
    &&& has_shape(h, m, n)
    &&& is_square(r, m)
}

/// Whether `x` is a column of length `n`, `P`, `Φ` and `Q` conform to it,
/// and `g`, where given, is a column of length `n` too.
pub open spec fn predict_conformant(
    x: Matrix,
    p: Matrix,
    phi: Matrix,
    q: Matrix,
    g: Option<&Matrix>,
) -> bool {
    let n = row_count(p);
    &&& has_shape(x, n, 1)
    &&& propagation_conformant(phi, p, q)
    &&& (g matches Some(b) ==> has_shape(*b, n, 1))
}

/// Whether `x` is a column of length `n`, `z` a column of length `m`, and
/// `P`, `H` and `R` conform to them.
pub open spec fn update_conformant(x: Matrix, p: Matrix, h: Matrix, z: Matrix, r: Matrix) -> bool {
    &&& measurement_conformant(p, h, r)
    &&& has_shape(x, row_count(p), 1)
    &&& has_shape(z, row_count(h), 1)
}

/// Whether, on top of `update_conformant`, the predicted measurement `ẑ` is
/// a column as long as `z` and `S` is `m x m`.
pub open spec fn correction_conformant(
    x: Matrix,
    p: Matrix,
    h: Matrix,
    z: Matrix,
    r: Matrix,
    z_pred: Matrix,
    s: Matrix,
) -> bool {
    &&& update_conformant(x, p, h, z, r)
    &&& has_shape(z_pred, row_count(h), 1)
    &&& is_square(s, row_count(h))
}

/// Whether `m` is `Φ P Φᵀ + Q`.
pub open spec fn is_propagated_covariance(m: Matrix, phi: Matrix, p: Matrix, q: Matrix) -> bool {
    exists|phi_p: Matrix, spread: Matrix|
        is_product(phi_p, phi, p) && #[trigger] is_product(spread, phi_p, transpose(phi)) && m
            == matrix_sum(spread, q)
}

/// Whether `xs` is `Φ x`, plus `g` where a bias is given.
pub open spec fn is_propagated_state(xs: Matrix, phi: Matrix, x: Matrix, g: Option<&Matrix>) -> bool {
    exists|moved: Matrix|
        #[trigger] is_product(moved, phi, x) && match g {
            Some(b) => xs == matrix_sum(moved, *b),
            None => xs == moved,
        }
}

/// Whether `s` is the innovation covariance `H P Hᵀ + R`.
pub open spec fn is_innovation_covariance(s: Matrix, p: Matrix, h: Matrix, r: Matrix) -> bool {
    exists|h_p: Matrix, spread: Matrix|
        is_product(h_p, h, p) && #[trigger] is_product(spread, h_p, transpose(h)) && s
            == matrix_sum(spread, r)
}

/// Whether `k` is the gain `P Hᵀ S⁻¹` for the innovation covariance `S`.
pub open spec fn is_gain(k: Matrix, p: Matrix, h: Matrix, s: Matrix) -> bool {
    exists|p_h_t: Matrix, s_inv: Matrix|
        is_product(p_h_t, p, transpose(h)) && is_inverse(s_inv, s) && #[trigger] is_product(
            k,
            p_h_t,
            s_inv,
        )
}

/// Whether `c` is the simplified posterior covariance `(I - K H) M`.
pub open spec fn is_simplified_covariance(c: Matrix, k: Matrix, h: Matrix, m: Matrix) -> bool {
    exists|k_h: Matrix|
        #[trigger] is_product(k_h, k, h) && is_product(
            c,
            matrix_difference(identity(row_count(m)), k_h),
            m,
        )
}

/// Whether `xs` is the corrected state `x + K (z - ẑ)`.
pub open spec fn is_corrected_state(
    xs: Matrix,
    x: Matrix,
    k: Matrix,
    z: Matrix,
    z_pred: Matrix,
) -> bool {
    exists|step: Matrix|
        #[trigger] is_product(step, k, matrix_difference(z, z_pred)) && xs == matrix_sum(x, step)
}

/// Whether `c` is the posterior covariance in Joseph form,
/// `(I - K H) P (I - K H)ᵀ + K R Kᵀ`.
pub open spec fn is_joseph_covariance(c: Matrix, p: Matrix, h: Matrix, r: Matrix, k: Matrix) -> bool {
    exists|k_h: Matrix|
        #[trigger] is_product(k_h, k, h) && exists|kept: Matrix, noise: Matrix|
            is_kept_part(kept, matrix_difference(identity(row_count(p)), k_h), p)
                && is_noise_part(noise, k, r) && c == #[trigger] matrix_sum(kept, noise)
}

/// Whether `kept` is `A P Aᵀ`.
pub open spec fn is_kept_part(kept: Matrix, a: Matrix, p: Matrix) -> bool {
    exists|a_p: Matrix| #[trigger] is_product(a_p, a, p) && is_product(kept, a_p, transpose(a))
}

/// Whether `noise` is `K R Kᵀ`.
pub open spec fn is_noise_part(noise: Matrix, k: Matrix, r: Matrix) -> bool {
    exists|k_r: Matrix| #[trigger] is_product(k_r, k, r) && is_product(noise, k_r, transpose(k))
}

/// What a conforming correction returns for the innovation covariance `S`
/// and the predicted measurement `ẑ`: the singular-covariance error where
/// the WAZ factorisation of `S` meets a zero pivot, and otherwise, for a
/// gain `K = P Hᵀ S⁻¹`, the state `x + K (z - ẑ)` (a column of the length of
/// `x`) and the Joseph-form covariance (`n x n`).
pub open spec fn correction_verdict(
    res: Result<(Matrix, Matrix), EstimatorError>,
    x: Matrix,
    p: Matrix,
    h: Matrix,
    z: Matrix,
    r: Matrix,
    z_pred: Matrix,
    s: Matrix,
) -> bool {
    if waz_factorable(s) {
        &&& res matches Ok((xs, ps))
        &&& has_shape(xs, row_count(x), 1)
        &&& is_square(ps, row_count(x))
        &&& exists|k: Matrix|
            #[trigger] is_gain(k, p, h, s) && is_corrected_state(xs, x, k, z, z_pred)
                && is_joseph_covariance(ps, p, h, r, k)
    } else {
        res == Err::<(Matrix, Matrix), _>(EstimatorError::SingularInnovationCovariance)
    }
}

/// What a gain step returns for the innovation covariance `S`: the
/// singular-covariance error where the WAZ factorisation of `S` meets a
/// zero pivot, and otherwise the `n x m` gain `P Hᵀ S⁻¹`.
pub open spec fn gain_verdict(res: Result<Matrix, EstimatorError>, p: Matrix, h: Matrix, s: Matrix) -> bool {
    if waz_factorable(s) {
        res matches Ok(k) && has_shape(k, row_count(p), row_count(h)) && is_gain(k, p, h, s)
    } else {
        res == Err::<Matrix, _>(EstimatorError::SingularInnovationCovariance)
    }
}

/// Decides `propagation_conformant`.
pub(crate) fn propagation_conforms(phi: &Matrix, p: &Matrix, q: &Matrix) -> (b: bool)
    ensures
        b == propagation_conformant(*phi, *p, *q),
{
    let (n, p_cols) = dims(p);
    let (phi_rows, phi_cols) = dims(phi);
    let (q_rows, q_cols) = dims(q);
    n >= 1 && entries_fit(n, n) && p_cols == n && phi_rows == n && phi_cols == n && q_rows == n && q_cols
        == n
}

/// Decides `measurement_conformant`.
pub(crate) fn measurement_conforms(p: &Matrix, h: &Matrix, r: &Matrix) -> (b: bool)
    ensures
        b == measurement_conformant(*p, *h, *r),
{
    let (n, p_cols) = dims(p);
    let (m, h_cols) = dims(h);
    let (r_rows, r_cols) = dims(r);
    n >= 1 && m >= 1 && entries_fit(n, n) && entries_fit(n, m) && entries_fit(m, m) && p_cols == n && h_cols == n
        && r_rows == m && r_cols == m
}

/// Predicted covariance `M = Φ P Φᵀ + Q`, the first of the three composable
/// steps.
pub fn make_m(phi: &Matrix, p: &Matrix, q: &Matrix) -> (m: Matrix)
    requires
        propagation_conformant(*phi, *p, *q),
    ensures
        is_square(m, row_count(*p)),
        is_propagated_covariance(m, *phi, *p, *q),
{
    let phi_p = times(phi, p);
    let phi_t = transposed(phi);
    let spread = times(&phi_p, &phi_t);
    let m = plus(&spread, q);
    assert(is_product(phi_p, *phi, *p));
    assert(is_product(spread, phi_p, transpose(*phi)));
    m
}

/// Kalman gain `K = M Hᵀ (H M Hᵀ + R)⁻¹`, the second of the three steps.
///
/// Fails with `DimensionMismatch` exactly when the shapes do not conform;
/// otherwise it computes `S = H M Hᵀ + R` and hands it to
/// `gain_for_innovation`, which fails with `SingularInnovationCovariance`
/// exactly when the WAZ factorisation of that `S` meets a zero pivot.
pub fn make_k(m: &Matrix, h: &Matrix, r: &Matrix) -> (res: Result<Matrix, EstimatorError>)
    ensures
        !measurement_conformant(*m, *h, *r) ==> res == Err::<Matrix, _>(
            EstimatorError::DimensionMismatch,
        ),
        measurement_conformant(*m, *h, *r) ==> exists|s: Matrix|
            is_square(s, row_count(*h)) && is_innovation_covariance(s, *m, *h, *r)
                && #[trigger] gain_verdict(res, *m, *h, s),
{
    if !measurement_conforms(m, h, r) {
        return Err(EstimatorError::DimensionMismatch);
    }
    let s = innovation(m, h, r);
    let res = gain_for_innovation(m, h, &s);
    assert(gain_verdict(res, *m, *h, s));
    res
}

/// The gain `K = P Hᵀ S⁻¹` for a computed innovation covariance `S`.
///
/// Fails with `DimensionMismatch` exactly when `P` is not `n x n`, `H` not
/// `m x n` or `S` not `m x m` (or the entry counts do not fit in `usize`),
/// and otherwise with `SingularInnovationCovariance` exactly when the WAZ
/// factorisation of `S` meets a zero pivot.
pub fn gain_for_innovation(p: &Matrix, h: &Matrix, s: &Matrix) -> (res: Result<
    Matrix,
    EstimatorError,
>)
    ensures
        !measurement_conformant(*p, *h, *s) ==> res == Err::<Matrix, _>(
            EstimatorError::DimensionMismatch,
        ),
        measurement_conformant(*p, *h, *s) ==> gain_verdict(res, *p, *h, *s),
{
    if !measurement_conforms(p, h, s) {
        return Err(EstimatorError::DimensionMismatch);
    }
    if !has_waz_factors(s) {
        return Err(EstimatorError::SingularInnovationCovariance);
    }
    Ok(gain(p, h, s))
}

/// Posterior covariance `(I - K H) M`, the third of the three steps.
///
/// This is the simplified form: under floating-point error over long
/// recursions it can lose symmetry and positive semi-definiteness, which the
/// Joseph form used by `update` keeps.
pub fn new_cov(k: &Matrix, h: &Matrix, m: &Matrix) -> (p: Matrix)
    requires
        is_square(*m, row_count(*m)),
        row_count(*m) >= 1,
        row_count(*h) >= 1,
        fits(row_count(*m), row_count(*m)),
        has_shape(*h, row_count(*h), row_count(*m)),
        has_shape(*k, row_count(*m), row_count(*h)),
    ensures
        is_square(p, row_count(*m)),
        is_simplified_covariance(p, *k, *h, *m),
{
    let (n, _) = dims(m);
    let k_h = times(k, h);
    let eye = identity_matrix(n);
    let complement = minus(&eye, &k_h);
    let p = times(&complement, m);
    assert(is_product(k_h, *k, *h));
    assert(is_product(p, complement, *m));
    p
}

/// `H P Hᵀ + R`.
pub(crate) fn innovation(p: &Matrix, h: &Matrix, r: &Matrix) -> (s: Matrix)
    requires
        measurement_conformant(*p, *h, *r),
    ensures
        is_square(s, row_count(*h)),
        is_innovation_covariance(s, *p, *h, *r),
{
    let (n, _) = dims(p);
    let (m, _) = dims(h);
    assert(m * n == n * m) by (nonlinear_arith);
    let h_p = times(h, p);
    let h_t = transposed(h);
    let spread = times(&h_p, &h_t);
    let s = plus(&spread, r);
    assert(is_product(h_p, *h, *p));
    assert(is_product(spread, h_p, transpose(*h)));
    s
}

/// `P Hᵀ S⁻¹`, with `S⁻¹` the WAZ solution of `S X = I`.
fn gain(p: &Matrix, h: &Matrix, s: &Matrix) -> (k: Matrix)
    requires
        measurement_conformant(*p, *h, *s),
        waz_factorable(*s),
    ensures
        has_shape(k, row_count(*p), row_count(*h)),
        is_gain(k, *p, *h, *s),
{
    let (m, _) = dims(h);
    let h_t = transposed(h);
    let p_h_t = times(p, &h_t);
    let eye = identity_matrix(m);
    let s_inv = waz_solve(s, &eye);
    let k = times(&p_h_t, &s_inv);
    assert(is_product(p_h_t, *p, transpose(*h)));
    assert(is_inverse(s_inv, *s));
    assert(is_product(k, p_h_t, s_inv));
    k
}

/// `(I - K H) P (I - K H)ᵀ + K R Kᵀ`.
fn joseph(p: &Matrix, h: &Matrix, r: &Matrix, k: &Matrix) -> (c: Matrix)
    requires
        measurement_conformant(*p, *h, *r),
        has_shape(*k, row_count(*p), row_count(*h)),
    ensures
        is_square(c, row_count(*p)),
        is_joseph_covariance(c, *p, *h, *r, *k),
{
    let (n, _) = dims(p);
    let k_h = times(k, h);
    let eye = identity_matrix(n);
    let a = minus(&eye, &k_h);
    let a_p = times(&a, p);
    let a_t = transposed(&a);
    let kept = times(&a_p, &a_t);
    let k_r = times(k, r);
    let k_t = transposed(k);
    let noise = times(&k_r, &k_t);
    let c = plus(&kept, &noise);
    assert(is_product(k_h, *k, *h));
    assert(is_product(a_p, a, *p));
    assert(is_product(kept, a_p, transpose(a)));
    assert(is_kept_part(kept, a, *p));
    assert(is_product(k_r, *k, *r));
    assert(is_product(noise, k_r, transpose(*k)));
    assert(is_noise_part(noise, *k, *r));
    c
}

/// Linear predict: `x_pred = Φ x [+ g]` and `P_pred = Φ P Φᵀ + Q`.
///
/// Fails with `DimensionMismatch` exactly when the shapes do not conform.
pub fn predict(x: &Matrix, p: &Matrix, phi: &Matrix, q: &Matrix, g: Option<&Matrix>) -> (res:
    Result<(Matrix, Matrix), EstimatorError>)
    ensures
        !predict_conformant(*x, *p, *phi, *q, g) ==> res == Err::<(Matrix, Matrix), _>(
            EstimatorError::DimensionMismatch,
        ),
        predict_conformant(*x, *p, *phi, *q, g) ==> (res matches Ok((xs, ps)) && has_shape(
            xs,
            row_count(*x),
            1,
        ) && is_square(ps, row_count(*x)) && is_propagated_state(xs, *phi, *x, g)
            && is_propagated_covariance(ps, *phi, *p, *q)),
{
    let (n, _) = dims(p);
    let (x_rows, x_cols) = dims(x);
    if x_rows != n || x_cols != 1 || !propagation_conforms(phi, p, q) {
        return Err(EstimatorError::DimensionMismatch);
    }
    let moved = times(phi, x);
    assert(is_product(moved, *phi, *x));
    let state = match g {
        Some(b) => {
            let (b_rows, b_cols) = dims(b);
            if b_rows != n || b_cols != 1 {
                return Err(EstimatorError::DimensionMismatch);
            }
            plus(&moved, b)
        },
        None => moved,
    };
    let cov = make_m(phi, p, q);
    Ok((state, cov))
}

/// The correction step, given the predicted measurement `ẑ` and the
/// innovation covariance `S` as computed for `P`, `H` and `R`: gain
/// `K = P Hᵀ S⁻¹`, state `x + K (z - ẑ)` and covariance in Joseph form,
/// `(I - K H) P (I - K H)ᵀ + K R Kᵀ`.
///
/// Fails with `DimensionMismatch` exactly when the shapes do not conform,
/// and otherwise with `SingularInnovationCovariance` exactly when the WAZ
/// factorisation of `S` meets a zero pivot.
pub fn correct(
    x: &Matrix,
    p: &Matrix,
    h: &Matrix,
    z: &Matrix,
    r: &Matrix,
    z_pred: &Matrix,
    s: &Matrix,
) -> (res: Result<(Matrix, Matrix), EstimatorError>)
    ensures
        !correction_conformant(*x, *p, *h, *z, *r, *z_pred, *s) ==> res == Err::<
            (Matrix, Matrix),
            _,
        >(EstimatorError::DimensionMismatch),
        correction_conformant(*x, *p, *h, *z, *r, *z_pred, *s) ==> correction_verdict(
            res,
            *x,
            *p,
            *h,
            *z,
            *r,
            *z_pred,
            *s,
        ),
{
    let (n, _) = dims(p);
    let (m, _) = dims(h);
    let (x_rows, x_cols) = dims(x);
    let (z_rows, z_cols) = dims(z);
    let (zp_rows, zp_cols) = dims(z_pred);
    let (s_rows, s_cols) = dims(s);
    if x_rows != n || x_cols != 1 || z_rows != m || z_cols != 1 || zp_rows != m || zp_cols != 1
        || s_rows != m || s_cols != m || !measurement_conforms(p, h, r) {
        return Err(EstimatorError::DimensionMismatch);
    }
    if !has_waz_factors(s) {
        return Err(EstimatorError::SingularInnovationCovariance);
    }
    let k = gain(p, h, s);
    let innovation = minus(z, z_pred);
    let step = times(&k, &innovation);
    let state = plus(x, &step);
    let cov = joseph(p, h, r, &k);
    assert(is_product(step, k, matrix_difference(*z, *z_pred)));
    assert(is_corrected_state(state, *x, k, *z, *z_pred));
    assert(is_gain(k, *p, *h, *s));
    Ok((state, cov))
}

/// Linear update: innovation `y = z - H x`, innovation covariance
/// `S = H P Hᵀ + R`, then `correct` with them.
///
/// Fails with `DimensionMismatch` exactly when the shapes do not conform,
/// and otherwise with `SingularInnovationCovariance` exactly when the WAZ
/// factorisation of the computed `S` meets a zero pivot.
pub fn update(x: &Matrix, p: &Matrix, h: &Matrix, z: &Matrix, r: &Matrix) -> (res: Result<
    (Matrix, Matrix),
    EstimatorError,
>)
    ensures
        !update_conformant(*x, *p, *h, *z, *r) ==> res == Err::<(Matrix, Matrix), _>(
            EstimatorError::DimensionMismatch,
        ),
        update_conformant(*x, *p, *h, *z, *r) ==> exists|s: Matrix, z_pred: Matrix|
            is_square(s, row_count(*h)) && is_innovation_covariance(s, *p, *h, *r) && is_product(
                z_pred,
                *h,
                *x,
            ) && #[trigger] correction_verdict(res, *x, *p, *h, *z, *r, z_pred, s),
{
    if !measurement_conforms(p, h, r) {
        return Err(EstimatorError::DimensionMismatch);
    }
    let (n, _) = dims(p);
    let (m, _) = dims(h);
    let (x_rows, x_cols) = dims(x);
    let (z_rows, z_cols) = dims(z);
    if x_rows != n || x_cols != 1 || z_rows != m || z_cols != 1 {
        return Err(EstimatorError::DimensionMismatch);
    }
    let s = innovation(p, h, r);
    let z_pred = times(h, x);
    assert(is_product(z_pred, *h, *x));
    correct(x, p, h, z, r, &z_pred, &s)
}

} // verus!
