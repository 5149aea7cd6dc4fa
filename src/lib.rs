//! A Kalman-family state estimator: the predict/update recursion of the
//! linear filter, its extended (linearised) variant, and the three-step
//! covariance/gain helpers, over dense matrices from `peroxide`.
//!
//! Each contract states the formula its result is computed by, through
//! relations over named matrix operations (`is_propagated_covariance`,
//! `is_gain`, `is_joseph_covariance`, ...), the shapes of the results, and
//! exactly when each error comes. A product is named together with the
//! `dgemm` kernel that computed it, since the kernels round differently. The
//! decision that follows a product (can the innovation covariance be
//! inverted?) is made by `correct` and `gain_for_innovation`, which take the
//! computed matrix as an argument.

pub mod error;
pub mod extended;
pub mod linear;
pub mod matrix;

pub use error::EstimatorError;
pub use extended::{extended_predict, extended_update};
pub use linear::{correct, gain_for_innovation, make_k, make_m, new_cov, predict, update};
