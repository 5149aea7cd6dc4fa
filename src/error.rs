//! The ways an estimator step can fail.

use vstd::prelude::*;

verus! {

/// Why a step of the estimator, or of the range solver, produced no result.
#[derive(Debug, Clone, Copy, PartialEq, Eq, Structural)]
pub enum EstimatorError {
    /// Matrix shapes that do not conform: a bug of the caller.
    DimensionMismatch,
    /// The innovation covariance `H P Hᵀ + R` cannot be inverted.
    SingularInnovationCovariance,
    /// A caller-supplied model function returned a result of the wrong shape.
    ModelOutputShapeMismatch,
    /// Two range sensors share an x-coordinate, so the ranges fix no point.
    DegenerateSensorGeometry,
    /// The two range circles do not meet.
    NoIntersection,
}

} // verus!
