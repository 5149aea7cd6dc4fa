//! The matrix substrate: `peroxide`'s dense `Matrix`, opaque to the proofs.
//!
//! To the proofs a matrix is its shape and its entries, with every NaN taken
//! as one value: nothing in this library reads the bits of a NaN, whose sign
//! and payload Rust leaves to the platform. In that model the sum,
//! difference, transpose, identity and WAZ pivot test are functions of their
//! operands and have plain names.
//!
//! A product is not: matrixmultiply's `dgemm` picks one of five kernels from
//! the CPU's features (AVX-512, FMA with AVX2, AVX, NEON, or the portable
//! one), and a fused multiply-add rounds differently from a multiply then
//! an add. So a product is named with the kernel as an extra argument,
//! `product_by(k, a, b)`, and a computed product is one of those five. The
//! kernels accumulate along the inner dimension in the block order fixed
//! when matrixmultiply is built; threads split rows and columns of the
//! result only, so their number changes nothing.

use peroxide::fuga::{eye, LinearAlgebra, Matrix, MatrixTrait};
use peroxide::traits::matrix::{Form, SolveKind};
use vstd::prelude::*;

verus! {

/// peroxide's dense matrix. Its value is its shape and its floating-point
/// entries, every NaN counting as one value; the entries stay hidden from
/// the proofs, which see a matrix through its shape and the names below.
#[verifier::external_type_specification]
#[verifier::external_body]
pub struct ExMatrix(peroxide::fuga::Matrix);

/// Number of rows of a matrix.
pub uninterp spec fn row_count(m: Matrix) -> nat;

/// Number of columns of a matrix.
pub uninterp spec fn col_count(m: Matrix) -> nat;

/// The product `a * b` as `dgemm` computes it with kernel `k`.
pub uninterp spec fn product_by(k: nat, a: Matrix, b: Matrix) -> Matrix;

/// The solution `x` of `a x = b` that peroxide's WAZ solver returns when
/// its two products run on kernel `k`.
pub uninterp spec fn waz_solution_by(k: nat, a: Matrix, b: Matrix) -> Matrix;

/// The entrywise sum `a + b` (any NaN in it counting as one value).
pub uninterp spec fn matrix_sum(a: Matrix, b: Matrix) -> Matrix;

/// The entrywise difference `a - b` (any NaN in it counting as one value).
pub uninterp spec fn matrix_difference(a: Matrix, b: Matrix) -> Matrix;

/// The transpose of a matrix.
pub uninterp spec fn transpose(m: Matrix) -> Matrix;

/// The `n x n` identity matrix.
pub uninterp spec fn identity(n: nat) -> Matrix;

/// Whether peroxide's WAZ factorisation of a square matrix meets no zero
/// pivot; where it meets one, the matrix is treated as singular.
pub uninterp spec fn waz_factorable(m: Matrix) -> bool;

/// Whether `k` indexes one of the five kernels `dgemm` chooses from.
pub open spec fn is_kernel(k: nat) -> bool {
    k < 5
}

/// Whether `r` is the product `a * b` on some kernel.
pub open spec fn is_product(r: Matrix, a: Matrix, b: Matrix) -> bool {
    exists|k: nat| is_kernel(k) && r == #[trigger] product_by(k, a, b)
}

/// Whether `r` is the WAZ solution of `a x = b` on some kernel.
pub open spec fn is_waz_solution(r: Matrix, a: Matrix, b: Matrix) -> bool {
    exists|k: nat| is_kernel(k) && r == #[trigger] waz_solution_by(k, a, b)
}

/// Whether `r` is the inverse of the square matrix `s`: the WAZ solution of
/// `s x = I`.
pub open spec fn is_inverse(r: Matrix, s: Matrix) -> bool {
    is_waz_solution(r, s, identity(row_count(s)))
}

/// Whether `m` has exactly `r` rows and `c` columns.
pub open spec fn has_shape(m: Matrix, r: nat, c: nat) -> bool {
    row_count(m) == r && col_count(m) == c
}

/// Whether an `r x c` matrix has an entry count that fits in `usize`.
pub open spec fn fits(r: nat, c: nat) -> bool {
    r * c <= usize::MAX
}

/// Relies on `Matrix::nrow`, which returns the row count.
pub assume_specification[ peroxide::fuga::Matrix::nrow ](m: &peroxide::fuga::Matrix) -> (r: usize)
    ensures
        r == row_count(*m),
;

/// Relies on `Matrix::ncol`, which returns the column count.
pub assume_specification[ peroxide::fuga::Matrix::ncol ](m: &peroxide::fuga::Matrix) -> (r: usize)
    ensures
        r == col_count(*m),
;

/// The shape of `m`, as (rows, columns).
pub(crate) fn dims(m: &Matrix) -> (r: (usize, usize))
    ensures
        has_shape(*m, r.0 as nat, r.1 as nat),
{
    (m.nrow(), m.ncol())
}

/// Whether an `r x c` matrix has an entry count that fits in `usize`.
pub(crate) fn entries_fit(r: usize, c: usize) -> (b: bool)
    ensures
        b == fits(r as nat, c as nat),
{
    r.checked_mul(c).is_some()
}

/// Relies on `Mul for &Matrix` (peroxide's `matmul`): asserts that the inner
/// dimensions agree, allocates a `row(a) x col(b)` result and fills it with
/// `dgemm`, on one of its five kernels. `gemm` takes `ptr()` of all three
/// matrices, which indexes the first entry, so none of them may be empty.
#[verifier::external_body]
pub(crate) fn times(a: &Matrix, b: &Matrix) -> (r: Matrix)
    requires
        col_count(*a) == row_count(*b),
        row_count(*a) >= 1,
        col_count(*a) >= 1,
        col_count(*b) >= 1,
        fits(row_count(*a), col_count(*b)),
    ensures
        r == product_by(0, *a, *b) || r == product_by(1, *a, *b) || r == product_by(2, *a, *b)
            || r == product_by(3, *a, *b) || r == product_by(4, *a, *b),
        has_shape(r, row_count(*a), col_count(*b)),
{
    a * b
}

/// Relies on `Add for &Matrix` (`add_vec`): asserts equal shapes, adds
/// entry by entry and keeps the shape.
#[verifier::external_body]
pub(crate) fn plus(a: &Matrix, b: &Matrix) -> (r: Matrix)
    requires
        row_count(*a) == row_count(*b),
        col_count(*a) == col_count(*b),
    ensures
        r == matrix_sum(*a, *b),
        has_shape(r, row_count(*a), col_count(*a)),
{
    a + b
}

/// Relies on `Sub for &Matrix` (`sub_vec`): asserts equal shapes, subtracts
/// entry by entry and keeps the shape.
#[verifier::external_body]
pub(crate) fn minus(a: &Matrix, b: &Matrix) -> (r: Matrix)
    requires
        row_count(*a) == row_count(*b),
        col_count(*a) == col_count(*b),
    ensures
        r == matrix_difference(*a, *b),
        has_shape(r, row_count(*a), col_count(*a)),
{
    a - b
}

/// Relies on `MatrixTrait::t` (`transpose`): the same entries with rows and
/// columns swapped.
#[verifier::external_body]
pub(crate) fn transposed(m: &Matrix) -> (r: Matrix)
    ensures
        r == transpose(*m),
        has_shape(r, col_count(*m), row_count(*m)),
{
    m.t()
}

/// Relies on `peroxide::fuga::eye`: allocates an `n x n` matrix with ones on
/// the diagonal.
#[verifier::external_body]
pub(crate) fn identity_matrix(n: usize) -> (r: Matrix)
    requires
        fits(n as nat, n as nat),
    ensures
        r == identity(n as nat),
        has_shape(r, n as nat, n as nat),
{
    eye(n)
}

/// Relies on `LinearAlgebra::waz` with `Form::Identity`: it returns `None`
/// exactly when a pivot is zero, and reads rows and columns of a square
/// matrix only.
#[verifier::external_body]
pub(crate) fn has_waz_factors(m: &Matrix) -> (r: bool)
    requires
        row_count(*m) == col_count(*m),
    ensures
        r == waz_factorable(*m),
{
    m.waz(Form::Identity).is_some()
}

/// Relies on `LinearAlgebra::solve_mat` with `SolveKind::WAZ`: it panics only
/// where the WAZ factorisation fails, and multiplies the `n x n` factors into
/// `b` through `matmul`, which gives an `n x col(b)` result (and, as in
/// `times`, panics on an empty operand). Both products
/// run on the kernel that `dgemm` detects, the same for both in a process.
#[verifier::external_body]
pub(crate) fn waz_solve(a: &Matrix, b: &Matrix) -> (r: Matrix)
    requires
        row_count(*a) == col_count(*a),
        waz_factorable(*a),
        row_count(*b) == row_count(*a),
        row_count(*a) >= 1,
        col_count(*b) >= 1,
        fits(row_count(*a), col_count(*b)),
    ensures
        r == waz_solution_by(0, *a, *b) || r == waz_solution_by(1, *a, *b) || r
            == waz_solution_by(2, *a, *b) || r == waz_solution_by(3, *a, *b) || r
            == waz_solution_by(4, *a, *b),
        has_shape(r, row_count(*a), col_count(*b)),
{
    a.solve_mat(b, SolveKind::WAZ)
}

} // verus!
