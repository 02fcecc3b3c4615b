//! Traces as the proving backend holds them, over field values given by
//! their canonical representatives.

use vstd::prelude::*;
use p3_matrix::dense::RowMajorMatrix;
use p3_matrix::Matrix;

verus! {

/// `p3_matrix::dense::DenseMatrix`: values stored row after row, and the
/// number of columns.
#[verifier::external_type_specification]
#[verifier::external_body]
#[verifier::reject_recursive_types(T)]
#[verifier::reject_recursive_types(V)]
pub struct ExDenseMatrix<T, V>(p3_matrix::dense::DenseMatrix<T, V>);

/// The values that a trace stores, row after row.
pub uninterp spec fn matrix_values(matrix: RowMajorMatrix<u32>) -> Seq<u32>;

/// The number of columns of a trace.
pub uninterp spec fn matrix_width(matrix: RowMajorMatrix<u32>) -> nat;

/// The number of rows of a trace: the stored values divided by the width,
/// and 0 for a trace without columns.
pub open spec fn trace_height(matrix: RowMajorMatrix<u32>) -> nat {
    if matrix_width(matrix) == 0 {
        0
    } else {
        matrix_values(matrix).len() / matrix_width(matrix)
    }
}

/// Calls `Matrix::height` of `p3_matrix` on a dense matrix. The contract
/// claims what that method computes: the number of stored values divided by
/// the width, rounded down, and 0 where the width is 0.
#[verifier::external_body]
pub(crate) fn matrix_height(matrix: &RowMajorMatrix<u32>) -> (height: usize)
    ensures
        matrix_width(*matrix) == 0 ==> height == 0,
        matrix_width(*matrix) != 0 ==> height == matrix_values(*matrix).len() / matrix_width(
            *matrix,
        ),
{
    matrix.height()
}

} // verus!
