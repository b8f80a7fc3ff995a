//! The dense row-major matrix of `p3_matrix`, as the library sees it.
//!
//! Traces are kept in `p3_matrix::dense::RowMajorMatrix<u32>`, each cell the
//! canonical representative of a field element. Verus cannot look inside the
//! matrix, so its two public fields get names, and the few operations the
//! library needs are stated over those names. Everything else about a matrix
//! (its height, a cell by row and column) is defined and proved here.

use p3_matrix::dense::RowMajorMatrix;
use p3_matrix::Matrix;
use vstd::prelude::*;

verus! {

/// `p3_matrix::dense::DenseMatrix`, of which `RowMajorMatrix<T>` is the case
/// that stores its cells in a `Vec<T>`.
#[verifier::external_type_specification]
#[verifier::external_body]
#[verifier::reject_recursive_types(T)]
#[verifier::reject_recursive_types(V)]
pub struct ExDenseMatrix<T, V>(p3_matrix::dense::DenseMatrix<T, V>);

/// The cells of a matrix in storage order: its `values` field.
pub uninterp spec fn matrix_values(m: RowMajorMatrix<u32>) -> Seq<u32>;

/// The number of columns of a matrix: its `width` field.
pub uninterp spec fn matrix_width(m: RowMajorMatrix<u32>) -> nat;

/// The number of complete rows, as `Matrix::height` computes it.
pub open spec fn matrix_height(m: RowMajorMatrix<u32>) -> nat {
    if matrix_width(m) == 0 {
        0
    } else {
        matrix_values(m).len() / matrix_width(m)
    }
}

/// `DenseMatrix::new`. The matrix stores the vector and the width as given.
/// The constructor asserts in debug builds that the vector splits into whole
/// rows, so that is required here.
#[verifier::external_body]
pub(crate) fn new_matrix(values: Vec<u32>, width: usize) -> (m: RowMajorMatrix<u32>)
    requires
        width == 0 || values@.len() % (width as nat) == 0,
    ensures
        matrix_values(m) == values@,
        matrix_width(m) == width as nat,
{
    RowMajorMatrix::new(values, width)
}

/// `Matrix::width` of a dense matrix: the value of its `width` field.
#[verifier::external_body]
pub(crate) fn width_of(m: &RowMajorMatrix<u32>) -> (w: usize)
    ensures
        w as nat == matrix_width(*m),
{
    m.width()
}

/// A borrow of the `values` field of a dense matrix.
#[verifier::external_body]
pub(crate) fn values_of(m: &RowMajorMatrix<u32>) -> (values: &Vec<u32>)
    ensures
        values@ == matrix_values(*m),
{
    &m.values
}

} // verus!
