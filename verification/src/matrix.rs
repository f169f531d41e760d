//! The dense matrix of a two-dimensional array.
//!
//! Which element stands at which row and column is nalgebra's to say: the
//! matrix keeps a nalgebra matrix of positions beside the elements, and looks
//! an element up through it.

use vstd::prelude::*;
use crate::variable::{lemma_product_of_two, shape_product, MatVar, MatVarView};

verus! {

/// A nalgebra matrix whose entries are positions in a flat buffer.
///
/// The verifier does not look inside it. What it holds is known only as
/// [`position_columns`], by what is assumed of the two nalgebra calls below.
#[verifier::external_body]
#[derive(Debug, PartialEq)]
pub struct Positions {
    inner: nalgebra::DMatrix<usize>,
}

/// The columns of a matrix of positions, left to right, each from top to bottom.
pub uninterp spec fn position_columns(p: Positions) -> Seq<Seq<usize>>;

impl Positions {
    /// `nalgebra::DMatrix::from_column_slice`: the matrix of `nrows` rows and
    /// `ncols` columns whose columns are, left to right, the successive runs
    /// of `nrows` entries of the slice. It wants exactly `nrows * ncols`
    /// entries.
    #[verifier::external_body]
    fn from_column_slice(nrows: usize, ncols: usize, entries: &[usize]) -> (p: Positions)
        requires
            nrows * ncols == entries@.len(),
        ensures
            position_columns(p).len() == ncols,
            forall|j: int|
                0 <= j < ncols ==> #[trigger] position_columns(p)[j] == entries@.subrange(
                    j * nrows,
                    (j + 1) * nrows,
                ),
    {
        Positions { inner: nalgebra::DMatrix::from_column_slice(nrows, ncols, entries) }
    }

    /// Indexing a nalgebra matrix by `(row, column)`: the entry of that row in
    /// that column. It wants both within the matrix.
    #[verifier::external_body]
    fn at(&self, row: usize, column: usize) -> (position: usize)
        requires
            column < position_columns(*self).len(),
            row < position_columns(*self)[column as int].len(),
        ensures
            position == position_columns(*self)[column as int][row as int],
    {
        self.inner[(row, column)]
    }
}

/// Where a column-major buffer keeps the entry of a row and a column.
pub open spec fn column_major(rows: nat, row: int, column: int) -> int {
    column * rows + row
}

/// A dense matrix, its elements kept column by column.
#[derive(Debug, PartialEq)]
pub struct Matrix<T> {
    n_row: usize,
    n_column: usize,
    positions: Positions,
    data: Vec<T>,
}

/// Mathematical value of a [`Matrix`].
pub struct MatrixView<T> {
    pub n_row: nat,
    pub n_column: nat,
    /// The elements, column by column.
    pub data: Seq<T>,
}

impl<T> MatrixView<T> {
    /// The element at a row and a column.
    pub open spec fn entry(self, row: int, column: int) -> T
        recommends
            0 <= row < self.n_row,
            0 <= column < self.n_column,
    {
        self.data[column_major(self.n_row, row, column)]
    }
}

impl<T> View for Matrix<T> {
    type V = MatrixView<T>;

    closed spec fn view(&self) -> MatrixView<T> {
        MatrixView { n_row: self.n_row as nat, n_column: self.n_column as nat, data: self.data@ }
    }
}

/// The positions `0, 1, ..` up to `count`, in order.
fn count_up(count: usize) -> (positions: Vec<usize>)
    ensures
        positions@.len() == count,
        forall|k: int| 0 <= k < count ==> positions@[k] == k,
{
    let mut positions: Vec<usize> = Vec::new();
    let mut k: usize = 0;
    while k < count
        invariant
            k <= count,
            positions@.len() == k,
            forall|i: int| 0 <= i < k ==> positions@[i] == i,
        decreases count - k,
    {
        positions.push(k);
        k += 1;
    }
    positions
}

/// A position within a column-major buffer stays within it.
pub proof fn lemma_column_major_in_range(rows: nat, columns: nat, row: int, column: int)
    requires
        0 <= row < rows,
        0 <= column < columns,
    ensures
        0 <= column_major(rows, row, column) < rows * columns,
{
    assert(0 <= column * rows + row < rows * columns) by (nonlinear_arith)
        requires
            0 <= row < rows,
            0 <= column < columns,
    ;
}

impl<T> Matrix<T> {
    #[verifier::type_invariant]
    spec fn laid_out(self) -> bool {
        &&& self.data@.len() == self.n_row * self.n_column
        &&& position_columns(self.positions).len() == self.n_column
        &&& forall|j: int|
            0 <= j < self.n_column ==> (#[trigger] position_columns(self.positions)[j]).len()
                == self.n_row
        &&& forall|i: int, j: int|
            0 <= i < self.n_row && 0 <= j < self.n_column ==> (
            #[trigger] position_columns(self.positions)[j][i]) == column_major(
                self.n_row as nat,
                i,
                j,
            )
    }

    /// Lays out a column-major buffer as a matrix of `n_row` rows and
    /// `n_column` columns, if it holds an element for each place.
    pub fn from_column_major(n_row: usize, n_column: usize, data: Vec<T>) -> (matrix: Option<
        Matrix<T>,
    >)
        ensures
            matrix.is_some() == (data@.len() == n_row * n_column),
            matrix matches Some(m) ==> m@ == (MatrixView {
                n_row: n_row as nat,
                n_column: n_column as nat,
                data: data@,
            }),
    {
        let len: usize = data.len();
        match n_row.checked_mul(n_column) {
            Some(n) => {
                if n == len {
                    Some(Matrix::lay_out(n_row, n_column, data))
                } else {
                    None
                }
            },
            None => None,
        }
    }

    fn lay_out(n_row: usize, n_column: usize, data: Vec<T>) -> (matrix: Matrix<T>)
        requires
            data@.len() == n_row * n_column,
        ensures
            matrix@ == (MatrixView {
                n_row: n_row as nat,
                n_column: n_column as nat,
                data: data@,
            }),
    {
        let len: usize = data.len();
        let order = count_up(len);
        let positions = Positions::from_column_slice(n_row, n_column, order.as_slice());
        proof {
            assert forall|j: int| 0 <= j < n_column implies (#[trigger] position_columns(
                positions,
            )[j]) == order@.subrange(j * n_row, (j + 1) * n_row) && 0 <= j * n_row && (j + 1)
                * n_row <= order@.len() && (j + 1) * n_row - j * n_row == n_row by {
                assert(0 <= j * n_row && (j + 1) * n_row <= n_row * n_column && (j + 1) * n_row
                    - j * n_row == n_row) by (nonlinear_arith)
                    requires
                        0 <= j < n_column,
                        0 <= n_row,
                ;
            }
            assert forall|j: int| 0 <= j < n_column implies (#[trigger] position_columns(
                positions,
            )[j]).len() == n_row by {}
            assert forall|i: int, j: int| 0 <= i < n_row && 0 <= j < n_column implies (
            #[trigger] position_columns(positions)[j][i]) == column_major(n_row as nat, i, j) by {
                lemma_column_major_in_range(n_row as nat, n_column as nat, i, j);
                assert(position_columns(positions)[j] == order@.subrange(
                    j * n_row,
                    (j + 1) * n_row,
                ));
            }
        }
        Matrix { n_row, n_column, positions, data }
    }

    /// The number of rows.
    pub fn n_row(&self) -> (rows: usize)
        ensures
            rows == self@.n_row,
    {
        self.n_row
    }

    /// The number of columns.
    pub fn n_column(&self) -> (columns: usize)
        ensures
            columns == self@.n_column,
    {
        self.n_column
    }

    /// The element at a row and a column, if the matrix has both.
    pub fn get(&self, row: usize, column: usize) -> (element: Option<&T>)
        ensures
            element.is_some() == (row < self@.n_row && column < self@.n_column),
            element matches Some(e) ==> *e == self@.entry(row as int, column as int),
            self@.data.len() == self@.n_row * self@.n_column,
    {
        proof {
            use_type_invariant(self);
        }
        if row < self.n_row && column < self.n_column {
            let position = self.positions.at(row, column);
            proof {
                lemma_column_major_in_range(
                    self.n_row as nat,
                    self.n_column as nat,
                    row as int,
                    column as int,
                );
            }
            Some(&self.data[position])
        } else {
            None
        }
    }

    /// The elements, column by column.
    pub fn raw(self) -> (data: Vec<T>)
        ensures
            data@ == self@.data,
            data@.len() == self@.n_row * self@.n_column,
    {
        proof {
            use_type_invariant(&self);
        }
        self.data
    }
}

impl<T> MatVarView<T> {
    /// The matrix of a two-dimensional array: as many rows as the second
    /// dimension says and as many columns as the first, the elements taken
    /// column by column.
    pub open spec fn matrix(self) -> MatrixView<T>
        recommends
            self.shape.len() == 2,
    {
        MatrixView {
            n_row: self.shape[1] as nat,
            n_column: self.shape[0] as nat,
            data: self.data,
        }
    }
}

impl<T> MatVar<T> {
    /// Turns a two-dimensional array into its matrix.
    pub fn into_matrix(self) -> (matrix: Matrix<T>)
        requires
            self@.shape.len() == 2,
        ensures
            matrix@ == self@.matrix(),
    {
        let n_row = self.n_row();
        let n_column = self.n_column();
        proof {
            lemma_product_of_two(self@.shape);
        }
        let data = self.raw();
        Matrix::lay_out(n_row, n_column, data)
    }
}

/// The matrix of an array of shape `[c, r]` has `r` rows and `c` columns, and
/// at row `i` and column `j` it has the element number `j * r + i` of the
/// array, which the array has.
pub proof fn lemma_column_major_reshape<T>(var: MatVarView<T>, i: int, j: int)
    requires
        var.shape.len() == 2,
        var.data.len() == shape_product(var.shape),
        0 <= i < var.shape[1],
        0 <= j < var.shape[0],
    ensures
        var.matrix().n_row == var.shape[1],
        var.matrix().n_column == var.shape[0],
        var.matrix().entry(i, j) == var.data[j * var.shape[1] + i],
        0 <= j * var.shape[1] + i < var.data.len(),
{
    lemma_product_of_two(var.shape);
    lemma_column_major_in_range(var.shape[1] as nat, var.shape[0] as nat, i, j);
}

} // verus!
