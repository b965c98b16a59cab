//! A matrix whose cells live in a growable buffer.

use crate::common::{cells_eq, cells_equal, Numeric};
use crate::error::Error;
use crate::implementations::stack_matrix::StackMatrix;
use crate::matrix::{Matrix, MatrixAlloc, MatrixOp, MatrixRef, MatrixScalarOp};
use crate::view::{
    array_rows, lemma_from_no_rows, lemma_from_rows_push, rectangular, row_width, slice_rows,
    vec_rows, MatrixView,
};
use vstd::prelude::*;
use vstd::slice::slice_to_vec;
use vstd::std_specs::cmp::PartialEqSpec;

verus! {

/// A matrix whose extents are known at run time, with its cells in a vector
/// in row-major order. Rows can be appended with [`HeapMatrix::insert_row`];
/// the number of columns stays what it was made with.
#[derive(Debug)]
pub struct HeapMatrix<T: Numeric> {
    data: Vec<T>,
    x_len: usize,
    y_len: usize,
}

impl<T: Numeric> View for HeapMatrix<T> {
    type V = MatrixView<T>;

    closed spec fn view(&self) -> MatrixView<T> {
        MatrixView { columns: self.x_len as nat, rows: self.y_len as nat, cells: self.data@ }
    }
}

impl<T: Numeric> Clone for HeapMatrix<T> {
    /// A copy with storage of its own.
    fn clone(&self) -> (copy: Self)
        ensures
            copy@ == self@,
    {
        HeapMatrix {
            data: slice_to_vec(self.data.as_slice()),
            x_len: self.x_len,
            y_len: self.y_len,
        }
    }
}

/// Appends `cells` to `data`, in their order.
fn append_cells<T: Numeric>(data: &mut Vec<T>, cells: &[T])
    ensures
        final(data)@ == old(data)@ + cells@,
{
    let mut i: usize = 0;
    while i < cells.len()
        invariant
            i <= cells@.len(),
            data@ == old(data)@ + cells@.subrange(0, i as int),
        decreases cells@.len() - i,
    {
        data.push(cells[i]);
        assert(cells@.subrange(0, i + 1) =~= cells@.subrange(0, i as int).push(cells@[i as int]));
        i += 1;
    }
    assert(cells@.subrange(0, i as int) =~= cells@);
}

impl<T: Numeric> HeapMatrix<T> {
    /// The cells, row after row, whatever their number.
    pub(crate) fn cells(&self) -> (data: &[T])
        ensures
            data@ == self@.cells,
    {
        self.data.as_slice()
    }

    /// The matrix with `columns` columns and `rows` rows whose cells, in
    /// row-major order, are `data`.
    ///
    /// Fails with [`Error::IncorrectLength`] unless there are
    /// `columns * rows` cells.
    pub fn new(data: &[T], columns: usize, rows: usize) -> (res: Result<Self, Error>)
        ensures
            res is Ok <==> data@.len() == columns * rows,
            res matches Ok(m) ==> m@.wf() && m@ == MatrixView::from_flat(
                data@,
                columns as nat,
                rows as nat,
            ),
            res matches Err(e) ==> e == Error::IncorrectLength,
    {
        let given = data.len();
        assert(0 <= columns * rows) by (nonlinear_arith);
        match columns.checked_mul(rows) {
            Some(count) => {
                if count == given {
                    Ok(HeapMatrix { data: slice_to_vec(data), x_len: columns, y_len: rows })
                } else {
                    Err(Error::IncorrectLength)
                }
            },
            None => Err(Error::IncorrectLength),
        }
    }

    /// The matrix with the given rows, as wide as the first of them. Without
    /// rows it has no columns either.
    ///
    /// Fails with [`Error::IncorrectLength`] where the rows differ in
    /// length.
    pub fn new_2d(data: Vec<Vec<T>>) -> (res: Result<Self, Error>)
        ensures
            res is Ok <==> rectangular(vec_rows(data@)),
            res matches Ok(m) ==> m@.wf() && m@ == MatrixView::from_rows(vec_rows(data@)),
            res matches Err(e) ==> e == Error::IncorrectLength,
    {
        let y_len = data.len();
        let x_len = if y_len == 0 {
            0
        } else {
            data[0].len()
        };
        let ghost rows = vec_rows(data@);
        let mut dat: Vec<T> = Vec::new();
        let mut y: usize = 0;
        proof {
            lemma_from_no_rows(rows.take(0), x_len as nat);
        }
        while y < y_len
            invariant
                rows == vec_rows(data@),
                y_len == data@.len(),
                x_len == row_width(rows),
                y <= y_len,
                forall|j: int| 0 <= j < y ==> (#[trigger] rows[j]).len() == x_len,
                dat@ == MatrixView::from_rows_of_width(rows.take(y as int), x_len as nat).cells,
            decreases y_len - y,
        {
            let row = &data[y];
            if row.len() != x_len {
                assert(rows[y as int].len() != row_width(rows));
                return Err(Error::IncorrectLength);
            }
            append_cells(&mut dat, row.as_slice());
            proof {
                lemma_from_rows_push(rows.take(y as int), x_len as nat, rows[y as int]);
                assert(rows.take(y + 1) =~= rows.take(y as int).push(rows[y as int]));
            }
            y += 1;
        }
        assert(rows.take(y_len as int) =~= rows);
        assert(rectangular(rows));
        Ok(Self::from_cells(dat, x_len, y_len))
    }

    /// The matrix with the `Y` rows of `X` cells each that `data` holds.
    pub fn new_owned_2d<const X: usize, const Y: usize>(data: [[T; X]; Y]) -> (m: Self)
        ensures
            m@.wf(),
            m@ == MatrixView::from_rows_of_width(array_rows(data@), X as nat),
    {
        let ghost rows = array_rows(data@);
        let mut dat: Vec<T> = Vec::new();
        let mut y: usize = 0;
        proof {
            lemma_from_no_rows(rows.take(0), X as nat);
        }
        while y < Y
            invariant
                rows == array_rows(data@),
                y <= Y,
                dat@ == MatrixView::from_rows_of_width(rows.take(y as int), X as nat).cells,
            decreases Y - y,
        {
            append_cells(&mut dat, data[y].as_slice());
            proof {
                lemma_from_rows_push(rows.take(y as int), X as nat, rows[y as int]);
                assert(rows.take(y + 1) =~= rows.take(y as int).push(rows[y as int]));
            }
            y += 1;
        }
        assert(rows.take(Y as int) =~= rows);
        Self::from_cells(dat, X, Y)
    }

    /// The matrix with `X` columns and `Y` rows whose cells, in row-major
    /// order, are `data`.
    pub fn new_owned_1d<const X: usize, const Y: usize, const N: usize>(data: [T; N]) -> (m: Self)
        requires
            N == X * Y,
        ensures
            m@.wf(),
            m@ == MatrixView::from_flat(data@, X as nat, Y as nat),
    {
        HeapMatrix { data: slice_to_vec(data.as_slice()), x_len: X, y_len: Y }
    }

    /// Appends `row` below the last row.
    ///
    /// Fails with [`Error::IncorrectLength`], and leaves the matrix as it
    /// was, unless `row` has one cell for each column. A row that is taken
    /// needs room in the count of rows.
    pub fn insert_row<const X: usize>(&mut self, row: [T; X]) -> (res: Result<(), Error>)
        requires
            old(self)@.wf(),
            X == old(self)@.columns ==> old(self)@.rows < usize::MAX,
        ensures
            res is Ok <==> X == old(self)@.columns,
            final(self)@.wf(),
            final(self)@ == old(self)@.inserted(row@),
            res is Ok ==> final(self)@ == old(self)@.with_row(row@),
            res matches Err(e) ==> e == Error::IncorrectLength && *final(self) == *old(self),
    {
        if X != self.x_len {
            return Err(Error::IncorrectLength);
        }
        append_cells(&mut self.data, row.as_slice());
        self.y_len += 1;
        proof {
            let columns = self@.columns;
            let rows = old(self)@.rows;
            let count = self.data@.len();
            assert(self.data.len() <= usize::MAX);
            assert(columns * (rows + 1) == count) by (nonlinear_arith)
                requires
                    count == columns * rows + columns,
            ;
        }
        Ok(())
    }

    /// The matrix of `rows` rows whose cells are `cells`, which are those of
    /// rows of `columns` cells each.
    fn from_cells(cells: Vec<T>, columns: usize, rows: usize) -> (m: Self)
        requires
            cells@.len() == rows * columns,
        ensures
            m@.wf(),
            m@ == MatrixView::from_flat(cells@, columns as nat, rows as nat),
    {
        assert(cells.len() <= usize::MAX);
        assert(rows * columns == columns * rows) by (nonlinear_arith);
        HeapMatrix { data: cells, x_len: columns, y_len: rows }
    }
}

impl<T: Numeric> PartialEq for HeapMatrix<T> {
    fn eq(&self, other: &Self) -> (same: bool) {
        self.x_len == other.x_len && self.y_len == other.y_len && cells_equal(
            self.data.as_slice(),
            other.data.as_slice(),
        )
    }
}

impl<T: Numeric> vstd::std_specs::cmp::PartialEqSpecImpl for HeapMatrix<T> {
    open spec fn obeys_eq_spec() -> bool {
        T::obeys_eq_spec()
    }

    /// Two matrices are equal where their shapes are, and each cell of one
    /// equals the cell of the other at the same place.
    open spec fn eq_spec(&self, other: &Self) -> bool {
        self@.same_shape(other@) && cells_eq(self@.cells, other@.cells)
    }
}

impl<T: Numeric, const X: usize, const Y: usize> PartialEq<StackMatrix<T, X, Y>> for HeapMatrix<T> {
    fn eq(&self, other: &StackMatrix<T, X, Y>) -> (same: bool) {
        other.eq(self)
    }
}

impl<T: Numeric, const X: usize, const Y: usize> vstd::std_specs::cmp::PartialEqSpecImpl<StackMatrix<T, X, Y>> for HeapMatrix<T> {
    open spec fn obeys_eq_spec() -> bool {
        T::obeys_eq_spec()
    }

    /// A buffer equals an inline matrix where the inline matrix equals it.
    open spec fn eq_spec(&self, other: &StackMatrix<T, X, Y>) -> bool {
        other@.same_shape(self@) && cells_eq(other@.cells, self@.cells)
    }
}

impl<'a, T: 'a + Numeric> MatrixRef<'a, T> for HeapMatrix<T> {
    fn get_data(&self) -> (data: &[T]) {
        self.data.as_slice()
    }

    fn get_x_len(&self) -> (columns: usize) {
        self.x_len
    }

    fn get_y_len(&self) -> (rows: usize) {
        self.y_len
    }
}

impl<'a, T: 'a + Numeric> Matrix<'a, T> for HeapMatrix<T> {
    fn get_data_mut(&mut self) -> (data: &mut [T]) {
        self.data.as_mut_slice()
    }
}

impl<'a, T: 'a + Numeric> MatrixAlloc<'a, T> for HeapMatrix<T> {
    /// A buffer can have any shape.
    open spec fn fits(columns: nat, rows: nat) -> bool {
        true
    }

    proof fn lemma_fits(&self) {
    }

    fn mat_new(data: &[&[T]]) -> (res: Result<Self, Error>) {
        let mut rows: Vec<Vec<T>> = Vec::new();
        let mut y: usize = 0;
        while y < data.len()
            invariant
                y <= data@.len(),
                rows@.len() == y,
                forall|j: int| 0 <= j < y ==> (#[trigger] rows@[j])@ == data@[j]@,
            decreases data@.len() - y,
        {
            rows.push(slice_to_vec(data[y]));
            y += 1;
        }
        assert(vec_rows(rows@) =~= slice_rows(data@));
        Self::new_2d(rows)
    }

    fn mat_new_1d(data: &[T], columns: usize, rows: usize) -> (res: Result<Self, Error>) {
        Self::new(data, columns, rows)
    }

    fn mat_new_vec(data: Vec<Vec<T>>) -> (res: Result<Self, Error>) {
        Self::new_2d(data)
    }
}

impl<'a, T: 'a + Numeric> MatrixScalarOp<'a, T> for HeapMatrix<T> {

}

impl<'a, T: 'a + Numeric> MatrixOp<'a, T> for HeapMatrix<T> {

}

} // verus!
