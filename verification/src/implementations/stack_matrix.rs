//! A matrix whose extents are part of its type, with its cells inline.

use crate::common::{cells_eq, cells_equal, Numeric};
use crate::error::Error;
use crate::implementations::heap_matrix::HeapMatrix;
use crate::matrix::{Matrix, MatrixAlloc, MatrixOp, MatrixRef, MatrixScalarOp};
use crate::view::{
    array_rows, lemma_cell_of_offset, lemma_cells_eq_by_rows, lemma_from_own_rows,
    lemma_row_in_range, rectangular, row_width, slice_rows, vec_rows, MatrixView,
};
use vstd::prelude::*;
use vstd::slice::slice_subrange;
use vstd::std_specs::cmp::PartialEqSpec;

verus! {

/// `<[[Item; WIDTH]]>::as_flattened` of std: the cells of all the arrays, one
/// array after the other, as one slice. std panics where the number of cells
/// does not fit in `usize`.
pub assume_specification<Item, const WIDTH: usize>[ <[[Item; WIDTH]]>::as_flattened ](
    nested: &[[Item; WIDTH]],
) -> (flat: &[Item])
    requires
        nested@.len() * WIDTH <= usize::MAX,
    ensures
        flat@ == Seq::new(
            (nested@.len() * WIDTH) as nat,
            |i: int| nested@[i / (WIDTH as int)]@[i % (WIDTH as int)],
        ),
;

/// `<[[Item; WIDTH]]>::as_flattened_mut` of std: the same slice, for
/// writing. What is written to the slice is written to the arrays: at the
/// end of the borrow the slice is again the cells of all the arrays.
pub assume_specification<Item, const WIDTH: usize>[ <[[Item; WIDTH]]>::as_flattened_mut ](
    nested: &mut [[Item; WIDTH]],
) -> (flat: &mut [Item])
    requires
        old(nested)@.len() * WIDTH <= usize::MAX,
    ensures
        flat@ == Seq::new(
            (old(nested)@.len() * WIDTH) as nat,
            |i: int| old(nested)@[i / (WIDTH as int)]@[i % (WIDTH as int)],
        ),
        final(flat)@ == Seq::new(
            (final(nested)@.len() * WIDTH) as nat,
            |i: int| final(nested)@[i / (WIDTH as int)]@[i % (WIDTH as int)],
        ),
;

/// A matrix with `X` columns and `Y` rows, stored inline as `Y` rows of `X`
/// cells. Its shape never changes.
#[derive(Debug, Copy)]
pub struct StackMatrix<T: Numeric, const X: usize, const Y: usize> {
    data: [[T; X]; Y],
}

impl<T: Numeric, const X: usize, const Y: usize> View for StackMatrix<T, X, Y> {
    type V = MatrixView<T>;

    closed spec fn view(&self) -> MatrixView<T> {
        MatrixView::from_rows_of_width(array_rows(self.data@), X as nat)
    }
}

impl<T: Numeric, const X: usize, const Y: usize> Clone for StackMatrix<T, X, Y> {
    /// A copy of the matrix.
    fn clone(&self) -> (copy: Self)
        ensures
            copy == *self,
    {
        *self
    }
}

/// The array that holds the given cells.
fn row_of<T: Numeric, const X: usize>(cells: &[T]) -> (row: [T; X])
    requires
        cells@.len() == X,
    ensures
        row@ == cells@,
{
    let mut row: [T; X] = [T::default(); X];
    let mut x: usize = 0;
    while x < X
        invariant
            cells@.len() == X,
            x <= X,
            forall|i: int| 0 <= i < x ==> (#[trigger] row@[i]) == cells@[i],
        decreases X - x,
    {
        row[x] = cells[x];
        x += 1;
    }
    assert(row@ =~= cells@);
    row
}

impl<T: Numeric, const X: usize, const Y: usize> StackMatrix<T, X, Y> {
    /// The shape of the matrix is that of its type.
    pub proof fn lemma_shape(&self)
        ensures
            self@.columns == X,
            self@.rows == Y,
            self@.cells.len() == X * Y,
    {
        assert(Y * X == X * Y) by (nonlinear_arith);
    }

    /// The cells of the rows, one row after the other, are the cells of the
    /// matrix.
    proof fn lemma_flattened(&self, flat: Seq<T>)
        requires
            flat == Seq::new(
                (self.data@.len() * X) as nat,
                |i: int| self.data@[i / (X as int)]@[i % (X as int)],
            ),
        ensures
            flat == self@.cells,
    {
        assert(Y * X == X * Y) by (nonlinear_arith);
        assert forall|i: int| 0 <= i < X * Y implies flat[i] == self@.cells[i] by {
            lemma_cell_of_offset(X as nat, Y as nat, i);
        }
        assert(flat =~= self@.cells);
    }

    /// The matrix with the given rows.
    pub fn new(data: [[T; X]; Y]) -> (m: Self)
        requires
            X * Y <= usize::MAX,
        ensures
            m@.wf(),
            m@ == MatrixView::from_rows_of_width(array_rows(data@), X as nat),
    {
        let m = StackMatrix { data };
        proof {
            m.lemma_shape();
        }
        m
    }

    /// The matrix whose cells, in row-major order, are `data`.
    pub fn new_1d<const N: usize>(data: [T; N]) -> (m: Self)
        requires
            N == X * Y,
        ensures
            m@.wf(),
            m@ == MatrixView::from_flat(data@, X as nat, Y as nat),
    {
        Self::from_flat(data.as_slice())
    }

    /// The matrix whose cells, in row-major order, are `data`.
    ///
    /// Fails with [`Error::IncorrectLength`] unless there are `X * Y` cells.
    pub fn new_from_slice(data: &[T]) -> (res: Result<Self, Error>)
        ensures
            res is Ok <==> data@.len() == X * Y,
            res matches Ok(m) ==> m@.wf() && m@ == MatrixView::from_flat(data@, X as nat, Y as nat),
            res matches Err(e) ==> e == Error::IncorrectLength,
    {
        let given = data.len();
        assert(0 <= X * Y) by (nonlinear_arith);
        match X.checked_mul(Y) {
            Some(count) => {
                if count == given {
                    Ok(Self::from_flat(data))
                } else {
                    Err(Error::IncorrectLength)
                }
            },
            None => Err(Error::IncorrectLength),
        }
    }

    /// The matrix whose rows are the runs of `X` cells of `data`.
    fn from_flat(data: &[T]) -> (m: Self)
        requires
            data@.len() == X * Y,
        ensures
            m@.wf(),
            m@ == MatrixView::from_flat(data@, X as nat, Y as nat),
    {
        let given = data.len();
        let ghost whole = MatrixView::from_flat(data@, X as nat, Y as nat);
        let mut nested: [[T; X]; Y] = [[T::default(); X]; Y];
        let mut y: usize = 0;
        while y < Y
            invariant
                data@.len() == X * Y,
                data@.len() == given,
                whole == MatrixView::from_flat(data@, X as nat, Y as nat),
                y <= Y,
                forall|j: int| 0 <= j < y ==> (#[trigger] nested@[j])@ == whole.row(j),
            decreases Y - y,
        {
            proof {
                lemma_row_in_range(X as nat, Y as nat, y as int);
            }
            nested[y] = row_of(slice_subrange(data, y * X, y * X + X));
            y += 1;
        }
        proof {
            lemma_from_own_rows(whole);
            assert(array_rows(nested@) =~= whole.rows_seq());
        }
        StackMatrix { data: nested }
    }
}

impl<T: Numeric, const X: usize, const Y: usize> PartialEq for StackMatrix<T, X, Y> {
    fn eq(&self, other: &Self) -> (same: bool) {
        let mut y: usize = 0;
        while y < Y
            invariant
                y <= Y,
                T::obeys_eq_spec() ==> forall|j: int|
                    0 <= j < y ==> cells_eq(
                        #[trigger] array_rows(self.data@)[j],
                        array_rows(other.data@)[j],
                    ),
            decreases Y - y,
        {
            if !cells_equal(self.data[y].as_slice(), other.data[y].as_slice()) {
                proof {
                    lemma_cells_eq_by_rows(
                        array_rows(self.data@),
                        array_rows(other.data@),
                        X as nat,
                    );
                    assert(T::obeys_eq_spec() ==> !cells_eq(
                        array_rows(self.data@)[y as int],
                        array_rows(other.data@)[y as int],
                    ));
                }
                return false;
            }
            y += 1;
        }
        proof {
            lemma_cells_eq_by_rows(array_rows(self.data@), array_rows(other.data@), X as nat);
        }
        true
    }
}

impl<T: Numeric, const X: usize, const Y: usize> vstd::std_specs::cmp::PartialEqSpecImpl for StackMatrix<T, X, Y> {
    open spec fn obeys_eq_spec() -> bool {
        T::obeys_eq_spec()
    }

    /// Two matrices of one shape are equal where each cell of one equals the
    /// cell of the other at the same place.
    open spec fn eq_spec(&self, other: &Self) -> bool {
        cells_eq(self@.cells, other@.cells)
    }
}

impl<T: Numeric, const X: usize, const Y: usize> PartialEq<HeapMatrix<T>> for StackMatrix<T, X, Y> {
    fn eq(&self, other: &HeapMatrix<T>) -> (same: bool) {
        if X != other.get_x_len() || Y != other.get_y_len() {
            return false;
        }
        let flat = other.cells();
        let count = flat.len();
        proof {
            self.lemma_shape();
            assert(0 <= X * Y) by (nonlinear_arith);
        }
        match X.checked_mul(Y) {
            Some(cells) => {
                if cells != count {
                    return false;
                }
            },
            None => {
                return false;
            },
        }
        let ghost theirs = other@.rows_seq();
        proof {
            lemma_from_own_rows(other@);
        }
        let mut y: usize = 0;
        while y < Y
            invariant
                y <= Y,
                flat@ == other@.cells,
                flat@.len() == X * Y,
                flat@.len() == count,
                other@.columns == X,
                other@.rows == Y,
                theirs == other@.rows_seq(),
                MatrixView::from_rows_of_width(theirs, X as nat) == other@,
                forall|j: int| 0 <= j < Y ==> (#[trigger] theirs[j]).len() == X,
                T::obeys_eq_spec() ==> forall|j: int|
                    0 <= j < y ==> cells_eq(#[trigger] array_rows(self.data@)[j], theirs[j]),
            decreases Y - y,
        {
            proof {
                lemma_row_in_range(X as nat, Y as nat, y as int);
            }
            if !cells_equal(self.data[y].as_slice(), slice_subrange(flat, y * X, y * X + X)) {
                proof {
                    lemma_cells_eq_by_rows(array_rows(self.data@), theirs, X as nat);
                    assert(T::obeys_eq_spec() ==> !cells_eq(
                        array_rows(self.data@)[y as int],
                        theirs[y as int],
                    ));
                }
                return false;
            }
            y += 1;
        }
        proof {
            lemma_cells_eq_by_rows(array_rows(self.data@), theirs, X as nat);
        }
        true
    }
}

impl<T: Numeric, const X: usize, const Y: usize> vstd::std_specs::cmp::PartialEqSpecImpl<HeapMatrix<T>> for StackMatrix<T, X, Y> {
    open spec fn obeys_eq_spec() -> bool {
        T::obeys_eq_spec()
    }

    /// An inline matrix equals a buffer where their shapes are equal, and
    /// each cell of the one equals the cell of the other at the same place.
    open spec fn eq_spec(&self, other: &HeapMatrix<T>) -> bool {
        self@.same_shape(other@) && cells_eq(self@.cells, other@.cells)
    }
}

impl<'a, T: 'a + Numeric, const X: usize, const Y: usize> MatrixRef<'a, T> for StackMatrix<
    T,
    X,
    Y,
> {
    fn get_data(&self) -> (data: &[T]) {
        proof {
            self.lemma_shape();
        }
        let data = self.data.as_flattened();
        proof {
            self.lemma_flattened(data@);
        }
        data
    }

    fn get_x_len(&self) -> (columns: usize) {
        X
    }

    fn get_y_len(&self) -> (rows: usize) {
        Y
    }
}

impl<'a, 'r, T: 'a + Numeric, const X: usize, const Y: usize> MatrixRef<'a, T> for &'r StackMatrix<
    T,
    X,
    Y,
> {
    fn get_data(&self) -> (data: &[T]) {
        (*self).get_data()
    }

    fn get_x_len(&self) -> (columns: usize) {
        X
    }

    fn get_y_len(&self) -> (rows: usize) {
        Y
    }
}

impl<'a, T: 'a + Numeric, const X: usize, const Y: usize> Matrix<'a, T> for StackMatrix<T, X, Y> {
    /// An inline matrix stays well formed, whatever is written to its cells.
    fn get_data_mut(&mut self) -> (data: &mut [T])
        ensures
            final(self)@.wf(),
    {
        proof {
            self.lemma_shape();
        }
        let ghost before = *self;
        let data = self.data.as_flattened_mut();
        proof {
            before.lemma_flattened(data@);
            final(self).lemma_flattened(final(data)@);
            final(self).lemma_shape();
        }
        data
    }
}

impl<'a, T: 'a + Numeric, const X: usize, const Y: usize> MatrixAlloc<'a, T> for StackMatrix<
    T,
    X,
    Y,
> {
    /// The one shape of the type, if a machine can count its cells.
    open spec fn fits(columns: nat, rows: nat) -> bool {
        columns == X && rows == Y && X * Y <= usize::MAX
    }

    proof fn lemma_fits(&self) {
        self.lemma_shape();
    }

    fn mat_new(data: &[&[T]]) -> (res: Result<Self, Error>) {
        let ghost rows = slice_rows(data@);
        assert(0 <= X * Y) by (nonlinear_arith);
        if data.len() != Y || X.checked_mul(Y).is_none() {
            return Err(Error::IncorrectLength);
        }
        if Y == 0 && X != 0 {
            return Err(Error::IncorrectLength);
        }
        let mut nested: [[T; X]; Y] = [[T::default(); X]; Y];
        let mut y: usize = 0;
        while y < Y
            invariant
                rows == slice_rows(data@),
                data@.len() == Y,
                y <= Y,
                forall|j: int| 0 <= j < y ==> (#[trigger] nested@[j])@ == rows[j],
                forall|j: int| 0 <= j < y ==> (#[trigger] rows[j]).len() == X,
            decreases Y - y,
        {
            let given = data[y];
            if given.len() != X {
                assert(rectangular(rows) ==> rows[y as int].len() == row_width(rows));
                return Err(Error::IncorrectLength);
            }
            nested[y] = row_of(given);
            y += 1;
        }
        let m = StackMatrix { data: nested };
        proof {
            m.lemma_shape();
            assert(rectangular(rows));
            assert(array_rows(nested@) =~= rows);
        }
        Ok(m)
    }

    fn mat_new_1d(data: &[T], columns: usize, rows: usize) -> (res: Result<Self, Error>) {
        if columns != X || rows != Y {
            return Err(Error::IncorrectLength);
        }
        Self::new_from_slice(data)
    }

    fn mat_new_vec(data: Vec<Vec<T>>) -> (res: Result<Self, Error>) {
        let mut rows: Vec<&[T]> = Vec::new();
        let mut y: usize = 0;
        while y < data.len()
            invariant
                y <= data@.len(),
                rows@.len() == y,
                forall|j: int| 0 <= j < y ==> (#[trigger] rows@[j])@ == data@[j]@,
            decreases data@.len() - y,
        {
            rows.push(data[y].as_slice());
            y += 1;
        }
        assert(slice_rows(rows@) =~= vec_rows(data@));
        Self::mat_new(rows.as_slice())
    }
}

impl<'a, T: 'a + Numeric, const X: usize, const Y: usize> MatrixScalarOp<'a, T> for StackMatrix<
    T,
    X,
    Y,
> {

}

impl<'a, T: 'a + Numeric, const X: usize, const Y: usize> MatrixOp<'a, T> for StackMatrix<
    T,
    X,
    Y,
> {

}

} // verus!
