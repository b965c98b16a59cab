//! What every matrix offers, whatever its storage: the traits that give
//! access to its cells and implement the operations on them.

use crate::arithmetic::{
    dot, dot_req, is_cell_product, is_difference, is_minus, is_plus, is_product, is_sum,
    is_times, lemma_dot_req_prefix, product_req, product_rows, product_view,
};
use crate::common::{
    add_cells, add_scalar, cells_add_req, cells_mul_req, cells_sub_req, is_zero, mul_cells,
    mul_scalar, scalar_add_req, scalar_mul_req, scalar_sub_req, sub_cells, sub_scalar, Numeric,
};
use crate::error::Error;
use crate::printable::{cell_texts, grid_text, render_grid};
use crate::view::{
    lemma_offset_in_range, lemma_row_in_range, rectangular, row_width, slice_rows, vec_rows,
    MatrixView,
};
use vstd::prelude::*;
use vstd::std_specs::ops::{AddSpec, MulSpec};

verus! {

/// Read access to a matrix: its cells in row-major order, and its extents.
pub trait MatrixRef<'a, T: Numeric>: View<V = MatrixView<T>> {
    /// The cells, row after row.
    fn get_data(&self) -> (data: &[T])
        requires
            self@.wf(),
        ensures
            data@ == self@.cells,
    ;

    /// The number of columns.
    fn get_x_len(&self) -> (columns: usize)
        ensures
            columns == self@.columns,
    ;

    /// The number of rows.
    fn get_y_len(&self) -> (rows: usize)
        ensures
            rows == self@.rows,
    ;

    /// The first cell of the first row, if there is one.
    fn first(&self) -> (cell: Option<&T>)
        requires
            self@.wf(),
        ensures
            self@.cells.len() == 0 ==> cell is None,
            self@.cells.len() != 0 ==> cell == Some(&self@.cells[0]),
    {
        self.get_data().first()
    }

    /// The last cell of the last row, if there is one.
    fn last(&self) -> (cell: Option<&T>)
        requires
            self@.wf(),
        ensures
            self@.cells.len() == 0 ==> cell is None,
            self@.cells.len() != 0 ==> cell == Some(&self@.cells.last()),
    {
        self.get_data().last()
    }

    /// The cell in column `x` of row `y`, for a caller who knows that its
    /// offset lies among the cells.
    fn get_at_unchecked(&self, x: usize, y: usize) -> (cell: T)
        requires
            self@.wf(),
            self@.offset(x as int, y as int) < self@.cells.len(),
        ensures
            cell == self@.at(x as int, y as int),
    {
        let data = self.get_data();
        let columns = self.get_x_len();
        assert(0 <= y * columns <= y * columns + x) by (nonlinear_arith);
        data[y * columns + x]
    }

    /// The cell in column `x` of row `y`.
    ///
    /// Fails with [`Error::OutOfRange`] where `(x, y)` lies outside the
    /// extents: where there is no column `x`, or no row `y`.
    fn get_at(&self, x: usize, y: usize) -> (res: Result<T, Error>)
        requires
            self@.wf(),
        ensures
            match res {
                Ok(cell) => {
                    &&& self@.contains(x as int, y as int)
                    &&& cell == self@.at(x as int, y as int)
                },
                Err(e) => {
                    &&& !self@.contains(x as int, y as int)
                    &&& e == Error::OutOfRange
                },
            },
    {
        let columns = self.get_x_len();
        let rows = self.get_y_len();
        if x < columns && y < rows {
            let data = self.get_data();
            proof {
                lemma_offset_in_range(columns as nat, rows as nat, x as int, y as int);
            }
            Ok(data[y * columns + x])
        } else {
            Err(Error::OutOfRange)
        }
    }

    /// The cells of row `row_index`.
    fn get_row_at(&self, row_index: usize) -> (row: &[T])
        requires
            self@.wf(),
            row_index < self@.rows,
        ensures
            row@ == self@.row(row_index as int),
    {
        let data = self.get_data();
        let columns = self.get_x_len();
        proof {
            lemma_row_in_range(self@.columns, self@.rows, row_index as int);
        }
        let start = row_index * columns;
        vstd::slice::slice_subrange(data, start, start + columns)
    }

    /// The matrix as text: one line for each row, and in it each cell as
    /// `T`'s `Display` writes it, followed by a tab.
    fn to_printable(&self) -> (out: String)
        requires
            self@.wf(),
        ensures
            exists|texts: Seq<String>|
                {
                    &&& #[trigger] cell_texts(self@.cells, texts)
                    &&& out@ == grid_text(
                        texts.map_values(|text: String| text@),
                        self@.columns,
                        self@.rows,
                    )
                },
    {
        let data = self.get_data();
        let mut texts: Vec<String> = Vec::new();
        let mut i: usize = 0;
        while i < data.len()
            invariant
                i <= data@.len(),
                texts@.len() == i,
                forall|k: int|
                    0 <= k < i ==> #[trigger] vstd::string::to_string_from_display_ensures::<T>(
                        &data@[k],
                        texts@[k],
                    ),
            decreases data@.len() - i,
        {
            texts.push(data[i].to_string());
            i += 1;
        }
        proof {
            assert(cell_texts(self@.cells, texts@));
            assert(texts.deep_view() =~= texts@.map_values(|text: String| text@));
        }
        render_grid(&texts, self.get_x_len(), self.get_y_len())
    }
}

/// Read and write access to a matrix.
pub trait Matrix<'a, T: Numeric>: MatrixRef<'a, T> {
    /// The cells, row after row, for writing. The extents stay as they are.
    fn get_data_mut(&mut self) -> (data: &mut [T])
        requires
            old(self)@.wf(),
        ensures
            data@ == old(self)@.cells,
            final(self)@ == MatrixView::from_flat(
                final(data)@,
                old(self)@.columns,
                old(self)@.rows,
            ),
    ;

    /// The first cell of the first row, for writing, if there is one.
    fn first_mut(&mut self) -> (cell: Option<&mut T>)
        requires
            old(self)@.wf(),
        ensures
            final(self)@.wf(),
            old(self)@.cells.len() == 0 ==> cell is None && final(self)@ == old(self)@,
            old(self)@.cells.len() != 0 ==> {
                &&& cell matches Some(first)
                &&& *first == old(self)@.cells[0]
                &&& final(self)@ == old(self)@.replace_cell(0, *final(first))
            },
    {
        assert(self@.cells.len() == 0 ==> self@.cells =~= Seq::<T>::empty());
        self.get_data_mut().first_mut()
    }

    /// The last cell of the last row, for writing, if there is one.
    fn last_mut(&mut self) -> (cell: Option<&mut T>)
        requires
            old(self)@.wf(),
        ensures
            final(self)@.wf(),
            old(self)@.cells.len() == 0 ==> cell is None && final(self)@ == old(self)@,
            old(self)@.cells.len() != 0 ==> {
                &&& cell matches Some(last)
                &&& *last == old(self)@.cells.last()
                &&& final(self)@ == old(self)@.replace_cell(
                    old(self)@.cells.len() - 1,
                    *final(last),
                )
            },
    {
        assert(self@.cells.len() == 0 ==> self@.cells =~= Seq::<T>::empty());
        self.get_data_mut().last_mut()
    }

    /// The cells of row `row_index`, for writing. The other rows stay as
    /// they are.
    fn get_row_at_mut(&mut self, row_index: usize) -> (row: &mut [T])
        requires
            old(self)@.wf(),
            row_index < old(self)@.rows,
        ensures
            row@ == old(self)@.row(row_index as int),
            final(self)@ == old(self)@.replace_row(row_index as int, final(row)@),
    {
        let x_length = self.get_x_len();
        proof {
            lemma_row_in_range(self@.columns, self@.rows, row_index as int);
        }
        let start = row_index * x_length;
        let data = self.get_data_mut();
        let (_, rest) = data.split_at_mut(start);
        let (row, _) = rest.split_at_mut(x_length);
        row
    }
}

/// Construction of a matrix from cells that are held elsewhere.
pub trait MatrixAlloc<'a, T: Numeric>: Matrix<'a, T> + Sized {
    /// Whether this kind of matrix can have `columns` columns and `rows`
    /// rows.
    spec fn fits(columns: nat, rows: nat) -> bool;

    /// A matrix has a shape that its kind can have.
    proof fn lemma_fits(&self)
        requires
            self@.wf(),
        ensures
            Self::fits(self@.columns, self@.rows),
    ;

    /// Builds a matrix from its rows.
    ///
    /// Fails with [`Error::IncorrectLength`] where the rows differ in
    /// length, or this kind of matrix cannot have their shape.
    fn mat_new(data: &[&[T]]) -> (res: Result<Self, Error>)
        ensures
            res is Ok <==> rectangular(slice_rows(data@)) && Self::fits(
                row_width(slice_rows(data@)),
                data@.len(),
            ),
            res matches Ok(m) ==> m@.wf() && m@ == MatrixView::from_rows(slice_rows(data@)),
            res matches Err(e) ==> e == Error::IncorrectLength,
    ;

    /// Builds the matrix with `columns` columns and `rows` rows from its
    /// cells in row-major order.
    ///
    /// Fails with [`Error::IncorrectLength`] where there are not
    /// `columns * rows` cells, or this kind of matrix cannot have that shape.
    fn mat_new_1d(data: &[T], columns: usize, rows: usize) -> (res: Result<Self, Error>)
        ensures
            res is Ok <==> data@.len() == columns * rows && Self::fits(columns as nat, rows as nat),
            res matches Ok(m) ==> m@.wf() && m@ == MatrixView::from_flat(
                data@,
                columns as nat,
                rows as nat,
            ),
            res matches Err(e) ==> e == Error::IncorrectLength,
    ;

    /// Builds a matrix from its rows.
    ///
    /// Fails with [`Error::IncorrectLength`] where the rows differ in
    /// length, or this kind of matrix cannot have their shape.
    fn mat_new_vec(data: Vec<Vec<T>>) -> (res: Result<Self, Error>)
        ensures
            res is Ok <==> rectangular(vec_rows(data@)) && Self::fits(
                row_width(vec_rows(data@)),
                data@.len(),
            ),
            res matches Ok(m) ==> m@.wf() && m@ == MatrixView::from_rows(vec_rows(data@)),
            res matches Err(e) ==> e == Error::IncorrectLength,
    ;
}

/// The operations on a matrix and one number. They keep the shape, and
/// cannot fail.
pub trait MatrixScalarOp<'a, T: Numeric>: Matrix<'a, T> + MatrixAlloc<'a, T> + Sized {
    /// The matrix with `num` added to every cell.
    fn scalar_add(&self, num: T) -> (m: Self)
        requires
            self@.wf(),
            scalar_add_req(self@.cells, num),
        ensures
            is_plus(self@, num, m@),
    {
        let data = add_scalar(self.get_data(), num);
        proof {
            self.lemma_fits();
        }
        Self::mat_new_1d(data.as_slice(), self.get_x_len(), self.get_y_len()).unwrap()
    }

    /// The matrix with `num` subtracted from every cell.
    fn scalar_sub(&self, num: T) -> (m: Self)
        requires
            self@.wf(),
            scalar_sub_req(self@.cells, num),
        ensures
            is_minus(self@, num, m@),
    {
        let data = sub_scalar(self.get_data(), num);
        proof {
            self.lemma_fits();
        }
        Self::mat_new_1d(data.as_slice(), self.get_x_len(), self.get_y_len()).unwrap()
    }

    /// The matrix with every cell multiplied by `num`.
    fn scalar_mul(&self, num: T) -> (m: Self)
        requires
            self@.wf(),
            scalar_mul_req(self@.cells, num),
        ensures
            is_times(self@, num, m@),
    {
        let data = mul_scalar(self.get_data(), num);
        proof {
            self.lemma_fits();
        }
        Self::mat_new_1d(data.as_slice(), self.get_x_len(), self.get_y_len()).unwrap()
    }
}

/// The operations on two matrices. They read their right operand through
/// [`MatrixRef`], so it may be any kind of matrix.
pub trait MatrixOp<'a, T: Numeric>: Matrix<'a, T> + MatrixAlloc<'a, T> + Sized + PartialEq {
    /// The cell-by-cell sum of two matrices of one shape.
    ///
    /// Fails with [`Error::NotEq`] where the shapes differ.
    fn mat_add<Other: MatrixRef<'a, T>>(&self, rhs: &Other) -> (res: Result<Self, Error>)
        requires
            self@.wf(),
            rhs@.wf(),
            self@.same_shape(rhs@) ==> cells_add_req(self@.cells, rhs@.cells),
        ensures
            is_sum(self@, rhs@, res),
    {
        if self.get_x_len() != rhs.get_x_len() || self.get_y_len() != rhs.get_y_len() {
            return Err(
                Error::shapes_differ(
                    self.get_x_len(),
                    self.get_y_len(),
                    rhs.get_x_len(),
                    rhs.get_y_len(),
                ),
            );
        }
        let data = add_cells(self.get_data(), rhs.get_data());
        proof {
            self.lemma_fits();
        }
        Self::mat_new_1d(data.as_slice(), self.get_x_len(), self.get_y_len())
    }

    /// The cell-by-cell difference of two matrices of one shape, `self`
    /// minus `rhs`.
    ///
    /// Fails with [`Error::NotEq`] where the shapes differ.
    fn mat_sub<Other: MatrixRef<'a, T>>(&self, rhs: &Other) -> (res: Result<Self, Error>)
        requires
            self@.wf(),
            rhs@.wf(),
            self@.same_shape(rhs@) ==> cells_sub_req(self@.cells, rhs@.cells),
        ensures
            is_difference(self@, rhs@, res),
    {
        if self.get_x_len() != rhs.get_x_len() || self.get_y_len() != rhs.get_y_len() {
            return Err(
                Error::shapes_differ(
                    self.get_x_len(),
                    self.get_y_len(),
                    rhs.get_x_len(),
                    rhs.get_y_len(),
                ),
            );
        }
        let data = sub_cells(self.get_data(), rhs.get_data());
        proof {
            self.lemma_fits();
        }
        Self::mat_new_1d(data.as_slice(), self.get_x_len(), self.get_y_len())
    }

    /// The cell-by-cell product of two matrices of one shape.
    ///
    /// Fails with [`Error::NotEq`] where the shapes differ.
    fn mat_mul_elementwise<Other: MatrixRef<'a, T>>(&self, rhs: &Other) -> (res: Result<Self, Error>)
        requires
            self@.wf(),
            rhs@.wf(),
            self@.same_shape(rhs@) ==> cells_mul_req(self@.cells, rhs@.cells),
        ensures
            is_cell_product(self@, rhs@, res),
    {
        if self.get_x_len() != rhs.get_x_len() || self.get_y_len() != rhs.get_y_len() {
            return Err(
                Error::shapes_differ(
                    self.get_x_len(),
                    self.get_y_len(),
                    rhs.get_x_len(),
                    rhs.get_y_len(),
                ),
            );
        }
        let data = mul_cells(self.get_data(), rhs.get_data());
        proof {
            self.lemma_fits();
        }
        Self::mat_new_1d(data.as_slice(), self.get_x_len(), self.get_y_len())
    }

    /// The matrix product of `self` and `rhs`, as a matrix of the kind
    /// `Res`. It has as many rows as `self` and is as wide as `rhs`. Its cell
    /// `(x, y)` is the sum, over the cells of row `y` of `self` and of column
    /// `x` of `rhs`, of `self(i, y) * rhs(x, i)`, added in the order of `i`
    /// to the default value of `T`.
    ///
    /// Fails with [`Error::NotEq`], and a message that holds both extents,
    /// unless `self` has as many columns as `rhs` has rows. Fails with
    /// [`Error::IncorrectLength`] where `Res` cannot have the product's
    /// shape.
    ///
    /// The rows of the product are handed to `Res` as rows; a product
    /// without rows has none to hand over, and is made from its shape.
    fn mat_mul<Other: MatrixRef<'a, T>, Res: MatrixAlloc<'a, T>>(&self, rhs: &Other) -> (res: Result<
        Res,
        Error,
    >)
        requires
            self@.wf(),
            rhs@.wf(),
            self@.columns == rhs@.rows ==> product_req(self@, rhs@),
        ensures
            is_product(self@, rhs@, Res::fits(rhs@.columns, self@.rows), res),
    {
        let inner = rhs.get_y_len();
        if self.get_x_len() != inner {
            return Err(Error::extents_differ(self.get_x_len(), inner));
        }
        let rows = self.get_y_len();
        let columns = rhs.get_x_len();
        let zero = T::default();
        if rows == 0 {
            let no_cells: Vec<T> = Vec::new();
            proof {
                assert(0 * columns == 0 && columns * 0 == 0) by (nonlinear_arith);
                assert(product_rows(zero, self@, rhs@).len() == 0);
                assert(product_view(zero, self@, rhs@).cells =~= no_cells@);
            }
            let res = Res::mat_new_1d(no_cells.as_slice(), columns, rows);
            proof {
                assert(res is Ok ==> is_zero(zero) && res->Ok_0@ == product_view(
                    zero,
                    self@,
                    rhs@,
                ));
            }
            return res;
        }
        let mut data: Vec<Vec<T>> = Vec::new();
        let mut y: usize = 0;
        while y < rows
            invariant
                self@.wf(),
                rhs@.wf(),
                product_req(self@, rhs@),
                is_zero(zero),
                inner == rhs@.rows,
                inner == self@.columns,
                rows == self@.rows,
                columns == rhs@.columns,
                y <= rows,
                data@.len() == y,
                forall|j: int|
                    0 <= j < y ==> (#[trigger] data@[j])@ == product_rows(zero, self@, rhs@)[j],
            decreases rows - y,
        {
            let mut row: Vec<T> = Vec::new();
            let mut x: usize = 0;
            while x < columns
                invariant
                    self@.wf(),
                    rhs@.wf(),
                    product_req(self@, rhs@),
                    is_zero(zero),
                    inner == rhs@.rows,
                    inner == self@.columns,
                    rows == self@.rows,
                    columns == rhs@.columns,
                    y < rows,
                    x <= columns,
                    row@.len() == x,
                    forall|k: int|
                        0 <= k < x ==> #[trigger] row@[k] == dot(
                            zero,
                            self@,
                            rhs@,
                            k,
                            y as int,
                            inner as nat,
                        ),
                decreases columns - x,
            {
                let mut cell = zero;
                let mut i: usize = 0;
                assert(dot_req(zero, self@, rhs@, x as int, y as int, inner as nat));
                while i < inner
                    invariant
                        self@.wf(),
                        rhs@.wf(),
                        T::obeys_add_spec(),
                        T::obeys_mul_spec(),
                        inner == rhs@.rows,
                        inner == self@.columns,
                        rows == self@.rows,
                        columns == rhs@.columns,
                        y < rows,
                        x < columns,
                        i <= inner,
                        dot_req(zero, self@, rhs@, x as int, y as int, inner as nat),
                        cell == dot(zero, self@, rhs@, x as int, y as int, i as nat),
                    decreases inner - i,
                {
                    proof {
                        lemma_offset_in_range(self@.columns, self@.rows, i as int, y as int);
                        lemma_offset_in_range(rhs@.columns, rhs@.rows, x as int, i as int);
                        lemma_dot_req_prefix(
                            zero,
                            self@,
                            rhs@,
                            x as int,
                            y as int,
                            (i + 1) as nat,
                            inner as nat,
                        );
                    }
                    cell = cell + self.get_at_unchecked(i, y) * rhs.get_at_unchecked(x, i);
                    i += 1;
                }
                row.push(cell);
                x += 1;
            }
            assert(row@ =~= product_rows(zero, self@, rhs@)[y as int]);
            data.push(row);
            y += 1;
        }
        proof {
            assert(vec_rows(data@) =~= product_rows(zero, self@, rhs@));
            assert(rectangular(product_rows(zero, self@, rhs@)));
            assert(row_width(product_rows(zero, self@, rhs@)) == rhs@.columns);
        }
        Res::mat_new_vec(data)
    }

    /// The matrix product of `self` and `rhs`, as a matrix of the kind of
    /// `self`: what [`MatrixOp::mat_mul`] computes.
    fn dot_prod<Other: MatrixRef<'a, T>>(&self, rhs: &Other) -> (res: Result<Self, Error>)
        requires
            self@.wf(),
            rhs@.wf(),
            self@.columns == rhs@.rows ==> product_req(self@, rhs@),
        ensures
            is_product(self@, rhs@, Self::fits(rhs@.columns, self@.rows), res),
    {
        self.mat_mul::<Other, Self>(rhs)
    }
}

} // verus!
