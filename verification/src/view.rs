//! A matrix as a mathematical value, and the arithmetic of row-major
//! offsets.

use crate::common::{cells_eq, Numeric};
use vstd::prelude::*;
use vstd::std_specs::cmp::PartialEqSpec;

verus! {

/// A matrix as a mathematical value: its extents, and its cells in row-major
/// order.
#[verifier::ext_equal]
pub struct MatrixView<T> {
    /// The number of columns, the length of each row.
    pub columns: nat,
    /// The number of rows.
    pub rows: nat,
    /// The cells, row after row.
    pub cells: Seq<T>,
}

impl<T> MatrixView<T> {
    /// The shape invariant: there are exactly `columns * rows` cells, and a
    /// machine can count them.
    pub open spec fn wf(self) -> bool {
        &&& self.cells.len() == self.columns * self.rows
        &&& self.cells.len() <= usize::MAX
    }

    /// Where cell `(x, y)` lies among the cells: rows are contiguous.
    pub open spec fn offset(self, x: int, y: int) -> int {
        y * self.columns + x
    }

    /// `(x, y)` lies inside the extents: there is a column `x` and a row `y`.
    pub open spec fn contains(self, x: int, y: int) -> bool {
        0 <= x < self.columns && 0 <= y < self.rows
    }

    /// The cell in column `x` of row `y`.
    pub open spec fn at(self, x: int, y: int) -> T {
        self.cells[self.offset(x, y)]
    }

    /// The cells of row `y`.
    pub open spec fn row(self, y: int) -> Seq<T> {
        self.cells.subrange(y * self.columns, y * self.columns + self.columns)
    }

    /// The rows, first to last.
    pub open spec fn rows_seq(self) -> Seq<Seq<T>> {
        Seq::new(self.rows, |y: int| self.row(y))
    }

    /// Both matrices have the same number of columns and of rows.
    pub open spec fn same_shape(self, other: MatrixView<T>) -> bool {
        self.columns == other.columns && self.rows == other.rows
    }

    /// The matrix with `columns` columns and `rows` rows whose cells, in
    /// row-major order, are `cells`.
    pub open spec fn from_flat(cells: Seq<T>, columns: nat, rows: nat) -> MatrixView<T> {
        MatrixView { columns, rows, cells }
    }

    /// The matrix whose rows are the first `width` cells of each of `rows`.
    pub open spec fn from_rows_of_width(rows: Seq<Seq<T>>, width: nat) -> MatrixView<T> {
        MatrixView {
            columns: width,
            rows: rows.len(),
            cells: Seq::new(
                (rows.len() * width) as nat,
                |i: int| rows[i / (width as int)][i % (width as int)],
            ),
        }
    }

    /// The matrix with the given rows, as wide as the first of them.
    pub open spec fn from_rows(rows: Seq<Seq<T>>) -> MatrixView<T> {
        Self::from_rows_of_width(rows, row_width(rows))
    }

    /// The matrix with the cells of row `y` replaced by `row`.
    pub open spec fn replace_row(self, y: int, row: Seq<T>) -> MatrixView<T> {
        MatrixView {
            columns: self.columns,
            rows: self.rows,
            cells: self.cells.subrange(0, y * self.columns) + row + self.cells.subrange(
                y * self.columns + self.columns,
                self.cells.len() as int,
            ),
        }
    }

    /// The matrix with the cell at offset `i` replaced by `cell`.
    pub open spec fn replace_cell(self, i: int, cell: T) -> MatrixView<T> {
        MatrixView { columns: self.columns, rows: self.rows, cells: self.cells.update(i, cell) }
    }

    /// The matrix with `row` appended below the last row.
    pub open spec fn with_row(self, row: Seq<T>) -> MatrixView<T> {
        MatrixView { columns: self.columns, rows: self.rows + 1, cells: self.cells + row }
    }

    /// The matrix after an attempt to insert `row`: with the row appended
    /// where it has one cell for each column, and as it was where it has not.
    pub open spec fn inserted(self, row: Seq<T>) -> MatrixView<T> {
        if row.len() == self.columns {
            self.with_row(row)
        } else {
            self
        }
    }
}

/// The length of the first of `rows`, and 0 where there is none.
pub open spec fn row_width<T>(rows: Seq<Seq<T>>) -> nat {
    if rows.len() == 0 {
        0
    } else {
        rows[0].len()
    }
}

/// All of `rows` are as long as the first.
pub open spec fn rectangular<T>(rows: Seq<Seq<T>>) -> bool {
    forall|y: int| 0 <= y < rows.len() ==> (#[trigger] rows[y]).len() == row_width(rows)
}

/// The views of the rows of a two-dimensional slice.
pub open spec fn slice_rows<T>(data: Seq<&[T]>) -> Seq<Seq<T>> {
    Seq::new(data.len(), |y: int| data[y]@)
}

/// The views of the rows of a vector of vectors.
pub open spec fn vec_rows<T>(data: Seq<Vec<T>>) -> Seq<Seq<T>> {
    Seq::new(data.len(), |y: int| data[y]@)
}

/// The views of the rows of a two-dimensional array.
pub open spec fn array_rows<T, const X: usize>(data: Seq<[T; X]>) -> Seq<Seq<T>> {
    Seq::new(data.len(), |y: int| data[y]@)
}

/// The offset of a cell inside a matrix lies among its cells.
pub proof fn lemma_offset_in_range(columns: nat, rows: nat, x: int, y: int)
    requires
        0 <= x < columns,
        0 <= y < rows,
    ensures
        0 <= y * columns + x < columns * rows,
        columns * rows == rows * columns,
{
    assert(0 <= y * columns && y * columns + columns <= columns * rows && columns * rows == rows
        * columns) by (nonlinear_arith)
        requires
            0 <= y < rows,
            0 <= columns,
    ;
}

/// A row inside a matrix lies among its cells.
pub proof fn lemma_row_in_range(columns: nat, rows: nat, y: int)
    requires
        0 <= y < rows,
    ensures
        0 <= y * columns,
        y * columns + columns <= columns * rows,
        columns * rows == rows * columns,
{
    assert(0 <= y * columns && y * columns + columns <= columns * rows && columns * rows == rows
        * columns) by (nonlinear_arith)
        requires
            0 <= y < rows,
            0 <= columns,
    ;
}

/// An offset determines its cell: dividing by the number of columns gives
/// the row back, and the remainder the column.
pub proof fn lemma_offset_to_cell(columns: nat, x: int, y: int)
    requires
        0 <= x < columns,
        0 <= y,
    ensures
        (y * columns + x) / (columns as int) == y,
        (y * columns + x) % (columns as int) == x,
{
    vstd::arithmetic::div_mod::lemma_fundamental_div_mod_converse(
        y * columns + x,
        columns as int,
        y,
        x,
    );
}

/// Every offset below `columns * rows` is the offset of one cell inside the
/// matrix.
pub proof fn lemma_cell_of_offset(columns: nat, rows: nat, i: int)
    requires
        0 <= i < columns * rows,
    ensures
        columns > 0,
        0 <= i / (columns as int) < rows,
        0 <= i % (columns as int) < columns,
        i == (i / (columns as int)) * columns + i % (columns as int),
{
    if columns == 0 {
        assert(columns * rows == 0) by (nonlinear_arith)
            requires
                columns == 0,
        ;
    }
    let c = columns as int;
    vstd::arithmetic::div_mod::lemma_fundamental_div_mod(i, c);
    vstd::arithmetic::div_mod::lemma_mod_bound(i, c);
    let q = i / c;
    assert(0 <= q < rows) by (nonlinear_arith)
        requires
            i == c * q + i % c,
            0 <= i % c < c,
            0 <= i < c * rows,
            c > 0,
    ;
    assert(c * q == q * c) by (nonlinear_arith);
}

/// The matrix built from rows holds cell `x` of row `y` at `(x, y)`.
pub proof fn lemma_from_rows_at<T>(rows: Seq<Seq<T>>, width: nat, x: int, y: int)
    requires
        0 <= x < width,
        0 <= y < rows.len(),
    ensures
        0 <= y * width + x < rows.len() * width,
        MatrixView::from_rows_of_width(rows, width).at(x, y) == rows[y][x],
{
    lemma_offset_in_range(width, rows.len(), x, y);
    lemma_offset_to_cell(width, x, y);
}

/// The matrix built from no rows has no cells.
pub proof fn lemma_from_no_rows<T>(rows: Seq<Seq<T>>, width: nat)
    requires
        rows.len() == 0,
    ensures
        MatrixView::from_rows_of_width(rows, width).cells == Seq::<T>::empty(),
{
    assert(0 * width == 0) by (nonlinear_arith);
    assert(MatrixView::from_rows_of_width(rows, width).cells =~= Seq::<T>::empty());
}

/// The matrix built from rows and one more row is the matrix built from the
/// rows, with that row appended.
pub proof fn lemma_from_rows_push<T>(rows: Seq<Seq<T>>, width: nat, row: Seq<T>)
    requires
        row.len() == width,
    ensures
        MatrixView::from_rows_of_width(rows.push(row), width) == MatrixView::from_rows_of_width(
            rows,
            width,
        ).with_row(row),
{
    let before = MatrixView::from_rows_of_width(rows, width);
    let after = MatrixView::from_rows_of_width(rows.push(row), width);
    let n = rows.len();
    assert((n + 1) * width == n * width + width && n * width == width * n) by (nonlinear_arith);
    assert forall|i: int| 0 <= i < after.cells.len() implies after.cells[i] == (before.cells
        + row)[i] by {
        if i < n * width {
            lemma_cell_of_offset(width, n, i);
        } else {
            lemma_offset_to_cell(width, i - n * width, n as int);
        }
    }
    assert(after.cells =~= before.cells + row);
}

/// A matrix is the matrix built from its rows.
pub proof fn lemma_from_own_rows<T>(v: MatrixView<T>)
    requires
        v.cells.len() == v.columns * v.rows,
    ensures
        MatrixView::from_rows_of_width(v.rows_seq(), v.columns) == v,
        forall|y: int| 0 <= y < v.rows ==> (#[trigger] v.rows_seq()[y]).len() == v.columns,
{
    let built = MatrixView::from_rows_of_width(v.rows_seq(), v.columns);
    assert(v.rows * v.columns == v.columns * v.rows) by (nonlinear_arith);
    assert forall|i: int| 0 <= i < v.cells.len() implies built.cells[i] == v.cells[i] by {
        lemma_cell_of_offset(v.columns, v.rows, i);
        lemma_row_in_range(v.columns, v.rows, i / (v.columns as int));
    }
    assert(built.cells =~= v.cells);
    assert forall|y: int| 0 <= y < v.rows implies (#[trigger] v.rows_seq()[y]).len()
        == v.columns by {
        lemma_row_in_range(v.columns, v.rows, y);
    }
}

/// Two matrices built from rows of one width hold equal cells exactly where
/// each row of the one holds cells equal to those of the same row of the
/// other.
pub proof fn lemma_cells_eq_by_rows<T: Numeric>(a: Seq<Seq<T>>, b: Seq<Seq<T>>, width: nat)
    requires
        a.len() == b.len(),
        forall|y: int| 0 <= y < a.len() ==> (#[trigger] a[y]).len() == width,
        forall|y: int| 0 <= y < b.len() ==> (#[trigger] b[y]).len() == width,
    ensures
        cells_eq(
            MatrixView::from_rows_of_width(a, width).cells,
            MatrixView::from_rows_of_width(b, width).cells,
        ) <==> forall|y: int| 0 <= y < a.len() ==> cells_eq(#[trigger] a[y], b[y]),
{
    let flat_a = MatrixView::from_rows_of_width(a, width).cells;
    let flat_b = MatrixView::from_rows_of_width(b, width).cells;
    assert(a.len() * width == width * a.len()) by (nonlinear_arith);
    if cells_eq(flat_a, flat_b) {
        assert forall|y: int| 0 <= y < a.len() implies cells_eq(#[trigger] a[y], b[y]) by {
            assert forall|x: int| 0 <= x < a[y].len() implies #[trigger] a[y][x].eq_spec(
                &b[y][x],
            ) by {
                lemma_from_rows_at(a, width, x, y);
                lemma_from_rows_at(b, width, x, y);
                assert(flat_a[y * width + x].eq_spec(&flat_b[y * width + x]));
            }
        }
    }
    if forall|y: int| 0 <= y < a.len() ==> cells_eq(#[trigger] a[y], b[y]) {
        assert forall|i: int| 0 <= i < flat_a.len() implies #[trigger] flat_a[i].eq_spec(
            &flat_b[i],
        ) by {
            lemma_cell_of_offset(width, a.len(), i);
            let y = i / (width as int);
            let x = i % (width as int);
            assert(cells_eq(a[y], b[y]));
            assert(a[y][x].eq_spec(&b[y][x]));
        }
    }
}

} // verus!
