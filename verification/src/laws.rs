//! Laws that relate the operations of the library to each other. Each is
//! stated over the views that the operations' own contracts speak of, and
//! proved.

use crate::arithmetic::{dot, is_difference, is_product, is_sum, product_rows, product_view};
use crate::common::{cells_difference, cells_sub_req, cells_sum, Numeric};
use crate::error::Error;
use crate::implementations::{HeapMatrix, StackMatrix};
use crate::view::{lemma_from_rows_at, MatrixView};
use vstd::prelude::*;
use vstd::std_specs::cmp::PartialEqSpec;
use vstd::std_specs::ops::SubSpec;

verus! {

/// A matrix built from rows holds cell `x` of row `y` at `(x, y)`, that is
/// at offset `y * width + x` of its cells: rows are contiguous, and come in
/// their order.
pub proof fn law_rows_are_contiguous<T>(rows: Seq<Seq<T>>, width: nat, x: int, y: int)
    requires
        0 <= x < width,
        0 <= y < rows.len(),
    ensures
        MatrixView::from_rows_of_width(rows, width).offset(x, y) == y * width + x,
        0 <= y * width + x < MatrixView::from_rows_of_width(rows, width).cells.len(),
        MatrixView::from_rows_of_width(rows, width).at(x, y) == rows[y][x],
{
    lemma_from_rows_at(rows, width, x, y);
}

/// A row appended to a matrix becomes its last row: the matrix keeps its
/// columns and its cells, has one row more, still has one cell for each
/// place, and holds the cells of the new row at the new last row index.
pub proof fn law_inserted_row_is_last<T>(v: MatrixView<T>, row: Seq<T>)
    requires
        v.cells.len() == v.columns * v.rows,
        row.len() == v.columns,
    ensures
        v.inserted(row) == v.with_row(row),
        v.with_row(row).columns == v.columns,
        v.with_row(row).rows == v.rows + 1,
        v.with_row(row).cells.len() == v.with_row(row).columns * v.with_row(row).rows,
        v.with_row(row).row(v.rows as int) == row,
        forall|x: int|
            0 <= x < v.columns ==> v.with_row(row).contains(x, v.rows as int) && v.with_row(
                row,
            ).at(x, v.rows as int) == row[x],
        forall|i: int| 0 <= i < v.cells.len() ==> v.with_row(row).cells[i] == v.cells[i],
{
    let grown = v.with_row(row);
    assert(v.columns * (v.rows + 1) == v.columns * v.rows + v.columns && v.rows * v.columns
        == v.columns * v.rows) by (nonlinear_arith);
    assert(grown.row(v.rows as int) =~= row);
}

/// A row of the wrong length changes nothing: the matrix after the attempt
/// is the matrix before it.
pub proof fn law_refused_row_changes_nothing<T>(v: MatrixView<T>, row: Seq<T>)
    requires
        row.len() != v.columns,
    ensures
        v.inserted(row) == v,
{
}

/// A matrix with one cell for each place has one cell for each place after
/// an attempt to insert a row, whether the row was taken or refused, and
/// has the columns that it had.
pub proof fn law_insertion_keeps_the_shape_invariant<T>(v: MatrixView<T>, row: Seq<T>)
    requires
        v.cells.len() == v.columns * v.rows,
    ensures
        v.inserted(row).cells.len() == v.inserted(row).columns * v.inserted(row).rows,
        v.inserted(row).columns == v.columns,
{
    if row.len() == v.columns {
        law_inserted_row_is_last(v, row);
    }
}

/// Taking a matrix apart into its cells in row-major order and its extents,
/// and building a matrix from these again, gives the same matrix: the cells
/// have the length that the flat constructors ask for, and the matrix they
/// build has the view of the first.
pub proof fn law_flat_round_trip<T>(v: MatrixView<T>)
    requires
        v.wf(),
    ensures
        v.cells.len() == v.columns * v.rows,
        MatrixView::from_flat(v.cells, v.columns, v.rows) == v,
{
}

/// A buffer rebuilt from the cells and extents of a buffer compares equal to
/// it, where each cell equals itself.
pub proof fn law_rebuilt_heap_matrix_is_equal<T: Numeric>(m: HeapMatrix<T>, again: HeapMatrix<T>)
    requires
        m@.wf(),
        again@ == MatrixView::from_flat(m@.cells, m@.columns, m@.rows),
        forall|i: int| 0 <= i < m@.cells.len() ==> #[trigger] m@.cells[i].eq_spec(&m@.cells[i]),
    ensures
        again@ == m@,
        again.eq_spec(&m),
        m.eq_spec(&again),
{
}

/// An inline matrix rebuilt from the cells of an inline matrix compares
/// equal to it, where each cell equals itself.
pub proof fn law_rebuilt_stack_matrix_is_equal<T: Numeric, const X: usize, const Y: usize>(
    m: StackMatrix<T, X, Y>,
    again: StackMatrix<T, X, Y>,
)
    requires
        m@.wf(),
        again@ == MatrixView::from_flat(m@.cells, m@.columns, m@.rows),
        forall|i: int| 0 <= i < m@.cells.len() ==> #[trigger] m@.cells[i].eq_spec(&m@.cells[i]),
    ensures
        again@ == m@,
        again.eq_spec(&m),
        m.eq_spec(&again),
{
}

/// An inline matrix and a buffer that hold the same matrix compare equal,
/// from either side, where each cell equals itself. Two such matrices are
/// what `StackMatrix::new` and `HeapMatrix::new_owned_2d` make of the same
/// rows.
pub proof fn law_same_matrix_compares_equal<T: Numeric, const X: usize, const Y: usize>(
    inline: StackMatrix<T, X, Y>,
    buffer: HeapMatrix<T>,
)
    requires
        inline@ == buffer@,
        forall|i: int|
            0 <= i < inline@.cells.len() ==> #[trigger] inline@.cells[i].eq_spec(
                &inline@.cells[i],
            ),
    ensures
        inline.eq_spec(&buffer),
        buffer.eq_spec(&inline),
{
}

/// Once a row has been appended to a buffer that had the shape of an inline
/// matrix, the two no longer compare equal, from either side, whatever
/// their cells.
pub proof fn law_grown_matrix_compares_unequal<T: Numeric, const X: usize, const Y: usize>(
    inline: StackMatrix<T, X, Y>,
    before: HeapMatrix<T>,
    after: HeapMatrix<T>,
    row: Seq<T>,
)
    requires
        inline@.same_shape(before@),
        after@ == before@.with_row(row),
    ensures
        !inline.eq_spec(&after),
        !after.eq_spec(&inline),
{
}

/// What an operation on two matrices gives depends on the matrix that an
/// operand holds and not on how the operand stores it: with an inline
/// matrix and a buffer that hold the same matrix, sums, differences and
/// matrix products are the same, on whichever side the operand stands.
pub proof fn law_storage_does_not_matter<T: Numeric, const X: usize, const Y: usize>(
    other: MatrixView<T>,
    inline: StackMatrix<T, X, Y>,
    buffer: HeapMatrix<T>,
    zero: T,
)
    requires
        inline@ == buffer@,
    ensures
        cells_sum(other.cells, inline@.cells) == cells_sum(other.cells, buffer@.cells),
        cells_sum(inline@.cells, other.cells) == cells_sum(buffer@.cells, other.cells),
        cells_difference(other.cells, inline@.cells) == cells_difference(
            other.cells,
            buffer@.cells,
        ),
        cells_difference(inline@.cells, other.cells) == cells_difference(
            buffer@.cells,
            other.cells,
        ),
        product_view(zero, other, inline@) == product_view(zero, other, buffer@),
        product_view(zero, inline@, other) == product_view(zero, buffer@, other),
{
}

/// Adding or subtracting an inline matrix and a buffer of one shape
/// succeeds, whichever of the two stands on the left.
pub proof fn law_mixed_operands_succeed<T: Numeric, const X: usize, const Y: usize>(
    inline: StackMatrix<T, X, Y>,
    buffer: HeapMatrix<T>,
    inline_first: Result<StackMatrix<T, X, Y>, Error>,
    buffer_first: Result<HeapMatrix<T>, Error>,
)
    requires
        inline@.same_shape(buffer@),
        is_sum(inline@, buffer@, inline_first) || is_difference(inline@, buffer@, inline_first),
        is_sum(buffer@, inline@, buffer_first) || is_difference(buffer@, inline@, buffer_first),
    ensures
        inline_first matches Ok(m) && m@.same_shape(inline@),
        buffer_first matches Ok(m) && m@.same_shape(buffer@),
{
}

/// The matrix product of an inline matrix and a buffer succeeds as a buffer
/// exactly where the left matrix has as many columns as the right one has
/// rows, whichever of the two stands on the left.
pub proof fn law_mixed_product_succeeds<T: Numeric, const X: usize, const Y: usize>(
    inline: StackMatrix<T, X, Y>,
    buffer: HeapMatrix<T>,
    inline_first: Result<HeapMatrix<T>, Error>,
    buffer_first: Result<HeapMatrix<T>, Error>,
)
    requires
        is_product(inline@, buffer@, true, inline_first),
        is_product(buffer@, inline@, true, buffer_first),
    ensures
        inline_first is Ok <==> inline@.columns == buffer@.rows,
        buffer_first is Ok <==> buffer@.columns == inline@.rows,
{
}

/// The matrix product holds at `(x, y)` the sum over row `y` of the left
/// matrix and column `x` of the right one.
pub proof fn law_product_cell<T: Numeric>(
    zero: T,
    left: MatrixView<T>,
    right: MatrixView<T>,
    x: int,
    y: int,
)
    requires
        0 <= x < right.columns,
        0 <= y < left.rows,
    ensures
        product_view(zero, left, right).columns == right.columns,
        product_view(zero, left, right).rows == left.rows,
        product_view(zero, left, right).at(x, y) == dot(zero, left, right, x, y, right.rows),
{
    lemma_from_rows_at(product_rows(zero, left, right), right.columns, x, y);
}

/// Subtraction keeps the order of its operands: each cell of a difference is
/// the cell of the left matrix minus the cell of the right matrix at the
/// same place, where the element type subtracts as its specification says.
pub proof fn law_difference_is_left_minus_right<T: Numeric, M: View<V = MatrixView<T>>>(
    left: MatrixView<T>,
    right: MatrixView<T>,
    m: M,
    i: int,
)
    requires
        left.wf(),
        is_difference(left, right, Ok::<M, Error>(m)),
        T::obeys_sub_spec(),
        0 <= i < left.cells.len(),
    ensures
        m@.cells.len() == left.cells.len(),
        m@.cells[i] == left.cells[i].sub_spec(right.cells[i]),
{
}

/// Subtraction minds the order of its operands: for `i8` cells, swapping
/// the operands of a difference negates every cell of it, so that the two
/// differences are unequal wherever the operands are.
pub proof fn law_swapped_difference_is_negated_i8<
    D: View<V = MatrixView<i8>>,
    E: View<V = MatrixView<i8>>,
>(a: MatrixView<i8>, b: MatrixView<i8>, d: D, e: E)
    requires
        a.wf(),
        b.wf(),
        cells_sub_req(a.cells, b.cells),
        cells_sub_req(b.cells, a.cells),
        is_difference(a, b, Ok::<D, Error>(d)),
        is_difference(b, a, Ok::<E, Error>(e)),
    ensures
        d@.cells.len() == a.cells.len(),
        e@.cells.len() == a.cells.len(),
        forall|i: int| 0 <= i < a.cells.len() ==> d@.cells[i] == 0 - #[trigger] e@.cells[i],
        a.cells != b.cells ==> d@.cells != e@.cells,
{
    assert forall|i: int| 0 <= i < a.cells.len() implies d@.cells[i] == a.cells[i] - b.cells[i]
        && #[trigger] e@.cells[i] == b.cells[i] - a.cells[i] by {
        assert(a.cells[i].sub_req(b.cells[i]));
        assert(b.cells[i].sub_req(a.cells[i]));
    }
    if d@.cells == e@.cells {
        assert forall|i: int| 0 <= i < a.cells.len() implies a.cells[i] == b.cells[i] by {
            assert(d@.cells[i] == e@.cells[i]);
        }
        assert(a.cells =~= b.cells);
    }
}

/// Subtraction minds the order of its operands: for `i16` cells, swapping
/// the operands of a difference negates every cell of it, so that the two
/// differences are unequal wherever the operands are.
pub proof fn law_swapped_difference_is_negated_i16<
    D: View<V = MatrixView<i16>>,
    E: View<V = MatrixView<i16>>,
>(a: MatrixView<i16>, b: MatrixView<i16>, d: D, e: E)
    requires
        a.wf(),
        b.wf(),
        cells_sub_req(a.cells, b.cells),
        cells_sub_req(b.cells, a.cells),
        is_difference(a, b, Ok::<D, Error>(d)),
        is_difference(b, a, Ok::<E, Error>(e)),
    ensures
        d@.cells.len() == a.cells.len(),
        e@.cells.len() == a.cells.len(),
        forall|i: int| 0 <= i < a.cells.len() ==> d@.cells[i] == 0 - #[trigger] e@.cells[i],
        a.cells != b.cells ==> d@.cells != e@.cells,
{
    assert forall|i: int| 0 <= i < a.cells.len() implies d@.cells[i] == a.cells[i] - b.cells[i]
        && #[trigger] e@.cells[i] == b.cells[i] - a.cells[i] by {
        assert(a.cells[i].sub_req(b.cells[i]));
        assert(b.cells[i].sub_req(a.cells[i]));
    }
    if d@.cells == e@.cells {
        assert forall|i: int| 0 <= i < a.cells.len() implies a.cells[i] == b.cells[i] by {
            assert(d@.cells[i] == e@.cells[i]);
        }
        assert(a.cells =~= b.cells);
    }
}

/// Subtraction minds the order of its operands: for `i32` cells, swapping
/// the operands of a difference negates every cell of it, so that the two
/// differences are unequal wherever the operands are.
pub proof fn law_swapped_difference_is_negated_i32<
    D: View<V = MatrixView<i32>>,
    E: View<V = MatrixView<i32>>,
>(a: MatrixView<i32>, b: MatrixView<i32>, d: D, e: E)
    requires
        a.wf(),
        b.wf(),
        cells_sub_req(a.cells, b.cells),
        cells_sub_req(b.cells, a.cells),
        is_difference(a, b, Ok::<D, Error>(d)),
        is_difference(b, a, Ok::<E, Error>(e)),
    ensures
        d@.cells.len() == a.cells.len(),
        e@.cells.len() == a.cells.len(),
        forall|i: int| 0 <= i < a.cells.len() ==> d@.cells[i] == 0 - #[trigger] e@.cells[i],
        a.cells != b.cells ==> d@.cells != e@.cells,
{
    assert forall|i: int| 0 <= i < a.cells.len() implies d@.cells[i] == a.cells[i] - b.cells[i]
        && #[trigger] e@.cells[i] == b.cells[i] - a.cells[i] by {
        assert(a.cells[i].sub_req(b.cells[i]));
        assert(b.cells[i].sub_req(a.cells[i]));
    }
    if d@.cells == e@.cells {
        assert forall|i: int| 0 <= i < a.cells.len() implies a.cells[i] == b.cells[i] by {
            assert(d@.cells[i] == e@.cells[i]);
        }
        assert(a.cells =~= b.cells);
    }
}

/// Subtraction minds the order of its operands: for `i64` cells, swapping
/// the operands of a difference negates every cell of it, so that the two
/// differences are unequal wherever the operands are.
pub proof fn law_swapped_difference_is_negated_i64<
    D: View<V = MatrixView<i64>>,
    E: View<V = MatrixView<i64>>,
>(a: MatrixView<i64>, b: MatrixView<i64>, d: D, e: E)
    requires
        a.wf(),
        b.wf(),
        cells_sub_req(a.cells, b.cells),
        cells_sub_req(b.cells, a.cells),
        is_difference(a, b, Ok::<D, Error>(d)),
        is_difference(b, a, Ok::<E, Error>(e)),
    ensures
        d@.cells.len() == a.cells.len(),
        e@.cells.len() == a.cells.len(),
        forall|i: int| 0 <= i < a.cells.len() ==> d@.cells[i] == 0 - #[trigger] e@.cells[i],
        a.cells != b.cells ==> d@.cells != e@.cells,
{
    assert forall|i: int| 0 <= i < a.cells.len() implies d@.cells[i] == a.cells[i] - b.cells[i]
        && #[trigger] e@.cells[i] == b.cells[i] - a.cells[i] by {
        assert(a.cells[i].sub_req(b.cells[i]));
        assert(b.cells[i].sub_req(a.cells[i]));
    }
    if d@.cells == e@.cells {
        assert forall|i: int| 0 <= i < a.cells.len() implies a.cells[i] == b.cells[i] by {
            assert(d@.cells[i] == e@.cells[i]);
        }
        assert(a.cells =~= b.cells);
    }
}

/// Subtraction minds the order of its operands: for `i128` cells, swapping
/// the operands of a difference negates every cell of it, so that the two
/// differences are unequal wherever the operands are.
pub proof fn law_swapped_difference_is_negated_i128<
    D: View<V = MatrixView<i128>>,
    E: View<V = MatrixView<i128>>,
>(a: MatrixView<i128>, b: MatrixView<i128>, d: D, e: E)
    requires
        a.wf(),
        b.wf(),
        cells_sub_req(a.cells, b.cells),
        cells_sub_req(b.cells, a.cells),
        is_difference(a, b, Ok::<D, Error>(d)),
        is_difference(b, a, Ok::<E, Error>(e)),
    ensures
        d@.cells.len() == a.cells.len(),
        e@.cells.len() == a.cells.len(),
        forall|i: int| 0 <= i < a.cells.len() ==> d@.cells[i] == 0 - #[trigger] e@.cells[i],
        a.cells != b.cells ==> d@.cells != e@.cells,
{
    assert forall|i: int| 0 <= i < a.cells.len() implies d@.cells[i] == a.cells[i] - b.cells[i]
        && #[trigger] e@.cells[i] == b.cells[i] - a.cells[i] by {
        assert(a.cells[i].sub_req(b.cells[i]));
        assert(b.cells[i].sub_req(a.cells[i]));
    }
    if d@.cells == e@.cells {
        assert forall|i: int| 0 <= i < a.cells.len() implies a.cells[i] == b.cells[i] by {
            assert(d@.cells[i] == e@.cells[i]);
        }
        assert(a.cells =~= b.cells);
    }
}

/// Subtraction minds the order of its operands: for `isize` cells, swapping
/// the operands of a difference negates every cell of it, so that the two
/// differences are unequal wherever the operands are.
pub proof fn law_swapped_difference_is_negated_isize<
    D: View<V = MatrixView<isize>>,
    E: View<V = MatrixView<isize>>,
>(a: MatrixView<isize>, b: MatrixView<isize>, d: D, e: E)
    requires
        a.wf(),
        b.wf(),
        cells_sub_req(a.cells, b.cells),
        cells_sub_req(b.cells, a.cells),
        is_difference(a, b, Ok::<D, Error>(d)),
        is_difference(b, a, Ok::<E, Error>(e)),
    ensures
        d@.cells.len() == a.cells.len(),
        e@.cells.len() == a.cells.len(),
        forall|i: int| 0 <= i < a.cells.len() ==> d@.cells[i] == 0 - #[trigger] e@.cells[i],
        a.cells != b.cells ==> d@.cells != e@.cells,
{
    assert forall|i: int| 0 <= i < a.cells.len() implies d@.cells[i] == a.cells[i] - b.cells[i]
        && #[trigger] e@.cells[i] == b.cells[i] - a.cells[i] by {
        assert(a.cells[i].sub_req(b.cells[i]));
        assert(b.cells[i].sub_req(a.cells[i]));
    }
    if d@.cells == e@.cells {
        assert forall|i: int| 0 <= i < a.cells.len() implies a.cells[i] == b.cells[i] by {
            assert(d@.cells[i] == e@.cells[i]);
        }
        assert(a.cells =~= b.cells);
    }
}

} // verus!
