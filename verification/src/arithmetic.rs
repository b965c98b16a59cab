//! What the operations on matrices give, as mathematical values.

use crate::common::{
    cells_difference, cells_minus, cells_plus, cells_product, cells_sum, cells_times, is_zero,
    Numeric,
};
use crate::error::{extents_text, shapes_text, Error};
use crate::view::MatrixView;
use vstd::prelude::*;
use vstd::std_specs::ops::{AddSpec, MulSpec, SubSpec};

verus! {

/// The sum of the first `n` products of the matrix product's cell `(x, y)`:
/// `left(i, y) * right(x, i)` for `i` below `n`, added in that order to
/// `zero`.
pub open spec fn dot<T: Numeric>(
    zero: T,
    left: MatrixView<T>,
    right: MatrixView<T>,
    x: int,
    y: int,
    n: nat,
) -> T
    decreases n,
{
    if n == 0 {
        zero
    } else {
        dot(zero, left, right, x, y, (n - 1) as nat).add_spec(
            left.at(n - 1, y).mul_spec(right.at(x, n - 1)),
        )
    }
}

/// Each multiplication and each addition that [`dot`] makes is one that `T`
/// allows.
pub open spec fn dot_req<T: Numeric>(
    zero: T,
    left: MatrixView<T>,
    right: MatrixView<T>,
    x: int,
    y: int,
    n: nat,
) -> bool
    decreases n,
{
    n == 0 || {
        &&& dot_req(zero, left, right, x, y, (n - 1) as nat)
        &&& left.at(n - 1, y).mul_req(right.at(x, n - 1))
        &&& dot(zero, left, right, x, y, (n - 1) as nat).add_req(
            left.at(n - 1, y).mul_spec(right.at(x, n - 1)),
        )
    }
}

/// The rows of the matrix product of `left` and `right`, with sums that
/// start from `zero`: as many rows as `left` has, each as long as a row of
/// `right`.
pub open spec fn product_rows<T: Numeric>(
    zero: T,
    left: MatrixView<T>,
    right: MatrixView<T>,
) -> Seq<Seq<T>> {
    Seq::new(
        left.rows,
        |y: int| Seq::new(right.columns, |x: int| dot(zero, left, right, x, y, right.rows)),
    )
}

/// The matrix product of `left` and `right`, with sums that start from
/// `zero`: it has the rows of `left` and the columns of `right`.
pub open spec fn product_view<T: Numeric>(
    zero: T,
    left: MatrixView<T>,
    right: MatrixView<T>,
) -> MatrixView<T> {
    MatrixView::from_rows_of_width(product_rows(zero, left, right), right.columns)
}

/// `res` is what adding `right` to `left` cell by cell gives: the sum where
/// the shapes agree, and else a failure that names both shapes.
pub open spec fn is_sum<T: Numeric, M: View<V = MatrixView<T>>>(
    left: MatrixView<T>,
    right: MatrixView<T>,
    res: Result<M, Error>,
) -> bool {
    match res {
        Ok(m) => {
            &&& left.same_shape(right)
            &&& m@.wf()
            &&& m@.same_shape(left)
            &&& T::obeys_add_spec() ==> m@.cells == cells_sum(left.cells, right.cells)
        },
        Err(Error::NotEq(message)) => {
            &&& !left.same_shape(right)
            &&& message@ == shapes_text(left.columns, left.rows, right.columns, right.rows)
        },
        Err(_) => false,
    }
}

/// `res` is what subtracting `right` from `left` cell by cell gives: the
/// difference, left minus right, where the shapes agree, and else a failure
/// that names both shapes.
pub open spec fn is_difference<T: Numeric, M: View<V = MatrixView<T>>>(
    left: MatrixView<T>,
    right: MatrixView<T>,
    res: Result<M, Error>,
) -> bool {
    match res {
        Ok(m) => {
            &&& left.same_shape(right)
            &&& m@.wf()
            &&& m@.same_shape(left)
            &&& T::obeys_sub_spec() ==> m@.cells == cells_difference(left.cells, right.cells)
        },
        Err(Error::NotEq(message)) => {
            &&& !left.same_shape(right)
            &&& message@ == shapes_text(left.columns, left.rows, right.columns, right.rows)
        },
        Err(_) => false,
    }
}

/// `res` is what multiplying `left` by `right` cell by cell gives: the
/// products where the shapes agree, and else a failure that names both
/// shapes.
pub open spec fn is_cell_product<T: Numeric, M: View<V = MatrixView<T>>>(
    left: MatrixView<T>,
    right: MatrixView<T>,
    res: Result<M, Error>,
) -> bool {
    match res {
        Ok(m) => {
            &&& left.same_shape(right)
            &&& m@.wf()
            &&& m@.same_shape(left)
            &&& T::obeys_mul_spec() ==> m@.cells == cells_product(left.cells, right.cells)
        },
        Err(Error::NotEq(message)) => {
            &&& !left.same_shape(right)
            &&& message@ == shapes_text(left.columns, left.rows, right.columns, right.rows)
        },
        Err(_) => false,
    }
}

/// `m` is `left` with `num` added to every cell.
pub open spec fn is_plus<T: Numeric>(left: MatrixView<T>, num: T, m: MatrixView<T>) -> bool {
    &&& m.wf()
    &&& m.same_shape(left)
    &&& T::obeys_add_spec() ==> m.cells == cells_plus(left.cells, num)
}

/// `m` is `left` with `num` subtracted from every cell.
pub open spec fn is_minus<T: Numeric>(left: MatrixView<T>, num: T, m: MatrixView<T>) -> bool {
    &&& m.wf()
    &&& m.same_shape(left)
    &&& T::obeys_sub_spec() ==> m.cells == cells_minus(left.cells, num)
}

/// `m` is `left` with every cell multiplied by `num`.
pub open spec fn is_times<T: Numeric>(left: MatrixView<T>, num: T, m: MatrixView<T>) -> bool {
    &&& m.wf()
    &&& m.same_shape(left)
    &&& T::obeys_mul_spec() ==> m.cells == cells_times(left.cells, num)
}

/// `res` is what the matrix product of `left` and `right` gives in a kind of
/// matrix that can have the product's shape exactly where `fits` holds: the
/// product where `left` has as many columns as `right` has rows and the
/// shape fits; a failure that names both extents where they differ; and
/// [`Error::IncorrectLength`] where only the shape does not fit.
pub open spec fn is_product<T: Numeric, M: View<V = MatrixView<T>>>(
    left: MatrixView<T>,
    right: MatrixView<T>,
    fits: bool,
    res: Result<M, Error>,
) -> bool {
    match res {
        Ok(m) => {
            &&& left.columns == right.rows
            &&& fits
            &&& m@.wf()
            &&& exists|zero: T| #[trigger] is_zero(zero) && m@ == product_view(zero, left, right)
        },
        Err(Error::NotEq(message)) => {
            &&& left.columns != right.rows
            &&& message@ == extents_text(left.columns, right.rows)
        },
        Err(Error::IncorrectLength) => left.columns == right.rows && !fits,
        Err(Error::OutOfRange) => false,
    }
}

/// `T` computes sums and products as its specification says, and the matrix
/// product of `left` and `right` asks `T` for no operation that it does not
/// allow, whichever zero its sums start from.
pub open spec fn product_req<T: Numeric>(left: MatrixView<T>, right: MatrixView<T>) -> bool {
    &&& T::obeys_add_spec()
    &&& T::obeys_mul_spec()
    &&& forall|zero: T, x: int, y: int|
        is_zero(zero) && 0 <= x < right.columns && 0 <= y < left.rows ==> #[trigger] dot_req(
            zero,
            left,
            right,
            x,
            y,
            right.rows,
        )
}

/// Where all the operations of a sum are allowed, those of each shorter sum
/// are.
pub proof fn lemma_dot_req_prefix<T: Numeric>(
    zero: T,
    left: MatrixView<T>,
    right: MatrixView<T>,
    x: int,
    y: int,
    n: nat,
    m: nat,
)
    requires
        n <= m,
        dot_req(zero, left, right, x, y, m),
    ensures
        dot_req(zero, left, right, x, y, n),
    decreases m,
{
    if n < m {
        lemma_dot_req_prefix(zero, left, right, x, y, n, (m - 1) as nat);
    }
}

} // verus!
