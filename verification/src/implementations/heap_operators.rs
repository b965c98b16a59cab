//! The operators `+`, `-` and `*` with a buffer on the left.

use crate::arithmetic::{
    is_difference, is_minus, is_plus, is_product, is_sum, is_times, product_req,
};
use crate::common::{
    cells_add_req, cells_sub_req, scalar_add_req, scalar_mul_req, scalar_sub_req, Numeric,
};
use crate::error::Error;
use crate::implementations::heap_matrix::HeapMatrix;
use crate::implementations::stack_matrix::StackMatrix;
use crate::matrix::{MatrixOp, MatrixScalarOp};
use std::ops::{Add, Mul, Sub};
use vstd::prelude::*;

verus! {

impl<T: Numeric> Add for HeapMatrix<T> {
    type Output = Result<HeapMatrix<T>, Error>;

    /// The cell-by-cell sum with another buffer of the same shape:
    /// see [`MatrixOp::mat_add`].
    fn add(self, rhs: HeapMatrix<T>) -> (res: Result<HeapMatrix<T>, Error>)
        ensures
            is_sum(self@, rhs@, res),
    {
        self.mat_add(&rhs)
    }
}

impl<T: Numeric> vstd::std_specs::ops::AddSpecImpl for HeapMatrix<T> {
    /// What the operator gives is stated where it is implemented.
    open spec fn obeys_add_spec() -> bool {
        false
    }

    open spec fn add_req(self, rhs: HeapMatrix<T>) -> bool {
        self@.wf() && rhs@.wf() && (self@.same_shape(rhs@) ==> cells_add_req(
            self@.cells,
            rhs@.cells,
        ))
    }

    open spec fn add_spec(self, rhs: HeapMatrix<T>) -> Result<HeapMatrix<T>, Error> {
        arbitrary()
    }
}

impl<T: Numeric> Sub for HeapMatrix<T> {
    type Output = Result<HeapMatrix<T>, Error>;

    /// The cell-by-cell difference with another buffer of the same shape:
    /// see [`MatrixOp::mat_sub`].
    fn sub(self, rhs: HeapMatrix<T>) -> (res: Result<HeapMatrix<T>, Error>)
        ensures
            is_difference(self@, rhs@, res),
    {
        self.mat_sub(&rhs)
    }
}

impl<T: Numeric> vstd::std_specs::ops::SubSpecImpl for HeapMatrix<T> {
    /// What the operator gives is stated where it is implemented.
    open spec fn obeys_sub_spec() -> bool {
        false
    }

    open spec fn sub_req(self, rhs: HeapMatrix<T>) -> bool {
        self@.wf() && rhs@.wf() && (self@.same_shape(rhs@) ==> cells_sub_req(
            self@.cells,
            rhs@.cells,
        ))
    }

    open spec fn sub_spec(self, rhs: HeapMatrix<T>) -> Result<HeapMatrix<T>, Error> {
        arbitrary()
    }
}

impl<T: Numeric> Mul for HeapMatrix<T> {
    type Output = Result<HeapMatrix<T>, Error>;

    /// The matrix product with another buffer: see [`MatrixOp::mat_mul`].
    fn mul(self, rhs: HeapMatrix<T>) -> (res: Result<HeapMatrix<T>, Error>)
        ensures
            is_product(self@, rhs@, true, res),
    {
        self.dot_prod(&rhs)
    }
}

impl<T: Numeric> vstd::std_specs::ops::MulSpecImpl for HeapMatrix<T> {
    /// What the operator gives is stated where it is implemented.
    open spec fn obeys_mul_spec() -> bool {
        false
    }

    open spec fn mul_req(self, rhs: HeapMatrix<T>) -> bool {
        self@.wf() && rhs@.wf() && (self@.columns == rhs@.rows ==> product_req(self@, rhs@))
    }

    open spec fn mul_spec(self, rhs: HeapMatrix<T>) -> Result<HeapMatrix<T>, Error> {
        arbitrary()
    }
}

impl<T: Numeric, const X: usize, const Y: usize> Add<StackMatrix<T, X, Y>> for HeapMatrix<T> {
    type Output = Result<HeapMatrix<T>, Error>;

    /// The cell-by-cell sum with an inline matrix of the same shape:
    /// see [`MatrixOp::mat_add`].
    fn add(self, rhs: StackMatrix<T, X, Y>) -> (res: Result<HeapMatrix<T>, Error>)
        ensures
            is_sum(self@, rhs@, res),
    {
        self.mat_add(&rhs)
    }
}

impl<T: Numeric, const X: usize, const Y: usize> vstd::std_specs::ops::AddSpecImpl<StackMatrix<T, X, Y>> for HeapMatrix<T> {
    /// What the operator gives is stated where it is implemented.
    open spec fn obeys_add_spec() -> bool {
        false
    }

    open spec fn add_req(self, rhs: StackMatrix<T, X, Y>) -> bool {
        self@.wf() && rhs@.wf() && (self@.same_shape(rhs@) ==> cells_add_req(
            self@.cells,
            rhs@.cells,
        ))
    }

    open spec fn add_spec(self, rhs: StackMatrix<T, X, Y>) -> Result<HeapMatrix<T>, Error> {
        arbitrary()
    }
}

impl<T: Numeric, const X: usize, const Y: usize> Sub<StackMatrix<T, X, Y>> for HeapMatrix<T> {
    type Output = Result<HeapMatrix<T>, Error>;

    /// The cell-by-cell difference with an inline matrix of the same shape:
    /// see [`MatrixOp::mat_sub`].
    fn sub(self, rhs: StackMatrix<T, X, Y>) -> (res: Result<HeapMatrix<T>, Error>)
        ensures
            is_difference(self@, rhs@, res),
    {
        self.mat_sub(&rhs)
    }
}

impl<T: Numeric, const X: usize, const Y: usize> vstd::std_specs::ops::SubSpecImpl<StackMatrix<T, X, Y>> for HeapMatrix<T> {
    /// What the operator gives is stated where it is implemented.
    open spec fn obeys_sub_spec() -> bool {
        false
    }

    open spec fn sub_req(self, rhs: StackMatrix<T, X, Y>) -> bool {
        self@.wf() && rhs@.wf() && (self@.same_shape(rhs@) ==> cells_sub_req(
            self@.cells,
            rhs@.cells,
        ))
    }

    open spec fn sub_spec(self, rhs: StackMatrix<T, X, Y>) -> Result<HeapMatrix<T>, Error> {
        arbitrary()
    }
}

impl<T: Numeric, const X: usize, const Y: usize> Mul<StackMatrix<T, X, Y>> for HeapMatrix<T> {
    type Output = Result<HeapMatrix<T>, Error>;

    /// The matrix product with an inline matrix: see [`MatrixOp::mat_mul`].
    fn mul(self, rhs: StackMatrix<T, X, Y>) -> (res: Result<HeapMatrix<T>, Error>)
        ensures
            is_product(self@, rhs@, true, res),
    {
        self.dot_prod(&rhs)
    }
}

impl<T: Numeric, const X: usize, const Y: usize> vstd::std_specs::ops::MulSpecImpl<StackMatrix<T, X, Y>> for HeapMatrix<T> {
    /// What the operator gives is stated where it is implemented.
    open spec fn obeys_mul_spec() -> bool {
        false
    }

    open spec fn mul_req(self, rhs: StackMatrix<T, X, Y>) -> bool {
        self@.wf() && rhs@.wf() && (self@.columns == rhs@.rows ==> product_req(self@, rhs@))
    }

    open spec fn mul_spec(self, rhs: StackMatrix<T, X, Y>) -> Result<HeapMatrix<T>, Error> {
        arbitrary()
    }
}

impl<'r, T: Numeric> Add<&'r HeapMatrix<T>> for HeapMatrix<T> {
    type Output = Result<HeapMatrix<T>, Error>;

    /// The cell-by-cell sum with a borrowed buffer of the same shape:
    /// see [`MatrixOp::mat_add`].
    fn add(self, rhs: &'r HeapMatrix<T>) -> (res: Result<HeapMatrix<T>, Error>)
        ensures
            is_sum(self@, rhs@, res),
    {
        self.mat_add(rhs)
    }
}

impl<'r, T: Numeric> vstd::std_specs::ops::AddSpecImpl<&'r HeapMatrix<T>> for HeapMatrix<T> {
    /// What the operator gives is stated where it is implemented.
    open spec fn obeys_add_spec() -> bool {
        false
    }

    open spec fn add_req(self, rhs: &'r HeapMatrix<T>) -> bool {
        self@.wf() && rhs@.wf() && (self@.same_shape(rhs@) ==> cells_add_req(
            self@.cells,
            rhs@.cells,
        ))
    }

    open spec fn add_spec(self, rhs: &'r HeapMatrix<T>) -> Result<HeapMatrix<T>, Error> {
        arbitrary()
    }
}

impl<'r, T: Numeric> Sub<&'r HeapMatrix<T>> for HeapMatrix<T> {
    type Output = Result<HeapMatrix<T>, Error>;

    /// The cell-by-cell difference with a borrowed buffer of the same shape:
    /// see [`MatrixOp::mat_sub`].
    fn sub(self, rhs: &'r HeapMatrix<T>) -> (res: Result<HeapMatrix<T>, Error>)
        ensures
            is_difference(self@, rhs@, res),
    {
        self.mat_sub(rhs)
    }
}

impl<'r, T: Numeric> vstd::std_specs::ops::SubSpecImpl<&'r HeapMatrix<T>> for HeapMatrix<T> {
    /// What the operator gives is stated where it is implemented.
    open spec fn obeys_sub_spec() -> bool {
        false
    }

    open spec fn sub_req(self, rhs: &'r HeapMatrix<T>) -> bool {
        self@.wf() && rhs@.wf() && (self@.same_shape(rhs@) ==> cells_sub_req(
            self@.cells,
            rhs@.cells,
        ))
    }

    open spec fn sub_spec(self, rhs: &'r HeapMatrix<T>) -> Result<HeapMatrix<T>, Error> {
        arbitrary()
    }
}

impl<'r, T: Numeric> Mul<&'r HeapMatrix<T>> for HeapMatrix<T> {
    type Output = Result<HeapMatrix<T>, Error>;

    /// The matrix product with a borrowed buffer: see [`MatrixOp::mat_mul`].
    fn mul(self, rhs: &'r HeapMatrix<T>) -> (res: Result<HeapMatrix<T>, Error>)
        ensures
            is_product(self@, rhs@, true, res),
    {
        self.dot_prod(rhs)
    }
}

impl<'r, T: Numeric> vstd::std_specs::ops::MulSpecImpl<&'r HeapMatrix<T>> for HeapMatrix<T> {
    /// What the operator gives is stated where it is implemented.
    open spec fn obeys_mul_spec() -> bool {
        false
    }

    open spec fn mul_req(self, rhs: &'r HeapMatrix<T>) -> bool {
        self@.wf() && rhs@.wf() && (self@.columns == rhs@.rows ==> product_req(self@, rhs@))
    }

    open spec fn mul_spec(self, rhs: &'r HeapMatrix<T>) -> Result<HeapMatrix<T>, Error> {
        arbitrary()
    }
}

impl<'r, T: Numeric, const X: usize, const Y: usize> Add<&'r StackMatrix<T, X, Y>> for HeapMatrix<T> {
    type Output = Result<HeapMatrix<T>, Error>;

    /// The cell-by-cell sum with a borrowed inline matrix of the same shape:
    /// see [`MatrixOp::mat_add`].
    fn add(self, rhs: &'r StackMatrix<T, X, Y>) -> (res: Result<HeapMatrix<T>, Error>)
        ensures
            is_sum(self@, rhs@, res),
    {
        self.mat_add(rhs)
    }
}

impl<'r, T: Numeric, const X: usize, const Y: usize> vstd::std_specs::ops::AddSpecImpl<&'r StackMatrix<T, X, Y>> for HeapMatrix<T> {
    /// What the operator gives is stated where it is implemented.
    open spec fn obeys_add_spec() -> bool {
        false
    }

    open spec fn add_req(self, rhs: &'r StackMatrix<T, X, Y>) -> bool {
        self@.wf() && rhs@.wf() && (self@.same_shape(rhs@) ==> cells_add_req(
            self@.cells,
            rhs@.cells,
        ))
    }

    open spec fn add_spec(self, rhs: &'r StackMatrix<T, X, Y>) -> Result<HeapMatrix<T>, Error> {
        arbitrary()
    }
}

impl<'r, T: Numeric, const X: usize, const Y: usize> Sub<&'r StackMatrix<T, X, Y>> for HeapMatrix<T> {
    type Output = Result<HeapMatrix<T>, Error>;

    /// The cell-by-cell difference with a borrowed inline matrix of the same shape:
    /// see [`MatrixOp::mat_sub`].
    fn sub(self, rhs: &'r StackMatrix<T, X, Y>) -> (res: Result<HeapMatrix<T>, Error>)
        ensures
            is_difference(self@, rhs@, res),
    {
        self.mat_sub(rhs)
    }
}

impl<'r, T: Numeric, const X: usize, const Y: usize> vstd::std_specs::ops::SubSpecImpl<&'r StackMatrix<T, X, Y>> for HeapMatrix<T> {
    /// What the operator gives is stated where it is implemented.
    open spec fn obeys_sub_spec() -> bool {
        false
    }

    open spec fn sub_req(self, rhs: &'r StackMatrix<T, X, Y>) -> bool {
        self@.wf() && rhs@.wf() && (self@.same_shape(rhs@) ==> cells_sub_req(
            self@.cells,
            rhs@.cells,
        ))
    }

    open spec fn sub_spec(self, rhs: &'r StackMatrix<T, X, Y>) -> Result<HeapMatrix<T>, Error> {
        arbitrary()
    }
}

impl<'r, T: Numeric, const X: usize, const Y: usize> Mul<&'r StackMatrix<T, X, Y>> for HeapMatrix<T> {
    type Output = Result<HeapMatrix<T>, Error>;

    /// The matrix product with a borrowed inline matrix: see [`MatrixOp::mat_mul`].
    fn mul(self, rhs: &'r StackMatrix<T, X, Y>) -> (res: Result<HeapMatrix<T>, Error>)
        ensures
            is_product(self@, rhs@, true, res),
    {
        self.dot_prod(rhs)
    }
}

impl<'r, T: Numeric, const X: usize, const Y: usize> vstd::std_specs::ops::MulSpecImpl<&'r StackMatrix<T, X, Y>> for HeapMatrix<T> {
    /// What the operator gives is stated where it is implemented.
    open spec fn obeys_mul_spec() -> bool {
        false
    }

    open spec fn mul_req(self, rhs: &'r StackMatrix<T, X, Y>) -> bool {
        self@.wf() && rhs@.wf() && (self@.columns == rhs@.rows ==> product_req(self@, rhs@))
    }

    open spec fn mul_spec(self, rhs: &'r StackMatrix<T, X, Y>) -> Result<HeapMatrix<T>, Error> {
        arbitrary()
    }
}

impl<T: Numeric> Add<T> for HeapMatrix<T> {
    type Output = HeapMatrix<T>;

    /// The matrix with `rhs` added to every cell.
    fn add(self, rhs: T) -> (res: HeapMatrix<T>)
        ensures
            is_plus(self@, rhs, res@),
    {
        self.scalar_add(rhs)
    }
}

impl<T: Numeric> vstd::std_specs::ops::AddSpecImpl<T> for HeapMatrix<T> {
    /// What the operator gives is stated where it is implemented.
    open spec fn obeys_add_spec() -> bool {
        false
    }

    open spec fn add_req(self, rhs: T) -> bool {
        self@.wf() && scalar_add_req(self@.cells, rhs)
    }

    open spec fn add_spec(self, rhs: T) -> HeapMatrix<T> {
        arbitrary()
    }
}

impl<T: Numeric> Sub<T> for HeapMatrix<T> {
    type Output = HeapMatrix<T>;

    /// The matrix with `rhs` subtracted from every cell.
    fn sub(self, rhs: T) -> (res: HeapMatrix<T>)
        ensures
            is_minus(self@, rhs, res@),
    {
        self.scalar_sub(rhs)
    }
}

impl<T: Numeric> vstd::std_specs::ops::SubSpecImpl<T> for HeapMatrix<T> {
    /// What the operator gives is stated where it is implemented.
    open spec fn obeys_sub_spec() -> bool {
        false
    }

    open spec fn sub_req(self, rhs: T) -> bool {
        self@.wf() && scalar_sub_req(self@.cells, rhs)
    }

    open spec fn sub_spec(self, rhs: T) -> HeapMatrix<T> {
        arbitrary()
    }
}

impl<T: Numeric> Mul<T> for HeapMatrix<T> {
    type Output = HeapMatrix<T>;

    /// The matrix with every cell multiplied by `rhs`.
    fn mul(self, rhs: T) -> (res: HeapMatrix<T>)
        ensures
            is_times(self@, rhs, res@),
    {
        self.scalar_mul(rhs)
    }
}

impl<T: Numeric> vstd::std_specs::ops::MulSpecImpl<T> for HeapMatrix<T> {
    /// What the operator gives is stated where it is implemented.
    open spec fn obeys_mul_spec() -> bool {
        false
    }

    open spec fn mul_req(self, rhs: T) -> bool {
        self@.wf() && scalar_mul_req(self@.cells, rhs)
    }

    open spec fn mul_spec(self, rhs: T) -> HeapMatrix<T> {
        arbitrary()
    }
}

} // verus!
