//! The operators `+`, `-` and `*` with an inline matrix on the left.

use crate::arithmetic::{
    is_difference, is_minus, is_plus, is_product, is_sum, is_times, product_req,
};
use crate::common::{
    cells_add_req, cells_sub_req, scalar_add_req, scalar_mul_req, scalar_sub_req, Numeric,
};
use crate::error::Error;
use crate::implementations::heap_matrix::HeapMatrix;
use crate::implementations::stack_matrix::StackMatrix;
use crate::matrix::{MatrixOp, MatrixScalarOp};
use std::ops::{Add, Mul, Sub};
use vstd::prelude::*;

verus! {

impl<T: Numeric, const X: usize, const Y: usize> Add for StackMatrix<T, X, Y> {
    type Output = StackMatrix<T, X, Y>;

    /// The cell-by-cell sum with an inline matrix of the same shape:
    /// what [`MatrixOp::mat_add`] gives, which cannot fail here.
    fn add(self, rhs: StackMatrix<T, X, Y>) -> (res: StackMatrix<T, X, Y>)
        ensures
            is_sum(self@, rhs@, Ok::<StackMatrix<T, X, Y>, Error>(res)),
    {
        proof {
            self.lemma_shape();
            rhs.lemma_shape();
        }
        self.mat_add(&rhs).unwrap()
    }
}

impl<T: Numeric, const X: usize, const Y: usize> vstd::std_specs::ops::AddSpecImpl for StackMatrix<T, X, Y> {
    /// What the operator gives is stated where it is implemented.
    open spec fn obeys_add_spec() -> bool {
        false
    }

    open spec fn add_req(self, rhs: StackMatrix<T, X, Y>) -> bool {
        self@.wf() && rhs@.wf() && cells_add_req(self@.cells, rhs@.cells)
    }

    open spec fn add_spec(self, rhs: StackMatrix<T, X, Y>) -> StackMatrix<T, X, Y> {
        arbitrary()
    }
}

impl<T: Numeric, const X: usize, const Y: usize> Sub for StackMatrix<T, X, Y> {
    type Output = StackMatrix<T, X, Y>;

    /// The cell-by-cell difference with an inline matrix of the same shape:
    /// what [`MatrixOp::mat_sub`] gives, which cannot fail here.
    fn sub(self, rhs: StackMatrix<T, X, Y>) -> (res: StackMatrix<T, X, Y>)
        ensures
            is_difference(self@, rhs@, Ok::<StackMatrix<T, X, Y>, Error>(res)),
    {
        proof {
            self.lemma_shape();
            rhs.lemma_shape();
        }
        self.mat_sub(&rhs).unwrap()
    }
}

impl<T: Numeric, const X: usize, const Y: usize> vstd::std_specs::ops::SubSpecImpl for StackMatrix<T, X, Y> {
    /// What the operator gives is stated where it is implemented.
    open spec fn obeys_sub_spec() -> bool {
        false
    }

    open spec fn sub_req(self, rhs: StackMatrix<T, X, Y>) -> bool {
        self@.wf() && rhs@.wf() && cells_sub_req(self@.cells, rhs@.cells)
    }

    open spec fn sub_spec(self, rhs: StackMatrix<T, X, Y>) -> StackMatrix<T, X, Y> {
        arbitrary()
    }
}

impl<T: Numeric, const X: usize, const Y: usize, const Z: usize> Mul<StackMatrix<T, Z, X>> for StackMatrix<T, X, Y> {
    type Output = StackMatrix<T, Z, Y>;

    /// The matrix product with an inline matrix that has as many rows
    /// as `self` has columns: what [`MatrixOp::mat_mul`] gives, which cannot
    /// fail here.
    fn mul(self, rhs: StackMatrix<T, Z, X>) -> (res: StackMatrix<T, Z, Y>)
        ensures
            is_product(self@, rhs@, true, Ok::<StackMatrix<T, Z, Y>, Error>(res)),
    {
        proof {
            self.lemma_shape();
            rhs.lemma_shape();
        }
        self.mat_mul::<StackMatrix<T, Z, X>, StackMatrix<T, Z, Y>>(&rhs).unwrap()
    }
}

impl<T: Numeric, const X: usize, const Y: usize, const Z: usize> vstd::std_specs::ops::MulSpecImpl<StackMatrix<T, Z, X>> for StackMatrix<T, X, Y> {
    /// What the operator gives is stated where it is implemented.
    open spec fn obeys_mul_spec() -> bool {
        false
    }

    open spec fn mul_req(self, rhs: StackMatrix<T, Z, X>) -> bool {
        self@.wf() && rhs@.wf() && Z * Y <= usize::MAX && product_req(self@, rhs@)
    }

    open spec fn mul_spec(self, rhs: StackMatrix<T, Z, X>) -> StackMatrix<T, Z, Y> {
        arbitrary()
    }
}

impl<T: Numeric, const X: usize, const Y: usize> Add<HeapMatrix<T>> for StackMatrix<T, X, Y> {
    type Output = Result<StackMatrix<T, X, Y>, Error>;

    /// The cell-by-cell sum with a buffer of the same shape: see
    /// [`MatrixOp::mat_add`].
    fn add(self, rhs: HeapMatrix<T>) -> (res: Result<StackMatrix<T, X, Y>, Error>)
        ensures
            is_sum(self@, rhs@, res),
    {
        self.mat_add(&rhs)
    }
}

impl<T: Numeric, const X: usize, const Y: usize> vstd::std_specs::ops::AddSpecImpl<HeapMatrix<T>> for StackMatrix<T, X, Y> {
    /// What the operator gives is stated where it is implemented.
    open spec fn obeys_add_spec() -> bool {
        false
    }

    open spec fn add_req(self, rhs: HeapMatrix<T>) -> bool {
        self@.wf() && rhs@.wf() && (self@.same_shape(rhs@) ==> cells_add_req(
            self@.cells,
            rhs@.cells,
        ))
    }

    open spec fn add_spec(self, rhs: HeapMatrix<T>) -> Result<StackMatrix<T, X, Y>, Error> {
        arbitrary()
    }
}

impl<T: Numeric, const X: usize, const Y: usize> Sub<HeapMatrix<T>> for StackMatrix<T, X, Y> {
    type Output = Result<StackMatrix<T, X, Y>, Error>;

    /// The cell-by-cell difference with a buffer of the same shape: see
    /// [`MatrixOp::mat_sub`].
    fn sub(self, rhs: HeapMatrix<T>) -> (res: Result<StackMatrix<T, X, Y>, Error>)
        ensures
            is_difference(self@, rhs@, res),
    {
        self.mat_sub(&rhs)
    }
}

impl<T: Numeric, const X: usize, const Y: usize> vstd::std_specs::ops::SubSpecImpl<HeapMatrix<T>> for StackMatrix<T, X, Y> {
    /// What the operator gives is stated where it is implemented.
    open spec fn obeys_sub_spec() -> bool {
        false
    }

    open spec fn sub_req(self, rhs: HeapMatrix<T>) -> bool {
        self@.wf() && rhs@.wf() && (self@.same_shape(rhs@) ==> cells_sub_req(
            self@.cells,
            rhs@.cells,
        ))
    }

    open spec fn sub_spec(self, rhs: HeapMatrix<T>) -> Result<StackMatrix<T, X, Y>, Error> {
        arbitrary()
    }
}

impl<T: Numeric, const X: usize, const Y: usize> Mul<HeapMatrix<T>> for StackMatrix<T, X, Y> {
    type Output = Result<HeapMatrix<T>, Error>;

    /// The matrix product with a buffer, as a buffer: see
    /// [`MatrixOp::mat_mul`].
    fn mul(self, rhs: HeapMatrix<T>) -> (res: Result<HeapMatrix<T>, Error>)
        ensures
            is_product(self@, rhs@, true, res),
    {
        self.mat_mul::<HeapMatrix<T>, HeapMatrix<T>>(&rhs)
    }
}

impl<T: Numeric, const X: usize, const Y: usize> vstd::std_specs::ops::MulSpecImpl<HeapMatrix<T>> for StackMatrix<T, X, Y> {
    /// What the operator gives is stated where it is implemented.
    open spec fn obeys_mul_spec() -> bool {
        false
    }

    open spec fn mul_req(self, rhs: HeapMatrix<T>) -> bool {
        self@.wf() && rhs@.wf() && (self@.columns == rhs@.rows ==> product_req(self@, rhs@))
    }

    open spec fn mul_spec(self, rhs: HeapMatrix<T>) -> Result<HeapMatrix<T>, Error> {
        arbitrary()
    }
}

impl<'r, T: Numeric, const X: usize, const Y: usize> Add<&'r StackMatrix<T, X, Y>> for StackMatrix<T, X, Y> {
    type Output = StackMatrix<T, X, Y>;

    /// The cell-by-cell sum with a borrowed inline matrix of the same shape:
    /// what [`MatrixOp::mat_add`] gives, which cannot fail here.
    fn add(self, rhs: &'r StackMatrix<T, X, Y>) -> (res: StackMatrix<T, X, Y>)
        ensures
            is_sum(self@, rhs@, Ok::<StackMatrix<T, X, Y>, Error>(res)),
    {
        proof {
            self.lemma_shape();
            rhs.lemma_shape();
        }
        self.mat_add(rhs).unwrap()
    }
}

impl<'r, T: Numeric, const X: usize, const Y: usize> vstd::std_specs::ops::AddSpecImpl<&'r StackMatrix<T, X, Y>> for StackMatrix<T, X, Y> {
    /// What the operator gives is stated where it is implemented.
    open spec fn obeys_add_spec() -> bool {
        false
    }

    open spec fn add_req(self, rhs: &'r StackMatrix<T, X, Y>) -> bool {
        self@.wf() && rhs@.wf() && cells_add_req(self@.cells, rhs@.cells)
    }

    open spec fn add_spec(self, rhs: &'r StackMatrix<T, X, Y>) -> StackMatrix<T, X, Y> {
        arbitrary()
    }
}

impl<'r, T: Numeric, const X: usize, const Y: usize> Sub<&'r StackMatrix<T, X, Y>> for StackMatrix<T, X, Y> {
    type Output = StackMatrix<T, X, Y>;

    /// The cell-by-cell difference with a borrowed inline matrix of the same shape:
    /// what [`MatrixOp::mat_sub`] gives, which cannot fail here.
    fn sub(self, rhs: &'r StackMatrix<T, X, Y>) -> (res: StackMatrix<T, X, Y>)
        ensures
            is_difference(self@, rhs@, Ok::<StackMatrix<T, X, Y>, Error>(res)),
    {
        proof {
            self.lemma_shape();
            rhs.lemma_shape();
        }
        self.mat_sub(rhs).unwrap()
    }
}

impl<'r, T: Numeric, const X: usize, const Y: usize> vstd::std_specs::ops::SubSpecImpl<&'r StackMatrix<T, X, Y>> for StackMatrix<T, X, Y> {
    /// What the operator gives is stated where it is implemented.
    open spec fn obeys_sub_spec() -> bool {
        false
    }

    open spec fn sub_req(self, rhs: &'r StackMatrix<T, X, Y>) -> bool {
        self@.wf() && rhs@.wf() && cells_sub_req(self@.cells, rhs@.cells)
    }

    open spec fn sub_spec(self, rhs: &'r StackMatrix<T, X, Y>) -> StackMatrix<T, X, Y> {
        arbitrary()
    }
}

impl<'r, T: Numeric, const X: usize, const Y: usize, const Z: usize> Mul<&'r StackMatrix<T, Z, X>> for StackMatrix<T, X, Y> {
    type Output = StackMatrix<T, Z, Y>;

    /// The matrix product with a borrowed inline matrix that has as many rows
    /// as `self` has columns: what [`MatrixOp::mat_mul`] gives, which cannot
    /// fail here.
    fn mul(self, rhs: &'r StackMatrix<T, Z, X>) -> (res: StackMatrix<T, Z, Y>)
        ensures
            is_product(self@, rhs@, true, Ok::<StackMatrix<T, Z, Y>, Error>(res)),
    {
        proof {
            self.lemma_shape();
            rhs.lemma_shape();
        }
        self.mat_mul::<StackMatrix<T, Z, X>, StackMatrix<T, Z, Y>>(rhs).unwrap()
    }
}

impl<'r, T: Numeric, const X: usize, const Y: usize, const Z: usize> vstd::std_specs::ops::MulSpecImpl<&'r StackMatrix<T, Z, X>> for StackMatrix<T, X, Y> {
    /// What the operator gives is stated where it is implemented.
    open spec fn obeys_mul_spec() -> bool {
        false
    }

    open spec fn mul_req(self, rhs: &'r StackMatrix<T, Z, X>) -> bool {
        self@.wf() && rhs@.wf() && Z * Y <= usize::MAX && product_req(self@, rhs@)
    }

    open spec fn mul_spec(self, rhs: &'r StackMatrix<T, Z, X>) -> StackMatrix<T, Z, Y> {
        arbitrary()
    }
}

impl<'r, T: Numeric, const X: usize, const Y: usize> Add<&'r HeapMatrix<T>> for StackMatrix<T, X, Y> {
    type Output = Result<StackMatrix<T, X, Y>, Error>;

    /// The cell-by-cell sum with a borrowed buffer of the same shape: see
    /// [`MatrixOp::mat_add`].
    fn add(self, rhs: &'r HeapMatrix<T>) -> (res: Result<StackMatrix<T, X, Y>, Error>)
        ensures
            is_sum(self@, rhs@, res),
    {
        self.mat_add(rhs)
    }
}

impl<'r, T: Numeric, const X: usize, const Y: usize> vstd::std_specs::ops::AddSpecImpl<&'r HeapMatrix<T>> for StackMatrix<T, X, Y> {
    /// What the operator gives is stated where it is implemented.
    open spec fn obeys_add_spec() -> bool {
        false
    }

    open spec fn add_req(self, rhs: &'r HeapMatrix<T>) -> bool {
        self@.wf() && rhs@.wf() && (self@.same_shape(rhs@) ==> cells_add_req(
            self@.cells,
            rhs@.cells,
        ))
    }

    open spec fn add_spec(self, rhs: &'r HeapMatrix<T>) -> Result<StackMatrix<T, X, Y>, Error> {
        arbitrary()
    }
}

impl<'r, T: Numeric, const X: usize, const Y: usize> Sub<&'r HeapMatrix<T>> for StackMatrix<T, X, Y> {
    type Output = Result<StackMatrix<T, X, Y>, Error>;

    /// The cell-by-cell difference with a borrowed buffer of the same shape: see
    /// [`MatrixOp::mat_sub`].
    fn sub(self, rhs: &'r HeapMatrix<T>) -> (res: Result<StackMatrix<T, X, Y>, Error>)
        ensures
            is_difference(self@, rhs@, res),
    {
        self.mat_sub(rhs)
    }
}

impl<'r, T: Numeric, const X: usize, const Y: usize> vstd::std_specs::ops::SubSpecImpl<&'r HeapMatrix<T>> for StackMatrix<T, X, Y> {
    /// What the operator gives is stated where it is implemented.
    open spec fn obeys_sub_spec() -> bool {
        false
    }

    open spec fn sub_req(self, rhs: &'r HeapMatrix<T>) -> bool {
        self@.wf() && rhs@.wf() && (self@.same_shape(rhs@) ==> cells_sub_req(
            self@.cells,
            rhs@.cells,
        ))
    }

    open spec fn sub_spec(self, rhs: &'r HeapMatrix<T>) -> Result<StackMatrix<T, X, Y>, Error> {
        arbitrary()
    }
}

impl<'r, T: Numeric, const X: usize, const Y: usize> Mul<&'r HeapMatrix<T>> for StackMatrix<T, X, Y> {
    type Output = Result<HeapMatrix<T>, Error>;

    /// The matrix product with a borrowed buffer, as a buffer: see
    /// [`MatrixOp::mat_mul`].
    fn mul(self, rhs: &'r HeapMatrix<T>) -> (res: Result<HeapMatrix<T>, Error>)
        ensures
            is_product(self@, rhs@, true, res),
    {
        self.mat_mul::<HeapMatrix<T>, HeapMatrix<T>>(rhs)
    }
}

impl<'r, T: Numeric, const X: usize, const Y: usize> vstd::std_specs::ops::MulSpecImpl<&'r HeapMatrix<T>> for StackMatrix<T, X, Y> {
    /// What the operator gives is stated where it is implemented.
    open spec fn obeys_mul_spec() -> bool {
        false
    }

    open spec fn mul_req(self, rhs: &'r HeapMatrix<T>) -> bool {
        self@.wf() && rhs@.wf() && (self@.columns == rhs@.rows ==> product_req(self@, rhs@))
    }

    open spec fn mul_spec(self, rhs: &'r HeapMatrix<T>) -> Result<HeapMatrix<T>, Error> {
        arbitrary()
    }
}

impl<T: Numeric, const X: usize, const Y: usize> Add<T> for StackMatrix<T, X, Y> {
    type Output = StackMatrix<T, X, Y>;

    /// The matrix with `rhs` added to every cell.
    fn add(self, rhs: T) -> (res: StackMatrix<T, X, Y>)
        ensures
            is_plus(self@, rhs, res@),
    {
        self.scalar_add(rhs)
    }
}

impl<T: Numeric, const X: usize, const Y: usize> vstd::std_specs::ops::AddSpecImpl<T> for StackMatrix<T, X, Y> {
    /// What the operator gives is stated where it is implemented.
    open spec fn obeys_add_spec() -> bool {
        false
    }

    open spec fn add_req(self, rhs: T) -> bool {
        self@.wf() && scalar_add_req(self@.cells, rhs)
    }

    open spec fn add_spec(self, rhs: T) -> StackMatrix<T, X, Y> {
        arbitrary()
    }
}

impl<T: Numeric, const X: usize, const Y: usize> Sub<T> for StackMatrix<T, X, Y> {
    type Output = StackMatrix<T, X, Y>;

    /// The matrix with `rhs` subtracted from every cell.
    fn sub(self, rhs: T) -> (res: StackMatrix<T, X, Y>)
        ensures
            is_minus(self@, rhs, res@),
    {
        self.scalar_sub(rhs)
    }
}

impl<T: Numeric, const X: usize, const Y: usize> vstd::std_specs::ops::SubSpecImpl<T> for StackMatrix<T, X, Y> {
    /// What the operator gives is stated where it is implemented.
    open spec fn obeys_sub_spec() -> bool {
        false
    }

    open spec fn sub_req(self, rhs: T) -> bool {
        self@.wf() && scalar_sub_req(self@.cells, rhs)
    }

    open spec fn sub_spec(self, rhs: T) -> StackMatrix<T, X, Y> {
        arbitrary()
    }
}

impl<T: Numeric, const X: usize, const Y: usize> Mul<T> for StackMatrix<T, X, Y> {
    type Output = StackMatrix<T, X, Y>;

    /// The matrix with every cell multiplied by `rhs`.
    fn mul(self, rhs: T) -> (res: StackMatrix<T, X, Y>)
        ensures
            is_times(self@, rhs, res@),
    {
        self.scalar_mul(rhs)
    }
}

impl<T: Numeric, const X: usize, const Y: usize> vstd::std_specs::ops::MulSpecImpl<T> for StackMatrix<T, X, Y> {
    /// What the operator gives is stated where it is implemented.
    open spec fn obeys_mul_spec() -> bool {
        false
    }

    open spec fn mul_req(self, rhs: T) -> bool {
        self@.wf() && scalar_mul_req(self@.cells, rhs)
    }

    open spec fn mul_spec(self, rhs: T) -> StackMatrix<T, X, Y> {
        arbitrary()
    }
}

} // verus!
