//! The element contract, and what the element-wise operations mean on
//! sequences of cells.

use std::fmt::{Debug, Display};
use std::ops::{Add, Div, Mul, Sub};
use vstd::prelude::*;
use vstd::std_specs::cmp::PartialEqSpec;
use vstd::std_specs::ops::{AddSpec, MulSpec, SubSpec};

verus! {

/// What a type must offer to be the element type of a matrix: the four
/// arithmetic operators closed over the type, equality, copying, a textual
/// form and a default value, which serves as the zero that sums start from.
///
/// Every type with these capabilities is `Numeric`; nothing has to be
/// implemented by hand.
pub trait Numeric:
    Add<Output = Self>
    + Sub<Output = Self>
    + Mul<Output = Self>
    + Div<Output = Self>
    + PartialEq
    + Sized
    + Copy
    + Debug
    + Display
    + Default
{
}

impl<T> Numeric for T where
    T: Add<Output = T>
        + Sub<Output = T>
        + Mul<Output = T>
        + Div<Output = T>
        + PartialEq
        + Sized
        + Copy
        + Debug
        + Display
        + Default,
{
}

/// `zero` is a value that `T::default()` may return.
pub open spec fn is_zero<T: Numeric>(zero: T) -> bool {
    call_ensures(T::default, (), zero)
}

/// Every cell of `a` may be added to the cell of `b` at the same index.
pub open spec fn cells_add_req<T: Numeric>(a: Seq<T>, b: Seq<T>) -> bool {
    forall|i: int| 0 <= i < a.len() && i < b.len() ==> #[trigger] a[i].add_req(b[i])
}

/// The cell-by-cell sum `a[i] + b[i]`.
pub open spec fn cells_sum<T: Numeric>(a: Seq<T>, b: Seq<T>) -> Seq<T> {
    Seq::new(a.len(), |i: int| a[i].add_spec(b[i]))
}

/// Every cell of `b` may be subtracted from the cell of `a` at the same index.
pub open spec fn cells_sub_req<T: Numeric>(a: Seq<T>, b: Seq<T>) -> bool {
    forall|i: int| 0 <= i < a.len() && i < b.len() ==> #[trigger] a[i].sub_req(b[i])
}

/// The cell-by-cell difference `a[i] - b[i]`, left minus right.
pub open spec fn cells_difference<T: Numeric>(a: Seq<T>, b: Seq<T>) -> Seq<T> {
    Seq::new(a.len(), |i: int| a[i].sub_spec(b[i]))
}

/// Every cell of `a` may be multiplied by the cell of `b` at the same index.
pub open spec fn cells_mul_req<T: Numeric>(a: Seq<T>, b: Seq<T>) -> bool {
    forall|i: int| 0 <= i < a.len() && i < b.len() ==> #[trigger] a[i].mul_req(b[i])
}

/// The cell-by-cell product `a[i] * b[i]`.
pub open spec fn cells_product<T: Numeric>(a: Seq<T>, b: Seq<T>) -> Seq<T> {
    Seq::new(a.len(), |i: int| a[i].mul_spec(b[i]))
}

/// `num` may be added to every cell of `a`.
pub open spec fn scalar_add_req<T: Numeric>(a: Seq<T>, num: T) -> bool {
    forall|i: int| 0 <= i < a.len() ==> #[trigger] a[i].add_req(num)
}

/// Every cell of `a` plus `num`.
pub open spec fn cells_plus<T: Numeric>(a: Seq<T>, num: T) -> Seq<T> {
    Seq::new(a.len(), |i: int| a[i].add_spec(num))
}

/// `num` may be subtracted from every cell of `a`.
pub open spec fn scalar_sub_req<T: Numeric>(a: Seq<T>, num: T) -> bool {
    forall|i: int| 0 <= i < a.len() ==> #[trigger] a[i].sub_req(num)
}

/// Every cell of `a` minus `num`.
pub open spec fn cells_minus<T: Numeric>(a: Seq<T>, num: T) -> Seq<T> {
    Seq::new(a.len(), |i: int| a[i].sub_spec(num))
}

/// Every cell of `a` may be multiplied by `num`.
pub open spec fn scalar_mul_req<T: Numeric>(a: Seq<T>, num: T) -> bool {
    forall|i: int| 0 <= i < a.len() ==> #[trigger] a[i].mul_req(num)
}

/// Every cell of `a` times `num`.
pub open spec fn cells_times<T: Numeric>(a: Seq<T>, num: T) -> Seq<T> {
    Seq::new(a.len(), |i: int| a[i].mul_spec(num))
}

/// `a` and `b` have the same length and hold equal cells, as `T`'s `==`
/// judges them.
pub open spec fn cells_eq<T: Numeric>(a: Seq<T>, b: Seq<T>) -> bool {
    &&& a.len() == b.len()
    &&& forall|i: int| 0 <= i < a.len() ==> #[trigger] a[i].eq_spec(&b[i])
}

/// Compares two runs of cells with `T`'s `==`, cell by cell.
pub fn cells_equal<T: Numeric>(a: &[T], b: &[T]) -> (same: bool)
    ensures
        T::obeys_eq_spec() ==> same == cells_eq(a@, b@),
{
    if a.len() != b.len() {
        return false;
    }
    let mut i: usize = 0;
    while i < a.len()
        invariant
            i <= a.len(),
            a.len() == b.len(),
            T::obeys_eq_spec() ==> forall|k: int| 0 <= k < i ==> #[trigger] a@[k].eq_spec(&b@[k]),
        decreases a.len() - i,
    {
        if a[i] != b[i] {
            return false;
        }
        i += 1;
    }
    true
}

/// The cell-by-cell sum of two runs of cells of one length.
pub fn add_cells<T: Numeric>(a: &[T], b: &[T]) -> (out: Vec<T>)
    requires
        a@.len() == b@.len(),
        cells_add_req(a@, b@),
    ensures
        out@.len() == a@.len(),
        T::obeys_add_spec() ==> out@ == cells_sum(a@, b@),
{
    let mut out: Vec<T> = Vec::new();
    let mut i: usize = 0;
    while i < a.len()
        invariant
            a@.len() == b@.len(),
            cells_add_req(a@, b@),
            i <= a@.len(),
            out@.len() == i,
            T::obeys_add_spec() ==> forall|k: int|
                0 <= k < i ==> out@[k] == #[trigger] cells_sum(a@, b@)[k],
        decreases a@.len() - i,
    {
        out.push(a[i] + b[i]);
        i += 1;
    }
    assert(T::obeys_add_spec() ==> out@ =~= cells_sum(a@, b@));
    out
}

/// The cell-by-cell difference of two runs of cells of one length, left minus
/// right.
pub fn sub_cells<T: Numeric>(a: &[T], b: &[T]) -> (out: Vec<T>)
    requires
        a@.len() == b@.len(),
        cells_sub_req(a@, b@),
    ensures
        out@.len() == a@.len(),
        T::obeys_sub_spec() ==> out@ == cells_difference(a@, b@),
{
    let mut out: Vec<T> = Vec::new();
    let mut i: usize = 0;
    while i < a.len()
        invariant
            a@.len() == b@.len(),
            cells_sub_req(a@, b@),
            i <= a@.len(),
            out@.len() == i,
            T::obeys_sub_spec() ==> forall|k: int|
                0 <= k < i ==> out@[k] == #[trigger] cells_difference(a@, b@)[k],
        decreases a@.len() - i,
    {
        out.push(a[i] - b[i]);
        i += 1;
    }
    assert(T::obeys_sub_spec() ==> out@ =~= cells_difference(a@, b@));
    out
}

/// The cell-by-cell product of two runs of cells of one length.
pub fn mul_cells<T: Numeric>(a: &[T], b: &[T]) -> (out: Vec<T>)
    requires
        a@.len() == b@.len(),
        cells_mul_req(a@, b@),
    ensures
        out@.len() == a@.len(),
        T::obeys_mul_spec() ==> out@ == cells_product(a@, b@),
{
    let mut out: Vec<T> = Vec::new();
    let mut i: usize = 0;
    while i < a.len()
        invariant
            a@.len() == b@.len(),
            cells_mul_req(a@, b@),
            i <= a@.len(),
            out@.len() == i,
            T::obeys_mul_spec() ==> forall|k: int|
                0 <= k < i ==> out@[k] == #[trigger] cells_product(a@, b@)[k],
        decreases a@.len() - i,
    {
        out.push(a[i] * b[i]);
        i += 1;
    }
    assert(T::obeys_mul_spec() ==> out@ =~= cells_product(a@, b@));
    out
}

/// Every cell of `a` plus `num`.
pub fn add_scalar<T: Numeric>(a: &[T], num: T) -> (out: Vec<T>)
    requires
        scalar_add_req(a@, num),
    ensures
        out@.len() == a@.len(),
        T::obeys_add_spec() ==> out@ == cells_plus(a@, num),
{
    let mut out: Vec<T> = Vec::new();
    let mut i: usize = 0;
    while i < a.len()
        invariant
            scalar_add_req(a@, num),
            i <= a@.len(),
            out@.len() == i,
            T::obeys_add_spec() ==> forall|k: int|
                0 <= k < i ==> out@[k] == #[trigger] cells_plus(a@, num)[k],
        decreases a@.len() - i,
    {
        out.push(a[i] + num);
        i += 1;
    }
    assert(T::obeys_add_spec() ==> out@ =~= cells_plus(a@, num));
    out
}

/// Every cell of `a` minus `num`.
pub fn sub_scalar<T: Numeric>(a: &[T], num: T) -> (out: Vec<T>)
    requires
        scalar_sub_req(a@, num),
    ensures
        out@.len() == a@.len(),
        T::obeys_sub_spec() ==> out@ == cells_minus(a@, num),
{
    let mut out: Vec<T> = Vec::new();
    let mut i: usize = 0;
    while i < a.len()
        invariant
            scalar_sub_req(a@, num),
            i <= a@.len(),
            out@.len() == i,
            T::obeys_sub_spec() ==> forall|k: int|
                0 <= k < i ==> out@[k] == #[trigger] cells_minus(a@, num)[k],
        decreases a@.len() - i,
    {
        out.push(a[i] - num);
        i += 1;
    }
    assert(T::obeys_sub_spec() ==> out@ =~= cells_minus(a@, num));
    out
}

/// Every cell of `a` times `num`.
pub fn mul_scalar<T: Numeric>(a: &[T], num: T) -> (out: Vec<T>)
    requires
        scalar_mul_req(a@, num),
    ensures
        out@.len() == a@.len(),
        T::obeys_mul_spec() ==> out@ == cells_times(a@, num),
{
    let mut out: Vec<T> = Vec::new();
    let mut i: usize = 0;
    while i < a.len()
        invariant
            scalar_mul_req(a@, num),
            i <= a@.len(),
            out@.len() == i,
            T::obeys_mul_spec() ==> forall|k: int|
                0 <= k < i ==> out@[k] == #[trigger] cells_times(a@, num)[k],
        decreases a@.len() - i,
    {
        out.push(a[i] * num);
        i += 1;
    }
    assert(T::obeys_mul_spec() ==> out@ =~= cells_times(a@, num));
    out
}

} // verus!
