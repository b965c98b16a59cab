//! Dense numeric matrices with two storage strategies behind one interface.
//!
//! [`StackMatrix`](implementations::StackMatrix) keeps a matrix whose extents
//! are part of its type inline, without allocating.
//! [`HeapMatrix`](implementations::HeapMatrix) keeps its cells in a growable
//! buffer, so that rows can be appended at run time. Both store their cells in
//! row-major order: cell `(x, y)`, column `x` of row `y`, lives at offset
//! `y * columns + x`.
//!
//! The traits in [`matrix`] describe what every matrix offers and implement
//! element access, the element-wise operations and the matrix product once,
//! for both variants and for any mix of them. The operators `+`, `-` and `*`
//! are implemented on top of them.
//!
//! Every matrix has a [`view::MatrixView`]: its extents and its cells as a
//! mathematical sequence. The contracts of all operations are stated over
//! these views, with the meaning of the operations themselves in
//! [`arithmetic`], and [`laws`] holds what follows from them for the
//! operations taken together. A matrix that a constructor has made is well
//! formed, [`view::MatrixView::wf`]: it has one cell for each place. The
//! operations ask for well-formed matrices and give well-formed matrices
//! back.
//!
//! The element type can be any type with the capabilities of
//! [`common::Numeric`]. What an operation promises of the cells it computes
//! is stated through the specifications that the element type gives to its
//! own operators: for the integer types, that `+`, `-` and `*` are those of
//! the integers, and are allowed where the result fits in the type.

pub mod arithmetic;
pub mod common;
pub mod error;
pub mod implementations;
pub mod laws;
pub mod matrix;
pub mod prelude;
pub mod printable;
pub mod view;
