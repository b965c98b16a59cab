//! The names most users of the crate want in scope.

pub use crate::common::Numeric;
pub use crate::error::Error;
pub use crate::implementations::{HeapMatrix, StackMatrix};
pub use crate::matrix::{Matrix, MatrixAlloc, MatrixOp, MatrixRef, MatrixScalarOp};
pub use crate::view::MatrixView;
