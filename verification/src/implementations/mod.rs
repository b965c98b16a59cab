//! The two storage strategies, and the operators on them.

pub mod heap_matrix;
pub mod heap_operators;
pub mod stack_matrix;
pub mod stack_operators;

pub use heap_matrix::HeapMatrix;
pub use stack_matrix::StackMatrix;
