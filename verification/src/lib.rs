//! A fixed-length numeric container with element-wise scalar operations and
//! aggregate reductions, together with a read-only view that aggregates over a
//! list of such containers.

pub mod fold;
pub mod matrix;
pub mod view;

pub use matrix::Matrix;
pub use view::MatrixSlice;
