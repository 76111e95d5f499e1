//! A uniform read-only abstraction over matrices stored in different
//! physical layouts: diagonal-only, symmetric lower-triangular packing,
//! dense row-major, and compressed-sparse-column.
//!
//! Element values are carried as opaque 64-bit payloads (for IEEE 754
//! doubles, the bit pattern obtained from `f64::to_bits`); the access
//! layer stores and returns payloads and never computes on them. The
//! global default payload is `0`, the bit pattern of `+0.0`.

pub mod matrix;

pub mod dense;
pub mod diagonal;
pub mod sparse;
pub mod symmetric;

pub use dense::DenseMatrix;
pub use diagonal::DiagonalMatrix;
pub use sparse::SparseMatrix;
pub use symmetric::SymmetricMatrix;
pub use matrix::Matrix;
pub use matrix::MatrixKind;
pub use matrix::Scalar;
pub use matrix::DEFAULT_VALUE;
