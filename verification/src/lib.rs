//! Linear algebra on small, fixed-size vectors and matrices.
//!
//! Vectors of two to five components and square matrices of two to four
//! rows, over any numeric element type, with the usual operators, indexing,
//! conversion to and from arrays, and access by column and by row. Every
//! function carries a contract that Verus proves.

pub mod matrix;
pub mod numeric;
pub mod parallel;
pub mod table;
pub mod vector;

pub use numeric::Numeric;
pub use table::ColsIterator;
pub use table::Columnar;
pub use table::RowsIterator;
pub use table::Tabular;
