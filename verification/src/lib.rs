//! A typed, composable query constructor: predicate trees, column transform
//! chains and clause fragments that serialize deterministically into
//! parameterized query text plus a positionally ordered argument list.
//!
//! The load-bearing invariant of the whole crate is placeholder/argument
//! alignment: for every rendered fragment, the number of `?` occurrences in
//! the text equals the length of the returned argument list, and the i-th
//! `?` (left to right) binds the i-th argument.  The spec-level renderers in
//! [`model`] define the output, the executable renderers are proved to match
//! them exactly, and [`laws`] proves the alignment invariant over the model.

pub mod args;
pub mod expressions;
pub mod laws;
pub mod model;
pub mod mysql;
pub mod statements;
pub mod table;
pub mod text;
pub mod traits;
