//! Evaluation core of a jq-like filter language over JSON-like values.
//!
//! A compiled program is a table of terms that refer to each other by id
//! (`term`). Running a term on a value in a context (`ctx`) yields a stream of
//! values and control signals: errors, breaks to labels, and tail calls.
//! Updating through a term rebuilds a value with a transformation applied at
//! every location that the term designates.
//!
//! - `term`: terms, the lookup table, and `FilterT`, the interface of native
//!   filters; `Native` holds the built-in ones.
//! - `val`: values, indexing, arithmetic and comparison.
//! - `text`: the JSON text of a value.
//! - `sem`: what running and updating yield, as spec functions with a step budget.
//! - `ops`, `filter`: the evaluator, proved to yield exactly that; `take` and
//!   `first` run a term only as far as the outputs asked for need.
//! - `laws`: properties of evaluation proved over `sem`.
use vstd::prelude::*;

pub mod ctx;
pub mod filter;
pub mod laws;
pub mod ops;
pub mod sem;
pub mod term;
pub mod text;
pub mod val;

verus! {

} // verus!
