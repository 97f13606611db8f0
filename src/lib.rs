//! Discovery of fuzzing entry points: a classifier of parameter type shapes
//! and a search that filters function items by visibility and parameter types.
pub mod shape;
pub mod search;
pub mod cli;
