//! A compile-time generator of operator-overload implementations.
//!
//! The input is a flat sequence of tokens holding a small declaration:
//! an optional generic-parameter list and where-clause, the operand types,
//! one of the seven binary operators `+ - * / & | ^`, a result type and
//! (for the primary form) a function body. The output is the source text of
//! the corresponding `std::ops` trait implementations.
//!
//! `token` holds the token model, `parse` the backtracking token readers,
//! and `emit` the two generation entry points.

pub mod emit;
pub mod parse;
pub mod token;
