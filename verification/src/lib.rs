//! The expression core of the Flax scripting language.
//!
//! The crate holds the syntax tree that a parser builds and a tree-walking
//! evaluator that reduces an expression to a runtime value. Numbers are
//! IEEE-754 binary64 values, carried by their bit patterns: sign, equality and
//! ordering are decided here on the bits, while reading a number from text,
//! the four arithmetic operations and writing a number in decimal are asked of
//! the floating-point unit that the caller hands in.
pub mod ast;
pub mod errors;
pub mod interpreter;
pub mod laws;
pub mod number;
pub mod semantics;
pub mod token;
pub mod unit;
pub mod visitor;
