//! The evaluation core of a small dynamically typed scripting language:
//! runtime values, the errors an evaluation can end in, and a tree-walking
//! evaluator that is proved to do what a mathematical semantics says.
//!
//! An evaluation takes an expression tree, which a parser has made, and a
//! machine ([`vm::Vm`]) that holds the variables and the text printed so
//! far. It gives a value or an error.
//!
//! Two things are left to whoever runs an evaluation. Numbers are doubles,
//! held here by their bits: the sum, the product and so on of two numbers
//! are asked of a function that the caller hands in
//! ([`number::Operation`]), and the decimal digits of a number are written
//! by whoever prints a text ([`text::Piece`]). And an evaluation is given
//! an amount of fuel, since an expression may loop or recurse without end:
//! it fails with `OutOfFuel` where the fuel does not suffice, and gives the
//! same with any larger amount where it does ([`fuel`]).
//!
//! - [`semantics`] says what every expression gives;
//! - [`eval`] and [`vm`] hold the evaluator, held to the semantics;
//! - [`value`], [`operators`], [`number`], [`text`], [`table`], [`expr`] and
//!   [`error`] hold what both speak of;
//! - [`laws`], [`fuel`], [`persistence`] and [`frame`] hold what is proved of
//!   every evaluation.

pub mod text;
pub mod number;
pub mod expr;
pub mod value;
pub mod error;
pub mod operators;
pub mod table;
pub mod semantics;
pub mod eval;
pub mod vm;
pub mod laws;
pub mod fuel;
pub mod persistence;
pub mod frame;
