//! A calculator in reverse Polish notation.
//!
//! A line holds numbers, variables, constants and operations, each after its
//! operands. [`machine`] evaluates a line against a stack; [`lexer`] splits the
//! line and [`operation`] knows what a token names. [`completion`] completes a
//! partly typed word, and [`render`] words what is shown. [`semantics`] says
//! what a line means and proves that the machine computes it; [`laws`] holds
//! what else is proved of these together.

pub mod completion;
pub mod laws;
pub mod lexer;
pub mod machine;
pub mod operation;
pub mod render;
pub mod semantics;
pub mod text;
