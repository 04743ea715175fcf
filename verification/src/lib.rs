//! First steps with the language: binding values to names, and declaring
//! functions.
//!
//! The crate is deliberately tiny. Every function in it is verified, so each
//! one is known to return without panicking, and the one function that
//! produces a value says exactly which value that is.

pub mod functions;
pub mod variables;

pub use functions::{fn_test, greeting};
pub use variables::{foobar, variables};
