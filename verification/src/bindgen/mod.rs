//! Generation of the C and R bindings for the Rust functions that a package
//! exports.
//!
//! `source` reads a Rust source file (`syn` parses it) and picks out the
//! functions and impl blocks marked `#[unextendr]`; each function is then
//! described by plain values (its name, the kind of its receiver, its
//! arguments and their types, whether it returns a value, its doc comments),
//! and from that description `codegen` produces the C header, the C
//! registration code and the R wrappers.

pub mod unextendr_fn;
pub mod codegen;
pub mod source;
