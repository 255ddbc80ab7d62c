//! Savvy: a simple interface between R and Rust.
//!
//! This crate holds the logic of the interface in verified form: the
//! representation of R's missing values, the bookkeeping that keeps R objects
//! alive, the error protocol between Rust and C, the vector containers and the
//! generator of C and R bindings.

pub mod text;
pub mod error;
pub mod protect;
pub mod tagged;
pub mod bindgen;
pub mod sexp;
pub mod io;
pub mod eval;
pub mod altrep;
pub mod panic_hook;
pub mod unextendr_demo;

