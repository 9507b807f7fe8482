//! A conformance checker for a restricted, analyzable subset of Rust.
//!
//! The checker classifies already-parsed and name-resolved program fragments
//! as conforming or not, and reports one violation per non-conforming
//! construct. It never changes the program.
use vstd::prelude::*;

pub mod decls;
pub mod diag;
pub mod exprs;
pub mod lints;
pub mod macros;
pub mod names;
pub mod policy;
pub mod shapes;
pub mod syntax;
pub mod unit;
