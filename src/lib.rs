//! Binding code generator for storage layers and services.
//!
//! The library reads the builder surface of a configuration type (as a
//! syntax model), classifies its builder methods, maps their parameter types
//! to host-side types, and renders a wrapper declaration with a constructor
//! and a composed docstring. Everything that touches the file system, the
//! build graph or the Rust parser lives outside the library and hands it
//! plain values.

pub mod assemble;
pub mod extract;
pub mod laws;
pub mod naming;
pub mod pipeline;
pub mod syntax;
pub mod text;
pub mod types;
pub mod variant;
