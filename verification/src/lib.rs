//! Verified core of a TypeScript-to-Rust interop binding generator for Dioxus.
use vstd::prelude::*;

pub mod text;
pub mod lexer;
pub mod syntax;
pub mod rust_type;
pub mod casing;
pub mod ts_model;
pub mod ts_source;
pub mod type_map;
pub mod analyzer;
pub mod exports;
pub mod codegen;
pub mod watcher_guard;
pub mod laws;

verus! {

} // verus!
