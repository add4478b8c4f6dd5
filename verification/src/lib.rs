//! Static semantic analysis for a small imperative language.
//!
//! The crate walks a parsed syntax tree, maintains a stack of lexical
//! scopes, infers expression types, and collects structured diagnostics
//! about scoping, mutability, naming and type errors.  Rendering of the
//! diagnostics and parsing of source text are left to the surrounding
//! tooling; this crate works on plain syntax-tree values and returns
//! plain diagnostic values.

pub mod analyzers;
pub mod ast;
pub mod diag;
pub mod scope;
pub mod span;
pub mod text;
pub mod types;
pub mod walker;
