//! Semantic analysis of Otter programs.
//!
//! [`analysis::analyze`] takes a parsed module through the whole pipeline: derived
//! methods and interface defaults are expanded, `await`s are hoisted, definitions
//! are collected, and the bodies are type-checked into a typed program.
use vstd::prelude::*;

pub mod suspend;
pub mod order;
pub mod check;
pub mod spans;
pub mod again;
pub mod anf;
pub mod respan;
pub mod derive_order;
pub mod subst;
pub mod derive;
pub mod analysis;
pub mod ast;
pub mod checker;
pub mod defaults;
pub mod derive_spans;
pub mod diag;
pub mod dup;
pub mod hir;
pub mod ids;
pub mod list;
pub mod lower;
pub mod names;
pub mod resolve_ctx;
pub mod results;
pub mod same;
pub mod session;
pub mod show;
pub mod solve;
pub mod span;
pub mod symbols;
pub mod text;
pub mod ty;
pub mod words;

verus! {

} // verus!
