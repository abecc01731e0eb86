//! Compiler for per-field widget-binding annotations.
//!
//! A schema is an ordered list of fields, each carrying a declared type
//! category and at most one raw directive written in a small embedded
//! language (`slider(min = 0.0, max = 1.0)`, `label = "speed"`, `input`,
//! or nothing at all).  The compiler parses each directive, resolves it
//! against a registry of widget kinds, checks it against the field's type
//! category, and deterministically emits two artifacts: the text of a
//! rendering routine (one widget-build call per annotated field, in
//! declaration order) and the declaration of a companion interaction-result
//! record with one member per annotated field.

pub mod ast;
pub mod check;
pub mod compile;
pub mod diag;
pub mod emit;
pub mod laws;
pub mod lex;
pub mod parse;
pub mod registry;
pub mod resolve;
pub mod schema;
pub mod tag;
