//! A compiler for a small call-oriented scripting language that targets the
//! CatWeb visual block format: a parser producing a syntax tree, a lowering
//! pass producing a flat, dependency-ordered intermediate representation, and
//! a code generator producing the nested card/action document that the host
//! tool imports.

pub mod codegen;
pub mod compiler;
pub mod laws;
pub mod parser;
