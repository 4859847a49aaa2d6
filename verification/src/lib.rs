//! A C code-generation backend: a typed tree describing a C translation unit
//! and a renderer that turns it into C source text.
//!
//! - [`types`]: the C type model, its structural equality and its text.
//! - [`expression`], [`statement`]: the nodes of the tree, the static type
//!   of an expression and the checked append of array literals.
//! - [`render`]: what the text of every node is.
//! - [`codegen`]: the engine that collects a program and emits its text.
//! - [`output`], [`compiler`]: the descriptor of a generated file and the
//!   build that compiles it.
//! - [`copy`], [`laws`], [`text`], [`error`]: deep copies, the laws of the
//!   rendering, decimal text, and the errors.

pub mod codegen;
pub mod compiler;
pub mod copy;
pub mod error;
pub mod expression;
pub mod laws;
pub mod output;
pub mod render;
pub mod statement;
pub mod text;
pub mod types;
