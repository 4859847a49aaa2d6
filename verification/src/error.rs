//! The errors that type checking and rendering report.

use vstd::prelude::*;
use crate::types::CType;

verus! {

/// The category of an expression node, without its payload.
#[derive(Debug, Clone, Copy, PartialEq, Eq, Structural)]
pub enum ExpressionKind {
    Number,
    String,
    Identifier,
    Decimal,
    Array,
    Char,
    Boolean,
    Hex,
    Octal,
    Ternary,
    Cast,
    Struct,
    Binary,
    Logical,
    Member,
    Index,
    Pointer,
    FunctionCall,
}

/// The category of a statement node, without its payload.
#[derive(Debug, Clone, Copy, PartialEq, Eq, Structural)]
pub enum StatementKind {
    Variable,
    Assignment,
    Return,
    FunctionCall,
    Break,
    Block,
    If,
    While,
    For,
    DoWhile,
    Function,
    Include,
    Define,
    Pragma,
    Typedef,
}

/// Why a tree could not be type checked or rendered.
#[derive(Debug, Clone, PartialEq)]
pub enum CodegenError {
    /// A value of type `found` was given where `expected` was declared.
    TypeMismatch { expected: CType, found: CType },
    /// A statement of a category that has no textual rule was reached.
    UnsupportedStatement(StatementKind),
    /// An expression of a category that has no textual rule was reached.
    UnsupportedExpression(ExpressionKind),
}

} // verus!
