//! Statement nodes and the top-level program node.

use vstd::prelude::*;
use crate::error::StatementKind;
use crate::expression::{CExpression, CFunctionCallStatement};
use crate::output::CLibrary;
use crate::types::CType;

verus! {

/// A variable declaration with its initializer: `int x = 21;`.
#[derive(Debug)]
pub struct CVariableStatement {
    pub var_type: CType,
    pub var_name: String,
    pub var_value: CExpression,
}

/// An assignment to a named variable: `x = 27;`.
#[derive(Debug)]
pub struct CAssignmentStatement {
    pub var_name: String,
    pub var_value: CExpression,
}

/// A return of a value: `return x;`.
#[derive(Debug)]
pub struct CReturnStatement {
    pub value: CExpression,
}

/// An include of a header.
#[derive(Debug)]
pub struct CIncludeStatement {
    pub library: CLibrary,
}

/// A sequence of statements.
#[derive(Debug)]
pub struct CBlockStatement {
    pub block: Vec<CStatement>,
}

/// One parameter of a function definition.
#[derive(Debug)]
pub struct CFunctionArg {
    pub arg_type: CType,
    pub name: String,
}

/// A function definition: return type, name, parameters in order, body.
#[derive(Debug)]
pub struct CFunctionStatement {
    pub function_type: CType,
    pub function_name: String,
    pub function_args: Vec<CFunctionArg>,
    pub function_block: CBlockStatement,
}

/// A statement node.
#[derive(Debug)]
pub enum CStatement {
    VariableStatement(CVariableStatement),
    AssignmentStatement(CAssignmentStatement),
    ReturnStatement(CReturnStatement),
    FunctionCallStatement(CFunctionCallStatement),
    BreakStatement,
    BlockStatement(CBlockStatement),
    IfStatement,
    WhileStatement,
    ForStatement,
    DoWhileStatement,
    FunctionStatement(CFunctionStatement),
    IncludeStatement(CIncludeStatement),
    DefineStatement,
    PragmaStatement,
    TypedefStatement,
}

/// A node of the program tree: a statement, an expression, or a list of
/// nodes. The list is used once, for the top level of a translation unit.
#[derive(Debug)]
pub enum CProgramNode {
    CStatement(CStatement),
    CExpression(CExpression),
    CProgram(Vec<CProgramNode>),
}

impl CStatement {
    /// The category of this node.
    pub open spec fn spec_kind(self) -> StatementKind {
        match self {
            CStatement::VariableStatement(_) => StatementKind::Variable,
            CStatement::AssignmentStatement(_) => StatementKind::Assignment,
            CStatement::ReturnStatement(_) => StatementKind::Return,
            CStatement::FunctionCallStatement(_) => StatementKind::FunctionCall,
            CStatement::BreakStatement => StatementKind::Break,
            CStatement::BlockStatement(_) => StatementKind::Block,
            CStatement::IfStatement => StatementKind::If,
            CStatement::WhileStatement => StatementKind::While,
            CStatement::ForStatement => StatementKind::For,
            CStatement::DoWhileStatement => StatementKind::DoWhile,
            CStatement::FunctionStatement(_) => StatementKind::Function,
            CStatement::IncludeStatement(_) => StatementKind::Include,
            CStatement::DefineStatement => StatementKind::Define,
            CStatement::PragmaStatement => StatementKind::Pragma,
            CStatement::TypedefStatement => StatementKind::Typedef,
        }
    }

    /// The category of this node.
    pub fn kind(&self) -> (kind: StatementKind)
        ensures
            kind == self.spec_kind(),
    {
        match self {
            CStatement::VariableStatement(_) => StatementKind::Variable,
            CStatement::AssignmentStatement(_) => StatementKind::Assignment,
            CStatement::ReturnStatement(_) => StatementKind::Return,
            CStatement::FunctionCallStatement(_) => StatementKind::FunctionCall,
            CStatement::BreakStatement => StatementKind::Break,
            CStatement::BlockStatement(_) => StatementKind::Block,
            CStatement::IfStatement => StatementKind::If,
            CStatement::WhileStatement => StatementKind::While,
            CStatement::ForStatement => StatementKind::For,
            CStatement::DoWhileStatement => StatementKind::DoWhile,
            CStatement::FunctionStatement(_) => StatementKind::Function,
            CStatement::IncludeStatement(_) => StatementKind::Include,
            CStatement::DefineStatement => StatementKind::Define,
            CStatement::PragmaStatement => StatementKind::Pragma,
            CStatement::TypedefStatement => StatementKind::Typedef,
        }
    }
}

} // verus!
