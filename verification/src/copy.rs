//! Deep copies of the tree. Lists and strings are copied element by element
//! and character by character, so a copy is told from its source by nothing
//! that the library reads: `same` says what that means for each node.

use vstd::prelude::*;
use crate::codegen::Codegen;
use crate::expression::{
    CArrayExpression, CBooleanExpression, CCharExpression, CDecimalExpression, CExpression,
    CFunctionCallStatement, CIdentifierExpression, CNumberExpression, CStringExpression,
};
use crate::statement::{
    CAssignmentStatement, CBlockStatement, CFunctionArg, CFunctionStatement, CIncludeStatement,
    CProgramNode, CReturnStatement, CStatement, CVariableStatement,
};

verus! {

impl Clone for CNumberExpression {
    fn clone(&self) -> (copy: Self)
        ensures
            copy == *self,
    {
        Self { cvalue: self.cvalue }
    }
}

impl Clone for CStringExpression {
    fn clone(&self) -> (copy: Self)
        ensures
            copy == *self,
    {
        Self { cvalue: self.cvalue.clone(), length: self.length }
    }
}

impl Clone for CIdentifierExpression {
    fn clone(&self) -> (copy: Self)
        ensures
            copy == *self,
    {
        Self { cvalue: self.cvalue.clone() }
    }
}

impl Clone for CDecimalExpression {
    fn clone(&self) -> (copy: Self)
        ensures
            copy == *self,
    {
        Self { cvalue: self.cvalue, ctype: self.ctype.clone() }
    }
}

impl Clone for CCharExpression {
    fn clone(&self) -> (copy: Self)
        ensures
            copy == *self,
    {
        Self { cvalue: self.cvalue }
    }
}

impl Clone for CBooleanExpression {
    fn clone(&self) -> (copy: Self)
        ensures
            copy == *self,
    {
        Self { cvalue: self.cvalue }
    }
}

impl CFunctionCallStatement {
    /// Whether `other` is the same call: the same callee and, one by one,
    /// the same arguments.
    pub open spec fn same(self, other: CFunctionCallStatement) -> bool
        decreases self,
    {
        &&& self.function == other.function
        &&& self.args@.len() == other.args@.len()
        &&& forall|i: int|
            0 <= i < self.args@.len() ==> (#[trigger] self.args@[i]).same(other.args@[i])
    }
}

impl CArrayExpression {
    /// Whether `other` is the same array literal: the same element type and
    /// counters and, one by one, the same elements.
    pub open spec fn same(self, other: CArrayExpression) -> bool
        decreases self,
    {
        &&& self.ctype == other.ctype
        &&& self.length == other.length
        &&& self.capacity == other.capacity
        &&& self.cvalue@.len() == other.cvalue@.len()
        &&& forall|i: int|
            0 <= i < self.cvalue@.len() ==> (#[trigger] self.cvalue@[i]).same(other.cvalue@[i])
    }
}

impl CExpression {
    /// Whether `other` is the same tree as this expression: the same
    /// category, equal in every field, with lists compared element by
    /// element.
    pub open spec fn same(self, other: CExpression) -> bool
        decreases self,
    {
        match self {
            CExpression::ArrayExpression(array) => other matches CExpression::ArrayExpression(
                twin,
            ) && array.same(twin),
            CExpression::FunctionCallExpression(call) => other
                matches CExpression::FunctionCallExpression(twin) && call.same(twin),
            _ => other == self,
        }
    }
}

/// Copies a list of expressions, element by element.
fn clone_expressions(source: &Vec<CExpression>) -> (copy: Vec<CExpression>)
    ensures
        copy@.len() == source@.len(),
        forall|i: int| 0 <= i < source@.len() ==> (#[trigger] source@[i]).same(copy@[i]),
    decreases source,
{
    let mut copy: Vec<CExpression> = Vec::new();
    let mut i: usize = 0;
    while i < source.len()
        invariant
            i <= source.len(),
            copy@.len() == i,
            forall|k: int| 0 <= k < i ==> (#[trigger] source@[k]).same(copy@[k]),
        decreases source.len() - i,
    {
        copy.push(source[i].clone());
        i = i + 1;
    }
    copy
}

impl Clone for CFunctionCallStatement {
    fn clone(&self) -> (copy: Self)
        ensures
            self.same(copy),
        decreases self,
    {
        CFunctionCallStatement {
            function: self.function.clone(),
            args: clone_expressions(&self.args),
        }
    }
}

impl Clone for CArrayExpression {
    fn clone(&self) -> (copy: Self)
        ensures
            self.same(copy),
        decreases self,
    {
        CArrayExpression {
            cvalue: clone_expressions(&self.cvalue),
            ctype: self.ctype.clone(),
            length: self.length,
            capacity: self.capacity,
        }
    }
}

impl Clone for CExpression {
    fn clone(&self) -> (copy: Self)
        ensures
            self.same(copy),
        decreases self,
    {
        match self {
            CExpression::NumberExpression(number) => CExpression::NumberExpression(number.clone()),
            CExpression::StringExpression(string) => CExpression::StringExpression(string.clone()),
            CExpression::IdentifierExpression(identifier) => CExpression::IdentifierExpression(
                identifier.clone(),
            ),
            CExpression::DecimalExpression(decimal) => CExpression::DecimalExpression(
                decimal.clone(),
            ),
            CExpression::ArrayExpression(array) => CExpression::ArrayExpression(array.clone()),
            CExpression::CharExpression(character) => CExpression::CharExpression(
                character.clone(),
            ),
            CExpression::BooleanExpression(boolean) => CExpression::BooleanExpression(
                boolean.clone(),
            ),
            CExpression::HexExpression(number) => CExpression::HexExpression(number.clone()),
            CExpression::OctalExpression(number) => CExpression::OctalExpression(number.clone()),
            CExpression::TernaryExpression => CExpression::TernaryExpression,
            CExpression::CastExpression => CExpression::CastExpression,
            CExpression::StructExpression => CExpression::StructExpression,
            CExpression::BinaryExpression => CExpression::BinaryExpression,
            CExpression::LogicalExpression => CExpression::LogicalExpression,
            CExpression::MemberExpression => CExpression::MemberExpression,
            CExpression::IndexExpression => CExpression::IndexExpression,
            CExpression::PointerExpression => CExpression::PointerExpression,
            CExpression::FunctionCallExpression(call) => CExpression::FunctionCallExpression(
                call.clone(),
            ),
        }
    }
}

impl Clone for CFunctionArg {
    fn clone(&self) -> (copy: Self)
        ensures
            copy == *self,
    {
        CFunctionArg { arg_type: self.arg_type.clone(), name: self.name.clone() }
    }
}

impl Clone for CIncludeStatement {
    fn clone(&self) -> (copy: Self)
        ensures
            copy == *self,
    {
        CIncludeStatement { library: self.library.clone() }
    }
}

impl CVariableStatement {
    /// Whether `other` is the same declaration: the same type and name, and
    /// the same initializer.
    pub open spec fn same(self, other: CVariableStatement) -> bool {
        &&& self.var_type == other.var_type
        &&& self.var_name == other.var_name
        &&& self.var_value.same(other.var_value)
    }
}

impl CAssignmentStatement {
    /// Whether `other` is the same assignment: the same name and the same
    /// value.
    pub open spec fn same(self, other: CAssignmentStatement) -> bool {
        &&& self.var_name == other.var_name
        &&& self.var_value.same(other.var_value)
    }
}

impl CReturnStatement {
    /// Whether `other` returns the same value.
    pub open spec fn same(self, other: CReturnStatement) -> bool {
        self.value.same(other.value)
    }
}

impl CBlockStatement {
    /// Whether `other` is the same block: one by one, the same statements.
    pub open spec fn same(self, other: CBlockStatement) -> bool
        decreases self,
    {
        &&& self.block@.len() == other.block@.len()
        &&& forall|i: int|
            0 <= i < self.block@.len() ==> (#[trigger] self.block@[i]).same(other.block@[i])
    }
}

impl CFunctionStatement {
    /// Whether `other` is the same definition: the same return type, name
    /// and parameters, and the same body.
    pub open spec fn same(self, other: CFunctionStatement) -> bool
        decreases self,
    {
        &&& self.function_type == other.function_type
        &&& self.function_name == other.function_name
        &&& self.function_args@ == other.function_args@
        &&& self.function_block.same(other.function_block)
    }
}

impl CStatement {
    /// Whether `other` is the same tree as this statement: the same
    /// category, equal in every field, with lists compared element by
    /// element.
    pub open spec fn same(self, other: CStatement) -> bool
        decreases self,
    {
        match self {
            CStatement::VariableStatement(node) => other matches CStatement::VariableStatement(
                twin,
            ) && node.same(twin),
            CStatement::AssignmentStatement(node) => other matches CStatement::AssignmentStatement(
                twin,
            ) && node.same(twin),
            CStatement::ReturnStatement(node) => other matches CStatement::ReturnStatement(twin)
                && node.same(twin),
            CStatement::FunctionCallStatement(call) => other
                matches CStatement::FunctionCallStatement(twin) && call.same(twin),
            CStatement::BlockStatement(node) => other matches CStatement::BlockStatement(twin)
                && node.same(twin),
            CStatement::FunctionStatement(node) => other matches CStatement::FunctionStatement(
                twin,
            ) && node.same(twin),
            _ => other == self,
        }
    }
}

impl CProgramNode {
    /// Whether `other` is the same tree as this node.
    pub open spec fn same(self, other: CProgramNode) -> bool
        decreases self,
    {
        match self {
            CProgramNode::CStatement(statement) => other matches CProgramNode::CStatement(twin)
                && statement.same(twin),
            CProgramNode::CExpression(expr) => other matches CProgramNode::CExpression(twin)
                && expr.same(twin),
            CProgramNode::CProgram(nodes) => other matches CProgramNode::CProgram(twins)
                && nodes@.len() == twins@.len() && forall|i: int|
                0 <= i < nodes@.len() ==> (#[trigger] nodes@[i]).same(twins@[i]),
        }
    }
}

impl Clone for CVariableStatement {
    fn clone(&self) -> (copy: Self)
        ensures
            self.same(copy),
    {
        CVariableStatement {
            var_type: self.var_type.clone(),
            var_name: self.var_name.clone(),
            var_value: self.var_value.clone(),
        }
    }
}

impl Clone for CAssignmentStatement {
    fn clone(&self) -> (copy: Self)
        ensures
            self.same(copy),
    {
        CAssignmentStatement {
            var_name: self.var_name.clone(),
            var_value: self.var_value.clone(),
        }
    }
}

impl Clone for CReturnStatement {
    fn clone(&self) -> (copy: Self)
        ensures
            self.same(copy),
    {
        CReturnStatement { value: self.value.clone() }
    }
}

impl Clone for CBlockStatement {
    fn clone(&self) -> (copy: Self)
        ensures
            self.same(copy),
        decreases self,
    {
        let mut block: Vec<CStatement> = Vec::new();
        let mut i: usize = 0;
        while i < self.block.len()
            invariant
                i <= self.block.len(),
                block@.len() == i,
                forall|k: int| 0 <= k < i ==> (#[trigger] self.block@[k]).same(block@[k]),
            decreases self.block.len() - i,
        {
            block.push(self.block[i].clone());
            i = i + 1;
        }
        CBlockStatement { block }
    }
}

impl Clone for CFunctionStatement {
    fn clone(&self) -> (copy: Self)
        ensures
            self.same(copy),
        decreases self,
    {
        let function_args = self.function_args.clone();
        assert(function_args@ =~= self.function_args@);
        CFunctionStatement {
            function_type: self.function_type.clone(),
            function_name: self.function_name.clone(),
            function_args,
            function_block: self.function_block.clone(),
        }
    }
}

impl Clone for CStatement {
    fn clone(&self) -> (copy: Self)
        ensures
            self.same(copy),
        decreases self,
    {
        match self {
            CStatement::VariableStatement(node) => CStatement::VariableStatement(node.clone()),
            CStatement::AssignmentStatement(node) => CStatement::AssignmentStatement(node.clone()),
            CStatement::ReturnStatement(node) => CStatement::ReturnStatement(node.clone()),
            CStatement::FunctionCallStatement(call) => CStatement::FunctionCallStatement(
                call.clone(),
            ),
            CStatement::BreakStatement => CStatement::BreakStatement,
            CStatement::BlockStatement(node) => CStatement::BlockStatement(node.clone()),
            CStatement::IfStatement => CStatement::IfStatement,
            CStatement::WhileStatement => CStatement::WhileStatement,
            CStatement::ForStatement => CStatement::ForStatement,
            CStatement::DoWhileStatement => CStatement::DoWhileStatement,
            CStatement::FunctionStatement(node) => CStatement::FunctionStatement(node.clone()),
            CStatement::IncludeStatement(node) => CStatement::IncludeStatement(node.clone()),
            CStatement::DefineStatement => CStatement::DefineStatement,
            CStatement::PragmaStatement => CStatement::PragmaStatement,
            CStatement::TypedefStatement => CStatement::TypedefStatement,
        }
    }
}

/// Copies a list of program nodes, element by element.
fn clone_nodes(source: &Vec<CProgramNode>) -> (copy: Vec<CProgramNode>)
    ensures
        copy@.len() == source@.len(),
        forall|i: int| 0 <= i < source@.len() ==> (#[trigger] source@[i]).same(copy@[i]),
    decreases source,
{
    let mut copy: Vec<CProgramNode> = Vec::new();
    let mut i: usize = 0;
    while i < source.len()
        invariant
            i <= source.len(),
            copy@.len() == i,
            forall|k: int| 0 <= k < i ==> (#[trigger] source@[k]).same(copy@[k]),
        decreases source.len() - i,
    {
        copy.push(source[i].clone());
        i = i + 1;
    }
    copy
}

impl Clone for CProgramNode {
    fn clone(&self) -> (copy: Self)
        ensures
            self.same(copy),
        decreases self,
    {
        match self {
            CProgramNode::CStatement(statement) => CProgramNode::CStatement(statement.clone()),
            CProgramNode::CExpression(expr) => CProgramNode::CExpression(expr.clone()),
            CProgramNode::CProgram(nodes) => CProgramNode::CProgram(clone_nodes(nodes)),
        }
    }
}

impl Clone for Codegen {
    /// A copy of the engine: the same descriptor and the same tree.
    fn clone(&self) -> (copy: Self)
        ensures
            copy.c_file.file_name == self.c_file.file_name,
            copy.c_file.file_path == self.c_file.file_path,
            copy.c_file.headers@ == self.c_file.headers@,
            self.c_program.same(copy.c_program),
    {
        Codegen { c_file: self.c_file.clone(), c_program: self.c_program.clone() }
    }
}

} // verus!
