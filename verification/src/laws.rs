//! Laws that hold of the rendering as a whole: how the text of a program
//! grows with the tree, what equal types have in common, and that a copy of
//! a tree renders as the tree does.

use vstd::prelude::*;
use crate::error::CodegenError;
use crate::expression::{CExpression, CFunctionCallStatement};
use crate::output::CLibrary;
use crate::render::{
    arguments_text, block_text, call_text, expression_text, function_text, include_text,
    node_text, nodes_text, program_text, statement_text, statements_text, variable_text,
};
use crate::statement::{
    CBlockStatement, CFunctionStatement, CIncludeStatement, CProgramNode, CStatement,
    CVariableStatement,
};
use crate::types::{type_text, CType};

verus! {

/// The text of a prefix of a list depends on the entries of that prefix
/// alone.
pub proof fn lemma_nodes_text_of_prefix(
    nodes: Seq<CProgramNode>,
    longer: Seq<CProgramNode>,
    count: nat,
)
    requires
        count <= nodes.len() <= longer.len(),
        forall|i: int| 0 <= i < count ==> nodes[i] == longer[i],
    ensures
        nodes_text(longer, count) == nodes_text(nodes, count),
    decreases count,
{
    if count > 0 {
        lemma_nodes_text_of_prefix(nodes, longer, (count - 1) as nat);
    }
}

/// Appending an entry to a list appends its text to the text of the list.
/// Where the list could not be rendered before, it fails as before; where
/// the new entry cannot be rendered, the list fails with its error.
pub proof fn law_appended_entry_appends_text(nodes: Seq<CProgramNode>, node: CProgramNode)
    ensures
        nodes_text(nodes.push(node), nodes.len() + 1) == (match nodes_text(nodes, nodes.len()) {
            Err(error) => Err::<Seq<char>, CodegenError>(error),
            Ok(before) => match node_text(node) {
                Err(error) => Err(error),
                Ok(text) => Ok(before + text),
            },
        }),
{
    let grown = nodes.push(node);
    lemma_nodes_text_of_prefix(nodes, grown, nodes.len());
    assert(grown[nodes.len() as int] == node);
}

/// Adding an include to a program appends exactly the text of that include
/// to the text of the program, whatever was included before: nothing is
/// deduplicated.
pub proof fn law_include_appends_its_text(
    before: CProgramNode,
    after: CProgramNode,
    library: CLibrary,
)
    requires
        before matches CProgramNode::CProgram(nodes) && after matches CProgramNode::CProgram(grown)
            && grown@ == nodes@.push(
            CProgramNode::CStatement(CStatement::IncludeStatement(CIncludeStatement { library })),
        ),
    ensures
        program_text(after) == (match program_text(before) {
            Err(error) => Err::<Seq<char>, CodegenError>(error),
            Ok(text) => Ok(text + include_text(library)),
        }),
{
    let nodes = before->CProgram_0@;
    law_appended_entry_appends_text(
        nodes,
        CProgramNode::CStatement(CStatement::IncludeStatement(CIncludeStatement { library })),
    );
}

/// Adding a function definition to a program appends the text of that
/// definition to the text of the program, or fails with the error of the
/// definition.
pub proof fn law_function_appends_its_text(
    before: CProgramNode,
    after: CProgramNode,
    function: CFunctionStatement,
)
    requires
        before matches CProgramNode::CProgram(nodes) && after matches CProgramNode::CProgram(grown)
            && grown@ == nodes@.push(
            CProgramNode::CStatement(CStatement::FunctionStatement(function)),
        ),
    ensures
        program_text(after) == (match program_text(before) {
            Err(error) => Err::<Seq<char>, CodegenError>(error),
            Ok(text) => match function_text(function) {
                Err(error) => Err(error),
                Ok(definition) => Ok(text + definition),
            },
        }),
{
    let nodes = before->CProgram_0@;
    law_appended_entry_appends_text(
        nodes,
        CProgramNode::CStatement(CStatement::FunctionStatement(function)),
    );
}

/// A program whose top-level list is empty renders to the empty text.
pub proof fn law_empty_program_has_empty_text(root: CProgramNode)
    requires
        root matches CProgramNode::CProgram(nodes) && nodes@.len() == 0,
    ensures
        program_text(root) == Ok::<Seq<char>, CodegenError>(Seq::empty()),
{
}

/// Structurally equal types have the same text.
pub proof fn law_equal_types_have_equal_text(a: CType, b: CType)
    requires
        a@ == b@,
    ensures
        type_text(a@) == type_text(b@),
{
}

/// An expression whose type is not known fits every declared type: it is
/// never refused by a type check.
pub proof fn law_unknown_type_fits_any(expr: CExpression, declared: CType)
    requires
        expr.static_type() is None,
    ensures
        expr.fits(declared),
{
}

/// A declaration whose initializer has a known type that differs from the
/// declared type has no text: it is a type mismatch that names both types.
pub proof fn law_mismatched_declaration_is_refused(node: CVariableStatement)
    requires
        node.var_value.static_type() matches Some(found) && found@ != node.var_type@,
    ensures
        variable_text(node) == Err::<Seq<char>, CodegenError>(
            CodegenError::TypeMismatch {
                expected: node.var_type,
                found: node.var_value.static_type()->0,
            },
        ),
{
}

/// Expressions that are the same tree have the same category, the same
/// static type and the same text.
pub proof fn law_same_expressions_render_alike(a: CExpression, b: CExpression)
    requires
        a.same(b),
    ensures
        a.spec_kind() == b.spec_kind(),
        a.static_type() == b.static_type(),
        expression_text(a) == expression_text(b),
    decreases a, 0nat,
{
    match a {
        CExpression::FunctionCallExpression(call) => {
            law_same_calls_render_alike(call, b->FunctionCallExpression_0);
        },
        _ => {},
    }
}

/// Calls that are the same tree have the same text.
pub proof fn law_same_calls_render_alike(a: CFunctionCallStatement, b: CFunctionCallStatement)
    requires
        a.same(b),
    ensures
        call_text(a) == call_text(b),
    decreases a, 0nat,
{
    lemma_same_arguments_render_alike(a.args@, b.args@, a.args@.len());
}

/// Two lists that hold the same expressions, one by one, have the same text
/// over every prefix.
pub proof fn lemma_same_arguments_render_alike(
    a: Seq<CExpression>,
    b: Seq<CExpression>,
    count: nat,
)
    requires
        a.len() == b.len(),
        count <= a.len(),
        forall|i: int| 0 <= i < a.len() ==> (#[trigger] a[i]).same(b[i]),
    ensures
        arguments_text(a, count) == arguments_text(b, count),
    decreases a, count,
{
    if count > 0 {
        lemma_same_arguments_render_alike(a, b, (count - 1) as nat);
        law_same_expressions_render_alike(a[count - 1], b[count - 1]);
    }
}

/// Statements that are the same tree have the same category and the same
/// text.
pub proof fn law_same_statements_render_alike(a: CStatement, b: CStatement)
    requires
        a.same(b),
    ensures
        a.spec_kind() == b.spec_kind(),
        statement_text(a) == statement_text(b),
    decreases a, 0nat,
{
    match a {
        CStatement::VariableStatement(node) => {
            law_same_expressions_render_alike(node.var_value, b->VariableStatement_0.var_value);
        },
        CStatement::AssignmentStatement(node) => {
            law_same_expressions_render_alike(node.var_value, b->AssignmentStatement_0.var_value);
        },
        CStatement::ReturnStatement(node) => {
            law_same_expressions_render_alike(node.value, b->ReturnStatement_0.value);
        },
        CStatement::FunctionCallStatement(call) => {
            law_same_calls_render_alike(call, b->FunctionCallStatement_0);
        },
        CStatement::BlockStatement(node) => {
            law_same_blocks_render_alike(node, b->BlockStatement_0);
        },
        CStatement::FunctionStatement(node) => {
            law_same_blocks_render_alike(
                node.function_block,
                b->FunctionStatement_0.function_block,
            );
        },
        _ => {},
    }
}

/// Blocks that are the same tree have the same text.
pub proof fn law_same_blocks_render_alike(a: CBlockStatement, b: CBlockStatement)
    requires
        a.same(b),
    ensures
        block_text(a) == block_text(b),
    decreases a, 0nat,
{
    lemma_same_statement_lists_render_alike(a.block@, b.block@, a.block@.len());
}

/// Two lists that hold the same statements, one by one, have the same text
/// over every prefix.
pub proof fn lemma_same_statement_lists_render_alike(
    a: Seq<CStatement>,
    b: Seq<CStatement>,
    count: nat,
)
    requires
        a.len() == b.len(),
        count <= a.len(),
        forall|i: int| 0 <= i < a.len() ==> (#[trigger] a[i]).same(b[i]),
    ensures
        statements_text(a, count) == statements_text(b, count),
    decreases a, count,
{
    if count > 0 {
        lemma_same_statement_lists_render_alike(a, b, (count - 1) as nat);
        law_same_statements_render_alike(a[count - 1], b[count - 1]);
    }
}

/// Two top-level lists that hold the same entries, one by one, have the same
/// text over every prefix.
pub proof fn lemma_same_node_lists_render_alike(
    a: Seq<CProgramNode>,
    b: Seq<CProgramNode>,
    count: nat,
)
    requires
        a.len() == b.len(),
        count <= a.len(),
        forall|i: int| 0 <= i < a.len() ==> (#[trigger] a[i]).same(b[i]),
    ensures
        nodes_text(a, count) == nodes_text(b, count),
    decreases count,
{
    if count > 0 {
        lemma_same_node_lists_render_alike(a, b, (count - 1) as nat);
        match a[count - 1] {
            CProgramNode::CStatement(statement) => {
                law_same_statements_render_alike(statement, b[count - 1]->CStatement_0);
            },
            CProgramNode::CExpression(expr) => {
                law_same_expressions_render_alike(expr, b[count - 1]->CExpression_0);
            },
            CProgramNode::CProgram(_) => {},
        }
    }
}

/// Programs that are the same tree render to the same text: a copy of a
/// program renders as the program does.
pub proof fn law_same_programs_render_alike(a: CProgramNode, b: CProgramNode)
    requires
        a.same(b),
    ensures
        program_text(a) == program_text(b),
{
    match a {
        CProgramNode::CProgram(nodes) => {
            lemma_same_node_lists_render_alike(nodes@, b->CProgram_0@, nodes@.len());
        },
        _ => {},
    }
}

} // verus!
