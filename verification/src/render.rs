//! What the emitted C text is: for every node of the tree, the exact text
//! that stands for it, or the error that stops its rendering.

use vstd::prelude::*;
use crate::error::CodegenError;
use crate::expression::{CExpression, CFunctionCallStatement};
use crate::output::CLibrary;
use crate::statement::{
    CAssignmentStatement, CBlockStatement, CFunctionArg, CFunctionStatement, CIncludeStatement,
    CProgramNode, CReturnStatement, CStatement, CVariableStatement,
};
use crate::text::int_text;
use crate::types::type_text;

verus! {

/// One level of indentation: four spaces.
pub open spec fn indent() -> Seq<char> {
    "    "@
}

/// A string literal: the raw characters between double quotes, nothing
/// escaped.
pub open spec fn quoted_text(raw: Seq<char>) -> Seq<char> {
    "\""@ + raw + "\""@
}

/// The text of an expression. Integer, hexadecimal and octal literals are
/// written in decimal; the categories without a textual rule are errors that
/// name the category.
pub open spec fn expression_text(expr: CExpression) -> Result<Seq<char>, CodegenError>
    decreases expr, 0nat,
{
    match expr {
        CExpression::NumberExpression(number) => Ok(int_text(number.cvalue as int)),
        CExpression::HexExpression(number) => Ok(int_text(number.cvalue as int)),
        CExpression::OctalExpression(number) => Ok(int_text(number.cvalue as int)),
        CExpression::StringExpression(string) => Ok(quoted_text(string.cvalue@)),
        CExpression::FunctionCallExpression(call) => call_text(call),
        _ => Err(CodegenError::UnsupportedExpression(expr.spec_kind())),
    }
}

/// The text of a call in expression position: `name(arg, arg)`, with no
/// indentation and no terminator.
pub open spec fn call_text(call: CFunctionCallStatement) -> Result<Seq<char>, CodegenError>
    decreases call, 0nat,
{
    match arguments_text(call.args@, call.args@.len()) {
        Ok(arguments) => Ok(call.function@ + "("@ + arguments + ")"@),
        Err(error) => Err(error),
    }
}

/// The first `count` arguments, each rendered and joined by `", "`; the
/// error of the first argument that cannot be rendered.
pub open spec fn arguments_text(args: Seq<CExpression>, count: nat) -> Result<
    Seq<char>,
    CodegenError,
>
    decreases args, count,
{
    if count == 0 || count > args.len() {
        Ok(Seq::empty())
    } else {
        match arguments_text(args, (count - 1) as nat) {
            Err(error) => Err(error),
            Ok(before) => match expression_text(args[count - 1]) {
                Err(error) => Err(error),
                Ok(text) => Ok(
                    if count == 1 {
                        text
                    } else {
                        before + ", "@ + text
                    },
                ),
            },
        }
    }
}

/// The text of a variable declaration, `    type name = value;` and a
/// newline. An initializer whose known type differs from the declared type is
/// a type mismatch, reported before anything is rendered.
pub open spec fn variable_text(node: CVariableStatement) -> Result<Seq<char>, CodegenError> {
    if !node.var_value.fits(node.var_type) {
        Err(
            CodegenError::TypeMismatch {
                expected: node.var_type,
                found: node.var_value.static_type()->0,
            },
        )
    } else {
        match expression_text(node.var_value) {
            Ok(value) => Ok(
                indent() + type_text(node.var_type@) + " "@ + node.var_name@ + " = "@ + value
                    + ";\n"@,
            ),
            Err(error) => Err(error),
        }
    }
}

/// The text of an assignment, `    name = value;` and a newline.
pub open spec fn assignment_text(node: CAssignmentStatement) -> Result<Seq<char>, CodegenError> {
    match expression_text(node.var_value) {
        Ok(value) => Ok(indent() + node.var_name@ + " = "@ + value + ";\n"@),
        Err(error) => Err(error),
    }
}

/// The text of a return, `    return value;` without a newline.
pub open spec fn return_text(node: CReturnStatement) -> Result<Seq<char>, CodegenError> {
    match expression_text(node.value) {
        Ok(value) => Ok(indent() + "return "@ + value + ";"@),
        Err(error) => Err(error),
    }
}

/// The text of a call in statement position, `    name(arg, arg);` and a
/// newline.
pub open spec fn call_statement_text(call: CFunctionCallStatement) -> Result<
    Seq<char>,
    CodegenError,
> {
    match call_text(call) {
        Ok(text) => Ok(indent() + text + ";\n"@),
        Err(error) => Err(error),
    }
}

/// The text of an include: the header's name in angle brackets for a system
/// header, in double quotes for a local one.
pub open spec fn include_text(library: CLibrary) -> Seq<char> {
    if library.lib_link {
        "#include <"@ + library.lib_name@ + ">"@
    } else {
        "#include \""@ + library.lib_name@ + "\""@
    }
}

/// The text of one parameter: `type name`.
pub open spec fn parameter_text(parameter: CFunctionArg) -> Seq<char> {
    type_text(parameter.arg_type@) + " "@ + parameter.name@
}

/// The first `count` parameters, joined by `", "`.
pub open spec fn parameters_text(parameters: Seq<CFunctionArg>, count: nat) -> Seq<char>
    decreases count,
{
    if count == 0 || count > parameters.len() {
        Seq::empty()
    } else if count == 1 {
        parameter_text(parameters[0])
    } else {
        parameters_text(parameters, (count - 1) as nat) + ", "@ + parameter_text(
            parameters[count - 1],
        )
    }
}

/// The text of a statement, by its category. The categories without a
/// textual rule are errors that name the category.
pub open spec fn statement_text(statement: CStatement) -> Result<Seq<char>, CodegenError>
    decreases statement, 0nat,
{
    match statement {
        CStatement::VariableStatement(node) => variable_text(node),
        CStatement::AssignmentStatement(node) => assignment_text(node),
        CStatement::ReturnStatement(node) => return_text(node),
        CStatement::FunctionCallStatement(call) => call_statement_text(call),
        CStatement::IncludeStatement(node) => Ok(include_text(node.library)),
        CStatement::FunctionStatement(node) => function_text(node),
        CStatement::BlockStatement(node) => block_text(node),
        _ => Err(CodegenError::UnsupportedStatement(statement.spec_kind())),
    }
}

/// The text of a block: the texts of its statements one after the other,
/// with nothing added between them.
pub open spec fn block_text(node: CBlockStatement) -> Result<Seq<char>, CodegenError>
    decreases node, 0nat,
{
    statements_text(node.block@, node.block@.len())
}

/// The texts of the first `count` statements, one after the other; the error
/// of the first statement that cannot be rendered.
pub open spec fn statements_text(statements: Seq<CStatement>, count: nat) -> Result<
    Seq<char>,
    CodegenError,
>
    decreases statements, count,
{
    if count == 0 || count > statements.len() {
        Ok(Seq::empty())
    } else {
        match statements_text(statements, (count - 1) as nat) {
            Err(error) => Err(error),
            Ok(before) => match statement_text(statements[count - 1]) {
                Err(error) => Err(error),
                Ok(text) => Ok(before + text),
            },
        }
    }
}

/// The text of a function definition: an empty line, then
/// `type name(parameters) {`, the body on the following lines, and the
/// closing brace on a line of its own.
pub open spec fn function_text(node: CFunctionStatement) -> Result<Seq<char>, CodegenError>
    decreases node, 0nat,
{
    match block_text(node.function_block) {
        Ok(body) => Ok(
            "\n"@ + type_text(node.function_type@) + " "@ + node.function_name@ + "("@
                + parameters_text(node.function_args@, node.function_args@.len()) + ") {\n"@ + body
                + "\n}"@,
        ),
        Err(error) => Err(error),
    }
}

/// The text of one entry of the top-level list: a statement or an expression
/// by its own rule; a nested list contributes nothing.
pub open spec fn node_text(node: CProgramNode) -> Result<Seq<char>, CodegenError> {
    match node {
        CProgramNode::CStatement(statement) => statement_text(statement),
        CProgramNode::CExpression(expr) => expression_text(expr),
        CProgramNode::CProgram(_) => Ok(Seq::empty()),
    }
}

/// The texts of the first `count` entries of the top-level list, one after
/// the other; the error of the first entry that cannot be rendered.
pub open spec fn nodes_text(nodes: Seq<CProgramNode>, count: nat) -> Result<
    Seq<char>,
    CodegenError,
>
    decreases count,
{
    if count == 0 || count > nodes.len() {
        Ok(Seq::empty())
    } else {
        match nodes_text(nodes, (count - 1) as nat) {
            Err(error) => Err(error),
            Ok(before) => match node_text(nodes[count - 1]) {
                Err(error) => Err(error),
                Ok(text) => Ok(before + text),
            },
        }
    }
}

/// The text of a whole program: the entries of its top-level list in
/// insertion order. A root that is not a list has no text.
pub open spec fn program_text(root: CProgramNode) -> Result<Seq<char>, CodegenError> {
    match root {
        CProgramNode::CProgram(nodes) => nodes_text(nodes@, nodes@.len()),
        _ => Ok(Seq::empty()),
    }
}

/// Once the rendering of a prefix of the arguments has failed, every longer
/// prefix fails with the same error.
pub proof fn lemma_arguments_error_persists(args: Seq<CExpression>, failed: nat, count: nat)
    requires
        failed <= count <= args.len(),
        arguments_text(args, failed) is Err,
    ensures
        arguments_text(args, count) == arguments_text(args, failed),
    decreases count,
{
    if count > failed {
        lemma_arguments_error_persists(args, failed, (count - 1) as nat);
    }
}

/// Once the rendering of a prefix of the statements has failed, every longer
/// prefix fails with the same error.
pub proof fn lemma_statements_error_persists(statements: Seq<CStatement>, failed: nat, count: nat)
    requires
        failed <= count <= statements.len(),
        statements_text(statements, failed) is Err,
    ensures
        statements_text(statements, count) == statements_text(statements, failed),
    decreases count,
{
    if count > failed {
        lemma_statements_error_persists(statements, failed, (count - 1) as nat);
    }
}

/// Once the rendering of a prefix of the top-level list has failed, every
/// longer prefix fails with the same error.
pub proof fn lemma_nodes_error_persists(nodes: Seq<CProgramNode>, failed: nat, count: nat)
    requires
        failed <= count <= nodes.len(),
        nodes_text(nodes, failed) is Err,
    ensures
        nodes_text(nodes, count) == nodes_text(nodes, failed),
    decreases count,
{
    if count > failed {
        lemma_nodes_error_persists(nodes, failed, (count - 1) as nat);
    }
}

/// What an emitted result stands for: the characters of the text, or the
/// error.
pub open spec fn rendered(result: Result<String, CodegenError>) -> Result<
    Seq<char>,
    CodegenError,
> {
    match result {
        Ok(text) => Ok(text@),
        Err(error) => Err(error),
    }
}

} // verus!
