//! The emission engine: it owns the top-level list of a translation unit and
//! the descriptor of the file it is written to, and renders the tree to C
//! source text.

use vstd::prelude::*;
use vstd::string::StringExecFns;
use crate::error::CodegenError;
use crate::expression::{CExpression, CFunctionCallStatement, CNumberExpression, CStringExpression};
use crate::output::{CFile, CLibrary};
use crate::render::{
    arguments_text, assignment_text, block_text, call_statement_text, call_text, expression_text,
    function_text, include_text, lemma_arguments_error_persists, lemma_nodes_error_persists,
    lemma_statements_error_persists, nodes_text, parameter_text, parameters_text, program_text,
    quoted_text, rendered, return_text, statement_text, statements_text, variable_text,
};
use crate::statement::{
    CAssignmentStatement, CBlockStatement, CFunctionArg, CFunctionStatement, CIncludeStatement,
    CProgramNode, CReturnStatement, CStatement, CVariableStatement,
};
use crate::text::{int_text, int_to_string};

verus! {

impl CFunctionArg {
    /// Renders the parameter as `type name`.
    pub fn to_string(&self) -> (text: String)
        ensures
            text@ == parameter_text(*self),
    {
        let mut text = self.arg_type.to_string();
        text.append(" ");
        text.append(self.name.as_str());
        text
    }
}

/// The emission engine for one translation unit.
#[derive(Debug)]
pub struct Codegen {
    pub c_file: CFile,
    pub c_program: CProgramNode,
}

impl Codegen {
    /// An engine with an empty top-level list, writing to `main.c` in the
    /// current directory, with no headers recorded.
    pub fn new() -> (codegen: Self)
        ensures
            codegen.c_file.file_name@ == "main.c"@,
            codegen.c_file.file_path@ == "."@,
            codegen.c_file.headers@ == Seq::<CLibrary>::empty(),
            codegen.c_program matches CProgramNode::CProgram(nodes) && nodes@
                == Seq::<CProgramNode>::empty(),
    {
        let c_program: CProgramNode = CProgramNode::CProgram(Vec::new());
        Self {
            c_file: CFile::new(String::from_str("main.c"), String::from_str("."), Vec::new()),
            c_program,
        }
    }

    /// Appends an include of `library` to the top-level list and records the
    /// header in the file descriptor. Nothing is deduplicated.
    pub fn add_include_statement(&mut self, library: CLibrary)
        ensures
            final(self).c_file.file_name == old(self).c_file.file_name,
            final(self).c_file.file_path == old(self).c_file.file_path,
            final(self).c_file.headers@ == old(self).c_file.headers@.push(library),
            (match old(self).c_program {
                CProgramNode::CProgram(nodes) => final(self).c_program matches CProgramNode::CProgram(
                    grown,
                ) && grown@ == nodes@.push(
                    CProgramNode::CStatement(
                        CStatement::IncludeStatement(CIncludeStatement { library }),
                    ),
                ),
                _ => final(self).c_program == old(self).c_program,
            }),
    {
        match &mut self.c_program {
            CProgramNode::CProgram(program) => {
                program.push(
                    CProgramNode::CStatement(
                        CStatement::IncludeStatement(CIncludeStatement { library: library.clone() }),
                    ),
                );
            },
            _ => {},
        }
        self.c_file.headers.push(library);
    }

    /// Appends a function definition to the top-level list.
    pub fn add_function_statement(&mut self, function: CFunctionStatement)
        ensures
            final(self).c_file == old(self).c_file,
            (match old(self).c_program {
                CProgramNode::CProgram(nodes) => final(self).c_program matches CProgramNode::CProgram(
                    grown,
                ) && grown@ == nodes@.push(
                    CProgramNode::CStatement(CStatement::FunctionStatement(function)),
                ),
                _ => final(self).c_program == old(self).c_program,
            }),
    {
        match &mut self.c_program {
            CProgramNode::CProgram(program) => {
                program.push(CProgramNode::CStatement(CStatement::FunctionStatement(function)));
            },
            _ => {},
        }
    }

    /// Renders the whole program: every entry of the top-level list in
    /// insertion order, or the error of the first entry that cannot be
    /// rendered.
    pub fn generate_code(&self) -> (code: Result<String, CodegenError>)
        ensures
            rendered(code) == program_text(self.c_program),
    {
        let mut code = String::new();
        match &self.c_program {
            CProgramNode::CProgram(program) => {
                let mut i: usize = 0;
                while i < program.len()
                    invariant
                        self.c_program == CProgramNode::CProgram(*program),
                        i <= program.len(),
                        nodes_text(program@, i as nat) == Ok::<Seq<char>, CodegenError>(code@),
                    decreases program.len() - i,
                {
                    let piece = match &program[i] {
                        CProgramNode::CStatement(statement) => self.generate_statement(statement),
                        CProgramNode::CExpression(expression) => self.generate_expression(
                            expression,
                        ),
                        CProgramNode::CProgram(_) => Ok(String::new()),
                    };
                    match piece {
                        Ok(text) => {
                            code.append(text.as_str());
                        },
                        Err(error) => {
                            proof {
                                lemma_nodes_error_persists(
                                    program@,
                                    (i + 1) as nat,
                                    program@.len(),
                                );
                            }
                            return Err(error);
                        },
                    }
                    i = i + 1;
                }
            },
            _ => {},
        }
        Ok(code)
    }

    /// Renders one statement by its category.
    pub fn generate_statement(&self, node: &CStatement) -> (code: Result<String, CodegenError>)
        ensures
            rendered(code) == statement_text(*node),
        decreases node, 0nat,
    {
        match node {
            CStatement::VariableStatement(stmt) => self.generate_c_variable_statement(stmt),
            CStatement::AssignmentStatement(stmt) => self.generate_c_assignment_statement(stmt),
            CStatement::ReturnStatement(stmt) => self.generate_c_return_statement(stmt),
            CStatement::FunctionCallStatement(expr) => self.generate_c_function_call_statement(
                expr,
            ),
            CStatement::IncludeStatement(stmt) => Ok(self.generate_include_statement(stmt)),
            CStatement::FunctionStatement(stmt) => self.generate_function_statement(stmt),
            CStatement::BlockStatement(stmt) => self.generate_block_statement(stmt),
            _ => Err(CodegenError::UnsupportedStatement(node.kind())),
        }
    }

    /// Renders one expression by its category.
    pub fn generate_expression(&self, node: &CExpression) -> (code: Result<String, CodegenError>)
        ensures
            rendered(code) == expression_text(*node),
        decreases node, 0nat,
    {
        match node {
            CExpression::NumberExpression(expr) => Ok(self.generate_c_number_expression(expr)),
            CExpression::StringExpression(expr) => Ok(self.generate_c_string_expression(expr)),
            CExpression::HexExpression(expr) => Ok(self.generate_c_number_expression(expr)),
            CExpression::OctalExpression(expr) => Ok(self.generate_c_number_expression(expr)),
            CExpression::FunctionCallExpression(expr) => self.generate_c_function_call_expression(
                expr,
            ),
            _ => Err(CodegenError::UnsupportedExpression(node.kind())),
        }
    }

    /// Renders an integer literal in decimal.
    pub fn generate_c_number_expression(&self, expr: &CNumberExpression) -> (code: String)
        ensures
            code@ == int_text(expr.cvalue as int),
    {
        int_to_string(expr.cvalue)
    }

    /// Renders a string literal between double quotes, with nothing escaped.
    pub fn generate_c_string_expression(&self, expr: &CStringExpression) -> (code: String)
        ensures
            code@ == quoted_text(expr.cvalue@),
    {
        let mut code = String::from_str("\"");
        code.append(expr.cvalue.as_str());
        code.append("\"");
        code
    }

    /// Renders a variable declaration after checking its initializer against
    /// the declared type.
    pub fn generate_c_variable_statement(&self, node: &CVariableStatement) -> (code: Result<
        String,
        CodegenError,
    >)
        ensures
            rendered(code) == variable_text(*node),
    {
        match node.var_value.check_type(&node.var_type) {
            Ok(()) => {},
            Err(mismatch) => {
                return Err(mismatch);
            },
        }
        let value = match self.generate_expression(&node.var_value) {
            Ok(value) => value,
            Err(error) => {
                return Err(error);
            },
        };
        let declared = node.var_type.to_string();
        let mut code = String::from_str("    ");
        code.append(declared.as_str());
        code.append(" ");
        code.append(node.var_name.as_str());
        code.append(" = ");
        code.append(value.as_str());
        code.append(";\n");
        Ok(code)
    }

    /// Renders an assignment.
    pub fn generate_c_assignment_statement(&self, node: &CAssignmentStatement) -> (code: Result<
        String,
        CodegenError,
    >)
        ensures
            rendered(code) == assignment_text(*node),
    {
        let value = match self.generate_expression(&node.var_value) {
            Ok(value) => value,
            Err(error) => {
                return Err(error);
            },
        };
        let mut code = String::from_str("    ");
        code.append(node.var_name.as_str());
        code.append(" = ");
        code.append(value.as_str());
        code.append(";\n");
        Ok(code)
    }

    /// Renders a return statement.
    pub fn generate_c_return_statement(&self, node: &CReturnStatement) -> (code: Result<
        String,
        CodegenError,
    >)
        ensures
            rendered(code) == return_text(*node),
    {
        let value = match self.generate_expression(&node.value) {
            Ok(value) => value,
            Err(error) => {
                return Err(error);
            },
        };
        let mut code = String::from_str("    ");
        code.append("return ");
        code.append(value.as_str());
        code.append(";");
        Ok(code)
    }

    /// Renders the arguments of a call, joined by `", "`.
    fn generate_arguments(&self, args: &Vec<CExpression>) -> (code: Result<String, CodegenError>)
        ensures
            rendered(code) == arguments_text(args@, args@.len()),
        decreases args, 0nat,
    {
        let mut code = String::new();
        let mut i: usize = 0;
        while i < args.len()
            invariant
                i <= args.len(),
                arguments_text(args@, i as nat) == Ok::<Seq<char>, CodegenError>(code@),
                i == 0 ==> code@ == Seq::<char>::empty(),
            decreases args.len() - i,
        {
            match self.generate_expression(&args[i]) {
                Ok(text) => {
                    if i > 0 {
                        code.append(", ");
                    }
                    code.append(text.as_str());
                },
                Err(error) => {
                    proof {
                        lemma_arguments_error_persists(args@, (i + 1) as nat, args@.len());
                    }
                    return Err(error);
                },
            }
            i = i + 1;
        }
        Ok(code)
    }

    /// Renders a call in expression position: `name(arg, arg)`.
    pub fn generate_c_function_call_expression(&self, expr: &CFunctionCallStatement) -> (code:
        Result<String, CodegenError>)
        ensures
            rendered(code) == call_text(*expr),
        decreases expr, 0nat,
    {
        let arguments = match self.generate_arguments(&expr.args) {
            Ok(arguments) => arguments,
            Err(error) => {
                return Err(error);
            },
        };
        let mut code = expr.function.clone();
        code.append("(");
        code.append(arguments.as_str());
        code.append(")");
        Ok(code)
    }

    /// Renders a call in statement position: indented, and closed by a
    /// semicolon and a newline.
    pub fn generate_c_function_call_statement(&self, expr: &CFunctionCallStatement) -> (code:
        Result<String, CodegenError>)
        ensures
            rendered(code) == call_statement_text(*expr),
        decreases expr, 1nat,
    {
        let call = match self.generate_c_function_call_expression(expr) {
            Ok(call) => call,
            Err(error) => {
                return Err(error);
            },
        };
        let mut code = String::from_str("    ");
        code.append(call.as_str());
        code.append(";\n");
        Ok(code)
    }

    /// Renders an include: angle brackets for a system header, double quotes
    /// for a local one.
    pub fn generate_include_statement(&self, node: &CIncludeStatement) -> (code: String)
        ensures
            code@ == include_text(node.library),
    {
        let library = &node.library;
        if library.lib_link {
            let mut code = String::from_str("#include <");
            code.append(library.lib_name.as_str());
            code.append(">");
            code
        } else {
            let mut code = String::from_str("#include \"");
            code.append(library.lib_name.as_str());
            code.append("\"");
            code
        }
    }

    /// Renders a block: its statements one after the other.
    pub fn generate_block_statement(&self, block_node: &CBlockStatement) -> (code: Result<
        String,
        CodegenError,
    >)
        ensures
            rendered(code) == block_text(*block_node),
        decreases block_node, 0nat,
    {
        let mut code = String::new();
        let mut i: usize = 0;
        while i < block_node.block.len()
            invariant
                i <= block_node.block.len(),
                statements_text(block_node.block@, i as nat) == Ok::<Seq<char>, CodegenError>(
                    code@,
                ),
            decreases block_node.block.len() - i,
        {
            match self.generate_statement(&block_node.block[i]) {
                Ok(text) => {
                    code.append(text.as_str());
                },
                Err(error) => {
                    proof {
                        lemma_statements_error_persists(
                            block_node.block@,
                            (i + 1) as nat,
                            block_node.block@.len(),
                        );
                    }
                    return Err(error);
                },
            }
            i = i + 1;
        }
        Ok(code)
    }

    /// Renders the parameters of a function definition, joined by `", "`.
    fn generate_parameters(&self, parameters: &Vec<CFunctionArg>) -> (code: String)
        ensures
            code@ == parameters_text(parameters@, parameters@.len()),
    {
        let mut code = String::new();
        let mut i: usize = 0;
        while i < parameters.len()
            invariant
                i <= parameters.len(),
                code@ == parameters_text(parameters@, i as nat),
            decreases parameters.len() - i,
        {
            let text = parameters[i].to_string();
            if i > 0 {
                code.append(", ");
            }
            code.append(text.as_str());
            i = i + 1;
        }
        code
    }

    /// Renders a function definition.
    pub fn generate_function_statement(&self, node: &CFunctionStatement) -> (code: Result<
        String,
        CodegenError,
    >)
        ensures
            rendered(code) == function_text(*node),
        decreases node, 0nat,
    {
        let return_type = node.function_type.to_string();
        let parameters = self.generate_parameters(&node.function_args);
        let body = match self.generate_block_statement(&node.function_block) {
            Ok(body) => body,
            Err(error) => {
                return Err(error);
            },
        };
        let mut code = String::from_str("\n");
        code.append(return_type.as_str());
        code.append(" ");
        code.append(node.function_name.as_str());
        code.append("(");
        code.append(parameters.as_str());
        code.append(") {\n");
        code.append(body.as_str());
        code.append("\n}");
        Ok(code)
    }

    /// A copy of the descriptor of the generated file.
    pub fn get_c_file(&self) -> (file: CFile)
        ensures
            file.file_name == self.c_file.file_name,
            file.file_path == self.c_file.file_path,
            file.headers@ == self.c_file.headers@,
    {
        self.c_file.clone()
    }
}

} // verus!
