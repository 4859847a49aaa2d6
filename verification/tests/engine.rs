use jasmine_codegen::codegen::Codegen;
use jasmine_codegen::error::{CodegenError, ExpressionKind, StatementKind};
use jasmine_codegen::expression::{
    CExpression, CFunctionCallStatement, CNumberExpression, CStringExpression,
};
use jasmine_codegen::output::{CFile, CLibrary};
use jasmine_codegen::statement::{
    CAssignmentStatement, CBlockStatement, CFunctionStatement, CProgramNode, CReturnStatement,
    CStatement, CVariableStatement,
};
use jasmine_codegen::types::CType;

fn number(value: i32) -> CExpression {
    CExpression::NumberExpression(CNumberExpression::new(value))
}

fn main_function(body: Vec<CStatement>) -> CFunctionStatement {
    CFunctionStatement {
        function_type: CType::Int,
        function_name: "main".to_string(),
        function_args: Vec::new(),
        function_block: CBlockStatement { block: body },
    }
}

fn top_level_len(codegen: &Codegen) -> usize {
    match &codegen.c_program {
        CProgramNode::CProgram(nodes) => nodes.len(),
        other => panic!("the root is not a list: {:?}", other),
    }
}

#[test]
fn new_engine_has_default_descriptor_and_empty_program() {
    let codegen = Codegen::new();
    assert_eq!(codegen.c_file.file_name, "main.c");
    assert_eq!(codegen.c_file.file_path, ".");
    assert!(codegen.c_file.headers.is_empty());
    assert_eq!(top_level_len(&codegen), 0);
    assert_eq!(codegen.c_file.get_file_path(), "./main.c");
}

#[test]
fn empty_program_renders_to_empty_text() {
    let codegen = Codegen::new();
    assert_eq!(codegen.generate_code(), Ok(String::new()));
}

#[test]
fn hello_world_program_renders_exactly() {
    let mut codegen = Codegen::new();
    codegen.add_function_statement(main_function(vec![
        CStatement::VariableStatement(CVariableStatement {
            var_type: CType::Int,
            var_name: "x".to_string(),
            var_value: number(21),
        }),
        CStatement::AssignmentStatement(CAssignmentStatement {
            var_name: "x".to_string(),
            var_value: number(27),
        }),
        CStatement::FunctionCallStatement(CFunctionCallStatement {
            function: "printf".to_string(),
            args: vec![CExpression::StringExpression(CStringExpression::new("Hello, world!\\n"))],
        }),
        CStatement::ReturnStatement(CReturnStatement { value: number(0) }),
    ]));
    let expected = "\nint main() {\n    int x = 21;\n    x = 27;\n    printf(\"Hello, world!\\n\");\n    return 0;\n}";
    assert_eq!(codegen.generate_code(), Ok(expected.to_string()));
}

#[test]
fn include_then_function_render_in_insertion_order() {
    let mut codegen = Codegen::new();
    codegen.add_include_statement(CLibrary::stdio());
    codegen.add_function_statement(main_function(vec![CStatement::ReturnStatement(
        CReturnStatement { value: number(0) },
    )]));
    assert_eq!(
        codegen.generate_code(),
        Ok("#include <stdio.h>\nint main() {\n    return 0;\n}".to_string())
    );
    assert_eq!(top_level_len(&codegen), 2);
}

#[test]
fn add_include_records_the_header() {
    let mut codegen = Codegen::new();
    codegen.add_include_statement(CLibrary::stdlib());
    codegen.add_include_statement(CLibrary { lib_name: "mine.h".to_string(), lib_link: false });
    assert_eq!(codegen.c_file.headers.len(), 2);
    assert_eq!(codegen.c_file.headers[0].lib_name, "stdlib.h");
    assert!(codegen.c_file.headers[0].lib_link);
    assert_eq!(codegen.c_file.headers[1].lib_name, "mine.h");
    assert!(!codegen.c_file.headers[1].lib_link);
    assert_eq!(codegen.c_file.file_name, "main.c");
    assert_eq!(codegen.c_file.file_path, ".");
    assert_eq!(
        codegen.generate_code(),
        Ok("#include <stdlib.h>#include \"mine.h\"".to_string())
    );
}

#[test]
fn repeated_includes_are_not_deduplicated() {
    let mut codegen = Codegen::new();
    codegen.add_include_statement(CLibrary::stdio());
    codegen.add_include_statement(CLibrary::stdio());
    codegen.add_include_statement(CLibrary::stdio());
    assert_eq!(codegen.c_file.headers.len(), 3);
    assert_eq!(top_level_len(&codegen), 3);
    assert_eq!(
        codegen.generate_code(),
        Ok("#include <stdio.h>#include <stdio.h>#include <stdio.h>".to_string())
    );
}

#[test]
fn add_function_leaves_the_descriptor_alone() {
    let mut codegen = Codegen::new();
    codegen.add_function_statement(main_function(Vec::new()));
    assert!(codegen.c_file.headers.is_empty());
    assert_eq!(codegen.c_file.file_name, "main.c");
    assert_eq!(top_level_len(&codegen), 1);
    assert_eq!(codegen.generate_code(), Ok("\nint main() {\n\n}".to_string()));
}

#[test]
fn rendering_twice_gives_the_same_text() {
    let mut codegen = Codegen::new();
    codegen.add_include_statement(CLibrary::stdio());
    codegen.add_function_statement(main_function(Vec::new()));
    let first = codegen.generate_code();
    let second = codegen.generate_code();
    assert!(first.is_ok());
    assert_eq!(first, second);
}

#[test]
fn program_fails_with_the_first_error_in_order() {
    let mut codegen = Codegen::new();
    codegen.add_include_statement(CLibrary::stdio());
    codegen.add_function_statement(main_function(vec![
        CStatement::ReturnStatement(CReturnStatement { value: CExpression::MemberExpression }),
        CStatement::BreakStatement,
    ]));
    codegen.add_function_statement(main_function(vec![CStatement::IfStatement]));
    assert_eq!(
        codegen.generate_code(),
        Err(CodegenError::UnsupportedExpression(ExpressionKind::Member))
    );
}

#[test]
fn program_with_mismatched_declaration_fails_with_the_mismatch() {
    let mut codegen = Codegen::new();
    codegen.add_function_statement(main_function(vec![CStatement::VariableStatement(
        CVariableStatement {
            var_type: CType::Char,
            var_name: "c".to_string(),
            var_value: number(1),
        },
    )]));
    assert_eq!(
        codegen.generate_code(),
        Err(CodegenError::TypeMismatch { expected: CType::Char, found: CType::Int })
    );
}

#[test]
fn top_level_expressions_render_and_nested_lists_are_skipped() {
    let mut codegen = Codegen::new();
    codegen.c_program = CProgramNode::CProgram(vec![
        CProgramNode::CExpression(number(1)),
        CProgramNode::CProgram(vec![CProgramNode::CStatement(CStatement::BreakStatement)]),
        CProgramNode::CStatement(CStatement::ReturnStatement(CReturnStatement {
            value: number(2),
        })),
    ]);
    assert_eq!(codegen.generate_code(), Ok("1    return 2;".to_string()));
}

#[test]
fn top_level_statement_without_a_rule_fails() {
    let mut codegen = Codegen::new();
    codegen.c_program = CProgramNode::CProgram(vec![
        CProgramNode::CStatement(CStatement::PragmaStatement),
    ]);
    assert_eq!(
        codegen.generate_code(),
        Err(CodegenError::UnsupportedStatement(StatementKind::Pragma))
    );
}

#[test]
fn root_that_is_not_a_list_renders_nothing_and_takes_no_entries() {
    let mut codegen = Codegen::new();
    codegen.c_program = CProgramNode::CStatement(CStatement::BreakStatement);
    codegen.add_include_statement(CLibrary::stdio());
    codegen.add_function_statement(main_function(Vec::new()));
    assert!(matches!(codegen.c_program, CProgramNode::CStatement(CStatement::BreakStatement)));
    assert_eq!(codegen.c_file.headers.len(), 1);
    assert_eq!(codegen.generate_code(), Ok(String::new()));
}

#[test]
fn file_path_joins_directory_and_name() {
    let file = CFile::new("out.c".to_string(), "build/gen".to_string(), Vec::new());
    assert_eq!(file.file_name, "out.c");
    assert_eq!(file.file_path, "build/gen");
    assert!(file.headers.is_empty());
    assert_eq!(file.get_file_path(), "build/gen/out.c");
    let bare = CFile::new(String::new(), String::new(), Vec::new());
    assert_eq!(bare.get_file_path(), "/");
}

#[test]
fn standard_headers_are_system_headers() {
    let stdio = CLibrary::stdio();
    assert_eq!(stdio.lib_name, "stdio.h");
    assert!(stdio.lib_link);
    let stdlib = CLibrary::stdlib();
    assert_eq!(stdlib.lib_name, "stdlib.h");
    assert!(stdlib.lib_link);
    let copy = stdio.clone();
    assert_eq!(copy.lib_name, "stdio.h");
    assert!(copy.lib_link);
}

#[test]
fn get_c_file_copies_the_descriptor() {
    let mut codegen = Codegen::new();
    codegen.add_include_statement(CLibrary::stdio());
    codegen.add_include_statement(CLibrary { lib_name: "b.h".to_string(), lib_link: false });
    let file = codegen.get_c_file();
    assert_eq!(file.file_name, "main.c");
    assert_eq!(file.file_path, ".");
    assert_eq!(file.headers.len(), 2);
    assert_eq!(file.headers[0].lib_name, "stdio.h");
    assert!(file.headers[0].lib_link);
    assert_eq!(file.headers[1].lib_name, "b.h");
    assert!(!file.headers[1].lib_link);
    assert_eq!(codegen.c_file.headers.len(), 2);
}
