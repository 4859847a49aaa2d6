use jasmine_codegen::codegen::Codegen;
use jasmine_codegen::expression::{
    CArrayExpression, CExpression, CFunctionCallStatement, CNumberExpression, CStringExpression,
};
use jasmine_codegen::output::{CFile, CLibrary};
use jasmine_codegen::statement::{
    CBlockStatement, CFunctionArg, CFunctionStatement, CProgramNode, CReturnStatement, CStatement,
    CVariableStatement,
};
use jasmine_codegen::types::CType;

fn number(value: i32) -> CExpression {
    CExpression::NumberExpression(CNumberExpression::new(value))
}

fn sample_function() -> CFunctionStatement {
    CFunctionStatement {
        function_type: CType::Int,
        function_name: "twice".to_string(),
        function_args: vec![CFunctionArg { arg_type: CType::Int, name: "n".to_string() }],
        function_block: CBlockStatement {
            block: vec![
                CStatement::VariableStatement(CVariableStatement {
                    var_type: CType::Pointer(Box::new(CType::Char)),
                    var_name: "label".to_string(),
                    var_value: CExpression::StringExpression(CStringExpression::new("twice")),
                }),
                CStatement::FunctionCallStatement(CFunctionCallStatement {
                    function: "puts".to_string(),
                    args: vec![CExpression::FunctionCallExpression(CFunctionCallStatement {
                        function: "name".to_string(),
                        args: vec![number(1), number(2)],
                    })],
                }),
                CStatement::ReturnStatement(CReturnStatement { value: number(4) }),
            ],
        },
    }
}

#[test]
fn copy_of_an_expression_has_the_same_type_and_text() {
    let codegen = Codegen::new();
    let call = CExpression::FunctionCallExpression(CFunctionCallStatement {
        function: "f".to_string(),
        args: vec![number(1), CExpression::StringExpression(CStringExpression::new("s"))],
    });
    let copy = call.clone();
    assert_eq!(copy.kind(), call.kind());
    assert_eq!(copy.get_type(), call.get_type());
    assert_eq!(codegen.generate_expression(&copy), Ok("f(1, \"s\")".to_string()));
    assert_eq!(codegen.generate_expression(&copy), codegen.generate_expression(&call));
}

#[test]
fn copy_of_an_array_keeps_elements_and_counters() {
    let mut array = CArrayExpression::new(vec![number(1), number(2)], CType::Int);
    let copy = array.clone();
    assert_eq!(copy.cvalue.len(), 2);
    assert_eq!(copy.length, 2);
    assert_eq!(copy.capacity, 3);
    assert_eq!(copy.ctype, CType::Int);
    assert_eq!(array.push(number(3)), Ok(()));
    assert_eq!(array.length, 3);
    assert_eq!(copy.length, 2);
    assert_eq!(copy.cvalue.len(), 2);
}

#[test]
fn copy_of_a_statement_renders_as_its_source() {
    let codegen = Codegen::new();
    let statement = CStatement::FunctionStatement(sample_function());
    let copy = statement.clone();
    let expected = "\nint twice(int n) {\n    char* label = \"twice\";\n    puts(name(1, 2));\n    return 4;\n}";
    assert_eq!(codegen.generate_statement(&copy), Ok(expected.to_string()));
    assert_eq!(codegen.generate_statement(&statement), Ok(expected.to_string()));
    assert_eq!(copy.kind(), statement.kind());
}

#[test]
fn copy_of_a_failing_statement_fails_alike() {
    let codegen = Codegen::new();
    let statement = CStatement::BlockStatement(CBlockStatement {
        block: vec![
            CStatement::ReturnStatement(CReturnStatement { value: number(1) }),
            CStatement::DoWhileStatement,
        ],
    });
    let copy = statement.clone();
    assert!(codegen.generate_statement(&copy).is_err());
    assert_eq!(codegen.generate_statement(&copy), codegen.generate_statement(&statement));
}

#[test]
fn copy_of_an_engine_renders_alike_and_is_independent() {
    let mut codegen = Codegen::new();
    codegen.add_include_statement(CLibrary::stdio());
    codegen.add_function_statement(sample_function());
    let copy = codegen.clone();
    assert_eq!(copy.generate_code(), codegen.generate_code());
    assert_eq!(copy.c_file.file_name, "main.c");
    assert_eq!(copy.c_file.file_path, ".");
    assert_eq!(copy.c_file.headers.len(), 1);

    codegen.add_include_statement(CLibrary::stdlib());
    assert_eq!(codegen.c_file.headers.len(), 2);
    assert_eq!(copy.c_file.headers.len(), 1);
    assert_ne!(copy.generate_code(), codegen.generate_code());
}

#[test]
fn copy_of_a_program_node_keeps_nested_lists() {
    let node = CProgramNode::CProgram(vec![
        CProgramNode::CExpression(number(7)),
        CProgramNode::CProgram(vec![CProgramNode::CStatement(CStatement::BreakStatement)]),
    ]);
    match node.clone() {
        CProgramNode::CProgram(nodes) => {
            assert_eq!(nodes.len(), 2);
            assert!(matches!(nodes[0], CProgramNode::CExpression(CExpression::NumberExpression(_))));
            match &nodes[1] {
                CProgramNode::CProgram(inner) => {
                    assert_eq!(inner.len(), 1);
                    assert!(matches!(
                        inner[0],
                        CProgramNode::CStatement(CStatement::BreakStatement)
                    ));
                }
                other => panic!("unexpected node {:?}", other),
            }
        }
        other => panic!("unexpected node {:?}", other),
    }
}

#[test]
fn copy_of_a_file_descriptor_keeps_its_headers() {
    let file = CFile::new(
        "a.c".to_string(),
        "out".to_string(),
        vec![CLibrary::stdio(), CLibrary { lib_name: "a.h".to_string(), lib_link: false }],
    );
    let copy = file.clone();
    assert_eq!(copy.file_name, "a.c");
    assert_eq!(copy.file_path, "out");
    assert_eq!(copy.headers.len(), 2);
    assert_eq!(copy.headers[1].lib_name, "a.h");
    assert!(!copy.headers[1].lib_link);
    assert_eq!(copy.get_file_path(), file.get_file_path());
}
