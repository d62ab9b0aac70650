use cwscript::codegen::structures;
use cwscript::compiler;
use cwscript::parser;

#[test]
fn test_simple_function_compiling() {
    let input = parser::Program {
        link_statements: vec![],
        main_block: vec![parser::Item::FunctionDeclaration(parser::FunctionDeclaration {
            name: "add".to_string(),
            parameters: vec![
                parser::Expression::Identifier("a".to_string()),
                parser::Expression::Identifier("b".to_string()),
            ],
            body: vec![parser::Statement::Expression {
                expr: parser::Expression::Call {
                    function: Box::new(parser::Expression::CWScriptBlockID("0".to_string())),
                    arguments: vec![
                        parser::Expression::Literal(parser::Literal::RawString("".to_string())),
                        parser::Expression::Literal(parser::Literal::String(
                            "Hello, World!".to_string(),
                        )),
                    ],
                },
            }],
        })],
    };

    let mut compiler = compiler::Compiler::new(input);

    let structure_res = compiler.compile().unwrap();

    let expected_structure = structures::Program {
        main_block: vec![structures::Item::FunctionDeclaration {
            name: "add".to_string(),
            parameters: vec![
                structures::Variable {
                    name: "a".to_string(),
                },
                structures::Variable {
                    name: "b".to_string(),
                },
            ],
            body: vec![structures::Statement {
                dependencies: vec![structures::Call::CWScriptBlockCall {
                    dependencies: vec![],
                    block_id: structures::CWScriptBlockID {
                        id: "0".to_string(),
                    },
                    arguments: vec![
                        structures::Argument::RawString("".to_string()),
                        structures::Argument::Literal(structures::Literal {
                            value: "Hello, World!".to_string(),
                        }),
                    ],
                    return_var: None,
                }],
                content: vec![],
            }],
        }],
    };

    assert_eq!(expected_structure, structure_res);
}

#[test]
fn export_as_renames_the_generated_function() {
    let input = parser::Program {
        link_statements: vec![],
        main_block: vec![
            parser::Item::Attribute(parser::Attribute::ExportAs("c".to_string())),
            parser::Item::FunctionDeclaration(parser::FunctionDeclaration {
                name: "add".to_string(),
                parameters: vec![],
                body: vec![],
            }),
        ],
    };
    let mut compiler = compiler::Compiler::new(input);
    let program = compiler.compile().unwrap();
    assert_eq!(
        program.main_block,
        vec![structures::Item::FunctionDeclaration {
            name: "c".to_string(),
            parameters: vec![],
            body: vec![],
        }]
    );
}

#[test]
fn last_pending_export_as_wins() {
    let input = parser::Program {
        link_statements: vec![],
        main_block: vec![
            parser::Item::Attribute(parser::Attribute::ExportAs("first".to_string())),
            parser::Item::Attribute(parser::Attribute::Inline),
            parser::Item::Attribute(parser::Attribute::ExportAs("second".to_string())),
            parser::Item::FunctionDeclaration(parser::FunctionDeclaration {
                name: "declared".to_string(),
                parameters: vec![],
                body: vec![],
            }),
        ],
    };
    let mut compiler = compiler::Compiler::new(input);
    let program = compiler.compile().unwrap();
    match &program.main_block[0] {
        structures::Item::FunctionDeclaration { name, .. } => assert_eq!(name, "second"),
        other => panic!("expected a function declaration, got {:?}", other),
    }
}

#[test]
fn dangling_attribute_is_dropped() {
    let input = parser::Program {
        link_statements: vec![],
        main_block: vec![
            parser::Item::FunctionDeclaration(parser::FunctionDeclaration {
                name: "f".to_string(),
                parameters: vec![],
                body: vec![],
            }),
            parser::Item::Attribute(parser::Attribute::ExportAs("ghost_name".to_string())),
        ],
    };
    let mut compiler = compiler::Compiler::new(input);
    let program = compiler.compile().unwrap();
    assert_eq!(
        program.main_block,
        vec![structures::Item::FunctionDeclaration {
            name: "f".to_string(),
            parameters: vec![],
            body: vec![],
        }]
    );
}

#[test]
fn binary_operation_lowers_to_operator_call() {
    let input = parser::Program {
        link_statements: vec![],
        main_block: vec![parser::Item::FunctionDeclaration(parser::FunctionDeclaration {
            name: "f".to_string(),
            parameters: vec![],
            body: vec![parser::Statement::Expression {
                expr: parser::Expression::BinOperation {
                    lhs: Box::new(parser::Expression::Identifier("x".to_string())),
                    op: parser::BinOperator::Addition,
                    rhs: Box::new(parser::Expression::Literal(parser::Literal::Integer(
                        "2".to_string(),
                    ))),
                },
            }],
        })],
    };
    let mut compiler = compiler::Compiler::new(input);
    let program = compiler.compile().unwrap();
    let expected_statement = structures::Statement {
        dependencies: vec![structures::Call::FunctionCall {
            dependencies: vec![],
            function_name: structures::Variable {
                name: "add".to_string(),
            },
            arguments: vec![
                structures::Argument::Identifier(structures::Variable {
                    name: "x".to_string(),
                }),
                structures::Argument::Literal(structures::Literal {
                    value: "2".to_string(),
                }),
            ],
            return_var: None,
        }],
        content: vec![],
    };
    match &program.main_block[0] {
        structures::Item::FunctionDeclaration { body, .. } => {
            assert_eq!(body, &vec![expected_statement])
        }
        other => panic!("expected a function declaration, got {:?}", other),
    }
}

#[test]
fn boolean_literals_stringify() {
    let mut compiler = compiler::Compiler::new(parser::Program {
        link_statements: vec![],
        main_block: vec![],
    });
    let lowered = compiler
        .compile_expression(&parser::Expression::Literal(parser::Literal::Bool(true)))
        .unwrap();
    assert_eq!(
        lowered.content,
        Some(structures::Argument::Literal(structures::Literal {
            value: "true".to_string(),
        }))
    );
    let lowered = compiler
        .compile_expression(&parser::Expression::Literal(parser::Literal::Bool(false)))
        .unwrap();
    assert_eq!(
        lowered.content,
        Some(structures::Argument::Literal(structures::Literal {
            value: "false".to_string(),
        }))
    );
}

#[test]
fn map_bin_op_names_every_arithmetic_operator() {
    assert_eq!(compiler::Compiler::map_bin_op(&parser::BinOperator::Addition), "add");
    assert_eq!(compiler::Compiler::map_bin_op(&parser::BinOperator::Subtraction), "sub");
    assert_eq!(
        compiler::Compiler::map_bin_op(&parser::BinOperator::Multiplication),
        "mul"
    );
    assert_eq!(compiler::Compiler::map_bin_op(&parser::BinOperator::Division), "div");
    assert_eq!(compiler::Compiler::map_bin_op(&parser::BinOperator::Power), "pow");
}

#[test]
fn hoist_items_moves_declarations_first() {
    let input = parser::Program {
        link_statements: vec![],
        main_block: vec![
            parser::Item::Attribute(parser::Attribute::Inline),
            parser::Item::FunctionDeclaration(parser::FunctionDeclaration {
                name: "f".to_string(),
                parameters: vec![],
                body: vec![],
            }),
            parser::Item::Attribute(parser::Attribute::ExportAs("g".to_string())),
            parser::Item::FunctionDeclaration(parser::FunctionDeclaration {
                name: "h".to_string(),
                parameters: vec![],
                body: vec![],
            }),
        ],
    };
    let mut compiler = compiler::Compiler::new(input);
    compiler.hoist_items();
    assert_eq!(
        compiler.syntax_tree.main_block,
        vec![
            parser::Item::FunctionDeclaration(parser::FunctionDeclaration {
                name: "f".to_string(),
                parameters: vec![],
                body: vec![],
            }),
            parser::Item::FunctionDeclaration(parser::FunctionDeclaration {
                name: "h".to_string(),
                parameters: vec![],
                body: vec![],
            }),
            parser::Item::Attribute(parser::Attribute::Inline),
            parser::Item::Attribute(parser::Attribute::ExportAs("g".to_string())),
        ]
    );
}

#[test]
fn generate_catweb_sync_call_builds_a_block_call() {
    let call = compiler::Compiler::generate_catweb_sync_call(
        structures::Variable {
            name: "ignored".to_string(),
        },
        vec![structures::Argument::RawString("payload".to_string())],
    );
    assert_eq!(
        call,
        structures::Call::CWScriptBlockCall {
            dependencies: vec![],
            block_id: structures::CWScriptBlockID { id: "".to_string() },
            arguments: vec![structures::Argument::RawString("payload".to_string())],
            return_var: None,
        }
    );
}
