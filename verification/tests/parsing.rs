use cwscript::parser;

#[test]
fn test_simple_function_parsing() {
    let input = r#"
  #[export_as("c")]
  function add(a, b) {
    #0(#"", "Hello, World!");
  }"#;

    let syntax_tree = parser::Parser::new().parse_program_from_str(input).unwrap();

    let expected_syntax_tree = parser::Program {
        link_statements: vec![],
        main_block: vec![
            parser::Item::Attribute(parser::Attribute::ExportAs("c".to_string())),
            parser::Item::FunctionDeclaration(parser::FunctionDeclaration {
                name: "add".to_string(),
                parameters: vec![
                    parser::Expression::Identifier("a".to_string()),
                    parser::Expression::Identifier("b".to_string()),
                ],
                body: vec![parser::Statement::Expression {
                    expr: parser::Expression::Call {
                        function: Box::new(parser::Expression::CWScriptBlockID("0".to_string())),
                        arguments: vec![
                            parser::Expression::Literal(parser::Literal::RawString(
                                "".to_string(),
                            )),
                            parser::Expression::Literal(parser::Literal::String(
                                "Hello, World!".to_string(),
                            )),
                        ],
                    },
                }],
            }),
        ],
    };

    assert_eq!(expected_syntax_tree, syntax_tree);
}

#[test]
fn comma_chains_flatten_in_order() {
    let source = "function f(a, b, c) { g(x, y, z); }";
    let tree = parser::Parser::new().parse_program_from_str(source).unwrap();
    match &tree.main_block[0] {
        parser::Item::FunctionDeclaration(decl) => {
            assert_eq!(
                decl.parameters,
                vec![
                    parser::Expression::Identifier("a".to_string()),
                    parser::Expression::Identifier("b".to_string()),
                    parser::Expression::Identifier("c".to_string()),
                ]
            );
            match &decl.body[0] {
                parser::Statement::Expression {
                    expr: parser::Expression::Call { arguments, .. },
                } => {
                    assert_eq!(
                        arguments,
                        &vec![
                            parser::Expression::Identifier("x".to_string()),
                            parser::Expression::Identifier("y".to_string()),
                            parser::Expression::Identifier("z".to_string()),
                        ]
                    );
                }
                other => panic!("expected a call statement, got {:?}", other),
            }
        }
        other => panic!("expected a function declaration, got {:?}", other),
    }
}

#[test]
fn single_parameter_yields_one_element_list() {
    let tree = parser::Parser::new()
        .parse_program_from_str("function f(only) {}")
        .unwrap();
    match &tree.main_block[0] {
        parser::Item::FunctionDeclaration(decl) => {
            assert_eq!(
                decl.parameters,
                vec![parser::Expression::Identifier("only".to_string())]
            );
        }
        other => panic!("expected a function declaration, got {:?}", other),
    }
}

#[test]
fn expand_comma_expression_flattens_left_chain() {
    let chain = parser::Expression::BinOperation {
        lhs: Box::new(parser::Expression::BinOperation {
            lhs: Box::new(parser::Expression::Identifier("a".to_string())),
            op: parser::BinOperator::Comma,
            rhs: Box::new(parser::Expression::Identifier("b".to_string())),
        }),
        op: parser::BinOperator::Comma,
        rhs: Box::new(parser::Expression::Identifier("c".to_string())),
    };
    let flattened = parser::Parser::new().expand_comma_expression(chain).unwrap();
    assert_eq!(
        flattened,
        vec![
            parser::Expression::Identifier("a".to_string()),
            parser::Expression::Identifier("b".to_string()),
            parser::Expression::Identifier("c".to_string()),
        ]
    );
}

#[test]
fn operators_follow_precedence_and_associativity() {
    fn body_expr(source: &str) -> parser::Expression {
        let tree = parser::Parser::new().parse_program_from_str(source).unwrap();
        match tree.main_block.into_iter().next().unwrap() {
            parser::Item::FunctionDeclaration(decl) => match decl.body.into_iter().next().unwrap()
            {
                parser::Statement::Expression { expr } => expr,
                other => panic!("expected an expression statement, got {:?}", other),
            },
            other => panic!("expected a function declaration, got {:?}", other),
        }
    }
    fn ident(name: &str) -> parser::Expression {
        parser::Expression::Identifier(name.to_string())
    }
    fn bin(
        lhs: parser::Expression,
        op: parser::BinOperator,
        rhs: parser::Expression,
    ) -> parser::Expression {
        parser::Expression::BinOperation {
            lhs: Box::new(lhs),
            op,
            rhs: Box::new(rhs),
        }
    }

    // multiplication binds tighter than addition
    assert_eq!(
        body_expr("function f() { a + b * c; }"),
        bin(
            ident("a"),
            parser::BinOperator::Addition,
            bin(ident("b"), parser::BinOperator::Multiplication, ident("c"))
        )
    );
    // subtraction is left-associative
    assert_eq!(
        body_expr("function f() { a - b - c; }"),
        bin(
            bin(ident("a"), parser::BinOperator::Subtraction, ident("b")),
            parser::BinOperator::Subtraction,
            ident("c")
        )
    );
    // power binds tighter than multiplication
    assert_eq!(
        body_expr("function f() { a * b ^ c; }"),
        bin(
            ident("a"),
            parser::BinOperator::Multiplication,
            bin(ident("b"), parser::BinOperator::Power, ident("c"))
        )
    );
    // dot binds looser than addition
    assert_eq!(
        body_expr("function f() { a . b + c; }"),
        bin(
            ident("a"),
            parser::BinOperator::Dot,
            bin(ident("b"), parser::BinOperator::Addition, ident("c"))
        )
    );
    // prefix negation applies before infix operators
    assert_eq!(
        body_expr("function f() { -a + b; }"),
        bin(
            parser::Expression::UnaryOperation {
                op: parser::UnaryOperator::NumeralNegation,
                expr: Box::new(ident("a")),
            },
            parser::BinOperator::Addition,
            ident("b")
        )
    );
    // a call suffix binds tighter than prefix negation and chains
    assert_eq!(
        body_expr("function f() { !g(x)(); }"),
        parser::Expression::UnaryOperation {
            op: parser::UnaryOperator::LogicalNegation,
            expr: Box::new(parser::Expression::Call {
                function: Box::new(parser::Expression::Call {
                    function: Box::new(ident("g")),
                    arguments: vec![ident("x")],
                }),
                arguments: vec![],
            }),
        }
    );
}

#[test]
fn statements_parse_to_their_kinds() {
    let source = r#"function f() { let x = 1; x = 2.5; link "page"; g(); }"#;
    let tree = parser::Parser::new().parse_program_from_str(source).unwrap();
    match &tree.main_block[0] {
        parser::Item::FunctionDeclaration(decl) => {
            assert_eq!(decl.body.len(), 4);
            assert_eq!(
                decl.body[0],
                parser::Statement::Assignment {
                    lhs: parser::Expression::Identifier("x".to_string()),
                    rhs: parser::Expression::Literal(parser::Literal::Integer("1".to_string())),
                }
            );
            assert_eq!(
                decl.body[1],
                parser::Statement::Assignment {
                    lhs: parser::Expression::Identifier("x".to_string()),
                    rhs: parser::Expression::Literal(parser::Literal::Float("2.5".to_string())),
                }
            );
            assert_eq!(
                decl.body[2],
                parser::Statement::Link {
                    path: "page".to_string(),
                }
            );
            assert_eq!(
                decl.body[3],
                parser::Statement::Expression {
                    expr: parser::Expression::Call {
                        function: Box::new(parser::Expression::Identifier("g".to_string())),
                        arguments: vec![],
                    },
                }
            );
        }
        other => panic!("expected a function declaration, got {:?}", other),
    }
}

#[test]
fn boolean_and_numeric_literals_keep_their_text() {
    let source = "function f() { g(true, false, 042, 3.50); }";
    let tree = parser::Parser::new().parse_program_from_str(source).unwrap();
    match &tree.main_block[0] {
        parser::Item::FunctionDeclaration(decl) => match &decl.body[0] {
            parser::Statement::Expression {
                expr: parser::Expression::Call { arguments, .. },
            } => {
                assert_eq!(
                    arguments,
                    &vec![
                        parser::Expression::Literal(parser::Literal::Bool(true)),
                        parser::Expression::Literal(parser::Literal::Bool(false)),
                        parser::Expression::Literal(parser::Literal::Integer("042".to_string())),
                        parser::Expression::Literal(parser::Literal::Float("3.50".to_string())),
                    ]
                );
            }
            other => panic!("expected a call statement, got {:?}", other),
        },
        other => panic!("expected a function declaration, got {:?}", other),
    }
}

#[test]
fn parse_boolean_literal_reads_the_token() {
    let parser = parser::Parser::new();
    assert_eq!(
        parser.parse_boolean_literal(&cwscript::parser::lexer::Token::BooleanLiteral(true)),
        Ok(true)
    );
    assert_eq!(
        parser.parse_boolean_literal(&cwscript::parser::lexer::Token::BooleanLiteral(false)),
        Ok(false)
    );
    assert!(parser
        .parse_boolean_literal(&cwscript::parser::lexer::Token::Comma)
        .is_err());
}

#[test]
fn attribute_errors_are_reported() {
    assert_eq!(
        parser::Parser::new().parse_program_from_str("#[export_as] function f() {}"),
        Err(parser::ParseError::AttributeMissingContent)
    );
    assert_eq!(
        parser::Parser::new().parse_program_from_str("#[shiny] function f() {}"),
        Err(parser::ParseError::UnknownAttribute {
            name: "shiny".to_string(),
        })
    );
    assert_eq!(
        parser::Parser::new().parse_program_from_str("#[inline] function f() {}"),
        Ok(parser::Program {
            link_statements: vec![],
            main_block: vec![
                parser::Item::Attribute(parser::Attribute::Inline),
                parser::Item::FunctionDeclaration(parser::FunctionDeclaration {
                    name: "f".to_string(),
                    parameters: vec![],
                    body: vec![],
                }),
            ],
        })
    );
}

#[test]
fn syntax_errors_abort_the_parse() {
    // a stray token where an item should start
    assert!(matches!(
        parser::Parser::new().parse_program_from_str("42"),
        Err(parser::ParseError::Syntax { .. })
    ));
    // an unterminated string literal
    assert!(matches!(
        parser::Parser::new().parse_program_from_str("function f() { g(\"oops); }"),
        Err(parser::ParseError::Character { .. })
    ));
    // a character that opens no token
    assert!(matches!(
        parser::Parser::new().parse_program_from_str("function f() { g(%); }"),
        Err(parser::ParseError::Character { .. })
    ));
    // a missing closing brace
    assert!(matches!(
        parser::Parser::new().parse_program_from_str("function f() { g();"),
        Err(parser::ParseError::Syntax { .. })
    ));
}
