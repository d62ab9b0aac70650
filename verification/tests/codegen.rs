use cwscript::codegen::json;
use cwscript::codegen::structures;
use cwscript::codegen::CWBlockScriptGenerator;
use cwscript::compiler::Compiler;
use cwscript::parser::Parser;

fn string_parameter(value: &str) -> json::TextFieldValue {
    json::TextFieldValue::Parameter(json::Parameter {
        value: value.to_string(),
        l: "".to_string(),
        t: "string".to_string(),
    })
}

#[test]
fn block_call_arguments_map_to_slots() {
    let generator = CWBlockScriptGenerator::new();
    let action = generator.generate_script_block(structures::Call::CWScriptBlockCall {
        dependencies: vec![],
        block_id: structures::CWScriptBlockID {
            id: "12".to_string(),
        },
        arguments: vec![
            structures::Argument::RawString("inline text".to_string()),
            structures::Argument::Literal(structures::Literal {
                value: "41".to_string(),
            }),
            structures::Argument::Identifier(structures::Variable {
                name: "x".to_string(),
            }),
        ],
        return_var: None,
    });
    assert_eq!(
        action,
        json::Action {
            globalid: "".to_string(),
            id: "12".to_string(),
            text: vec![
                json::TextFieldValue::PlainText("inline text".to_string()),
                string_parameter("41"),
                string_parameter("x"),
            ],
        }
    );
}

#[test]
fn return_variable_is_the_last_slot() {
    let generator = CWBlockScriptGenerator::new();
    let action = generator.generate_script_block(structures::Call::CWScriptBlockCall {
        dependencies: vec![],
        block_id: structures::CWScriptBlockID { id: "7".to_string() },
        arguments: vec![structures::Argument::Literal(structures::Literal {
            value: "in".to_string(),
        })],
        return_var: Some(structures::Variable {
            name: "out".to_string(),
        }),
    });
    assert_eq!(
        action.text,
        vec![string_parameter("in"), string_parameter("out")]
    );
}

#[test]
fn function_call_emits_the_placeholder_action() {
    let generator = CWBlockScriptGenerator::new();
    let action = generator.generate_script_block(structures::Call::FunctionCall {
        dependencies: vec![],
        function_name: structures::Variable {
            name: "helper".to_string(),
        },
        arguments: vec![structures::Argument::Literal(structures::Literal {
            value: "ignored".to_string(),
        })],
        return_var: Some(structures::Variable {
            name: "result".to_string(),
        }),
    });
    assert_eq!(
        action,
        json::Action {
            globalid: "".to_string(),
            id: "87".to_string(),
            text: vec![
                json::TextFieldValue::PlainText("".to_string()),
                json::TextFieldValue::Tuple(json::Tuple {
                    value: vec![],
                    t: "tuple".to_string(),
                }),
                json::TextFieldValue::PlainText("".to_string()),
                string_parameter("result"),
            ],
        }
    );
}

#[test]
fn function_call_without_return_names_an_empty_slot() {
    let generator = CWBlockScriptGenerator::new();
    let action = generator.generate_script_block(structures::Call::FunctionCall {
        dependencies: vec![],
        function_name: structures::Variable {
            name: "helper".to_string(),
        },
        arguments: vec![],
        return_var: None,
    });
    assert_eq!(action.text[3], string_parameter(""));
}

#[test]
fn generate_item_builds_the_function_card() {
    let generator = CWBlockScriptGenerator::new();
    let card = generator.generate_item(structures::Item::FunctionDeclaration {
        name: "add".to_string(),
        parameters: vec![
            structures::Variable {
                name: "a".to_string(),
            },
            structures::Variable {
                name: "b".to_string(),
            },
        ],
        body: vec![],
    });
    assert_eq!(
        card,
        json::CodeCard::FunctionDeclaration(json::FunctionDeclaration {
            globalid: "".to_string(),
            variable_overrides: vec![
                json::FunctionParameter {
                    value: "a".to_string(),
                },
                json::FunctionParameter {
                    value: "b".to_string(),
                },
            ],
            id: "6".to_string(),
            text: vec![
                json::TextFieldValue::PlainText("".to_string()),
                string_parameter("add"),
            ],
            actions: vec![],
        })
    );
}

#[test]
fn actions_keep_statement_order() {
    let call = |id: &str| structures::Call::CWScriptBlockCall {
        dependencies: vec![],
        block_id: structures::CWScriptBlockID { id: id.to_string() },
        arguments: vec![],
        return_var: None,
    };
    let generator = CWBlockScriptGenerator::new();
    let card = generator.generate_item(structures::Item::FunctionDeclaration {
        name: "f".to_string(),
        parameters: vec![],
        body: vec![
            structures::Statement {
                dependencies: vec![call("1"), call("2")],
                content: vec![call("3")],
            },
            structures::Statement {
                dependencies: vec![call("4")],
                content: vec![],
            },
        ],
    });
    match card {
        json::CodeCard::FunctionDeclaration(decl) => {
            let ids: Vec<String> = decl.actions.into_iter().map(|a| a.id).collect();
            assert_eq!(ids, vec!["1", "2", "3", "4"]);
        }
        other => panic!("expected a function card, got {:?}", other),
    }
}

#[test]
fn generate_program_wraps_cards_in_a_script() {
    let generator = CWBlockScriptGenerator::new();
    let script = generator.generate_program(structures::Program::new(vec![
        structures::Item::FunctionDeclaration {
            name: "one".to_string(),
            parameters: vec![],
            body: vec![],
        },
        structures::Item::FunctionDeclaration {
            name: "two".to_string(),
            parameters: vec![],
            body: vec![],
        },
    ]));
    assert_eq!(script.alias, "");
    assert_eq!(script.class, "script");
    assert_eq!(script.content.len(), 2);
}

#[test]
fn tuple_default_is_the_empty_composite_slot() {
    let tuple = json::Tuple::default();
    assert_eq!(tuple.value, vec![]);
    assert_eq!(tuple.t, "tuple");
}

#[test]
fn end_to_end_hello_world() {
    let source = r#"
  function add(a, b) {
    #0(#"", "Hello, World!");
  }"#;
    let syntax_tree = Parser::new().parse_program_from_str(source).unwrap();
    let mut compiler = Compiler::new(syntax_tree);
    let program = compiler.compile().unwrap();

    let expected_program = structures::Program {
        main_block: vec![structures::Item::FunctionDeclaration {
            name: "add".to_string(),
            parameters: vec![
                structures::Variable {
                    name: "a".to_string(),
                },
                structures::Variable {
                    name: "b".to_string(),
                },
            ],
            body: vec![structures::Statement {
                dependencies: vec![structures::Call::CWScriptBlockCall {
                    dependencies: vec![],
                    block_id: structures::CWScriptBlockID {
                        id: "0".to_string(),
                    },
                    arguments: vec![
                        structures::Argument::RawString("".to_string()),
                        structures::Argument::Literal(structures::Literal {
                            value: "Hello, World!".to_string(),
                        }),
                    ],
                    return_var: None,
                }],
                content: vec![],
            }],
        }],
    };
    assert_eq!(program, expected_program);

    let generator = CWBlockScriptGenerator::new();
    let script = generator.generate_program(program);
    assert_eq!(
        script,
        json::Script {
            alias: "".to_string(),
            class: "script".to_string(),
            content: vec![json::CodeCard::FunctionDeclaration(json::FunctionDeclaration {
                globalid: "".to_string(),
                variable_overrides: vec![
                    json::FunctionParameter {
                        value: "a".to_string(),
                    },
                    json::FunctionParameter {
                        value: "b".to_string(),
                    },
                ],
                id: "6".to_string(),
                text: vec![
                    json::TextFieldValue::PlainText("".to_string()),
                    string_parameter("add"),
                ],
                actions: vec![json::Action {
                    globalid: "".to_string(),
                    id: "0".to_string(),
                    text: vec![
                        json::TextFieldValue::PlainText("".to_string()),
                        string_parameter("Hello, World!"),
                    ],
                }],
            })],
        }
    );
}
