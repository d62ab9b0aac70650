use cwscript::parser::lexer::{str_equal, str_to_chars, tokenize, Token};
use cwscript::parser::{Parser, Expression, Item, Literal, Statement};

#[test]
fn tokens_cover_every_kind() {
    let chars = str_to_chars("function let link true false name #blk #[ ] ( ) { } , . + - * / ^ ! = ; 7 2.5 \"s\" #\"r\"");
    let tokens = tokenize(&chars).unwrap();
    assert_eq!(
        tokens,
        vec![
            Token::KwFunction,
            Token::KwLet,
            Token::KwLink,
            Token::BooleanLiteral(true),
            Token::BooleanLiteral(false),
            Token::Identifier("name".to_string()),
            Token::BlockId("blk".to_string()),
            Token::AttributeOpen,
            Token::RBracket,
            Token::LParen,
            Token::RParen,
            Token::LBrace,
            Token::RBrace,
            Token::Comma,
            Token::Dot,
            Token::Plus,
            Token::Minus,
            Token::Star,
            Token::Slash,
            Token::Caret,
            Token::Bang,
            Token::Equals,
            Token::Semicolon,
            Token::IntegerLiteral("7".to_string()),
            Token::FloatLiteral("2.5".to_string()),
            Token::StringLiteral("s".to_string()),
            Token::RawStringLiteral("r".to_string()),
        ]
    );
}

#[test]
fn an_integer_followed_by_dot_is_not_a_float() {
    let chars = str_to_chars("3.x");
    let tokens = tokenize(&chars).unwrap();
    assert_eq!(
        tokens,
        vec![
            Token::IntegerLiteral("3".to_string()),
            Token::Dot,
            Token::Identifier("x".to_string()),
        ]
    );
}

#[test]
fn str_equal_compares_character_for_character() {
    assert!(str_equal("function", "function"));
    assert!(!str_equal("function", "functio"));
    assert!(!str_equal("abc", "abd"));
    assert!(str_equal("", ""));
}

#[test]
fn named_block_ids_parse_as_call_targets() {
    let tree = Parser::new()
        .parse_program_from_str("function f() { #log(\"hi\"); }")
        .unwrap();
    match &tree.main_block[0] {
        Item::FunctionDeclaration(decl) => {
            assert_eq!(
                decl.body[0],
                Statement::Expression {
                    expr: Expression::Call {
                        function: Box::new(Expression::CWScriptBlockID("log".to_string())),
                        arguments: vec![Expression::Literal(Literal::String("hi".to_string()))],
                    },
                }
            );
        }
        other => panic!("expected a function declaration, got {:?}", other),
    }
}

#[test]
fn raw_strings_keep_their_text() {
    let tree = Parser::new()
        .parse_program_from_str("function f() { g(#\"plain text, kept verbatim\"); }")
        .unwrap();
    match &tree.main_block[0] {
        Item::FunctionDeclaration(decl) => match &decl.body[0] {
            Statement::Expression {
                expr: Expression::Call { arguments, .. },
            } => {
                assert_eq!(
                    arguments,
                    &vec![Expression::Literal(Literal::RawString(
                        "plain text, kept verbatim".to_string()
                    ))]
                );
            }
            other => panic!("expected a call statement, got {:?}", other),
        },
        other => panic!("expected a function declaration, got {:?}", other),
    }
}
