use cwscript::compiler::{CompileError, Compiler};
use cwscript::parser::Parser;

fn compile_source(source: &str) -> Result<cwscript::codegen::structures::Program, CompileError> {
    let syntax_tree = Parser::new().parse_program_from_str(source).unwrap();
    Compiler::new(syntax_tree).compile()
}

#[test]
fn block_id_as_value_is_fatal() {
    assert_eq!(
        compile_source("function f() { #0; }"),
        Err(CompileError::BlockIdAsValue)
    );
}

#[test]
fn chained_call_target_is_fatal() {
    assert_eq!(
        compile_source("function f() { g()(); }"),
        Err(CompileError::InvalidCallTarget)
    );
}

#[test]
fn literal_call_target_is_fatal() {
    assert_eq!(
        compile_source("function f() { 3(); }"),
        Err(CompileError::InvalidCallTarget)
    );
}

#[test]
fn unary_operation_is_fatal() {
    assert_eq!(
        compile_source("function f() { -x; }"),
        Err(CompileError::UnsupportedUnaryOperator)
    );
}

#[test]
fn assignment_statement_is_fatal() {
    assert_eq!(
        compile_source("function f() { x = #0; }"),
        Err(CompileError::UnsupportedStatement)
    );
    assert_eq!(
        compile_source("function f() { let x = 1; }"),
        Err(CompileError::UnsupportedStatement)
    );
}

#[test]
fn link_statement_is_fatal() {
    assert_eq!(
        compile_source("function f() { link \"page\"; }"),
        Err(CompileError::UnsupportedStatement)
    );
}

#[test]
fn argument_without_value_is_fatal() {
    // a nested call denotes no value, so it cannot stand as an argument
    assert_eq!(
        compile_source("function f() { g(h()); }"),
        Err(CompileError::MissingArgumentValue)
    );
    // an operand that denotes no value fails the same way under an operator
    assert_eq!(
        compile_source("function f() { g() + 1; }"),
        Err(CompileError::MissingArgumentValue)
    );
}

#[test]
fn dot_and_comma_cannot_map_to_calls() {
    assert_eq!(
        compile_source("function f() { a . b; }"),
        Err(CompileError::UnmappableOperator)
    );
    assert_eq!(
        compile_source("function f() { (a, b); }"),
        Err(CompileError::UnmappableOperator)
    );
}

#[test]
fn non_identifier_parameter_is_fatal() {
    assert_eq!(
        compile_source("function f(1) {}"),
        Err(CompileError::InvalidParameter)
    );
}
