//! The mathematical model of the lowering pass: spec functions that say, for
//! every syntax tree, exactly which intermediate representation (or which
//! error) the compiler produces, and in which state it leaves the pending
//! attribute accumulator.

use vstd::prelude::*;

use crate::codegen::structures::SpecArgument;
use crate::codegen::structures::SpecCall;
use crate::codegen::structures::SpecIrExpression;
use crate::codegen::structures::SpecIrItem;
use crate::codegen::structures::SpecIrStatement;
use crate::compiler::CompileError;
use crate::parser::ast::BinOperator;
use crate::parser::ast::SpecAttribute;
use crate::parser::ast::SpecExpression;
use crate::parser::ast::SpecFunctionDeclaration;
use crate::parser::ast::SpecItem;
use crate::parser::ast::SpecLiteral;
use crate::parser::ast::SpecStatement;

verus! {

/// A literal lowers to a plain argument: raw strings keep their raw-string
/// nature, booleans stringify, and numeric and string literals keep their
/// source text verbatim.
pub open spec fn spec_lower_literal(l: SpecLiteral) -> SpecArgument {
    match l {
        SpecLiteral::Integer(s) => SpecArgument::Literal(s),
        SpecLiteral::Float(s) => SpecArgument::Literal(s),
        SpecLiteral::String(s) => SpecArgument::Literal(s),
        SpecLiteral::RawString(s) => SpecArgument::RawString(s),
        SpecLiteral::Bool(b) => SpecArgument::Literal(if b { "true"@ } else { "false"@ }),
    }
}

/// Whether a binary operator has a call mapping; `Dot` and `Comma` have
/// none and must never reach the lowering of an operator application.
pub open spec fn spec_op_mappable(op: BinOperator) -> bool {
    !(op is Dot) && !(op is Comma)
}

/// The call name of a mappable binary operator.
pub open spec fn spec_map_bin_op(op: BinOperator) -> Seq<char>
    recommends
        spec_op_mappable(op),
{
    match op {
        BinOperator::Addition => "add"@,
        BinOperator::Subtraction => "sub"@,
        BinOperator::Multiplication => "mul"@,
        BinOperator::Division => "div"@,
        BinOperator::Power => "pow"@,
        _ => Seq::empty(),
    }
}

/// Lowers one expression to its ordered dependency calls plus optional
/// terminal argument.
pub open spec fn spec_lower_expression(e: SpecExpression) -> Result<
    SpecIrExpression,
    CompileError,
>
    decreases e, 2int,
{
    match e {
        SpecExpression::Literal(l) => Ok(
            SpecIrExpression { dependencies: Seq::empty(), content: Some(spec_lower_literal(l)) },
        ),
        SpecExpression::Identifier(name) => Ok(
            SpecIrExpression {
                dependencies: Seq::empty(),
                content: Some(SpecArgument::Identifier(name)),
            },
        ),
        SpecExpression::CWScriptBlockID(_) => Err(CompileError::BlockIdAsValue),
        SpecExpression::Call { function, arguments } => spec_lower_call(*function, arguments),
        SpecExpression::BinOperation { lhs, op, rhs } => match spec_lower_expression(*lhs) {
            Err(err) => Err(err),
            Ok(le) => match spec_lower_expression(*rhs) {
                Err(err) => Err(err),
                Ok(re) => match (le.content, re.content) {
                    (None, _) => Err(CompileError::MissingArgumentValue),
                    (Some(_), None) => Err(CompileError::MissingArgumentValue),
                    (Some(la), Some(ra)) => if !spec_op_mappable(op) {
                        Err(CompileError::UnmappableOperator)
                    } else {
                        Ok(
                            SpecIrExpression {
                                dependencies: seq![
                                    SpecCall::FunctionCall {
                                        dependencies: le.dependencies + re.dependencies,
                                        function_name: spec_map_bin_op(op),
                                        arguments: seq![la, ra],
                                        return_var: None,
                                    },
                                ],
                                content: None,
                            },
                        )
                    },
                },
            },
        },
        SpecExpression::UnaryOperation { .. } => Err(CompileError::UnsupportedUnaryOperator),
    }
}

/// Lowers a call: the arguments first, left to right, then the callee shape.
/// The dependencies of the emitted call are the concatenation, in argument
/// order, of each argument's own dependencies; its arguments are the
/// arguments' terminal values; the call itself denotes no value.
pub open spec fn spec_lower_call(function: SpecExpression, arguments: Seq<SpecExpression>) -> Result<
    SpecIrExpression,
    CompileError,
>
    decreases arguments, 1int,
{
    match spec_lower_arguments(arguments) {
        Err(err) => Err(err),
        Ok((deps, args)) => match function {
            SpecExpression::Identifier(name) => Ok(
                SpecIrExpression {
                    dependencies: seq![
                        SpecCall::FunctionCall {
                            dependencies: deps,
                            function_name: name,
                            arguments: args,
                            return_var: None,
                        },
                    ],
                    content: None,
                },
            ),
            SpecExpression::CWScriptBlockID(id) => Ok(
                SpecIrExpression {
                    dependencies: seq![
                        SpecCall::CWScriptBlockCall {
                            dependencies: deps,
                            block_id: id,
                            arguments: args,
                            return_var: None,
                        },
                    ],
                    content: None,
                },
            ),
            _ => Err(CompileError::InvalidCallTarget),
        },
    }
}

/// Lowers an argument list left to right; an argument that denotes no value
/// is a fatal error, and the first error wins.
pub open spec fn spec_lower_arguments(arguments: Seq<SpecExpression>) -> Result<
    (Seq<SpecCall>, Seq<SpecArgument>),
    CompileError,
>
    decreases arguments, 0int,
{
    if arguments.len() == 0 {
        Ok((Seq::empty(), Seq::empty()))
    } else {
        match spec_lower_expression(arguments[0]) {
            Err(err) => Err(err),
            Ok(le) => match le.content {
                None => Err(CompileError::MissingArgumentValue),
                Some(a) => match spec_lower_arguments(
                    arguments.subrange(1, arguments.len() as int),
                ) {
                    Err(err) => Err(err),
                    Ok((deps, args)) => Ok((le.dependencies + deps, seq![a] + args)),
                },
            },
        }
    }
}

/// Lowers one statement. An expression statement keeps its expression's
/// dependencies and discards its value (the content list stays empty);
/// assignment and link statements have no lowering yet and fail.
pub open spec fn spec_lower_statement(s: SpecStatement) -> Result<SpecIrStatement, CompileError> {
    match s {
        SpecStatement::Expression { expr } => match spec_lower_expression(expr) {
            Err(err) => Err(err),
            Ok(le) => Ok(
                SpecIrStatement { dependencies: le.dependencies, content: Seq::empty() },
            ),
        },
        SpecStatement::Assignment { .. } => Err(CompileError::UnsupportedStatement),
        SpecStatement::Link { .. } => Err(CompileError::UnsupportedStatement),
    }
}

/// Lowers a statement list in order; the first error wins.
pub open spec fn spec_lower_body(body: Seq<SpecStatement>) -> Result<
    Seq<SpecIrStatement>,
    CompileError,
>
    decreases body,
{
    if body.len() == 0 {
        Ok(Seq::empty())
    } else {
        match spec_lower_statement(body[0]) {
            Err(err) => Err(err),
            Ok(s) => match spec_lower_body(body.subrange(1, body.len() as int)) {
                Err(err) => Err(err),
                Ok(rest) => Ok(seq![s] + rest),
            },
        }
    }
}

/// Lowers a declared parameter list: every parameter must be a bare
/// identifier; anything else is a fatal error.
pub open spec fn spec_lower_parameters(parameters: Seq<SpecExpression>) -> Result<
    Seq<Seq<char>>,
    CompileError,
>
    decreases parameters,
{
    if parameters.len() == 0 {
        Ok(Seq::empty())
    } else {
        match parameters[0] {
            SpecExpression::Identifier(name) => match spec_lower_parameters(
                parameters.subrange(1, parameters.len() as int),
            ) {
                Err(err) => Err(err),
                Ok(rest) => Ok(seq![name] + rest),
            },
            _ => Err(CompileError::InvalidParameter),
        }
    }
}

/// The generated name of a function under the pending attributes: the last
/// `export_as` in pending order wins; with none pending, the declared name
/// stands.
pub open spec fn spec_export_name(pending: Seq<SpecAttribute>, declared: Seq<char>) -> Seq<char>
    decreases pending,
{
    if pending.len() == 0 {
        declared
    } else {
        match pending.last() {
            SpecAttribute::ExportAs(name) => name,
            SpecAttribute::Inline => spec_export_name(
                pending.subrange(0, pending.len() - 1),
                declared,
            ),
        }
    }
}

/// Lowers one function declaration under the attributes pending for it.
pub open spec fn spec_lower_function(f: SpecFunctionDeclaration, pending: Seq<SpecAttribute>) -> Result<
    SpecIrItem,
    CompileError,
> {
    match spec_lower_parameters(f.parameters) {
        Err(err) => Err(err),
        Ok(parameters) => match spec_lower_body(f.body) {
            Err(err) => Err(err),
            Ok(body) => Ok(
                SpecIrItem::FunctionDeclaration {
                    name: spec_export_name(pending, f.name),
                    parameters,
                    body,
                },
            ),
        },
    }
}

/// One step of the item walk: an attribute joins the pending list and yields
/// no item; a function declaration drains the pending list atomically and is
/// lowered under it. The second component is the pending list afterwards.
pub open spec fn spec_compile_item(item: SpecItem, pending: Seq<SpecAttribute>) -> (Result<
    Option<SpecIrItem>,
    CompileError,
>, Seq<SpecAttribute>) {
    match item {
        SpecItem::Attribute(a) => (Ok(None), pending.push(a)),
        SpecItem::FunctionDeclaration(f) => (
            match spec_lower_function(f, pending) {
                Err(err) => Err(err),
                Ok(it) => Ok(Some(it)),
            },
            Seq::empty(),
        ),
    }
}

/// Lowers an item list left to right, threading the pending attributes.
/// On success the result carries the lowered items and the attributes still
/// pending at the end (which are thereby discarded); on failure it carries
/// the error and the pending state at the point of failure.
pub open spec fn spec_lower_items(items: Seq<SpecItem>, pending: Seq<SpecAttribute>) -> Result<
    (Seq<SpecIrItem>, Seq<SpecAttribute>),
    (CompileError, Seq<SpecAttribute>),
>
    decreases items,
{
    if items.len() == 0 {
        Ok((Seq::empty(), pending))
    } else {
        let (step, pending1) = spec_compile_item(items[0], pending);
        match step {
            Err(err) => Err((err, pending1)),
            Ok(opt) => match spec_lower_items(items.subrange(1, items.len() as int), pending1) {
                Err(e) => Err(e),
                Ok((rest, pending2)) => Ok(
                    (
                        match opt {
                            Some(it) => seq![it] + rest,
                            None => rest,
                        },
                        pending2,
                    ),
                ),
            },
        }
    }
}

/// The function declarations of an item list, in order.
pub open spec fn spec_keep_functions(items: Seq<SpecItem>) -> Seq<SpecItem>
    decreases items,
{
    if items.len() == 0 {
        Seq::empty()
    } else {
        (if items[0] is FunctionDeclaration {
            seq![items[0]]
        } else {
            Seq::empty()
        }) + spec_keep_functions(items.subrange(1, items.len() as int))
    }
}

/// The items of an item list that are not function declarations, in order.
pub open spec fn spec_keep_other_items(items: Seq<SpecItem>) -> Seq<SpecItem>
    decreases items,
{
    if items.len() == 0 {
        Seq::empty()
    } else {
        (if items[0] is FunctionDeclaration {
            Seq::empty()
        } else {
            seq![items[0]]
        }) + spec_keep_other_items(items.subrange(1, items.len() as int))
    }
}

} // verus!
