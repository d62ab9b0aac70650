//! The mathematical model of the parser: spec functions that say, for every
//! token stream, exactly which syntax tree (or which error) the parser
//! produces, position by position. The recursion mirrors the grammar; where
//! the parser loops, the model recurses through an explicit continuation
//! function over the expression parsed so far.

use vstd::prelude::*;

use crate::parser::ast::BinOperator;
use crate::parser::ast::SpecAttribute;
use crate::parser::ast::SpecExpression;
use crate::parser::ast::SpecFunctionDeclaration;
use crate::parser::ast::SpecItem;
use crate::parser::ast::SpecLiteral;
use crate::parser::ast::SpecProgram;
use crate::parser::ast::SpecStatement;
use crate::parser::ast::UnaryOperator;
use crate::parser::ast::flatten_commas;
use crate::parser::lexer::Token;

verus! {

/// Spec-level mirror of `Token`.
#[verifier::ext_equal]
pub enum SpecToken {
    Identifier(Seq<char>),
    IntegerLiteral(Seq<char>),
    FloatLiteral(Seq<char>),
    StringLiteral(Seq<char>),
    RawStringLiteral(Seq<char>),
    BooleanLiteral(bool),
    BlockId(Seq<char>),
    KwFunction,
    KwLet,
    KwLink,
    AttributeOpen,
    LParen,
    RParen,
    LBrace,
    RBrace,
    RBracket,
    Comma,
    Dot,
    Plus,
    Minus,
    Star,
    Slash,
    Caret,
    Bang,
    Equals,
    Semicolon,
}

impl DeepView for Token {
    type V = SpecToken;

    open spec fn deep_view(&self) -> SpecToken {
        match self {
            Token::Identifier(s) => SpecToken::Identifier(s@),
            Token::IntegerLiteral(s) => SpecToken::IntegerLiteral(s@),
            Token::FloatLiteral(s) => SpecToken::FloatLiteral(s@),
            Token::StringLiteral(s) => SpecToken::StringLiteral(s@),
            Token::RawStringLiteral(s) => SpecToken::RawStringLiteral(s@),
            Token::BooleanLiteral(b) => SpecToken::BooleanLiteral(*b),
            Token::BlockId(s) => SpecToken::BlockId(s@),
            Token::KwFunction => SpecToken::KwFunction,
            Token::KwLet => SpecToken::KwLet,
            Token::KwLink => SpecToken::KwLink,
            Token::AttributeOpen => SpecToken::AttributeOpen,
            Token::LParen => SpecToken::LParen,
            Token::RParen => SpecToken::RParen,
            Token::LBrace => SpecToken::LBrace,
            Token::RBrace => SpecToken::RBrace,
            Token::RBracket => SpecToken::RBracket,
            Token::Comma => SpecToken::Comma,
            Token::Dot => SpecToken::Dot,
            Token::Plus => SpecToken::Plus,
            Token::Minus => SpecToken::Minus,
            Token::Star => SpecToken::Star,
            Token::Slash => SpecToken::Slash,
            Token::Caret => SpecToken::Caret,
            Token::Bang => SpecToken::Bang,
            Token::Equals => SpecToken::Equals,
            Token::Semicolon => SpecToken::Semicolon,
        }
    }
}

/// Spec-level mirror of `ParseError`.
#[verifier::ext_equal]
pub enum SpecParseError {
    Character { position: int },
    Syntax { position: int },
    UnknownAttribute { name: Seq<char> },
    AttributeMissingContent,
}

/// A parsing step never stands still and never leaves the token stream; the
/// model guards its own termination by never moving less than one token
/// forward nor past `limit`.
pub open spec fn spec_step(limit: int, pos: int, next: int) -> int {
    if pos < next <= limit {
        next
    } else {
        pos + 1
    }
}

/// The binding strength and operator of an infix token, if it is one.
pub open spec fn spec_infix_operator(t: SpecToken) -> Option<(BinOperator, int)> {
    match t {
        SpecToken::Comma => Some((BinOperator::Comma, 1)),
        SpecToken::Dot => Some((BinOperator::Dot, 2)),
        SpecToken::Plus => Some((BinOperator::Addition, 3)),
        SpecToken::Minus => Some((BinOperator::Subtraction, 3)),
        SpecToken::Star => Some((BinOperator::Multiplication, 4)),
        SpecToken::Slash => Some((BinOperator::Division, 4)),
        SpecToken::Caret => Some((BinOperator::Power, 5)),
        _ => None,
    }
}

/// A literal, an identifier, a block id, or a parenthesized expression.
pub open spec fn spec_parse_primary(toks: Seq<SpecToken>, pos: int) -> Result<
    (SpecExpression, int),
    SpecParseError,
>
    recommends
        0 <= pos < toks.len(),
    decreases toks.len() - pos, 0int,
{
    match toks[pos] {
        SpecToken::Identifier(name) => Ok((SpecExpression::Identifier(name), pos + 1)),
        SpecToken::BlockId(id) => Ok((SpecExpression::CWScriptBlockID(id), pos + 1)),
        SpecToken::IntegerLiteral(text) => Ok(
            (SpecExpression::Literal(SpecLiteral::Integer(text)), pos + 1),
        ),
        SpecToken::FloatLiteral(text) => Ok(
            (SpecExpression::Literal(SpecLiteral::Float(text)), pos + 1),
        ),
        SpecToken::StringLiteral(text) => Ok(
            (SpecExpression::Literal(SpecLiteral::String(text)), pos + 1),
        ),
        SpecToken::RawStringLiteral(text) => Ok(
            (SpecExpression::Literal(SpecLiteral::RawString(text)), pos + 1),
        ),
        SpecToken::BooleanLiteral(b) => Ok(
            (SpecExpression::Literal(SpecLiteral::Bool(b)), pos + 1),
        ),
        SpecToken::LParen => {
            if pos + 1 >= toks.len() {
                Err(SpecParseError::Syntax { position: pos + 1 })
            } else {
                match spec_parse_expression(toks, pos + 1, 0) {
                    Err(err) => Err(err),
                    Ok((expr, p)) => if p >= toks.len() || !(toks[p] is RParen) {
                        Err(SpecParseError::Syntax { position: p })
                    } else {
                        Ok((expr, p + 1))
                    },
                }
            }
        },
        _ => Err(SpecParseError::Syntax { position: pos }),
    }
}

/// A primary expression followed by any number of call suffixes; each
/// suffix's arguments are one comma-flattened expression, or empty.
pub open spec fn spec_parse_call_suffixes(
    expr: SpecExpression,
    toks: Seq<SpecToken>,
    pos: int,
) -> Result<(SpecExpression, int), SpecParseError>
    decreases toks.len() - pos, 3int,
{
    if pos >= toks.len() || !(toks[pos] is LParen) {
        Ok((expr, pos))
    } else if pos + 1 >= toks.len() {
        Err(SpecParseError::Syntax { position: pos + 1 })
    } else if toks[pos + 1] is RParen {
        spec_parse_call_suffixes(
            SpecExpression::Call { function: Box::new(expr), arguments: Seq::empty() },
            toks,
            pos + 2,
        )
    } else {
        match spec_parse_expression(toks, pos + 1, 0) {
            Err(err) => Err(err),
            Ok((args_expr, p)) => if p >= toks.len() || !(toks[p] is RParen) {
                Err(SpecParseError::Syntax { position: p })
            } else {
                spec_parse_call_suffixes(
                    SpecExpression::Call {
                        function: Box::new(expr),
                        arguments: flatten_commas(args_expr),
                    },
                    toks,
                    spec_step(toks.len() as int, pos, p + 1),
                )
            },
        }
    }
}

pub open spec fn spec_parse_postfix(toks: Seq<SpecToken>, pos: int) -> Result<
    (SpecExpression, int),
    SpecParseError,
>
    recommends
        0 <= pos < toks.len(),
    decreases toks.len() - pos, 1int,
{
    if pos >= toks.len() {
        Err(SpecParseError::Syntax { position: pos })
    } else {
        match spec_parse_primary(toks, pos) {
            Err(err) => Err(err),
            Ok((expr, p)) => spec_parse_call_suffixes(
                expr,
                toks,
                spec_step(toks.len() as int, pos, p),
            ),
        }
    }
}

/// Prefix negations bind tighter than any infix operator and looser than a
/// call suffix.
pub open spec fn spec_parse_unary(toks: Seq<SpecToken>, pos: int) -> Result<
    (SpecExpression, int),
    SpecParseError,
>
    recommends
        0 <= pos < toks.len(),
    decreases toks.len() - pos, 2int,
{
    match toks[pos] {
        SpecToken::Minus => {
            if pos + 1 >= toks.len() {
                Err(SpecParseError::Syntax { position: pos + 1 })
            } else {
                match spec_parse_unary(toks, pos + 1) {
                    Err(err) => Err(err),
                    Ok((expr, next)) => Ok(
                        (
                            SpecExpression::UnaryOperation {
                                op: UnaryOperator::NumeralNegation,
                                expr: Box::new(expr),
                            },
                            next,
                        ),
                    ),
                }
            }
        },
        SpecToken::Bang => {
            if pos + 1 >= toks.len() {
                Err(SpecParseError::Syntax { position: pos + 1 })
            } else {
                match spec_parse_unary(toks, pos + 1) {
                    Err(err) => Err(err),
                    Ok((expr, next)) => Ok(
                        (
                            SpecExpression::UnaryOperation {
                                op: UnaryOperator::LogicalNegation,
                                expr: Box::new(expr),
                            },
                            next,
                        ),
                    ),
                }
            }
        },
        _ => spec_parse_postfix(toks, pos),
    }
}

/// The infix continuation: having parsed `lhs`, folds in every following
/// operator whose binding strength reaches `min_precedence`, always
/// left-associatively.
pub open spec fn spec_parse_infix(
    lhs: SpecExpression,
    toks: Seq<SpecToken>,
    pos: int,
    min_precedence: int,
) -> Result<(SpecExpression, int), SpecParseError>
    decreases toks.len() - pos, 4int,
{
    if pos >= toks.len() {
        Ok((lhs, pos))
    } else {
        match spec_infix_operator(toks[pos]) {
            None => Ok((lhs, pos)),
            Some((op, precedence)) => {
                if precedence < min_precedence {
                    Ok((lhs, pos))
                } else if pos + 1 >= toks.len() {
                    Err(SpecParseError::Syntax { position: pos + 1 })
                } else {
                    match spec_parse_expression(toks, pos + 1, precedence + 1) {
                        Err(err) => Err(err),
                        Ok((rhs, p2)) => spec_parse_infix(
                            SpecExpression::BinOperation {
                                lhs: Box::new(lhs),
                                op,
                                rhs: Box::new(rhs),
                            },
                            toks,
                            spec_step(toks.len() as int, pos, p2),
                            min_precedence,
                        ),
                    }
                }
            },
        }
    }
}

/// Precedence climbing from `pos` under the given minimum binding strength.
pub open spec fn spec_parse_expression(toks: Seq<SpecToken>, pos: int, min_precedence: int) -> Result<
    (SpecExpression, int),
    SpecParseError,
>
    recommends
        0 <= pos < toks.len(),
    decreases toks.len() - pos, 5int,
{
    if pos >= toks.len() {
        Err(SpecParseError::Syntax { position: pos })
    } else {
        match spec_parse_unary(toks, pos) {
            Err(err) => Err(err),
            Ok((lhs, p)) => spec_parse_infix(
                lhs,
                toks,
                spec_step(toks.len() as int, pos, p),
                min_precedence,
            ),
        }
    }
}

/// One statement: a reassignment, a let binding, a link statement, or an
/// expression statement, each closed by a semicolon.
pub open spec fn spec_parse_statement(toks: Seq<SpecToken>, pos: int) -> Result<
    (SpecStatement, int),
    SpecParseError,
>
    recommends
        0 <= pos < toks.len(),
{
    if pos + 1 < toks.len() && toks[pos] is Identifier && toks[pos + 1] is Equals {
        let lhs = SpecExpression::Identifier(toks[pos]->Identifier_0);
        if pos + 2 >= toks.len() {
            Err(SpecParseError::Syntax { position: toks.len() as int })
        } else {
            match spec_parse_expression(toks, pos + 2, 0) {
                Err(err) => Err(err),
                Ok((rhs, p)) => if p >= toks.len() || !(toks[p] is Semicolon) {
                    Err(SpecParseError::Syntax { position: p })
                } else {
                    Ok((SpecStatement::Assignment { lhs, rhs }, p + 1))
                },
            }
        }
    } else {
        match toks[pos] {
            SpecToken::KwLet => {
                if pos + 2 >= toks.len() {
                    Err(SpecParseError::Syntax { position: toks.len() as int })
                } else {
                    match toks[pos + 1] {
                        SpecToken::Identifier(name) => {
                            if !(toks[pos + 2] is Equals) {
                                Err(SpecParseError::Syntax { position: pos + 2 })
                            } else if pos + 3 >= toks.len() {
                                Err(SpecParseError::Syntax { position: toks.len() as int })
                            } else {
                                match spec_parse_expression(toks, pos + 3, 0) {
                                    Err(err) => Err(err),
                                    Ok((rhs, p)) => if p >= toks.len() || !(toks[p] is Semicolon) {
                                        Err(SpecParseError::Syntax { position: p })
                                    } else {
                                        Ok(
                                            (
                                                SpecStatement::Assignment {
                                                    lhs: SpecExpression::Identifier(name),
                                                    rhs,
                                                },
                                                p + 1,
                                            ),
                                        )
                                    },
                                }
                            }
                        },
                        _ => Err(SpecParseError::Syntax { position: pos + 1 }),
                    }
                }
            },
            SpecToken::KwLink => {
                if pos + 2 >= toks.len() {
                    Err(SpecParseError::Syntax { position: toks.len() as int })
                } else {
                    match toks[pos + 1] {
                        SpecToken::StringLiteral(path) => {
                            if !(toks[pos + 2] is Semicolon) {
                                Err(SpecParseError::Syntax { position: pos + 2 })
                            } else {
                                Ok((SpecStatement::Link { path }, pos + 3))
                            }
                        },
                        _ => Err(SpecParseError::Syntax { position: pos + 1 }),
                    }
                }
            },
            _ => {
                match spec_parse_expression(toks, pos, 0) {
                    Err(err) => Err(err),
                    Ok((expr, p)) => if p >= toks.len() || !(toks[p] is Semicolon) {
                        Err(SpecParseError::Syntax { position: p })
                    } else {
                        Ok((SpecStatement::Expression { expr }, p + 1))
                    },
                }
            },
        }
    }
}

/// The statements of a brace-delimited block, up to and including the
/// closing brace.
pub open spec fn spec_parse_block(toks: Seq<SpecToken>, pos: int) -> Result<
    (Seq<SpecStatement>, int),
    SpecParseError,
>
    recommends
        0 <= pos <= toks.len(),
    decreases toks.len() - pos,
{
    if pos >= toks.len() {
        Err(SpecParseError::Syntax { position: toks.len() as int })
    } else if toks[pos] is RBrace {
        Ok((Seq::empty(), pos + 1))
    } else {
        match spec_parse_statement(toks, pos) {
            Err(err) => Err(err),
            Ok((statement, next)) => match spec_parse_block(toks, spec_step(toks.len() as int, pos, next)) {
                Err(err) => Err(err),
                Ok((rest, end)) => Ok((seq![statement] + rest, end)),
            },
        }
    }
}

/// `#[name]` or `#[name("content")]`; `inline` takes no content,
/// `export_as` requires one, any other name is rejected.
pub open spec fn spec_parse_attribute(toks: Seq<SpecToken>, pos: int) -> Result<
    (SpecAttribute, int),
    SpecParseError,
>
    recommends
        0 <= pos < toks.len(),
{
    if !(toks[pos] is AttributeOpen) {
        Err(SpecParseError::Syntax { position: pos })
    } else if pos + 1 >= toks.len() {
        Err(SpecParseError::Syntax { position: pos + 1 })
    } else {
        match toks[pos + 1] {
            SpecToken::Identifier(name) => {
                if pos + 2 >= toks.len() {
                    Err(SpecParseError::Syntax { position: pos + 2 })
                } else {
                    let content_result: Result<(Option<Seq<char>>, int), SpecParseError> = match toks[pos
                        + 2] {
                        SpecToken::RBracket => Ok((None, pos + 3)),
                        SpecToken::LParen => {
                            if pos + 5 >= toks.len() {
                                Err(SpecParseError::Syntax { position: toks.len() as int })
                            } else {
                                match toks[pos + 3] {
                                    SpecToken::StringLiteral(content) => {
                                        if !(toks[pos + 4] is RParen) {
                                            Err(SpecParseError::Syntax { position: pos + 4 })
                                        } else if !(toks[pos + 5] is RBracket) {
                                            Err(SpecParseError::Syntax { position: pos + 5 })
                                        } else {
                                            Ok((Some(content), pos + 6))
                                        }
                                    },
                                    _ => Err(SpecParseError::Syntax { position: pos + 3 }),
                                }
                            }
                        },
                        _ => Err(SpecParseError::Syntax { position: pos + 2 }),
                    };
                    match content_result {
                        Err(err) => Err(err),
                        Ok((content, next)) => {
                            if name == "inline"@ {
                                Ok((SpecAttribute::Inline, next))
                            } else if name == "export_as"@ {
                                match content {
                                    Some(content) => Ok((SpecAttribute::ExportAs(content), next)),
                                    None => Err(SpecParseError::AttributeMissingContent),
                                }
                            } else {
                                Err(SpecParseError::UnknownAttribute { name })
                            }
                        },
                    }
                }
            },
            _ => Err(SpecParseError::Syntax { position: pos + 1 }),
        }
    }
}

/// `function <name>( <params> ) { <body> }`; the parameter list is either
/// empty or the comma-flattening of one expression.
pub open spec fn spec_parse_function_declaration(toks: Seq<SpecToken>, pos: int) -> Result<
    (SpecFunctionDeclaration, int),
    SpecParseError,
>
    recommends
        0 <= pos < toks.len(),
{
    if !(toks[pos] is KwFunction) {
        Err(SpecParseError::Syntax { position: pos })
    } else if pos + 2 >= toks.len() {
        Err(SpecParseError::Syntax { position: toks.len() as int })
    } else {
        match toks[pos + 1] {
            SpecToken::Identifier(name) => {
                if !(toks[pos + 2] is LParen) {
                    Err(SpecParseError::Syntax { position: pos + 2 })
                } else if pos + 3 >= toks.len() {
                    Err(SpecParseError::Syntax { position: toks.len() as int })
                } else {
                    let params_result: Result<(Seq<SpecExpression>, int), SpecParseError> = if toks[pos
                        + 3] is RParen {
                        Ok((Seq::empty(), pos + 4))
                    } else {
                        match spec_parse_expression(toks, pos + 3, 0) {
                            Err(err) => Err(err),
                            Ok((params_expr, p)) => if p >= toks.len() || !(toks[p] is RParen) {
                                Err(SpecParseError::Syntax { position: p })
                            } else {
                                Ok((flatten_commas(params_expr), p + 1))
                            },
                        }
                    };
                    match params_result {
                        Err(err) => Err(err),
                        Ok((parameters, after_params)) => {
                            if after_params >= toks.len() || !(toks[after_params] is LBrace) {
                                Err(SpecParseError::Syntax { position: after_params })
                            } else {
                                match spec_parse_block(toks, after_params + 1) {
                                    Err(err) => Err(err),
                                    Ok((body, after_body)) => Ok(
                                        (
                                            SpecFunctionDeclaration { name, parameters, body },
                                            after_body,
                                        ),
                                    ),
                                }
                            }
                        },
                    }
                }
            },
            _ => Err(SpecParseError::Syntax { position: pos + 1 }),
        }
    }
}

/// One item: an attribute annotation or a function declaration.
pub open spec fn spec_parse_item(toks: Seq<SpecToken>, pos: int) -> Result<
    (SpecItem, int),
    SpecParseError,
>
    recommends
        0 <= pos < toks.len(),
{
    match toks[pos] {
        SpecToken::AttributeOpen => match spec_parse_attribute(toks, pos) {
            Err(err) => Err(err),
            Ok((attribute, next)) => Ok((SpecItem::Attribute(attribute), next)),
        },
        SpecToken::KwFunction => match spec_parse_function_declaration(toks, pos) {
            Err(err) => Err(err),
            Ok((declaration, next)) => Ok((SpecItem::FunctionDeclaration(declaration), next)),
        },
        _ => Err(SpecParseError::Syntax { position: pos }),
    }
}

/// The items of a program, running to the end of the token stream.
pub open spec fn spec_parse_items(toks: Seq<SpecToken>, pos: int) -> Result<
    Seq<SpecItem>,
    SpecParseError,
>
    recommends
        0 <= pos,
    decreases toks.len() - pos,
{
    if pos >= toks.len() {
        Ok(Seq::empty())
    } else {
        match spec_parse_item(toks, pos) {
            Err(err) => Err(err),
            Ok((item, next)) => match spec_parse_items(toks, spec_step(toks.len() as int, pos, next)) {
                Err(err) => Err(err),
                Ok(rest) => Ok(seq![item] + rest),
            },
        }
    }
}

/// A whole token stream as a program; the reserved link-statement list is
/// always empty.
pub open spec fn spec_parse_program(toks: Seq<SpecToken>) -> Result<SpecProgram, SpecParseError> {
    match spec_parse_items(toks, 0) {
        Err(err) => Err(err),
        Ok(items) => Ok(SpecProgram { link_statements: Seq::empty(), main_block: items }),
    }
}

} // verus!
