//! Syntax analysis: a hand-written tokenizer and a precedence-climbing
//! expression parser. Binary operators are all left-associative, from lowest
//! to highest precedence: comma, dot, addition and subtraction,
//! multiplication and division, power. Prefix negations bind tighter than
//! any infix operator; a call suffix `(args...)` binds tighter still and
//! chains. One syntax error aborts the whole parse; no partial tree is
//! returned.

pub mod ast;
pub mod grammar;
pub mod lexer;

pub use ast::Attribute;
pub use ast::BinOperator;
pub use ast::Expression;
pub use ast::FunctionDeclaration;
pub use ast::Item;
pub use ast::Literal;
pub use ast::Program;
pub use ast::Statement;
pub use ast::UnaryOperator;

use vstd::prelude::*;

use lexer::Token;

verus! {

/// Why a parse failed. Each variant carries the position of the offending
/// character or token; one error aborts the whole parse.
#[derive(Debug, PartialEq, Clone)]
pub enum ParseError {
    /// The tokenizer found a character that opens no token, at this
    /// character position.
    Character { position: usize },
    /// The token at this token position does not fit the grammar.
    Syntax { position: usize },
    /// An attribute with an unrecognized name.
    UnknownAttribute { name: String },
    /// `export_as` without its required content string.
    AttributeMissingContent,
}

impl DeepView for ParseError {
    type V = grammar::SpecParseError;

    open spec fn deep_view(&self) -> grammar::SpecParseError {
        match self {
            ParseError::Character { position } => grammar::SpecParseError::Character {
                position: *position as int,
            },
            ParseError::Syntax { position } => grammar::SpecParseError::Syntax {
                position: *position as int,
            },
            ParseError::UnknownAttribute { name } => grammar::SpecParseError::UnknownAttribute {
                name: name@,
            },
            ParseError::AttributeMissingContent => grammar::SpecParseError::AttributeMissingContent,
        }
    }
}

/// The syntax analyser.
#[derive(Debug, PartialEq, Clone)]
pub struct Parser {}

impl Parser {
    pub fn new() -> (r: Self)
        ensures
            r == (Parser {  }),
    {
        Parser {  }
    }

    /// Parses a whole source text: the token scan of the input, then the
    /// grammar over the tokens. The reserved link-statement list of the
    /// result is always empty.
    pub fn parse_program_from_str(&mut self, input: &str) -> (r: Result<ast::Program, ParseError>)
        ensures
            r matches Ok(p) ==> p.link_statements@.len() == 0,
            match lexer::spec_tokenize(input@) {
                Err(err) => r matches Err(re) && re.deep_view() == err,
                Ok(toks) => match grammar::spec_parse_program(toks) {
                    Ok(program) => r matches Ok(rp) && rp.deep_view() == program,
                    Err(err) => r matches Err(re) && re.deep_view() == err,
                },
            },
    {
        let chars = lexer::str_to_chars(input);
        let tokens = match lexer::tokenize(&chars) {
            Ok(tokens) => tokens,
            Err(err) => {
                return Err(err);
            },
        };
        self.parse_program(&tokens)
    }

    /// Parses a whole token stream: a sequence of items running to the end
    /// of the input. The reserved link-statement list of the result is
    /// always empty.
    pub fn parse_program(&mut self, tokens: &Vec<Token>) -> (r: Result<ast::Program, ParseError>)
        ensures
            r matches Ok(p) ==> p.link_statements@.len() == 0,
            match grammar::spec_parse_program(tokens.deep_view()) {
                Ok(program) => r matches Ok(rp) && rp.deep_view() == program,
                Err(err) => r matches Err(re) && re.deep_view() == err,
            },
    {
        let ghost toks = tokens.deep_view();
        let mut items: Vec<ast::Item> = Vec::new();
        let mut pos: usize = 0;
        let n = tokens.len();
        proof {
            assert(items.deep_view() =~= Seq::<ast::SpecItem>::empty());
        }
        while pos < n
            invariant
                pos <= n,
                n == tokens.len(),
                toks == tokens.deep_view(),
                match grammar::spec_parse_items(toks, pos as int) {
                    Ok(rest) => grammar::spec_parse_items(toks, 0) == Ok::<
                        Seq<ast::SpecItem>,
                        grammar::SpecParseError,
                    >(items.deep_view() + rest),
                    Err(err) => grammar::spec_parse_items(toks, 0) == Err::<
                        Seq<ast::SpecItem>,
                        grammar::SpecParseError,
                    >(err),
                },
            decreases n - pos,
        {
            match self.parse_item(tokens, pos) {
                Ok((item, next)) => {
                    let ghost items_before = items.deep_view();
                    let ghost item_dv = item.deep_view();
                    items.push(item);
                    pos = next;
                    proof {
                        assert(items.deep_view() =~= items_before.push(item_dv));
                        assert(forall|rest: Seq<ast::SpecItem>|
                            items_before + (seq![item_dv] + rest) =~= #[trigger] (
                            items_before.push(item_dv) + rest));
                    }
                },
                Err(err) => {
                    return Err(err);
                },
            }
        }
        proof {
            assert(items.deep_view() + Seq::<ast::SpecItem>::empty() =~= items.deep_view());
        }
        let program = ast::Program { link_statements: Vec::new(), main_block: items };
        proof {
            assert(program.link_statements.deep_view() =~= Seq::<ast::SpecStatement>::empty());
        }
        Ok(program)
    }

    /// Parses one item: an attribute annotation or a function declaration.
    fn parse_item(&self, tokens: &Vec<Token>, pos: usize) -> (r: Result<
        (ast::Item, usize),
        ParseError,
    >)
        requires
            pos < tokens.len(),
        ensures
            r matches Ok((_, next)) ==> pos < next <= tokens.len(),
            match grammar::spec_parse_item(tokens.deep_view(), pos as int) {
                Ok((item, next)) => r matches Ok((ri, rnext)) && ri.deep_view() == item
                    && rnext as int == next,
                Err(err) => r matches Err(re) && re.deep_view() == err,
            },
    {
        proof {
            assert(tokens.deep_view()[pos as int] == tokens@[pos as int].deep_view());
        }
        match &tokens[pos] {
            Token::AttributeOpen => match self.parse_attribute(tokens, pos) {
                Ok((attribute, next)) => Ok((ast::Item::Attribute(attribute), next)),
                Err(err) => Err(err),
            },
            Token::KwFunction => match self.parse_function_declaration(tokens, pos) {
                Ok((declaration, next)) => Ok((ast::Item::FunctionDeclaration(declaration), next)),
                Err(err) => Err(err),
            },
            _ => Err(ParseError::Syntax { position: pos }),
        }
    }

    /// Parses `#[name]` or `#[name("content")]`. `inline` takes no content;
    /// `export_as` requires one (its absence is a parse-level error, not
    /// silently defaulted); any other name is rejected.
    fn parse_attribute(&self, tokens: &Vec<Token>, pos: usize) -> (r: Result<
        (ast::Attribute, usize),
        ParseError,
    >)
        requires
            pos < tokens.len(),
        ensures
            r matches Ok((_, next)) ==> pos < next <= tokens.len(),
            match grammar::spec_parse_attribute(tokens.deep_view(), pos as int) {
                Ok((attribute, next)) => r matches Ok((ra, rnext)) && ra.deep_view() == attribute
                    && rnext as int == next,
                Err(err) => r matches Err(re) && re.deep_view() == err,
            },
    {
        proof {
            assert(forall|i: int|
                0 <= i < tokens.deep_view().len() ==> #[trigger] tokens.deep_view()[i]
                    == tokens@[i].deep_view());
        }
        if !matches!(&tokens[pos], Token::AttributeOpen) {
            return Err(ParseError::Syntax { position: pos });
        }
        if pos + 1 >= tokens.len() {
            return Err(ParseError::Syntax { position: pos + 1 });
        }
        let name = match &tokens[pos + 1] {
            Token::Identifier(name) => name,
            _ => {
                return Err(ParseError::Syntax { position: pos + 1 });
            },
        };
        if tokens.len() - pos <= 2 {
            return Err(ParseError::Syntax { position: pos + 2 });
        }
        let (content, next) = match &tokens[pos + 2] {
            Token::RBracket => (None, pos + 3),
            Token::LParen => {
                if tokens.len() - pos <= 5 {
                    return Err(ParseError::Syntax { position: tokens.len() });
                }
                let content = match &tokens[pos + 3] {
                    Token::StringLiteral(content) => content,
                    _ => {
                        return Err(ParseError::Syntax { position: pos + 3 });
                    },
                };
                if !matches!(&tokens[pos + 4], Token::RParen) {
                    return Err(ParseError::Syntax { position: pos + 4 });
                }
                if !matches!(&tokens[pos + 5], Token::RBracket) {
                    return Err(ParseError::Syntax { position: pos + 5 });
                }
                (Some(content.clone()), pos + 6)
            },
            _ => {
                return Err(ParseError::Syntax { position: pos + 2 });
            },
        };
        if lexer::str_equal(name.as_str(), "inline") {
            Ok((ast::Attribute::Inline, next))
        } else if lexer::str_equal(name.as_str(), "export_as") {
            match content {
                Some(content) => Ok((ast::Attribute::ExportAs(content), next)),
                None => Err(ParseError::AttributeMissingContent),
            }
        } else {
            Err(ParseError::UnknownAttribute { name: name.clone() })
        }
    }

    /// Parses `function <name>( <params> ) { <body> }`. The parameter list
    /// is either empty or one comma-flattened expression.
    fn parse_function_declaration(&self, tokens: &Vec<Token>, pos: usize) -> (r: Result<
        (ast::FunctionDeclaration, usize),
        ParseError,
    >)
        requires
            pos < tokens.len(),
        ensures
            r matches Ok((_, next)) ==> pos < next <= tokens.len(),
            match grammar::spec_parse_function_declaration(tokens.deep_view(), pos as int) {
                Ok((declaration, next)) => r matches Ok((rd, rnext)) && rd.deep_view()
                    == declaration && rnext as int == next,
                Err(err) => r matches Err(re) && re.deep_view() == err,
            },
    {
        proof {
            assert(forall|i: int|
                0 <= i < tokens.deep_view().len() ==> #[trigger] tokens.deep_view()[i]
                    == tokens@[i].deep_view());
        }
        if !matches!(&tokens[pos], Token::KwFunction) {
            return Err(ParseError::Syntax { position: pos });
        }
        if tokens.len() - pos <= 2 {
            return Err(ParseError::Syntax { position: tokens.len() });
        }
        let name = match &tokens[pos + 1] {
            Token::Identifier(name) => name.clone(),
            _ => {
                return Err(ParseError::Syntax { position: pos + 1 });
            },
        };
        if !matches!(&tokens[pos + 2], Token::LParen) {
            return Err(ParseError::Syntax { position: pos + 2 });
        }
        if tokens.len() - pos <= 3 {
            return Err(ParseError::Syntax { position: tokens.len() });
        }
        let (parameters, after_params) = if matches!(&tokens[pos + 3], Token::RParen) {
            (Vec::new(), pos + 4)
        } else {
            let (params_expr, p) = match self.parse_expression(tokens, pos + 3, 0) {
                Ok(parsed) => parsed,
                Err(err) => {
                    return Err(err);
                },
            };
            if p >= tokens.len() || !matches!(&tokens[p], Token::RParen) {
                return Err(ParseError::Syntax { position: p });
            }
            let params = match self.expand_comma_expression(params_expr) {
                Ok(params) => params,
                Err(err) => {
                    return Err(err);
                },
            };
            (params, p + 1)
        };
        if after_params >= tokens.len() || !matches!(&tokens[after_params], Token::LBrace) {
            return Err(ParseError::Syntax { position: after_params });
        }
        let (body, after_body) = match self.parse_block(tokens, after_params + 1) {
            Ok(parsed) => parsed,
            Err(err) => {
                return Err(err);
            },
        };
        Ok((ast::FunctionDeclaration { name, parameters, body }, after_body))
    }

    /// Parses the statements of a brace-delimited block, consuming the
    /// closing brace.
    fn parse_block(&self, tokens: &Vec<Token>, pos: usize) -> (r: Result<
        (Vec<ast::Statement>, usize),
        ParseError,
    >)
        requires
            pos <= tokens.len(),
        ensures
            r matches Ok((_, next)) ==> pos < next <= tokens.len(),
            match grammar::spec_parse_block(tokens.deep_view(), pos as int) {
                Ok((body, next)) => r matches Ok((rb, rnext)) && rb.deep_view() == body
                    && rnext as int == next,
                Err(err) => r matches Err(re) && re.deep_view() == err,
            },
    {
        let ghost toks = tokens.deep_view();
        proof {
            assert(forall|i: int|
                0 <= i < toks.len() ==> #[trigger] toks[i] == tokens@[i].deep_view());
        }
        let mut statements: Vec<ast::Statement> = Vec::new();
        let mut p = pos;
        let n = tokens.len();
        proof {
            assert(statements.deep_view() =~= Seq::<ast::SpecStatement>::empty());
        }
        while p < n
            invariant
                pos <= p <= n,
                n == tokens.len(),
                toks == tokens.deep_view(),
                match grammar::spec_parse_block(toks, p as int) {
                    Ok((rest, end)) => grammar::spec_parse_block(toks, pos as int) == Ok::<
                        (Seq<ast::SpecStatement>, int),
                        grammar::SpecParseError,
                    >((statements.deep_view() + rest, end)),
                    Err(err) => grammar::spec_parse_block(toks, pos as int) == Err::<
                        (Seq<ast::SpecStatement>, int),
                        grammar::SpecParseError,
                    >(err),
                },
            decreases n - p,
        {
            proof {
                assert(toks[p as int] == tokens@[p as int].deep_view());
            }
            if matches!(&tokens[p], Token::RBrace) {
                proof {
                    assert(statements.deep_view() + Seq::<ast::SpecStatement>::empty()
                        =~= statements.deep_view());
                }
                return Ok((statements, p + 1));
            }
            match self.parse_statement(tokens, p) {
                Ok((statement, next)) => {
                    let ghost stmts_before = statements.deep_view();
                    let ghost stmt_dv = statement.deep_view();
                    statements.push(statement);
                    p = next;
                    proof {
                        assert(statements.deep_view() =~= stmts_before.push(stmt_dv));
                        assert(forall|rest: Seq<ast::SpecStatement>|
                            stmts_before + (seq![stmt_dv] + rest) =~= #[trigger] (
                            stmts_before.push(stmt_dv) + rest));
                    }
                },
                Err(err) => {
                    return Err(err);
                },
            }
        }
        Err(ParseError::Syntax { position: n })
    }

    /// Parses one statement: `let x = e;`, a reassignment `x = e;`, a
    /// reserved link statement `link "path";`, or an expression statement
    /// `e;`.
    fn parse_statement(&self, tokens: &Vec<Token>, pos: usize) -> (r: Result<
        (ast::Statement, usize),
        ParseError,
    >)
        requires
            pos < tokens.len(),
        ensures
            r matches Ok((_, next)) ==> pos < next <= tokens.len(),
            match grammar::spec_parse_statement(tokens.deep_view(), pos as int) {
                Ok((st, next)) => r matches Ok((rs, rnext)) && rs.deep_view() == st && rnext as int
                    == next,
                Err(err) => r matches Err(re) && re.deep_view() == err,
            },
    {
        let ghost toks = tokens.deep_view();
        proof {
            assert(forall|i: int|
                0 <= i < toks.len() ==> #[trigger] toks[i] == tokens@[i].deep_view());
        }
        if pos + 1 < tokens.len() && matches!(&tokens[pos], Token::Identifier(_)) && matches!(
            &tokens[pos + 1],
            Token::Equals,
        ) {
            let lhs = match &tokens[pos] {
                Token::Identifier(name) => ast::Expression::Identifier(name.clone()),
                _ => {
                    return Err(ParseError::Syntax { position: pos });
                },
            };
            if tokens.len() - pos <= 2 {
                return Err(ParseError::Syntax { position: tokens.len() });
            }
            let (rhs, p) = match self.parse_expression(tokens, pos + 2, 0) {
                Ok(parsed) => parsed,
                Err(err) => {
                    return Err(err);
                },
            };
            if p >= tokens.len() || !matches!(&tokens[p], Token::Semicolon) {
                return Err(ParseError::Syntax { position: p });
            }
            return Ok((ast::Statement::Assignment { lhs, rhs }, p + 1));
        }
        match &tokens[pos] {
            Token::KwLet => {
                if tokens.len() - pos <= 2 {
                    return Err(ParseError::Syntax { position: tokens.len() });
                }
                let lhs = match &tokens[pos + 1] {
                    Token::Identifier(name) => ast::Expression::Identifier(name.clone()),
                    _ => {
                        return Err(ParseError::Syntax { position: pos + 1 });
                    },
                };
                if !matches!(&tokens[pos + 2], Token::Equals) {
                    return Err(ParseError::Syntax { position: pos + 2 });
                }
                if tokens.len() - pos <= 3 {
                    return Err(ParseError::Syntax { position: tokens.len() });
                }
                let (rhs, p) = match self.parse_expression(tokens, pos + 3, 0) {
                    Ok(parsed) => parsed,
                    Err(err) => {
                        return Err(err);
                    },
                };
                if p >= tokens.len() || !matches!(&tokens[p], Token::Semicolon) {
                    return Err(ParseError::Syntax { position: p });
                }
                Ok((ast::Statement::Assignment { lhs, rhs }, p + 1))
            },
            Token::KwLink => {
                if tokens.len() - pos <= 2 {
                    return Err(ParseError::Syntax { position: tokens.len() });
                }
                let path = match &tokens[pos + 1] {
                    Token::StringLiteral(path) => path.clone(),
                    _ => {
                        return Err(ParseError::Syntax { position: pos + 1 });
                    },
                };
                if !matches!(&tokens[pos + 2], Token::Semicolon) {
                    return Err(ParseError::Syntax { position: pos + 2 });
                }
                Ok((ast::Statement::Link { path }, pos + 3))
            },
            _ => {
                let (expr, p) = match self.parse_expression(tokens, pos, 0) {
                    Ok(parsed) => parsed,
                    Err(err) => {
                        return Err(err);
                    },
                };
                if p >= tokens.len() || !matches!(&tokens[p], Token::Semicolon) {
                    return Err(ParseError::Syntax { position: p });
                }
                Ok((ast::Statement::Expression { expr }, p + 1))
            },
        }
    }

    /// The binding strength and operator of an infix token, if it is one.
    fn infix_operator(token: &Token) -> (r: Option<(ast::BinOperator, u32)>)
        ensures
            match grammar::spec_infix_operator(token.deep_view()) {
                Some((op, precedence)) => r matches Some((rop, rprec)) && rop == op && rprec as int
                    == precedence && rprec <= 5,
                None => r is None,
            },
    {
        match token {
            Token::Comma => Some((ast::BinOperator::Comma, 1)),
            Token::Dot => Some((ast::BinOperator::Dot, 2)),
            Token::Plus => Some((ast::BinOperator::Addition, 3)),
            Token::Minus => Some((ast::BinOperator::Subtraction, 3)),
            Token::Star => Some((ast::BinOperator::Multiplication, 4)),
            Token::Slash => Some((ast::BinOperator::Division, 4)),
            Token::Caret => Some((ast::BinOperator::Power, 5)),
            _ => None,
        }
    }

    /// Whether the infix loop continues at `p` under the given minimum
    /// binding strength.
    fn continues_infix(tokens: &Vec<Token>, p: usize, min_precedence: u32) -> (r: bool)
        requires
            p <= tokens.len(),
        ensures
            r == (p < tokens.len() && match grammar::spec_infix_operator(
                tokens.deep_view()[p as int],
            ) {
                Some((_, precedence)) => precedence >= min_precedence,
                None => false,
            }),
    {
        if p >= tokens.len() {
            return false;
        }
        proof {
            assert(tokens.deep_view()[p as int] == tokens@[p as int].deep_view());
        }
        match Self::infix_operator(&tokens[p]) {
            Some((_, precedence)) => precedence >= min_precedence,
            None => false,
        }
    }

    /// Precedence climbing over the infix operators; every operator is
    /// left-associative.
    fn parse_expression(&self, tokens: &Vec<Token>, pos: usize, min_precedence: u32) -> (r: Result<
        (ast::Expression, usize),
        ParseError,
    >)
        requires
            pos < tokens.len(),
        ensures
            r matches Ok((_, next)) ==> pos < next <= tokens.len(),
            match grammar::spec_parse_expression(
                tokens.deep_view(),
                pos as int,
                min_precedence as int,
            ) {
                Ok((e, next)) => r matches Ok((re, rnext)) && re.deep_view() == e && rnext as int
                    == next,
                Err(err) => r matches Err(re) && re.deep_view() == err,
            },
        decreases tokens.len() - pos, 3int,
    {
        let ghost toks = tokens.deep_view();
        let (mut lhs, mut p) = match self.parse_unary(tokens, pos) {
            Ok(parsed) => parsed,
            Err(err) => {
                return Err(err);
            },
        };
        proof {
            assert(grammar::spec_parse_expression(toks, pos as int, min_precedence as int)
                == grammar::spec_parse_infix(
                lhs.deep_view(),
                toks,
                p as int,
                min_precedence as int,
            ));
        }
        while Self::continues_infix(tokens, p, min_precedence)
            invariant
                pos < p <= tokens.len(),
                toks == tokens.deep_view(),
                grammar::spec_parse_expression(toks, pos as int, min_precedence as int)
                    == grammar::spec_parse_infix(
                    lhs.deep_view(),
                    toks,
                    p as int,
                    min_precedence as int,
                ),
            decreases tokens.len() - p,
        {
            proof {
                assert(toks[p as int] == tokens@[p as int].deep_view());
            }
            let (op, precedence) = match Self::infix_operator(&tokens[p]) {
                Some(operator) => operator,
                None => vstd::pervasive::unreached(),
            };
            if p + 1 >= tokens.len() {
                return Err(ParseError::Syntax { position: p + 1 });
            }
            let ghost lhs_dv = lhs.deep_view();
            let (rhs, p2) = match self.parse_expression(tokens, p + 1, precedence + 1) {
                Ok(parsed) => parsed,
                Err(err) => {
                    return Err(err);
                },
            };
            let ghost rhs_dv = rhs.deep_view();
            lhs = ast::Expression::BinOperation { lhs: Box::new(lhs), op, rhs: Box::new(rhs) };
            p = p2;
            proof {
                assert(lhs.deep_view() =~~= (ast::SpecExpression::BinOperation {
                    lhs: Box::new(lhs_dv),
                    op,
                    rhs: Box::new(rhs_dv),
                }));
            }
        }
        Ok((lhs, p))
    }

    /// Prefix negations; they bind tighter than any infix operator and
    /// looser than a call suffix.
    fn parse_unary(&self, tokens: &Vec<Token>, pos: usize) -> (r: Result<
        (ast::Expression, usize),
        ParseError,
    >)
        requires
            pos < tokens.len(),
        ensures
            r matches Ok((_, next)) ==> pos < next <= tokens.len(),
            match grammar::spec_parse_unary(tokens.deep_view(), pos as int) {
                Ok((e, next)) => r matches Ok((re, rnext)) && re.deep_view() == e && rnext as int
                    == next,
                Err(err) => r matches Err(re) && re.deep_view() == err,
            },
        decreases tokens.len() - pos, 2int,
    {
        match &tokens[pos] {
            Token::Minus => {
                if pos + 1 >= tokens.len() {
                    return Err(ParseError::Syntax { position: pos + 1 });
                }
                match self.parse_unary(tokens, pos + 1) {
                    Ok((expr, next)) => Ok(
                        (
                            ast::Expression::UnaryOperation {
                                op: ast::UnaryOperator::NumeralNegation,
                                expr: Box::new(expr),
                            },
                            next,
                        ),
                    ),
                    Err(err) => Err(err),
                }
            },
            Token::Bang => {
                if pos + 1 >= tokens.len() {
                    return Err(ParseError::Syntax { position: pos + 1 });
                }
                match self.parse_unary(tokens, pos + 1) {
                    Ok((expr, next)) => Ok(
                        (
                            ast::Expression::UnaryOperation {
                                op: ast::UnaryOperator::LogicalNegation,
                                expr: Box::new(expr),
                            },
                            next,
                        ),
                    ),
                    Err(err) => Err(err),
                }
            },
            _ => self.parse_postfix(tokens, pos),
        }
    }

    /// Whether the token at `p` opens a call suffix.
    fn opens_call(tokens: &Vec<Token>, p: usize) -> (r: bool)
        requires
            p <= tokens.len(),
        ensures
            r == (p < tokens.len() && tokens.deep_view()[p as int] is LParen),
    {
        if p >= tokens.len() {
            return false;
        }
        proof {
            assert(tokens.deep_view()[p as int] == tokens@[p as int].deep_view());
        }
        matches!(&tokens[p], Token::LParen)
    }

    /// A primary expression followed by any number of call suffixes
    /// `(args...)`; each suffix attaches to the expression before it.
    fn parse_postfix(&self, tokens: &Vec<Token>, pos: usize) -> (r: Result<
        (ast::Expression, usize),
        ParseError,
    >)
        requires
            pos < tokens.len(),
        ensures
            r matches Ok((_, next)) ==> pos < next <= tokens.len(),
            match grammar::spec_parse_postfix(tokens.deep_view(), pos as int) {
                Ok((e, next)) => r matches Ok((re, rnext)) && re.deep_view() == e && rnext as int
                    == next,
                Err(err) => r matches Err(re) && re.deep_view() == err,
            },
        decreases tokens.len() - pos, 1int,
    {
        let ghost toks = tokens.deep_view();
        let (mut expr, mut p) = match self.parse_primary(tokens, pos) {
            Ok(parsed) => parsed,
            Err(err) => {
                return Err(err);
            },
        };
        proof {
            assert(grammar::spec_parse_postfix(toks, pos as int)
                == grammar::spec_parse_call_suffixes(expr.deep_view(), toks, p as int));
        }
        while Self::opens_call(tokens, p)
            invariant
                pos < p <= tokens.len(),
                toks == tokens.deep_view(),
                grammar::spec_parse_postfix(toks, pos as int)
                    == grammar::spec_parse_call_suffixes(expr.deep_view(), toks, p as int),
            decreases tokens.len() - p,
        {
            if p + 1 >= tokens.len() {
                return Err(ParseError::Syntax { position: p + 1 });
            }
            proof {
                assert(toks[p + 1 as int] == tokens@[p + 1 as int].deep_view());
            }
            if matches!(&tokens[p + 1], Token::RParen) {
                let ghost expr_dv = expr.deep_view();
                let empty_args: Vec<ast::Expression> = Vec::new();
                proof {
                    assert(ast::deep_view_expressions(empty_args@) =~= Seq::empty());
                }
                expr = ast::Expression::Call { function: Box::new(expr), arguments: empty_args };
                p = p + 2;
                proof {
                    assert(expr.deep_view() =~~= (ast::SpecExpression::Call {
                        function: Box::new(expr_dv),
                        arguments: Seq::empty(),
                    }));
                }
            } else {
                let (args_expr, p2) = match self.parse_expression(tokens, p + 1, 0) {
                    Ok(parsed) => parsed,
                    Err(err) => {
                        return Err(err);
                    },
                };
                if p2 >= tokens.len() || !matches!(&tokens[p2], Token::RParen) {
                    proof {
                        if (p2 as int) < toks.len() {
                            assert(toks[p2 as int] == tokens@[p2 as int].deep_view());
                        }
                    }
                    return Err(ParseError::Syntax { position: p2 });
                }
                proof {
                    assert(toks[p2 as int] == tokens@[p2 as int].deep_view());
                }
                let ghost args_expr_dv = args_expr.deep_view();
                let arguments = match self.expand_comma_expression(args_expr) {
                    Ok(arguments) => arguments,
                    Err(err) => {
                        return Err(err);
                    },
                };
                proof {
                    ast::lemma_deep_view_expressions_is_deep_view(arguments);
                }
                let ghost expr_dv = expr.deep_view();
                expr = ast::Expression::Call { function: Box::new(expr), arguments };
                p = p2 + 1;
                proof {
                    assert(expr.deep_view() =~~= (ast::SpecExpression::Call {
                        function: Box::new(expr_dv),
                        arguments: ast::flatten_commas(args_expr_dv),
                    }));
                }
            }
        }
        Ok((expr, p))
    }

    /// A literal, an identifier, a block id, or a parenthesized expression.
    fn parse_primary(&self, tokens: &Vec<Token>, pos: usize) -> (r: Result<
        (ast::Expression, usize),
        ParseError,
    >)
        requires
            pos < tokens.len(),
        ensures
            r matches Ok((_, next)) ==> pos < next <= tokens.len(),
            match grammar::spec_parse_primary(tokens.deep_view(), pos as int) {
                Ok((e, next)) => r matches Ok((re, rnext)) && re.deep_view() == e && rnext as int
                    == next,
                Err(err) => r matches Err(re) && re.deep_view() == err,
            },
        decreases tokens.len() - pos, 0int,
    {
        match &tokens[pos] {
            Token::Identifier(name) => Ok((ast::Expression::Identifier(name.clone()), pos + 1)),
            Token::BlockId(id) => Ok((ast::Expression::CWScriptBlockID(id.clone()), pos + 1)),
            Token::IntegerLiteral(text) => Ok(
                (ast::Expression::Literal(ast::Literal::Integer(text.clone())), pos + 1),
            ),
            Token::FloatLiteral(text) => Ok(
                (ast::Expression::Literal(ast::Literal::Float(text.clone())), pos + 1),
            ),
            Token::StringLiteral(text) => Ok(
                (ast::Expression::Literal(ast::Literal::String(text.clone())), pos + 1),
            ),
            Token::RawStringLiteral(text) => Ok(
                (ast::Expression::Literal(ast::Literal::RawString(text.clone())), pos + 1),
            ),
            Token::BooleanLiteral(b) => Ok(
                (ast::Expression::Literal(ast::Literal::Bool(*b)), pos + 1),
            ),
            Token::LParen => {
                if pos + 1 >= tokens.len() {
                    return Err(ParseError::Syntax { position: pos + 1 });
                }
                let (expr, p) = match self.parse_expression(tokens, pos + 1, 0) {
                    Ok(parsed) => parsed,
                    Err(err) => {
                        return Err(err);
                    },
                };
                if p >= tokens.len() || !matches!(&tokens[p], Token::RParen) {
                    return Err(ParseError::Syntax { position: p });
                }
                Ok((expr, p + 1))
            },
            _ => Err(ParseError::Syntax { position: pos }),
        }
    }

    /// Reads a boolean literal token.
    pub fn parse_boolean_literal(&self, token: &Token) -> (r: Result<bool, ParseError>)
        ensures
            token matches Token::BooleanLiteral(b) ==> r matches Ok(rb) && rb == b,
            !(token is BooleanLiteral) ==> r is Err,
    {
        match token {
            Token::BooleanLiteral(b) => Ok(*b),
            _ => Err(ParseError::Syntax { position: 0 }),
        }
    }

    /// Flattens a left-associative comma chain into its ordered element
    /// list; a single non-comma expression yields a one-element list.
    pub fn expand_comma_expression(&self, input: ast::Expression) -> (r: Result<
        Vec<ast::Expression>,
        ParseError,
    >)
        ensures
            r matches Ok(v) && v.deep_view() == ast::flatten_commas(
                ast::deep_view_expression(input),
            ),
        decreases input,
    {
        let ghost input_dv = ast::deep_view_expression(input);
        match input {
            ast::Expression::BinOperation { lhs, op: ast::BinOperator::Comma, rhs } => {
                let mut flattened = match self.expand_comma_expression(*lhs) {
                    Ok(flattened) => flattened,
                    Err(err) => {
                        return Err(err);
                    },
                };
                let ghost front = flattened.deep_view();
                let ghost rhs_dv = ast::deep_view_expression(*rhs);
                flattened.push(*rhs);
                proof {
                    assert(flattened.deep_view() =~~= front.push(rhs_dv));
                    assert(ast::flatten_commas(input_dv) =~~= front.push(rhs_dv));
                }
                Ok(flattened)
            },
            other => {
                let ghost other_dv = ast::deep_view_expression(other);
                let mut single: Vec<ast::Expression> = Vec::new();
                single.push(other);
                proof {
                    assert(single.deep_view() =~~= seq![other_dv]);
                    assert(ast::flatten_commas(input_dv) =~~= seq![other_dv]);
                }
                Ok(single)
            },
        }
    }
}

} // verus!
