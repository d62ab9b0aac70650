//! The syntax tree produced by the parser, together with its mathematical
//! model: each node type has a spec-level mirror over `Seq<char>` reached
//! through `DeepView`.

use vstd::prelude::*;

verus! {

/// A whole source file: reserved link statements (currently always empty)
/// and the items of the main block.
#[derive(Debug, PartialEq)]
pub struct Program {
    pub link_statements: Vec<Statement>,
    pub main_block: Vec<Item>,
}

/// A top-level item: a function declaration, or an attribute annotation that
/// binds to the next function declaration.
#[derive(Debug, PartialEq)]
pub enum Item {
    FunctionDeclaration(FunctionDeclaration),
    Attribute(Attribute),
}

/// `function <name>(<params>) { <body> }`.
#[derive(Debug, PartialEq)]
pub struct FunctionDeclaration {
    pub name: String,
    pub parameters: Vec<Expression>,
    pub body: Vec<Statement>,
}

/// A declaration-level annotation, `#[inline]` or `#[export_as("name")]`.
#[derive(Debug, PartialEq, Clone)]
pub enum Attribute {
    Inline,
    ExportAs(String),
}

#[derive(Debug, PartialEq)]
pub enum Statement {
    Expression { expr: Expression },
    Assignment { lhs: Expression, rhs: Expression },
    Link { path: String },
}

/// Literals keep their original textual form; no numeric parsing happens at
/// this stage, because the target format consumes literal text.
#[derive(Debug, PartialEq, Clone)]
pub enum Literal {
    Integer(String),
    Float(String),
    String(String),
    RawString(String),
    Bool(bool),
}

#[derive(Debug, PartialEq)]
pub enum Expression {
    Literal(Literal),
    CWScriptBlockID(String),
    Identifier(String),
    BinOperation { lhs: Box<Expression>, op: BinOperator, rhs: Box<Expression> },
    UnaryOperation { op: UnaryOperator, expr: Box<Expression> },
    Call { function: Box<Expression>, arguments: Vec<Expression> },
}

#[derive(Debug, PartialEq, Eq, Structural, Clone, Copy)]
pub enum BinOperator {
    Addition,
    Subtraction,
    Multiplication,
    Division,
    Power,
    Dot,
    Comma,
}

#[derive(Debug, PartialEq, Eq, Structural, Clone, Copy)]
pub enum UnaryOperator {
    NumeralNegation,
    LogicalNegation,
}

/// Spec-level mirror of `Literal`.
#[verifier::ext_equal]
pub enum SpecLiteral {
    Integer(Seq<char>),
    Float(Seq<char>),
    String(Seq<char>),
    RawString(Seq<char>),
    Bool(bool),
}

/// Spec-level mirror of `Expression`.
#[verifier::ext_equal]
pub enum SpecExpression {
    Literal(SpecLiteral),
    CWScriptBlockID(Seq<char>),
    Identifier(Seq<char>),
    BinOperation { lhs: Box<SpecExpression>, op: BinOperator, rhs: Box<SpecExpression> },
    UnaryOperation { op: UnaryOperator, expr: Box<SpecExpression> },
    Call { function: Box<SpecExpression>, arguments: Seq<SpecExpression> },
}

/// Spec-level mirror of `Statement`.
#[verifier::ext_equal]
pub enum SpecStatement {
    Expression { expr: SpecExpression },
    Assignment { lhs: SpecExpression, rhs: SpecExpression },
    Link { path: Seq<char> },
}

/// Spec-level mirror of `Attribute`.
#[verifier::ext_equal]
pub enum SpecAttribute {
    Inline,
    ExportAs(Seq<char>),
}

/// Spec-level mirror of `FunctionDeclaration`.
#[verifier::ext_equal]
pub struct SpecFunctionDeclaration {
    pub name: Seq<char>,
    pub parameters: Seq<SpecExpression>,
    pub body: Seq<SpecStatement>,
}

/// Spec-level mirror of `Item`.
#[verifier::ext_equal]
pub enum SpecItem {
    FunctionDeclaration(SpecFunctionDeclaration),
    Attribute(SpecAttribute),
}

/// Spec-level mirror of `Program`.
#[verifier::ext_equal]
pub struct SpecProgram {
    pub link_statements: Seq<SpecStatement>,
    pub main_block: Seq<SpecItem>,
}

impl DeepView for Literal {
    type V = SpecLiteral;

    open spec fn deep_view(&self) -> SpecLiteral {
        match self {
            Literal::Integer(s) => SpecLiteral::Integer(s@),
            Literal::Float(s) => SpecLiteral::Float(s@),
            Literal::String(s) => SpecLiteral::String(s@),
            Literal::RawString(s) => SpecLiteral::RawString(s@),
            Literal::Bool(b) => SpecLiteral::Bool(*b),
        }
    }
}

/// Structural view of one expression; recursion is kept in free spec
/// functions so that the `DeepView` impl itself stays non-recursive.
pub open spec fn deep_view_expression(e: Expression) -> SpecExpression
    decreases e,
{
    match e {
        Expression::Literal(l) => SpecExpression::Literal(l.deep_view()),
        Expression::CWScriptBlockID(s) => SpecExpression::CWScriptBlockID(s@),
        Expression::Identifier(s) => SpecExpression::Identifier(s@),
        Expression::BinOperation { lhs, op, rhs } => SpecExpression::BinOperation {
            lhs: Box::new(deep_view_expression(*lhs)),
            op,
            rhs: Box::new(deep_view_expression(*rhs)),
        },
        Expression::UnaryOperation { op, expr } => SpecExpression::UnaryOperation {
            op,
            expr: Box::new(deep_view_expression(*expr)),
        },
        Expression::Call { function, arguments } => SpecExpression::Call {
            function: Box::new(deep_view_expression(*function)),
            arguments: deep_view_expressions(arguments@),
        },
    }
}

/// Elementwise view of a sequence of expressions; mutually recursive with
/// `deep_view_expression`.
pub open spec fn deep_view_expressions(es: Seq<Expression>) -> Seq<SpecExpression>
    decreases es,
{
    if es.len() == 0 {
        Seq::empty()
    } else {
        deep_view_expressions(es.subrange(0, es.len() - 1)).push(
            deep_view_expression(es.last()),
        )
    }
}

impl DeepView for Expression {
    type V = SpecExpression;

    open spec fn deep_view(&self) -> SpecExpression {
        deep_view_expression(*self)
    }
}

/// `deep_view_expressions` is the elementwise map of `deep_view`.
pub proof fn lemma_deep_view_expressions(es: Seq<Expression>)
    ensures
        deep_view_expressions(es).len() == es.len(),
        forall|i: int|
            0 <= i < es.len() ==> deep_view_expressions(es)[i] == #[trigger] es[i].deep_view(),
    decreases es,
{
    if es.len() > 0 {
        let front = es.subrange(0, es.len() - 1);
        lemma_deep_view_expressions(front);
        assert forall|i: int| 0 <= i < es.len() implies deep_view_expressions(es)[i]
            == #[trigger] es[i].deep_view() by {
            if i < es.len() - 1 {
                assert(front[i] == es[i]);
                assert(deep_view_expressions(es)[i] == deep_view_expressions(front)[i]);
            } else {
                assert(es.last() == es[i]);
            }
        }
    }
}

/// The two elementwise views of an expression vector agree.
pub proof fn lemma_deep_view_expressions_is_deep_view(v: Vec<Expression>)
    ensures
        deep_view_expressions(v@) == v.deep_view(),
{
    lemma_deep_view_expressions(v@);
    assert(deep_view_expressions(v@) =~= v.deep_view());
}

impl DeepView for Statement {
    type V = SpecStatement;

    open spec fn deep_view(&self) -> SpecStatement {
        match self {
            Statement::Expression { expr } => SpecStatement::Expression { expr: expr.deep_view() },
            Statement::Assignment { lhs, rhs } => SpecStatement::Assignment {
                lhs: lhs.deep_view(),
                rhs: rhs.deep_view(),
            },
            Statement::Link { path } => SpecStatement::Link { path: path@ },
        }
    }
}

impl DeepView for Attribute {
    type V = SpecAttribute;

    open spec fn deep_view(&self) -> SpecAttribute {
        match self {
            Attribute::Inline => SpecAttribute::Inline,
            Attribute::ExportAs(s) => SpecAttribute::ExportAs(s@),
        }
    }
}

impl DeepView for FunctionDeclaration {
    type V = SpecFunctionDeclaration;

    open spec fn deep_view(&self) -> SpecFunctionDeclaration {
        SpecFunctionDeclaration {
            name: self.name@,
            parameters: self.parameters.deep_view(),
            body: self.body.deep_view(),
        }
    }
}

impl DeepView for Item {
    type V = SpecItem;

    open spec fn deep_view(&self) -> SpecItem {
        match self {
            Item::FunctionDeclaration(f) => SpecItem::FunctionDeclaration(f.deep_view()),
            Item::Attribute(a) => SpecItem::Attribute(a.deep_view()),
        }
    }
}

impl DeepView for Program {
    type V = SpecProgram;

    open spec fn deep_view(&self) -> SpecProgram {
        SpecProgram {
            link_statements: self.link_statements.deep_view(),
            main_block: self.main_block.deep_view(),
        }
    }
}

/// The comma operator is left-associative, so a parsed argument or parameter
/// list `a, b, c` is a left-nested chain of `Comma` nodes. Flattening
/// recurses on the left operand only and stops at the first non-comma node,
/// preserving the original left-to-right order.
pub open spec fn flatten_commas(e: SpecExpression) -> Seq<SpecExpression>
    decreases e,
{
    match e {
        SpecExpression::BinOperation { lhs, op: BinOperator::Comma, rhs } => flatten_commas(
            *lhs,
        ).push(*rhs),
        _ => seq![e],
    }
}

/// Rebuilds a left-associative comma chain out of an ordered element list;
/// the shape in which the expression parser hands a list of at least one
/// element to `flatten_commas`.
pub open spec fn comma_chain(es: Seq<SpecExpression>) -> SpecExpression
    recommends
        es.len() >= 1,
    decreases es.len(),
{
    if es.len() <= 1 {
        es[0]
    } else {
        SpecExpression::BinOperation {
            lhs: Box::new(comma_chain(es.subrange(0, es.len() - 1))),
            op: BinOperator::Comma,
            rhs: Box::new(es.last()),
        }
    }
}

/// Comma flattening is exact: for any arity >= 1, flattening the
/// left-associative comma chain over `es` yields exactly `es` in order,
/// provided the first element is not itself a comma node (a chain head that
/// is one would simply keep flattening). A single non-comma expression
/// yields a one-element list by definition of `flatten_commas`.
pub proof fn lemma_flatten_comma_chain(es: Seq<SpecExpression>)
    requires
        es.len() >= 1,
        !(es[0] matches SpecExpression::BinOperation { op: BinOperator::Comma, .. }),
    ensures
        flatten_commas(comma_chain(es)) == es,
    decreases es.len(),
{
    if es.len() <= 1 {
        assert(flatten_commas(comma_chain(es)) =~= es);
    } else {
        let front = es.subrange(0, es.len() - 1);
        lemma_flatten_comma_chain(front);
        assert(flatten_commas(comma_chain(es)) =~= es);
    }
}

} // verus!
