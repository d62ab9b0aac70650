//! The lowered intermediate representation. Its defining property: every
//! expression has been reduced to an ordered list of `Call`s (side effects)
//! plus an optional terminal `Argument` (a plain value usable inline), so an
//! `Argument` can never embed a `Call`.

use vstd::prelude::*;

verus! {

/// A lowered program: one item per source function declaration.
#[derive(Debug, PartialEq)]
pub struct Program {
    pub main_block: Vec<Item>,
}

impl Program {
    pub fn new(main_block: Vec<Item>) -> (r: Self)
        ensures
            r.main_block == main_block,
    {
        Self { main_block }
    }
}

/// The lowering of one expression: the calls it needs, in execution order,
/// and the plain value it denotes, if it denotes one.
#[derive(Debug, PartialEq)]
pub struct Expression {
    pub dependencies: Vec<Call>,
    pub content: Option<Argument>,
}

/// The lowering of one statement: `dependencies` execute before `content`.
#[derive(Debug, PartialEq)]
pub struct Statement {
    pub dependencies: Vec<Call>,
    pub content: Vec<Call>,
}

/// A literal argument value, kept in its textual form.
#[derive(Debug, PartialEq, Clone)]
pub struct Literal {
    pub value: String,
}

/// An opaque name reference; no binding or scoping is resolved at this stage.
#[derive(Debug, PartialEq, Clone)]
pub struct Variable {
    pub name: String,
}

/// The raw identifier of a built-in visual action block.
#[derive(Debug, PartialEq, Clone)]
pub struct CWScriptBlockID {
    pub id: String,
}

/// Either kind of name a call can be directed at.
#[derive(Debug, PartialEq, Clone)]
pub enum Identifier {
    Name(Variable),
    CWScriptBlockID(CWScriptBlockID),
}

#[derive(Debug, PartialEq)]
pub enum Item {
    FunctionDeclaration { name: String, parameters: Vec<Variable>, body: Vec<Statement> },
    Event { name: String, body: Vec<Statement> },
}

/// A plain value: never a call. Any value requiring computation is hoisted
/// into the enclosing `dependencies` list instead.
#[derive(Debug, PartialEq, Clone)]
pub enum Argument {
    RawString(String),
    Literal(Literal),
    Identifier(Variable),
}

#[derive(Debug, PartialEq)]
pub enum Call {
    FunctionCall {
        dependencies: Vec<Call>,
        function_name: Variable,
        arguments: Vec<Argument>,
        return_var: Option<Variable>,
    },
    CWScriptBlockCall {
        dependencies: Vec<Call>,
        block_id: CWScriptBlockID,
        arguments: Vec<Argument>,
        return_var: Option<Variable>,
    },
}

/// Spec-level mirror of `Argument`; the name strings are the whole content.
#[verifier::ext_equal]
pub enum SpecArgument {
    RawString(Seq<char>),
    Literal(Seq<char>),
    Identifier(Seq<char>),
}

/// Spec-level mirror of `Call`.
#[verifier::ext_equal]
pub enum SpecCall {
    FunctionCall {
        dependencies: Seq<SpecCall>,
        function_name: Seq<char>,
        arguments: Seq<SpecArgument>,
        return_var: Option<Seq<char>>,
    },
    CWScriptBlockCall {
        dependencies: Seq<SpecCall>,
        block_id: Seq<char>,
        arguments: Seq<SpecArgument>,
        return_var: Option<Seq<char>>,
    },
}

/// Spec-level mirror of `Expression`.
#[verifier::ext_equal]
pub struct SpecIrExpression {
    pub dependencies: Seq<SpecCall>,
    pub content: Option<SpecArgument>,
}

/// Spec-level mirror of `Statement`.
#[verifier::ext_equal]
pub struct SpecIrStatement {
    pub dependencies: Seq<SpecCall>,
    pub content: Seq<SpecCall>,
}

/// Spec-level mirror of `Item`.
#[verifier::ext_equal]
pub enum SpecIrItem {
    FunctionDeclaration { name: Seq<char>, parameters: Seq<Seq<char>>, body: Seq<SpecIrStatement> },
    Event { name: Seq<char>, body: Seq<SpecIrStatement> },
}

/// Spec-level mirror of `Program`.
#[verifier::ext_equal]
pub struct SpecIrProgram {
    pub main_block: Seq<SpecIrItem>,
}

impl DeepView for Literal {
    type V = Seq<char>;

    open spec fn deep_view(&self) -> Seq<char> {
        self.value@
    }
}

impl DeepView for Variable {
    type V = Seq<char>;

    open spec fn deep_view(&self) -> Seq<char> {
        self.name@
    }
}

impl DeepView for CWScriptBlockID {
    type V = Seq<char>;

    open spec fn deep_view(&self) -> Seq<char> {
        self.id@
    }
}

impl DeepView for Argument {
    type V = SpecArgument;

    open spec fn deep_view(&self) -> SpecArgument {
        match self {
            Argument::RawString(s) => SpecArgument::RawString(s@),
            Argument::Literal(l) => SpecArgument::Literal(l.value@),
            Argument::Identifier(v) => SpecArgument::Identifier(v.name@),
        }
    }
}

/// Structural view of one call; recursion is kept in free spec functions so
/// that the `DeepView` impl itself stays non-recursive.
pub open spec fn deep_view_call(c: Call) -> SpecCall
    decreases c,
{
    match c {
        Call::FunctionCall { dependencies, function_name, arguments, return_var } => {
            SpecCall::FunctionCall {
                dependencies: deep_view_calls(dependencies@),
                function_name: function_name.name@,
                arguments: arguments.deep_view(),
                return_var: return_var.deep_view(),
            }
        },
        Call::CWScriptBlockCall { dependencies, block_id, arguments, return_var } => {
            SpecCall::CWScriptBlockCall {
                dependencies: deep_view_calls(dependencies@),
                block_id: block_id.id@,
                arguments: arguments.deep_view(),
                return_var: return_var.deep_view(),
            }
        },
    }
}

/// Elementwise view of a sequence of calls; mutually recursive with
/// `deep_view_call`.
pub open spec fn deep_view_calls(cs: Seq<Call>) -> Seq<SpecCall>
    decreases cs,
{
    if cs.len() == 0 {
        Seq::empty()
    } else {
        deep_view_calls(cs.subrange(0, cs.len() - 1)).push(deep_view_call(cs.last()))
    }
}

impl DeepView for Call {
    type V = SpecCall;

    open spec fn deep_view(&self) -> SpecCall {
        deep_view_call(*self)
    }
}

/// `deep_view_calls` is the elementwise map of `deep_view`.
pub proof fn lemma_deep_view_calls(cs: Seq<Call>)
    ensures
        deep_view_calls(cs).len() == cs.len(),
        forall|i: int|
            0 <= i < cs.len() ==> deep_view_calls(cs)[i] == #[trigger] cs[i].deep_view(),
    decreases cs,
{
    if cs.len() > 0 {
        let front = cs.subrange(0, cs.len() - 1);
        lemma_deep_view_calls(front);
        assert forall|i: int| 0 <= i < cs.len() implies deep_view_calls(cs)[i]
            == #[trigger] cs[i].deep_view() by {
            if i < cs.len() - 1 {
                assert(front[i] == cs[i]);
                assert(deep_view_calls(cs)[i] == deep_view_calls(front)[i]);
            } else {
                assert(cs.last() == cs[i]);
            }
        }
    }
}

/// The two elementwise views of a call vector agree.
pub proof fn lemma_deep_view_calls_is_deep_view(v: Vec<Call>)
    ensures
        deep_view_calls(v@) == v.deep_view(),
{
    lemma_deep_view_calls(v@);
    assert(deep_view_calls(v@) =~= v.deep_view());
}

impl DeepView for Expression {
    type V = SpecIrExpression;

    open spec fn deep_view(&self) -> SpecIrExpression {
        SpecIrExpression {
            dependencies: self.dependencies.deep_view(),
            content: self.content.deep_view(),
        }
    }
}

impl DeepView for Statement {
    type V = SpecIrStatement;

    open spec fn deep_view(&self) -> SpecIrStatement {
        SpecIrStatement {
            dependencies: self.dependencies.deep_view(),
            content: self.content.deep_view(),
        }
    }
}

impl DeepView for Item {
    type V = SpecIrItem;

    open spec fn deep_view(&self) -> SpecIrItem {
        match self {
            Item::FunctionDeclaration { name, parameters, body } => {
                SpecIrItem::FunctionDeclaration {
                    name: name@,
                    parameters: parameters.deep_view(),
                    body: body.deep_view(),
                }
            },
            Item::Event { name, body } => SpecIrItem::Event { name: name@, body: body.deep_view() },
        }
    }
}

impl DeepView for Program {
    type V = SpecIrProgram;

    open spec fn deep_view(&self) -> SpecIrProgram {
        SpecIrProgram { main_block: self.main_block.deep_view() }
    }
}

} // verus!
