//! The data model of the CatWeb script document. The host tool discriminates
//! card and text-field objects by their shape (field sets), not by a tag, so
//! these types are modelled as tagged variants here and serialized untagged
//! at the application boundary.

use vstd::prelude::*;

verus! {

/// One script object: a fixed class marker and a list of code cards.
#[derive(Debug, PartialEq)]
pub struct Script {
    pub alias: String,
    pub class: String,
    pub content: Vec<CodeCard>,
}

/// The document envelope: the wire format's top level is a list of scripts.
#[derive(Debug, PartialEq)]
pub enum Wrapper {
    Script(Vec<Script>),
}

/// A code card: a rectangular unit holding one function declaration or one
/// event handler. The two shapes differ in that only function declarations
/// carry `variable_overrides`.
#[derive(Debug, PartialEq)]
pub enum CodeCard {
    FunctionDeclaration(FunctionDeclaration),
    Event(Event),
}

#[derive(Debug, PartialEq)]
pub struct FunctionDeclaration {
    pub globalid: String,
    pub variable_overrides: Vec<FunctionParameter>,
    pub id: String,
    pub text: Vec<TextFieldValue>,
    pub actions: Vec<Action>,
}

#[derive(Debug, PartialEq)]
pub struct Event {
    pub globalid: String,
    pub id: String,
    pub text: Vec<TextFieldValue>,
    pub actions: Vec<Action>,
}

/// One declared parameter of a function card.
#[derive(Debug, PartialEq, Clone)]
pub struct FunctionParameter {
    pub value: String,
}

/// One invocation of a built-in or user block, rendered as a row of
/// text-field slots.
#[derive(Debug, PartialEq)]
pub struct Action {
    pub globalid: String,
    pub id: String,
    pub text: Vec<TextFieldValue>,
}

/// A slot on a card or action row: literal inline text, a typed fillable
/// parameter slot, or a composite tuple slot.
#[derive(Debug, PartialEq)]
pub enum TextFieldValue {
    PlainText(String),
    Parameter(Parameter),
    Tuple(Tuple),
}

#[derive(Debug, PartialEq)]
pub struct Tuple {
    pub value: Vec<TextFieldValue>,
    pub t: String,
}

impl Default for Tuple {
    /// An empty composite slot, marked with the fixed `"tuple"` type tag.
    fn default() -> (r: Self)
        ensures
            r.value@.len() == 0,
            r.t@ == "tuple"@,
    {
        Self { value: Vec::new(), t: "tuple".to_owned() }
    }
}

/// A typed, fillable slot; `t` is the slot type tag and `l` is an opaque
/// field of the host format, passed through as an empty default.
#[derive(Debug, PartialEq, Clone)]
pub struct Parameter {
    pub value: String,
    pub l: String,
    pub t: String,
}

/// Spec-level mirror of `Parameter`.
#[verifier::ext_equal]
pub struct SpecParameter {
    pub value: Seq<char>,
    pub l: Seq<char>,
    pub t: Seq<char>,
}

/// Spec-level mirror of `Tuple`.
#[verifier::ext_equal]
pub struct SpecTuple {
    pub value: Seq<SpecTextFieldValue>,
    pub t: Seq<char>,
}

/// Spec-level mirror of `TextFieldValue`.
#[verifier::ext_equal]
pub enum SpecTextFieldValue {
    PlainText(Seq<char>),
    Parameter(SpecParameter),
    Tuple(SpecTuple),
}

/// Spec-level mirror of `Action`.
#[verifier::ext_equal]
pub struct SpecAction {
    pub globalid: Seq<char>,
    pub id: Seq<char>,
    pub text: Seq<SpecTextFieldValue>,
}

/// Spec-level mirror of `FunctionDeclaration`.
#[verifier::ext_equal]
pub struct SpecFunctionDeclaration {
    pub globalid: Seq<char>,
    pub variable_overrides: Seq<Seq<char>>,
    pub id: Seq<char>,
    pub text: Seq<SpecTextFieldValue>,
    pub actions: Seq<SpecAction>,
}

/// Spec-level mirror of `Event`.
#[verifier::ext_equal]
pub struct SpecEvent {
    pub globalid: Seq<char>,
    pub id: Seq<char>,
    pub text: Seq<SpecTextFieldValue>,
    pub actions: Seq<SpecAction>,
}

/// Spec-level mirror of `CodeCard`.
#[verifier::ext_equal]
pub enum SpecCodeCard {
    FunctionDeclaration(SpecFunctionDeclaration),
    Event(SpecEvent),
}

/// Spec-level mirror of `Script`.
#[verifier::ext_equal]
pub struct SpecScript {
    pub alias: Seq<char>,
    pub class: Seq<char>,
    pub content: Seq<SpecCodeCard>,
}

/// Spec-level mirror of `Wrapper`.
#[verifier::ext_equal]
pub enum SpecWrapper {
    Script(Seq<SpecScript>),
}

impl DeepView for FunctionParameter {
    type V = Seq<char>;

    open spec fn deep_view(&self) -> Seq<char> {
        self.value@
    }
}

impl DeepView for Parameter {
    type V = SpecParameter;

    open spec fn deep_view(&self) -> SpecParameter {
        SpecParameter { value: self.value@, l: self.l@, t: self.t@ }
    }
}

/// Structural view of one text-field slot; recursion is kept in free spec
/// functions so that the `DeepView` impl itself stays non-recursive.
pub open spec fn deep_view_text_field(t: TextFieldValue) -> SpecTextFieldValue
    decreases t,
{
    match t {
        TextFieldValue::PlainText(s) => SpecTextFieldValue::PlainText(s@),
        TextFieldValue::Parameter(p) => SpecTextFieldValue::Parameter(p.deep_view()),
        TextFieldValue::Tuple(tuple) => SpecTextFieldValue::Tuple(
            SpecTuple { value: deep_view_text_fields(tuple.value@), t: tuple.t@ },
        ),
    }
}

/// Elementwise view of a sequence of text-field slots; mutually recursive
/// with `deep_view_text_field`.
pub open spec fn deep_view_text_fields(ts: Seq<TextFieldValue>) -> Seq<SpecTextFieldValue>
    decreases ts,
{
    if ts.len() == 0 {
        Seq::empty()
    } else {
        deep_view_text_fields(ts.subrange(0, ts.len() - 1)).push(deep_view_text_field(ts.last()))
    }
}

impl DeepView for TextFieldValue {
    type V = SpecTextFieldValue;

    open spec fn deep_view(&self) -> SpecTextFieldValue {
        deep_view_text_field(*self)
    }
}

impl DeepView for Tuple {
    type V = SpecTuple;

    open spec fn deep_view(&self) -> SpecTuple {
        SpecTuple { value: deep_view_text_fields(self.value@), t: self.t@ }
    }
}

impl DeepView for Action {
    type V = SpecAction;

    open spec fn deep_view(&self) -> SpecAction {
        SpecAction { globalid: self.globalid@, id: self.id@, text: self.text.deep_view() }
    }
}

impl DeepView for FunctionDeclaration {
    type V = SpecFunctionDeclaration;

    open spec fn deep_view(&self) -> SpecFunctionDeclaration {
        SpecFunctionDeclaration {
            globalid: self.globalid@,
            variable_overrides: self.variable_overrides.deep_view(),
            id: self.id@,
            text: self.text.deep_view(),
            actions: self.actions.deep_view(),
        }
    }
}

impl DeepView for Event {
    type V = SpecEvent;

    open spec fn deep_view(&self) -> SpecEvent {
        SpecEvent {
            globalid: self.globalid@,
            id: self.id@,
            text: self.text.deep_view(),
            actions: self.actions.deep_view(),
        }
    }
}

impl DeepView for CodeCard {
    type V = SpecCodeCard;

    open spec fn deep_view(&self) -> SpecCodeCard {
        match self {
            CodeCard::FunctionDeclaration(f) => SpecCodeCard::FunctionDeclaration(f.deep_view()),
            CodeCard::Event(e) => SpecCodeCard::Event(e.deep_view()),
        }
    }
}

impl DeepView for Script {
    type V = SpecScript;

    open spec fn deep_view(&self) -> SpecScript {
        SpecScript { alias: self.alias@, class: self.class@, content: self.content.deep_view() }
    }
}

impl DeepView for Wrapper {
    type V = SpecWrapper;

    open spec fn deep_view(&self) -> SpecWrapper {
        match self {
            Wrapper::Script(scripts) => SpecWrapper::Script(scripts.deep_view()),
        }
    }
}

} // verus!
