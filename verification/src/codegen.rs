//! Code generation: turns the lowered intermediate representation of
//! `structures` into the CatWeb card/action document of `json`. The spec
//! functions here say exactly which document every program generates; the
//! generator is proved equal to them.

pub mod json;
pub mod structures;
pub mod symbol_table;

use vstd::prelude::*;

use json::SpecAction;
use json::SpecCodeCard;
use json::SpecParameter;
use json::SpecScript;
use json::SpecTextFieldValue;
use json::SpecTuple;
use structures::SpecArgument;
use structures::SpecCall;
use structures::SpecIrItem;
use structures::SpecIrProgram;
use structures::SpecIrStatement;

verus! {

/// A filled string-typed parameter slot; the opaque `l` field is kept at its
/// empty default.
pub open spec fn spec_parameter_slot(value: Seq<char>) -> SpecTextFieldValue {
    SpecTextFieldValue::Parameter(SpecParameter { value, l: Seq::empty(), t: "string"@ })
}

/// How one lowered argument renders on an action row: raw strings become
/// literal inline text, everything else a string-typed parameter slot.
pub open spec fn spec_argument_slot(a: SpecArgument) -> SpecTextFieldValue {
    match a {
        SpecArgument::RawString(s) => SpecTextFieldValue::PlainText(s),
        SpecArgument::Literal(v) => spec_parameter_slot(v),
        SpecArgument::Identifier(v) => spec_parameter_slot(v),
    }
}

/// The slot row of a block call: the arguments in order, then, if the call
/// binds a return variable, one trailing parameter slot naming it (the
/// target format has no separate return channel).
pub open spec fn spec_action_text(
    arguments: Seq<SpecArgument>,
    return_var: Option<Seq<char>>,
) -> Seq<SpecTextFieldValue> {
    arguments.map_values(|a: SpecArgument| spec_argument_slot(a)) + (match return_var {
        Some(v) => seq![spec_parameter_slot(v)],
        None => Seq::empty(),
    })
}

/// One lowered call as one action. A block call carries its block id and its
/// argument row. A function call is emitted as the fixed placeholder action
/// (generic-call card type, blank padding, an empty tuple slot, and the
/// return-variable slot), pending a name-to-card-id resolution step; it does
/// not yet encode the callee name or arguments.
pub open spec fn spec_generate_script_block(c: SpecCall) -> SpecAction {
    match c {
        SpecCall::CWScriptBlockCall { block_id, arguments, return_var, .. } => SpecAction {
            globalid: Seq::empty(),
            id: block_id,
            text: spec_action_text(arguments, return_var),
        },
        SpecCall::FunctionCall { return_var, .. } => SpecAction {
            globalid: Seq::empty(),
            id: "87"@,
            text: seq![
                SpecTextFieldValue::PlainText(Seq::empty()),
                SpecTextFieldValue::Tuple(SpecTuple { value: Seq::empty(), t: "tuple"@ }),
                SpecTextFieldValue::PlainText(Seq::empty()),
                spec_parameter_slot(
                    match return_var {
                        Some(v) => v,
                        None => Seq::empty(),
                    },
                ),
            ],
        },
    }
}

/// A call list as an action list, in order.
pub open spec fn spec_actions(calls: Seq<SpecCall>) -> Seq<SpecAction> {
    calls.map_values(|c: SpecCall| spec_generate_script_block(c))
}

/// The action list of a card body: statement by statement in source order,
/// each statement's dependencies before its content, nothing reordered
/// across statements.
pub open spec fn spec_statement_actions(body: Seq<SpecIrStatement>) -> Seq<SpecAction>
    decreases body,
{
    if body.len() == 0 {
        Seq::empty()
    } else {
        spec_actions(body[0].dependencies) + spec_actions(body[0].content)
            + spec_statement_actions(body.subrange(1, body.len() as int))
    }
}

/// One lowered function declaration as one card: the fixed function-card
/// type code, one override per parameter in declared order, and a text row
/// of exactly a blank padding slot followed by the name slot. The `globalid`
/// is left empty; the host tool assigns it on import. The `Event` arm is a
/// currently-unused extension point that no lowering produces, and the
/// generator excludes it.
pub open spec fn spec_generate_item(item: SpecIrItem) -> SpecCodeCard
    recommends
        item is FunctionDeclaration,
{
    match item {
        SpecIrItem::FunctionDeclaration { name, parameters, body } => {
            SpecCodeCard::FunctionDeclaration(
                json::SpecFunctionDeclaration {
                    globalid: Seq::empty(),
                    variable_overrides: parameters,
                    id: "6"@,
                    text: seq![
                        SpecTextFieldValue::PlainText(Seq::empty()),
                        spec_parameter_slot(name),
                    ],
                    actions: spec_statement_actions(body),
                },
            )
        },
        SpecIrItem::Event { .. } => SpecCodeCard::Event(
            json::SpecEvent {
                globalid: Seq::empty(),
                id: Seq::empty(),
                text: Seq::empty(),
                actions: Seq::empty(),
            },
        ),
    }
}

/// A lowered program as one script object: empty alias, the fixed class
/// marker, one card per item.
pub open spec fn spec_generate_program(p: SpecIrProgram) -> SpecScript {
    SpecScript {
        alias: Seq::empty(),
        class: "script"@,
        content: p.main_block.map_values(|it: SpecIrItem| spec_generate_item(it)),
    }
}

/// The generator over the lowered representation.
#[derive(Debug, PartialEq, Clone)]
pub struct CWBlockScriptGenerator {}

impl CWBlockScriptGenerator {
    pub fn new() -> (r: Self)
        ensures
            r == (CWBlockScriptGenerator {  }),
    {
        Self {  }
    }

    /// A string-typed parameter slot around the given text.
    fn make_parameter(value: String) -> (r: json::Parameter)
        ensures
            r.deep_view() == (SpecParameter { value: value@, l: Seq::empty(), t: "string"@ }),
    {
        json::Parameter { value, l: String::new(), t: "string".to_owned() }
    }

    /// Generates the whole script object for one lowered program; every item
    /// must be a function declaration (the `Event` arm is an unused
    /// extension point that the generator does not handle).
    pub fn generate_program(&self, program: structures::Program) -> (r: json::Script)
        requires
            forall|i: int|
                0 <= i < program.main_block.deep_view().len()
                    ==> #[trigger] program.main_block.deep_view()[i] is FunctionDeclaration,
        ensures
            r.deep_view() == spec_generate_program(program.deep_view()),
    {
        let ghost orig = program.main_block.deep_view();
        let mut main_block = program.main_block;
        let mut content: Vec<json::CodeCard> = Vec::new();
        proof {
            assert(main_block.deep_view() =~= orig);
        }
        while main_block.len() > 0
            invariant
                forall|i: int|
                    0 <= i < main_block.deep_view().len()
                        ==> #[trigger] main_block.deep_view()[i] is FunctionDeclaration,
                orig.map_values(|it: SpecIrItem| spec_generate_item(it)) =~= content.deep_view()
                    + main_block.deep_view().map_values(
                    |it: SpecIrItem| spec_generate_item(it),
                ),
            decreases main_block@.len(),
        {
            let ghost before = main_block.deep_view();
            let ghost content_before = content.deep_view();
            let item = main_block.remove(0);
            proof {
                assert(main_block.deep_view() =~= before.subrange(1, before.len() as int));
                assert(before[0] == item.deep_view());
            }
            let card = self.generate_item(item);
            content.push(card);
            proof {
                assert(content.deep_view() =~= content_before.push(
                    spec_generate_item(before[0]),
                ));
                assert(before.map_values(|it: SpecIrItem| spec_generate_item(it))
                    =~= seq![spec_generate_item(before[0])] + main_block.deep_view().map_values(
                    |it: SpecIrItem| spec_generate_item(it),
                ));
            }
        }
        let script = json::Script {
            alias: String::new(),
            class: "script".to_owned(),
            content,
        };
        proof {
            assert(main_block.deep_view().map_values(|it: SpecIrItem| spec_generate_item(it))
                =~= Seq::<SpecCodeCard>::empty());
            assert(script.deep_view() =~~= spec_generate_program(
                structures::SpecIrProgram { main_block: orig },
            ));
        }
        script
    }

    /// Generates the card for one lowered function declaration.
    pub fn generate_item(&self, item: structures::Item) -> (r: json::CodeCard)
        requires
            item.deep_view() is FunctionDeclaration,
        ensures
            r.deep_view() == spec_generate_item(item.deep_view()),
    {
        match item {
            structures::Item::FunctionDeclaration { name, parameters, body } => {
                let ghost params_dv = parameters.deep_view();
                let ghost body_dv = body.deep_view();
                let mut variable_overrides: Vec<json::FunctionParameter> = Vec::new();
                let n = parameters.len();
                let mut i: usize = 0;
                while i < n
                    invariant
                        i <= n,
                        n == parameters@.len(),
                        params_dv == parameters.deep_view(),
                        variable_overrides.deep_view() =~~= params_dv.subrange(0, i as int),
                    decreases n - i,
                {
                    proof {
                        assert(variable_overrides.deep_view().len() == i);
                        assert(variable_overrides@.len() == i);
                    }
                    variable_overrides.push(
                        json::FunctionParameter { value: parameters[i].name.clone() },
                    );
                    i = i + 1;
                    proof {
                        assert(variable_overrides@.len() == i);
                        assert(variable_overrides@[i - 1].deep_view() == params_dv[i - 1]);
                        assert(variable_overrides.deep_view() =~~= params_dv.subrange(
                            0,
                            i as int,
                        ));
                    }
                }
                let mut text: Vec<json::TextFieldValue> = Vec::new();
                text.push(json::TextFieldValue::PlainText(String::new()));
                text.push(json::TextFieldValue::Parameter(Self::make_parameter(name)));
                let actions = self.generate_statement_actions(body);
                let card = json::FunctionDeclaration {
                    globalid: String::new(),
                    variable_overrides,
                    id: "6".to_owned(),
                    text,
                    actions,
                };
                proof {
                    assert(params_dv.subrange(0, params_dv.len() as int) =~~= params_dv);
                    assert(card.deep_view() =~~= spec_generate_item(
                        structures::SpecIrItem::FunctionDeclaration {
                            name: name@,
                            parameters: params_dv,
                            body: body_dv,
                        },
                    )->FunctionDeclaration_0);
                }
                json::CodeCard::FunctionDeclaration(card)
            },
            structures::Item::Event { .. } => vstd::pervasive::unreached(),
        }
    }

    /// The action list of a card body: each statement's dependency calls,
    /// then its content calls, in strict statement order.
    fn generate_statement_actions(&self, body: Vec<structures::Statement>) -> (r: Vec<
        json::Action,
    >)
        ensures
            r.deep_view() == spec_statement_actions(body.deep_view()),
    {
        let ghost orig = body.deep_view();
        let mut remaining = body;
        let mut out: Vec<json::Action> = Vec::new();
        proof {
            assert(remaining.deep_view() =~= orig);
        }
        while remaining.len() > 0
            invariant
                spec_statement_actions(orig) =~= out.deep_view() + spec_statement_actions(
                    remaining.deep_view(),
                ),
            decreases remaining@.len(),
        {
            let ghost before = remaining.deep_view();
            let ghost out_before = out.deep_view();
            let stmt = remaining.remove(0);
            proof {
                assert(remaining.deep_view() =~= before.subrange(1, before.len() as int));
                assert(before[0] == stmt.deep_view());
            }
            let ghost deps_dv = stmt.dependencies.deep_view();
            let ghost content_dv = stmt.content.deep_view();
            let mut deps_actions = self.generate_actions(stmt.dependencies);
            let mut content_actions = self.generate_actions(stmt.content);
            out.append(&mut deps_actions);
            out.append(&mut content_actions);
            proof {
                assert(out.deep_view() =~= out_before + spec_actions(deps_dv) + spec_actions(
                    content_dv,
                ));
                assert(out_before + spec_actions(deps_dv) + spec_actions(content_dv)
                    + spec_statement_actions(remaining.deep_view()) =~= out_before + (spec_actions(
                    deps_dv,
                ) + spec_actions(content_dv) + spec_statement_actions(remaining.deep_view())));
            }
        }
        proof {
            assert(spec_statement_actions(remaining.deep_view()) =~= Seq::<SpecAction>::empty());
            assert(out.deep_view() =~= spec_statement_actions(orig));
        }
        out
    }

    /// One action per call, in order.
    fn generate_actions(&self, calls: Vec<structures::Call>) -> (r: Vec<json::Action>)
        ensures
            r.deep_view() == spec_actions(calls.deep_view()),
    {
        let ghost orig = calls.deep_view();
        let mut remaining = calls;
        let mut out: Vec<json::Action> = Vec::new();
        proof {
            assert(remaining.deep_view() =~= orig);
        }
        while remaining.len() > 0
            invariant
                spec_actions(orig) =~= out.deep_view() + spec_actions(remaining.deep_view()),
            decreases remaining@.len(),
        {
            let ghost before = remaining.deep_view();
            let ghost out_before = out.deep_view();
            let call = remaining.remove(0);
            proof {
                assert(remaining.deep_view() =~= before.subrange(1, before.len() as int));
                assert(before[0] == call.deep_view());
            }
            let action = self.generate_script_block(call);
            out.push(action);
            proof {
                assert(out.deep_view() =~= out_before.push(spec_generate_script_block(before[0])));
                assert(spec_actions(before) =~= seq![spec_generate_script_block(before[0])]
                    + spec_actions(remaining.deep_view()));
                assert(out.deep_view() + spec_actions(remaining.deep_view()) =~= out_before
                    + spec_actions(before));
            }
        }
        proof {
            assert(spec_actions(remaining.deep_view()) =~= Seq::<SpecAction>::empty());
            assert(out.deep_view() =~= spec_actions(orig));
        }
        out
    }

    /// Generates the action row for one lowered call.
    pub fn generate_script_block(&self, call: structures::Call) -> (r: json::Action)
        ensures
            r.deep_view() == spec_generate_script_block(call.deep_view()),
    {
        match call {
            structures::Call::CWScriptBlockCall { block_id, arguments, return_var, .. } => {
                let ghost args_dv = arguments.deep_view();
                let mut text: Vec<json::TextFieldValue> = Vec::new();
                let n = arguments.len();
                for i in 0..n
                    invariant
                        n == arguments@.len(),
                        args_dv == arguments.deep_view(),
                        text.deep_view() =~= args_dv.subrange(0, i as int).map_values(
                            |a: SpecArgument| spec_argument_slot(a),
                        ),
                {
                    let slot = match &arguments[i] {
                        structures::Argument::RawString(s) => json::TextFieldValue::PlainText(
                            s.clone(),
                        ),
                        structures::Argument::Literal(lit) => json::TextFieldValue::Parameter(
                            Self::make_parameter(lit.value.clone()),
                        ),
                        structures::Argument::Identifier(var) => json::TextFieldValue::Parameter(
                            Self::make_parameter(var.name.clone()),
                        ),
                    };
                    text.push(slot);
                    proof {
                        assert(args_dv.subrange(0, (i + 1) as int).map_values(
                            |a: SpecArgument| spec_argument_slot(a),
                        ) =~= args_dv.subrange(0, i as int).map_values(
                            |a: SpecArgument| spec_argument_slot(a),
                        ).push(spec_argument_slot(args_dv[i as int])));
                        assert(text.deep_view() =~= args_dv.subrange(0, (i + 1) as int).map_values(
                            |a: SpecArgument| spec_argument_slot(a),
                        ));
                    }
                }
                match return_var {
                    Some(var) => {
                        text.push(json::TextFieldValue::Parameter(Self::make_parameter(var.name)));
                    },
                    None => {},
                }
                let action = json::Action { globalid: String::new(), id: block_id.id, text };
                proof {
                    assert(args_dv.subrange(0, args_dv.len() as int) =~= args_dv);
                    assert(action.deep_view() =~~= spec_generate_script_block(call.deep_view()));
                }
                action
            },
            structures::Call::FunctionCall { return_var, .. } => {
                let return_name = match return_var {
                    Some(var) => var.name,
                    None => String::new(),
                };
                let mut text: Vec<json::TextFieldValue> = Vec::new();
                text.push(json::TextFieldValue::PlainText(String::new()));
                text.push(
                    json::TextFieldValue::Tuple(
                        json::Tuple { value: Vec::new(), t: "tuple".to_owned() },
                    ),
                );
                text.push(json::TextFieldValue::PlainText(String::new()));
                text.push(json::TextFieldValue::Parameter(Self::make_parameter(return_name)));
                let action = json::Action {
                    globalid: String::new(),
                    id: "87".to_owned(),
                    text,
                };
                proof {
                    assert(action.deep_view() =~~= spec_generate_script_block(call.deep_view()));
                }
                action
            },
        }
    }
}

} // verus!
