//! The guarantees of the pipeline that span more than one function, stated
//! and proved over the spec models that the stages' own contracts use.

use vstd::prelude::*;

use crate::codegen::json::SpecParameter;
use crate::codegen::json::SpecTextFieldValue;
use crate::codegen::spec_actions;
use crate::codegen::spec_argument_slot;
use crate::codegen::spec_generate_item;
use crate::codegen::spec_parameter_slot;
use crate::codegen::spec_statement_actions;
use crate::codegen::structures::SpecArgument;
use crate::codegen::structures::SpecCall;
use crate::codegen::structures::SpecIrExpression;
use crate::codegen::structures::SpecIrItem;
use crate::codegen::structures::SpecIrStatement;
use crate::compiler::lower::spec_lower_arguments;
use crate::compiler::lower::spec_lower_call;
use crate::compiler::lower::spec_lower_expression;
use crate::compiler::lower::spec_lower_function;
use crate::compiler::lower::spec_lower_items;
use crate::compiler::lower::spec_lower_literal;
use crate::compiler::lower::spec_lower_statement;
use crate::compiler::CompileError;
use crate::parser::ast::SpecAttribute;
use crate::parser::ast::SpecExpression;
use crate::parser::ast::SpecFunctionDeclaration;
use crate::parser::ast::SpecItem;
use crate::parser::ast::SpecLiteral;
use crate::parser::ast::UnaryOperator;

verus! {

/// The dependency/content split of the lowering. One half holds by
/// construction: an `Argument` can never embed a `Call`, because the
/// argument type has no call constructor at all. The half proved here:
/// whenever a lowered expression denotes a value, every call it needed has
/// already been hoisted away and its own dependency list is empty, and a
/// lowered statement keeps all of its calls in its dependency list while its
/// content list stays empty.
pub proof fn lemma_dependency_content_split(e: SpecExpression, s: crate::parser::ast::SpecStatement)
    ensures
        spec_lower_expression(e) matches Ok(le) ==> (le.content is Some ==> le.dependencies.len()
            == 0),
        spec_lower_statement(s) matches Ok(st) ==> st.content.len() == 0,
{
    reveal_with_fuel(spec_lower_expression, 3);
    match e {
        SpecExpression::Literal(_) => {},
        SpecExpression::Identifier(_) => {},
        SpecExpression::CWScriptBlockID(_) => {},
        SpecExpression::Call { function, arguments } => {
            match spec_lower_arguments(arguments) {
                Ok(_) => {},
                Err(_) => {},
            }
        },
        SpecExpression::BinOperation { .. } => {},
        SpecExpression::UnaryOperation { .. } => {},
    }
}

/// Order preservation: for a function body of statements `s1, s2`, the
/// generated action list is exactly the actions of `s1`'s dependencies,
/// then of `s1`'s content, then of `s2`'s dependencies, then of `s2`'s
/// content — nothing is reordered across statements.
pub proof fn lemma_action_order(s1: SpecIrStatement, s2: SpecIrStatement)
    ensures
        spec_statement_actions(seq![s1, s2]) == spec_actions(s1.dependencies) + spec_actions(
            s1.content,
        ) + spec_actions(s2.dependencies) + spec_actions(s2.content),
{
    reveal_with_fuel(spec_statement_actions, 4);
    let both = seq![s1, s2];
    assert(both.subrange(1, 2) =~= seq![s2]);
    assert(both.subrange(1, 2).subrange(1, 1) =~= Seq::<SpecIrStatement>::empty());
    assert(spec_statement_actions(Seq::<SpecIrStatement>::empty()) =~= Seq::empty());
    assert(spec_statement_actions(seq![s1, s2]) =~= spec_actions(s1.dependencies) + spec_actions(
        s1.content,
    ) + spec_actions(s2.dependencies) + spec_actions(s2.content));
}

/// Attribute binding: a pending `export_as` attribute directly before a
/// function declaration renames the generated function — the lowered item
/// carries the exported name, and the card's name slot (the second text
/// entry, after the required blank padding slot) shows it, not the declared
/// name.
pub proof fn lemma_attribute_binding(content: Seq<char>, f: SpecFunctionDeclaration)
    ensures
        ({
            let lowered = spec_lower_items(
                seq![
                    SpecItem::Attribute(SpecAttribute::ExportAs(content)),
                    SpecItem::FunctionDeclaration(f),
                ],
                Seq::empty(),
            );
            lowered matches Ok((items, pending)) ==> {
                &&& items.len() == 1
                &&& items[0] matches SpecIrItem::FunctionDeclaration { name, .. } && name
                    == content
                &&& spec_generate_item(items[0]) matches
                    crate::codegen::json::SpecCodeCard::FunctionDeclaration(card) && card.text
                    =~~= seq![
                    SpecTextFieldValue::PlainText(Seq::empty()),
                    spec_parameter_slot(content),
                ]
            }
        }),
{
    reveal_with_fuel(spec_lower_items, 3);
    let both = seq![
        SpecItem::Attribute(SpecAttribute::ExportAs(content)),
        SpecItem::FunctionDeclaration(f),
    ];
    let one = seq![SpecItem::FunctionDeclaration(f)];
    assert(both.subrange(1, 2) =~= one);
    assert(one.subrange(1, 1) =~= Seq::<SpecItem>::empty());
    let pending = Seq::<SpecAttribute>::empty().push(SpecAttribute::ExportAs(content));
    assert(pending.last() == SpecAttribute::ExportAs(content));
    assert(spec_lower_items(Seq::<SpecItem>::empty(), Seq::<SpecAttribute>::empty()) matches Ok(
        (its, p),
    ) && its.len() == 0 && p.len() == 0);
    match spec_lower_function(f, pending) {
        Ok(item) => {
            assert(spec_lower_items(one, pending) matches Ok((items, _)) && items =~= seq![item]);
            assert(spec_lower_items(both, Seq::empty()) == spec_lower_items(one, pending));
        },
        Err(_) => {},
    }
}

/// Attribute discard: an attribute with no following function declaration
/// is dropped without affecting any other item — appending it to a program
/// changes nothing about the lowered items, only the attributes left
/// pending (which are discarded at the end of the pass).
pub proof fn lemma_dangling_attribute_dropped(
    items: Seq<SpecItem>,
    pending: Seq<SpecAttribute>,
    a: SpecAttribute,
)
    ensures
        spec_lower_items(items.push(SpecItem::Attribute(a)), pending) matches Ok(
            (with_items, _),
        ) ==> (spec_lower_items(items, pending) matches Ok((without_items, _)) && with_items
            == without_items),
    decreases items,
{
    reveal_with_fuel(spec_lower_items, 2);
    let extended = items.push(SpecItem::Attribute(a));
    if items.len() == 0 {
        assert(extended[0] == SpecItem::Attribute(a));
        assert(extended.subrange(1, extended.len() as int) =~= Seq::<SpecItem>::empty());
        assert(spec_lower_items(Seq::<SpecItem>::empty(), pending.push(a)) matches Ok((its, _))
            && its.len() == 0);
        assert(spec_lower_items(items, pending) matches Ok((its, _)) && its.len() == 0);
    } else {
        assert(extended[0] == items[0]);
        let rest = items.subrange(1, items.len() as int);
        let ext_rest = extended.subrange(1, extended.len() as int);
        assert(ext_rest =~= rest.push(SpecItem::Attribute(a)));
        match items[0] {
            SpecItem::Attribute(b) => {
                lemma_dangling_attribute_dropped(rest, pending.push(b), a);
                assert(spec_lower_items(extended, pending) == spec_lower_items(
                    ext_rest,
                    pending.push(b),
                ));
                assert(spec_lower_items(items, pending) == spec_lower_items(
                    rest,
                    pending.push(b),
                ));
            },
            SpecItem::FunctionDeclaration(f) => {
                lemma_dangling_attribute_dropped(rest, Seq::empty(), a);
                match spec_lower_function(f, pending) {
                    Err(_) => {},
                    Ok(item) => {
                        match spec_lower_items(ext_rest, Seq::<SpecAttribute>::empty()) {
                            Err(_) => {},
                            Ok((with_rest, _)) => {
                                assert(spec_lower_items(rest, Seq::<SpecAttribute>::empty())
                                    matches Ok((without_rest, _)) && with_rest == without_rest);
                            },
                        }
                    },
                }
            },
        }
    }
}

/// The lowering emits one function-declaration item per source function
/// declaration and nothing else; in particular the `Event` arm of the
/// intermediate representation, an extension point for a future stage, is
/// never produced. Every successfully lowered program therefore satisfies
/// the generator's precondition.
pub proof fn lemma_lowering_emits_function_items(items: Seq<SpecItem>, pending: Seq<SpecAttribute>)
    ensures
        spec_lower_items(items, pending) matches Ok((lowered, _)) ==> forall|i: int|
            0 <= i < lowered.len() ==> (#[trigger] lowered[i]) is FunctionDeclaration,
    decreases items,
{
    reveal_with_fuel(spec_lower_items, 2);
    if items.len() > 0 {
        let rest = items.subrange(1, items.len() as int);
        match items[0] {
            SpecItem::Attribute(b) => {
                lemma_lowering_emits_function_items(rest, pending.push(b));
            },
            SpecItem::FunctionDeclaration(f) => {
                lemma_lowering_emits_function_items(rest, Seq::empty());
                match spec_lower_function(f, pending) {
                    Err(_) => {},
                    Ok(item) => {
                        match spec_lower_items(rest, Seq::<SpecAttribute>::empty()) {
                            Err(_) => {},
                            Ok((lowered_rest, _)) => {
                                assert(forall|i: int|
                                    0 <= i < lowered_rest.len() ==> (#[trigger] lowered_rest[i])
                                        is FunctionDeclaration);
                                assert forall|i: int|
                                    0 <= i < lowered_rest.len() + 1 implies (#[trigger] (seq![item]
                                    + lowered_rest)[i]) is FunctionDeclaration by {
                                    if i > 0 {
                                        assert((seq![item] + lowered_rest)[i]
                                            == lowered_rest[i - 1]);
                                    }
                                }
                            },
                        }
                    },
                }
            },
        }
    }
}

/// How literal kinds reach the generated document: a raw-string argument
/// renders as literal inline text, while string, numeric and boolean
/// literals and identifiers render as string-typed parameter slots.
pub proof fn lemma_raw_string_vs_string(s: Seq<char>, v: Seq<char>)
    ensures
        spec_lower_literal(SpecLiteral::RawString(s)) == SpecArgument::RawString(s),
        spec_lower_literal(SpecLiteral::String(s)) == SpecArgument::Literal(s),
        spec_argument_slot(SpecArgument::RawString(s)) == SpecTextFieldValue::PlainText(s),
        spec_argument_slot(SpecArgument::Literal(v)) == SpecTextFieldValue::Parameter(
            SpecParameter { value: v, l: Seq::empty(), t: "string"@ },
        ),
        spec_argument_slot(SpecArgument::Identifier(v)) == SpecTextFieldValue::Parameter(
            SpecParameter { value: v, l: Seq::empty(), t: "string"@ },
        ),
{
}

/// The fatal lowering paths: a block id used as a bare value, a call whose
/// target is itself a call (or any other non-name target), and a unary
/// operation each abort the lowering with an error rather than producing a
/// degraded result.
pub proof fn lemma_fatal_lowerings(
    id: Seq<char>,
    function: SpecExpression,
    arguments: Seq<SpecExpression>,
    op: UnaryOperator,
    operand: SpecExpression,
)
    ensures
        spec_lower_expression(SpecExpression::CWScriptBlockID(id)) == Err::<
            SpecIrExpression,
            CompileError,
        >(CompileError::BlockIdAsValue),
        function is Call ==> spec_lower_call(function, arguments) is Err,
        spec_lower_expression(SpecExpression::UnaryOperation { op, expr: Box::new(operand) })
            == Err::<SpecIrExpression, CompileError>(CompileError::UnsupportedUnaryOperator),
{
    if function is Call {
        match spec_lower_arguments(arguments) {
            Ok(_) => {},
            Err(_) => {},
        }
    }
}

} // verus!
