//! The lowering pass: consumes the syntax tree, tracks pending declaration
//! attributes, and produces the intermediate representation. Every public
//! function is proved equal to the corresponding spec function of `lower`.

pub mod lower;

use vstd::prelude::*;

use crate::codegen::structures;
use crate::parser::ast;
use lower::spec_compile_item;
use lower::spec_export_name;
use lower::spec_keep_functions;
use lower::spec_keep_other_items;
use lower::spec_lower_arguments;
use lower::spec_lower_body;
use lower::spec_lower_call;
use lower::spec_lower_expression;
use lower::spec_lower_items;
use lower::spec_lower_literal;
use lower::spec_lower_parameters;
use lower::spec_lower_statement;
use lower::spec_map_bin_op;
use lower::spec_op_mappable;

verus! {

/// Why a compile pass failed. `UnmappableOperator` signals a defect of an
/// earlier stage (an operator with no call mapping reached operator
/// lowering), as opposed to the other variants, which reject the input
/// program itself.
#[derive(Debug, PartialEq, Eq, Structural, Clone, Copy)]
pub enum CompileError {
    /// A declared parameter is not a bare identifier.
    InvalidParameter,
    /// A block id was used as a value rather than as a call target.
    BlockIdAsValue,
    /// A call target is neither an identifier nor a block id.
    InvalidCallTarget,
    /// An argument expression lowers to no usable value.
    MissingArgumentValue,
    /// An assignment or link statement, whose lowering is not implemented.
    UnsupportedStatement,
    /// A unary operation, whose lowering is not implemented.
    UnsupportedUnaryOperator,
    /// `Dot` or `Comma` reached the operator-to-call mapping.
    UnmappableOperator,
}

/// An attribute as the lowering pass records it while pending.
#[derive(Debug, PartialEq, Clone)]
pub enum Attribute {
    Inline,
    ExportAs(String),
}

impl DeepView for Attribute {
    type V = ast::SpecAttribute;

    open spec fn deep_view(&self) -> ast::SpecAttribute {
        match self {
            Attribute::Inline => ast::SpecAttribute::Inline,
            Attribute::ExportAs(s) => ast::SpecAttribute::ExportAs(s@),
        }
    }
}

/// The one piece of mutable state of a compile pass: the ordered list of
/// attributes seen since the last function declaration.
#[derive(Debug, PartialEq)]
pub struct CompilerState {
    pub attributes: Vec<Attribute>,
}

impl CompilerState {
    pub fn new() -> (r: Self)
        ensures
            r.attributes@.len() == 0,
    {
        Self { attributes: Vec::new() }
    }

    /// Appends one parsed attribute to the pending list.
    pub fn add_attribute(&mut self, attribute: &ast::Attribute) -> (r: Result<(), CompileError>)
        ensures
            r is Ok,
            final(self).attributes.deep_view() == old(self).attributes.deep_view().push(
                attribute.deep_view(),
            ),
    {
        match attribute {
            ast::Attribute::Inline => {
                self.attributes.push(Attribute::Inline);
            },
            ast::Attribute::ExportAs(content) => {
                self.attributes.push(Attribute::ExportAs(content.clone()));
            },
        }
        proof {
            assert(self.attributes.deep_view() =~= old(self).attributes.deep_view().push(
                attribute.deep_view(),
            ));
        }
        Ok(())
    }

    /// Drains the pending list atomically, returning it in order.
    pub fn pop_all_attributes(&mut self) -> (r: Vec<Attribute>)
        ensures
            final(self).attributes@.len() == 0,
            r.deep_view() == old(self).attributes.deep_view(),
    {
        let mut out: Vec<Attribute> = Vec::new();
        core::mem::swap(&mut out, &mut self.attributes);
        out
    }
}

/// The lowering pass over one syntax tree.
#[derive(Debug, PartialEq)]
pub struct Compiler {
    pub syntax_tree: ast::Program,
    pub state: CompilerState,
}

impl Compiler {
    pub fn new(syntax_tree: ast::Program) -> (r: Self)
        ensures
            r.syntax_tree == syntax_tree,
            r.state.attributes@.len() == 0,
    {
        Self { syntax_tree, state: CompilerState::new() }
    }

    /// Lowers the whole program held by this compiler, leaving the syntax
    /// tree as it was. On success the pending-attribute state holds exactly
    /// the attributes left dangling at the end of the program (which thereby
    /// never reach the output); on failure it holds the pending state at the
    /// point of failure.
    pub fn compile(&mut self) -> (r: Result<structures::Program, CompileError>)
        ensures
            final(self).syntax_tree == old(self).syntax_tree,
            match spec_lower_items(
                old(self).syntax_tree.main_block.deep_view(),
                old(self).state.attributes.deep_view(),
            ) {
                Ok((items, pending)) => r matches Ok(p) && p.deep_view().main_block == items
                    && final(self).state.attributes.deep_view() == pending,
                Err((err, pending)) => r matches Err(e) && e == err && final(self).state.attributes.deep_view() == pending,
            },
    {
        let mut main_block: Vec<ast::Item> = Vec::new();
        core::mem::swap(&mut main_block, &mut self.syntax_tree.main_block);
        let result = self.compile_items(&main_block, 0);
        core::mem::swap(&mut main_block, &mut self.syntax_tree.main_block);
        proof {
            assert(main_block@.len() == 0);
            assert(final(self).syntax_tree =~= old(self).syntax_tree);
            assert(old(self).syntax_tree.main_block.deep_view().subrange(
                0,
                old(self).syntax_tree.main_block.deep_view().len() as int,
            ) =~= old(self).syntax_tree.main_block.deep_view());
        }
        match result {
            Ok(items) => Ok(structures::Program::new(items)),
            Err(err) => Err(err),
        }
    }

    /// Lowers the items from position `i` on, threading the pending
    /// attribute state exactly as `spec_lower_items` does.
    fn compile_items(&mut self, items: &Vec<ast::Item>, i: usize) -> (r: Result<
        Vec<structures::Item>,
        CompileError,
    >)
        requires
            i <= items@.len(),
        ensures
            final(self).syntax_tree == old(self).syntax_tree,
            match spec_lower_items(
                items.deep_view().subrange(i as int, items@.len() as int),
                old(self).state.attributes.deep_view(),
            ) {
                Ok((its, pending)) => r matches Ok(v) && v.deep_view() == its && final(self).state.attributes.deep_view() == pending,
                Err((err, pending)) => r matches Err(e) && e == err && final(self).state.attributes.deep_view() == pending,
            },
        decreases items@.len() - i,
    {
        let ghost suffix = items.deep_view().subrange(i as int, items@.len() as int);
        if i == items.len() {
            let out: Vec<structures::Item> = Vec::new();
            proof {
                assert(suffix.len() == 0);
                assert(out.deep_view() =~= Seq::<structures::SpecIrItem>::empty());
            }
            Ok(out)
        } else {
            proof {
                assert(suffix[0] == items.deep_view()[i as int]);
            }
            let step = self.compile_item(&items[i]);
            match step {
                Err(err) => {
                    proof {
                        assert(suffix.len() > 0);
                    }
                    Err(err)
                },
                Ok(opt) => {
                    let rest = self.compile_items(items, i + 1);
                    proof {
                        assert(suffix.subrange(1, suffix.len() as int) =~= items.deep_view()
                            .subrange((i + 1) as int, items@.len() as int));
                    }
                    match rest {
                        Err(err) => Err(err),
                        Ok(mut rest_items) => match opt {
                            None => Ok(rest_items),
                            Some(item) => {
                                let ghost item_dv = item.deep_view();
                                let ghost rest_dv = rest_items.deep_view();
                                let mut out: Vec<structures::Item> = Vec::new();
                                out.push(item);
                                out.append(&mut rest_items);
                                proof {
                                    assert(out.deep_view() =~= seq![item_dv] + rest_dv);
                                }
                                Ok(out)
                            },
                        },
                    }
                },
            }
        }
    }

    /// Lowers one item: an attribute joins the pending list and yields no
    /// item; a function declaration drains the pending list and is lowered
    /// under it.
    pub fn compile_item(&mut self, item: &ast::Item) -> (r: Result<
        Option<structures::Item>,
        CompileError,
    >)
        ensures
            final(self).syntax_tree == old(self).syntax_tree,
            ({
                let (step, pending) = spec_compile_item(
                    item.deep_view(),
                    old(self).state.attributes.deep_view(),
                );
                final(self).state.attributes.deep_view() == pending && match step {
                    Ok(opt) => r matches Ok(o) && o.deep_view() == opt,
                    Err(err) => r matches Err(e) && e == err,
                }
            }),
    {
        match item {
            ast::Item::Attribute(attr) => {
                let added = self.state.add_attribute(attr);
                match added {
                    Ok(_) => Ok(None),
                    Err(err) => Err(err),
                }
            },
            ast::Item::FunctionDeclaration(func) => {
                let attributes = self.state.pop_all_attributes();
                let ghost pending = attributes.deep_view();
                proof {
                    assert(self.state.attributes.deep_view() =~= Seq::<
                        ast::SpecAttribute,
                    >::empty());
                }
                let name = Self::export_name_from(&attributes, attributes.len(), &func.name);
                proof {
                    assert(pending.subrange(0, pending.len() as int) =~= pending);
                }
                proof {
                    assert(func.parameters.deep_view().subrange(
                        0,
                        func.parameters@.len() as int,
                    ) =~= func.parameters.deep_view());
                    assert(func.body.deep_view().subrange(0, func.body@.len() as int)
                        =~= func.body.deep_view());
                }
                let parameters = match Self::compile_parameters(&func.parameters, 0) {
                    Ok(parameters) => parameters,
                    Err(err) => {
                        return Err(err);
                    },
                };
                let body = match self.compile_body(&func.body, 0) {
                    Ok(body) => body,
                    Err(err) => {
                        return Err(err);
                    },
                };
                Ok(
                    Some(
                        structures::Item::FunctionDeclaration {
                            name,
                            parameters,
                            body,
                        },
                    ),
                )
            },
        }
    }

    /// The generated name under the pending attributes in
    /// `attributes[..j]`: the last `export_as` wins, else the declared name.
    fn export_name_from(attributes: &Vec<Attribute>, j: usize, declared: &String) -> (r: String)
        requires
            j <= attributes@.len(),
        ensures
            r@ == spec_export_name(attributes.deep_view().subrange(0, j as int), declared@),
        decreases j,
    {
        let ghost prefix = attributes.deep_view().subrange(0, j as int);
        if j == 0 {
            declared.clone()
        } else {
            proof {
                assert(prefix.last() == attributes.deep_view()[j - 1]);
                assert(prefix.subrange(0, prefix.len() - 1) =~= attributes.deep_view().subrange(
                    0,
                    j - 1,
                ));
            }
            match &attributes[j - 1] {
                Attribute::ExportAs(name) => name.clone(),
                Attribute::Inline => Self::export_name_from(attributes, j - 1, declared),
            }
        }
    }

    /// Lowers the declared parameters from position `i` on: each must be a
    /// bare identifier.
    fn compile_parameters(parameters: &Vec<ast::Expression>, i: usize) -> (r: Result<
        Vec<structures::Variable>,
        CompileError,
    >)
        requires
            i <= parameters@.len(),
        ensures
            match spec_lower_parameters(
                parameters.deep_view().subrange(i as int, parameters@.len() as int),
            ) {
                Ok(ps) => r matches Ok(v) && v.deep_view() == ps,
                Err(err) => r matches Err(e) && e == err,
            },
        decreases parameters@.len() - i,
    {
        let ghost suffix = parameters.deep_view().subrange(i as int, parameters@.len() as int);
        if i == parameters.len() {
            let out: Vec<structures::Variable> = Vec::new();
            proof {
                assert(suffix.len() == 0);
                assert(out.deep_view() =~= Seq::<Seq<char>>::empty());
            }
            Ok(out)
        } else {
            proof {
                assert(suffix[0] == parameters.deep_view()[i as int]);
            }
            match &parameters[i] {
                ast::Expression::Identifier(name) => {
                    let rest = Self::compile_parameters(parameters, i + 1);
                    proof {
                        assert(suffix.subrange(1, suffix.len() as int) =~= parameters.deep_view()
                            .subrange((i + 1) as int, parameters@.len() as int));
                    }
                    match rest {
                        Err(err) => Err(err),
                        Ok(mut rest_vars) => {
                            let ghost rest_dv = rest_vars.deep_view();
                            let mut out: Vec<structures::Variable> = Vec::new();
                            out.push(structures::Variable { name: name.clone() });
                            out.append(&mut rest_vars);
                            proof {
                                assert(out.deep_view() =~= seq![name@] + rest_dv);
                            }
                            Ok(out)
                        },
                    }
                },
                _ => Err(CompileError::InvalidParameter),
            }
        }
    }

    /// Lowers the body statements from position `i` on, in order.
    fn compile_body(&mut self, body: &Vec<ast::Statement>, i: usize) -> (r: Result<
        Vec<structures::Statement>,
        CompileError,
    >)
        requires
            i <= body@.len(),
        ensures
            *final(self) == *old(self),
            match spec_lower_body(body.deep_view().subrange(i as int, body@.len() as int)) {
                Ok(ss) => r matches Ok(v) && v.deep_view() == ss,
                Err(err) => r matches Err(e) && e == err,
            },
        decreases body@.len() - i,
    {
        let ghost suffix = body.deep_view().subrange(i as int, body@.len() as int);
        if i == body.len() {
            let out: Vec<structures::Statement> = Vec::new();
            proof {
                assert(suffix.len() == 0);
                assert(out.deep_view() =~= Seq::<structures::SpecIrStatement>::empty());
            }
            Ok(out)
        } else {
            proof {
                assert(suffix[0] == body.deep_view()[i as int]);
            }
            let first = self.compile_statement(&body[i]);
            match first {
                Err(err) => Err(err),
                Ok(stmt) => {
                    let rest = self.compile_body(body, i + 1);
                    proof {
                        assert(suffix.subrange(1, suffix.len() as int) =~= body.deep_view()
                            .subrange((i + 1) as int, body@.len() as int));
                    }
                    match rest {
                        Err(err) => Err(err),
                        Ok(mut rest_stmts) => {
                            let ghost stmt_dv = stmt.deep_view();
                            let ghost rest_dv = rest_stmts.deep_view();
                            let mut out: Vec<structures::Statement> = Vec::new();
                            out.push(stmt);
                            out.append(&mut rest_stmts);
                            proof {
                                assert(out.deep_view() =~= seq![stmt_dv] + rest_dv);
                            }
                            Ok(out)
                        },
                    }
                },
            }
        }
    }

    /// Lowers one statement: an expression statement keeps its expression's
    /// dependencies and discards its value; assignments and links are not
    /// lowered yet and fail.
    pub fn compile_statement(&mut self, stmt: &ast::Statement) -> (r: Result<
        structures::Statement,
        CompileError,
    >)
        ensures
            *final(self) == *old(self),
            match spec_lower_statement(stmt.deep_view()) {
                Ok(s) => r matches Ok(rs) && rs.deep_view() == s,
                Err(err) => r matches Err(e) && e == err,
            },
    {
        match stmt {
            ast::Statement::Expression { expr } => {
                let lowered = self.compile_expression(expr);
                match lowered {
                    Err(err) => Err(err),
                    Ok(le) => {
                        let result = structures::Statement {
                            dependencies: le.dependencies,
                            content: Vec::new(),
                        };
                        proof {
                            assert(result.deep_view().content =~= Seq::<
                                structures::SpecCall,
                            >::empty());
                        }
                        Ok(result)
                    },
                }
            },
            ast::Statement::Assignment { .. } => Err(CompileError::UnsupportedStatement),
            ast::Statement::Link { .. } => Err(CompileError::UnsupportedStatement),
        }
    }

    /// Lowers one expression to its dependency calls plus optional terminal
    /// argument, exactly as `spec_lower_expression` says.
    pub fn compile_expression(&mut self, expr: &ast::Expression) -> (r: Result<
        structures::Expression,
        CompileError,
    >)
        ensures
            *final(self) == *old(self),
            match spec_lower_expression(expr.deep_view()) {
                Ok(le) => r matches Ok(e) && e.deep_view() == le,
                Err(err) => r matches Err(e) && e == err,
            },
        decreases expr, 2int, 0int,
    {
        match expr {
            ast::Expression::Literal(lit) => {
                let content = Self::lower_literal(lit);
                let result = structures::Expression {
                    dependencies: Vec::new(),
                    content: Some(content),
                };
                proof {
                    assert(result.deep_view() =~~= spec_lower_expression(
                        expr.deep_view(),
                    )->Ok_0);
                }
                Ok(result)
            },
            ast::Expression::Identifier(name) => {
                let result = structures::Expression {
                    dependencies: Vec::new(),
                    content: Some(
                        structures::Argument::Identifier(structures::Variable { name: name.clone() }),
                    ),
                };
                proof {
                    assert(result.deep_view() =~~= spec_lower_expression(
                        expr.deep_view(),
                    )->Ok_0);
                }
                Ok(result)
            },
            ast::Expression::CWScriptBlockID(_) => Err(CompileError::BlockIdAsValue),
            ast::Expression::Call { function, arguments } => self.compile_call(
                &**function,
                arguments,
            ),
            ast::Expression::BinOperation { lhs, op, rhs } => {
                let lhs_lowered = match self.compile_expression(&**lhs) {
                    Ok(le) => le,
                    Err(err) => {
                        return Err(err);
                    },
                };
                let rhs_lowered = match self.compile_expression(&**rhs) {
                    Ok(re) => re,
                    Err(err) => {
                        return Err(err);
                    },
                };
                let lhs_content = match lhs_lowered.content {
                    Some(a) => a,
                    None => {
                        return Err(CompileError::MissingArgumentValue);
                    },
                };
                let rhs_content = match rhs_lowered.content {
                    Some(a) => a,
                    None => {
                        return Err(CompileError::MissingArgumentValue);
                    },
                };
                match op {
                    ast::BinOperator::Dot | ast::BinOperator::Comma => Err(
                        CompileError::UnmappableOperator,
                    ),
                    _ => {
                        let ghost lhs_deps_dv = lhs_lowered.dependencies.deep_view();
                        let ghost rhs_deps_dv = rhs_lowered.dependencies.deep_view();
                        let function_name = Self::map_bin_op(op);
                        let mut call_deps = lhs_lowered.dependencies;
                        let mut rhs_deps = rhs_lowered.dependencies;
                        call_deps.append(&mut rhs_deps);
                        let mut call_args: Vec<structures::Argument> = Vec::new();
                        call_args.push(lhs_content);
                        call_args.push(rhs_content);
                        let call = structures::Call::FunctionCall {
                            dependencies: call_deps,
                            function_name: structures::Variable { name: function_name },
                            arguments: call_args,
                            return_var: None,
                        };
                        let mut deps: Vec<structures::Call> = Vec::new();
                        deps.push(call);
                        let result = structures::Expression { dependencies: deps, content: None };
                        proof {
                            structures::lemma_deep_view_calls_is_deep_view(
                                result.dependencies,
                            );
                            structures::lemma_deep_view_calls(call_deps@);
                            assert(call_deps.deep_view() =~= lhs_deps_dv + rhs_deps_dv);
                            assert(structures::deep_view_calls(call_deps@)
                                =~= lhs_deps_dv + rhs_deps_dv);
                            assert(result.deep_view() =~~= spec_lower_expression(
                                expr.deep_view(),
                            )->Ok_0);
                        }
                        Ok(result)
                    },
                }
            },
            ast::Expression::UnaryOperation { .. } => Err(CompileError::UnsupportedUnaryOperator),
        }
    }

    /// Lowers a call expression given its callee and arguments, exactly as
    /// `spec_lower_call` says.
    pub fn compile_call(&mut self, function: &ast::Expression, arguments: &Vec<ast::Expression>) -> (r:
        Result<structures::Expression, CompileError>)
        ensures
            *final(self) == *old(self),
            match spec_lower_call(
                function.deep_view(),
                ast::deep_view_expressions(arguments@),
            ) {
                Ok(le) => r matches Ok(e) && e.deep_view() == le,
                Err(err) => r matches Err(e) && e == err,
            },
        decreases arguments@, 1int, 0int,
    {
        let lowered = self.compile_arguments(arguments, 0);
        proof {
            ast::lemma_deep_view_expressions(arguments@);
            assert(ast::deep_view_expressions(arguments@).subrange(
                0,
                arguments@.len() as int,
            ) =~= ast::deep_view_expressions(arguments@));
        }
        match lowered {
            Err(err) => Err(err),
            Ok((deps, args)) => {
                let ghost deps_dv = deps.deep_view();
                let ghost args_dv = args.deep_view();
                match function {
                    ast::Expression::Identifier(name) => {
                        let call = structures::Call::FunctionCall {
                            dependencies: deps,
                            function_name: structures::Variable { name: name.clone() },
                            arguments: args,
                            return_var: None,
                        };
                        let mut call_list: Vec<structures::Call> = Vec::new();
                        call_list.push(call);
                        let result = structures::Expression {
                            dependencies: call_list,
                            content: None,
                        };
                        proof {
                            structures::lemma_deep_view_calls_is_deep_view(
                                result.dependencies,
                            );
                            structures::lemma_deep_view_calls(deps@);
                            assert(structures::deep_view_calls(deps@) =~= deps_dv);
                            assert(result.deep_view() =~~= spec_lower_call(
                                function.deep_view(),
                                ast::deep_view_expressions(arguments@),
                            )->Ok_0);
                        }
                        Ok(result)
                    },
                    ast::Expression::CWScriptBlockID(id) => {
                        let call = structures::Call::CWScriptBlockCall {
                            dependencies: deps,
                            block_id: structures::CWScriptBlockID { id: id.clone() },
                            arguments: args,
                            return_var: None,
                        };
                        let mut call_list: Vec<structures::Call> = Vec::new();
                        call_list.push(call);
                        let result = structures::Expression {
                            dependencies: call_list,
                            content: None,
                        };
                        proof {
                            structures::lemma_deep_view_calls_is_deep_view(
                                result.dependencies,
                            );
                            structures::lemma_deep_view_calls(deps@);
                            assert(structures::deep_view_calls(deps@) =~= deps_dv);
                            assert(result.deep_view() =~~= spec_lower_call(
                                function.deep_view(),
                                ast::deep_view_expressions(arguments@),
                            )->Ok_0);
                        }
                        Ok(result)
                    },
                    _ => Err(CompileError::InvalidCallTarget),
                }
            },
        }
    }

    /// Lowers the call arguments from position `i` on: the dependency lists
    /// concatenated in argument order, and the terminal values in order.
    fn compile_arguments(&mut self, arguments: &Vec<ast::Expression>, i: usize) -> (r: Result<
        (Vec<structures::Call>, Vec<structures::Argument>),
        CompileError,
    >)
        requires
            i <= arguments@.len(),
        ensures
            *final(self) == *old(self),
            match spec_lower_arguments(
                ast::deep_view_expressions(arguments@).subrange(i as int, arguments@.len() as int),
            ) {
                Ok((deps, args)) => r matches Ok((d, a)) && d.deep_view() == deps && a.deep_view()
                    == args,
                Err(err) => r matches Err(e) && e == err,
            },
        decreases arguments@, 0int, arguments@.len() - i,
    {
        proof {
            ast::lemma_deep_view_expressions(arguments@);
        }
        let ghost suffix = ast::deep_view_expressions(arguments@).subrange(
            i as int,
            arguments@.len() as int,
        );
        if i == arguments.len() {
            proof {
                assert(suffix.len() == 0);
            }
            let out_deps: Vec<structures::Call> = Vec::new();
            let out_args: Vec<structures::Argument> = Vec::new();
            proof {
                assert(out_deps.deep_view() =~= Seq::<structures::SpecCall>::empty());
                assert(out_args.deep_view() =~= Seq::<structures::SpecArgument>::empty());
            }
            Ok((out_deps, out_args))
        } else {
            proof {
                assert(suffix[0] == arguments@[i as int].deep_view());
            }
            let first = self.compile_expression(&arguments[i]);
            match first {
                Err(err) => Err(err),
                Ok(le) => match le.content {
                    None => Err(CompileError::MissingArgumentValue),
                    Some(a) => {
                        let rest = self.compile_arguments(arguments, i + 1);
                        proof {
                            assert(suffix.subrange(1, suffix.len() as int)
                                =~= ast::deep_view_expressions(arguments@).subrange(
                                (i + 1) as int,
                                arguments@.len() as int,
                            ));
                        }
                        match rest {
                            Err(err) => Err(err),
                            Ok((mut rest_deps, mut rest_args)) => {
                                let ghost le_deps_dv = le.dependencies.deep_view();
                                let ghost a_dv = a.deep_view();
                                let ghost rest_deps_dv = rest_deps.deep_view();
                                let ghost rest_args_dv = rest_args.deep_view();
                                let mut deps = le.dependencies;
                                deps.append(&mut rest_deps);
                                let mut args: Vec<structures::Argument> = Vec::new();
                                args.push(a);
                                args.append(&mut rest_args);
                                proof {
                                    assert(deps.deep_view() =~= le_deps_dv + rest_deps_dv);
                                    assert(args.deep_view() =~= seq![a_dv] + rest_args_dv);
                                }
                                Ok((deps, args))
                            },
                        }
                    },
                },
            }
        }
    }

    /// The call name of a mappable binary operator; `Dot` and `Comma` have
    /// no mapping and are excluded.
    pub fn map_bin_op(op: &ast::BinOperator) -> (r: String)
        requires
            spec_op_mappable(*op),
        ensures
            r@ == spec_map_bin_op(*op),
    {
        match op {
            ast::BinOperator::Addition => "add".to_owned(),
            ast::BinOperator::Subtraction => "sub".to_owned(),
            ast::BinOperator::Multiplication => "mul".to_owned(),
            ast::BinOperator::Division => "div".to_owned(),
            ast::BinOperator::Power => "pow".to_owned(),
            ast::BinOperator::Dot | ast::BinOperator::Comma => String::new(),
        }
    }

    /// Moves all function declarations before the other items, keeping the
    /// relative order within each group.
    pub fn hoist_items(&mut self)
        ensures
            final(self).state == old(self).state,
            final(self).syntax_tree.link_statements == old(self).syntax_tree.link_statements,
            final(self).syntax_tree.main_block.deep_view() == spec_keep_functions(
                old(self).syntax_tree.main_block.deep_view(),
            ) + spec_keep_other_items(old(self).syntax_tree.main_block.deep_view()),
    {
        let ghost orig = old(self).syntax_tree.main_block.deep_view();
        let mut source: Vec<ast::Item> = Vec::new();
        core::mem::swap(&mut source, &mut self.syntax_tree.main_block);
        let mut hoisted: Vec<ast::Item> = Vec::new();
        let mut others: Vec<ast::Item> = Vec::new();
        while source.len() > 0
            invariant
                spec_keep_functions(orig) == hoisted.deep_view() + spec_keep_functions(
                    source.deep_view(),
                ),
                spec_keep_other_items(orig) == others.deep_view() + spec_keep_other_items(
                    source.deep_view(),
                ),
            decreases source@.len(),
        {
            let ghost before = source.deep_view();
            let ghost hoisted_before = hoisted.deep_view();
            let ghost others_before = others.deep_view();
            let item = source.remove(0);
            let ghost item_dv = item.deep_view();
            proof {
                assert(source.deep_view() =~= before.subrange(1, before.len() as int));
                assert(before[0] == item_dv);
            }
            match item {
                ast::Item::FunctionDeclaration(f) => {
                    hoisted.push(ast::Item::FunctionDeclaration(f));
                    proof {
                        assert(hoisted.deep_view() =~= hoisted_before.push(item_dv));
                        assert(hoisted_before.push(item_dv) + spec_keep_functions(
                            source.deep_view(),
                        ) =~= hoisted_before + (seq![item_dv] + spec_keep_functions(
                            source.deep_view(),
                        )));
                    }
                },
                ast::Item::Attribute(a) => {
                    others.push(ast::Item::Attribute(a));
                    proof {
                        assert(others.deep_view() =~= others_before.push(item_dv));
                        assert(others_before.push(item_dv) + spec_keep_other_items(
                            source.deep_view(),
                        ) =~= others_before + (seq![item_dv] + spec_keep_other_items(
                            source.deep_view(),
                        )));
                    }
                },
            }
        }
        let ghost hoisted_dv = hoisted.deep_view();
        let ghost others_dv = others.deep_view();
        hoisted.append(&mut others);
        self.syntax_tree.main_block = hoisted;
        proof {
            assert(source.deep_view().len() == 0);
            assert(spec_keep_functions(source.deep_view()).len() == 0);
            assert(spec_keep_other_items(source.deep_view()).len() == 0);
            assert(hoisted_dv + spec_keep_functions(source.deep_view()) =~= hoisted_dv);
            assert(others_dv + spec_keep_other_items(source.deep_view()) =~= others_dv);
            assert(final(self).syntax_tree.main_block.deep_view() =~= hoisted_dv + others_dv);
        }
    }

    /// Builds a synchronous block call out of already-lowered parts; the
    /// target block id is left empty pending a resolution step, and the name
    /// is not yet encoded.
    pub fn generate_catweb_sync_call(name: structures::Variable, argument: Vec<structures::Argument>) -> (r:
        structures::Call)
        ensures
            r.deep_view() == (structures::SpecCall::CWScriptBlockCall {
                dependencies: Seq::empty(),
                block_id: Seq::empty(),
                arguments: argument.deep_view(),
                return_var: None,
            }),
    {
        let call = structures::Call::CWScriptBlockCall {
            dependencies: Vec::new(),
            block_id: structures::CWScriptBlockID { id: String::new() },
            arguments: argument,
            return_var: None,
        };
        proof {
            assert(call.deep_view() =~~= (structures::SpecCall::CWScriptBlockCall {
                dependencies: Seq::empty(),
                block_id: Seq::empty(),
                arguments: argument.deep_view(),
                return_var: None,
            }));
        }
        call
    }

    /// Lowers one literal to its plain argument form.
    fn lower_literal(lit: &ast::Literal) -> (r: structures::Argument)
        ensures
            r.deep_view() == spec_lower_literal(lit.deep_view()),
    {
        match lit {
            ast::Literal::Integer(s) => structures::Argument::Literal(
                structures::Literal { value: s.clone() },
            ),
            ast::Literal::Float(s) => structures::Argument::Literal(
                structures::Literal { value: s.clone() },
            ),
            ast::Literal::String(s) => structures::Argument::Literal(
                structures::Literal { value: s.clone() },
            ),
            ast::Literal::RawString(s) => structures::Argument::RawString(s.clone()),
            ast::Literal::Bool(b) => {
                if *b {
                    structures::Argument::Literal(structures::Literal { value: "true".to_owned() })
                } else {
                    structures::Argument::Literal(structures::Literal { value: "false".to_owned() })
                }
            },
        }
    }
}

} // verus!
