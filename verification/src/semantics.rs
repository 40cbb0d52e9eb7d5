//! The big-step semantics of the language, as spec functions.
//!
//! Evaluation is stated over the mathematical state `StateV` with a fuel
//! parameter that only bounds the depth of the definition's recursion:
//! `None` means the fuel ran out, and adding fuel never changes a settled
//! result (the monotonicity lemmas at the bottom). The executable
//! evaluator promises that its result is the settled one for some fuel.
//!
//! Decisions the source left open, made here: an expression statement
//! evaluates its expression and discards the value; a `defer` directly
//! inside a block runs when the block's statement list has completed
//! without error, latest first, while a `defer` anywhere else runs
//! immediately; a declared function captures nothing, a call evaluates
//! its arguments left to right, binds parameters as fresh variables
//! (mutable exactly when the parameter carries the `mut` restrictor),
//! runs the body as a block, removes the
//! parameter bindings again, and yields `Null`; a `TypeName` pattern
//! matches no value; the ternary-if condition uses truthiness coercion.

use vstd::prelude::*;

use crate::ast::AssignOp;
use crate::ast::BinaryOp;
use crate::ast::DeclarationType;
use crate::ast::ExprV;
use crate::ast::FuncParameterV;
use crate::ast::ParamRestrictor;
use crate::ast::PatternV;
use crate::ast::StatementV;
use crate::object::EvalError;
use crate::object::ObjectV;
use crate::object::obj_binary_spec;
use crate::object::obj_eq_spec;
use crate::object::obj_unary_spec;
use crate::object::truthy;
use crate::render::render_v;
use crate::span::Spanned;

verus! {

/// A declared function: its parameters and its body.
pub struct FuncDefV {
    pub params: Seq<FuncParameterV>,
    pub body: Seq<Spanned<StatementV>>,
}

/// The mathematical state of one program run: the variables with their
/// mutability, the declared functions, the interner table, and the lines
/// printed so far.
pub struct StateV {
    pub vars: Map<u64, (ObjectV, bool)>,
    pub funcs: Map<u64, FuncDefV>,
    pub table: Seq<Seq<char>>,
    pub output: Seq<Seq<char>>,
}

/// Whether a pattern matches a value: a wildcard always, a literal when
/// it equals the value, a type name never.
pub open spec fn pat_matches(p: PatternV, v: ObjectV) -> bool {
    match p {
        PatternV::WildCard => true,
        PatternV::Literal { value } => obj_eq_spec(value.0, v) == Ok::<bool, EvalError>(true),
        PatternV::TypeName(_) => false,
    }
}

/// The name a parameter binds.
pub open spec fn param_name(p: FuncParameterV) -> u64 {
    (*p.param_value_name).0
}

/// Whether a parameter binds mutably.
pub open spec fn param_mutable(p: FuncParameterV) -> bool {
    match p.param_restrictor {
        Some(r) => r.0 == ParamRestrictor::Mutable,
        None => false,
    }
}

/// Whether the parameters can be bound beside the variables: no name is
/// taken and no two parameters share one.
pub open spec fn can_bind(vars: Map<u64, (ObjectV, bool)>, params: Seq<FuncParameterV>) -> bool {
    &&& forall|i: int|
        0 <= i < params.len() ==> !vars.dom().contains(#[trigger] param_name(params[i]))
    &&& forall|i: int, j: int|
        0 <= i < j < params.len() ==> param_name(params[i]) != param_name(params[j])
}

/// The variables with the parameters bound to the argument values, left
/// to right.
pub open spec fn bind_params(
    vars: Map<u64, (ObjectV, bool)>,
    params: Seq<FuncParameterV>,
    args: Seq<ObjectV>,
) -> Map<u64, (ObjectV, bool)>
    decreases params.len(),
{
    if params.len() == 0 {
        vars
    } else {
        bind_params(
            vars.insert(param_name(params[0]), (args[0], param_mutable(params[0]))),
            params.subrange(1, params.len() as int),
            args.subrange(1, args.len() as int),
        )
    }
}

/// Remove the parameter bindings again.
pub open spec fn unbind_params(
    vars: Map<u64, (ObjectV, bool)>,
    params: Seq<FuncParameterV>,
) -> Map<u64, (ObjectV, bool)>
    decreases params.len(),
{
    if params.len() == 0 {
        vars
    } else {
        unbind_params(vars.remove(param_name(params[0])), params.subrange(1, params.len() as int))
    }
}

/// Evaluate an expression.
pub open spec fn ev_expr(st: StateV, e: ExprV, fuel: nat) -> Option<
    (StateV, Result<ObjectV, EvalError>),
>
    decreases fuel, 0int,
{
    if fuel == 0 {
        None
    } else {
        let f = (fuel - 1) as nat;
        match e {
            ExprV::Error => Some((st, Err(EvalError::ErrorStatement))),
            ExprV::Literal { value } => Some((st, Ok(value.0))),
            ExprV::Variable { name } => if st.vars.dom().contains(name.0) {
                Some((st, Ok(st.vars[name.0].0)))
            } else {
                Some((st, Err(EvalError::UndeclaredVariable)))
            },
            ExprV::Unary { op, right } => match ev_expr(st, (*right).0, f) {
                None => None,
                Some((st1, Ok(v))) => Some((st1, obj_unary_spec(op.0, v))),
                Some((st1, Err(e1))) => Some((st1, Err(e1))),
            },
            ExprV::Binary { op, left, right } => match ev_expr(st, (*left).0, f) {
                None => None,
                Some((st1, Err(e1))) => Some((st1, Err(e1))),
                Some((st1, Ok(a))) => match ev_expr(st1, (*right).0, f) {
                    None => None,
                    Some((st2, Err(e2))) => Some((st2, Err(e2))),
                    Some((st2, Ok(b))) => {
                        let (r, tbl) = obj_binary_spec(op.0, a, b, st2.table);
                        Some((StateV { table: tbl, ..st2 }, r))
                    },
                },
            },
            ExprV::TernaryIf { condition, value, else_value } => match ev_expr(
                st,
                (*condition).0,
                f,
            ) {
                None => None,
                Some((st1, Err(e1))) => Some((st1, Err(e1))),
                Some((st1, Ok(c))) => if truthy(c) {
                    ev_expr(st1, (*value).0, f)
                } else {
                    ev_expr(st1, (*else_value).0, f)
                },
            },
            ExprV::FunctionCall { func_name, arguments } => {
                let args = match arguments {
                    Some(a) => a,
                    None => Seq::empty(),
                };
                match ev_args(st, args, f) {
                    None => None,
                    Some((st1, Err(e1))) => Some((st1, Err(e1))),
                    Some((st1, Ok(vals))) => ev_call(st1, (*func_name).0, vals, f),
                }
            },
        }
    }
}

/// Evaluate the arguments of a call, left to right.
pub open spec fn ev_args(st: StateV, args: Seq<ExprV>, fuel: nat) -> Option<
    (StateV, Result<Seq<ObjectV>, EvalError>),
>
    decreases fuel, 0int,
{
    if fuel == 0 {
        None
    } else {
        let f = (fuel - 1) as nat;
        if args.len() == 0 {
            Some((st, Ok(Seq::empty())))
        } else {
            match ev_expr(st, args[0], f) {
                None => None,
                Some((st1, Err(e1))) => Some((st1, Err(e1))),
                Some((st1, Ok(v))) => match ev_args(
                    st1,
                    args.subrange(1, args.len() as int),
                    f,
                ) {
                    None => None,
                    Some((st2, Err(e2))) => Some((st2, Err(e2))),
                    Some((st2, Ok(rest))) => Some((st2, Ok(seq![v] + rest))),
                },
            }
        }
    }
}

/// Call a declared function on already-evaluated argument values: look
/// the function up, check the arity, bind the parameters as fresh
/// variables, run the body as a block, remove the bindings, and yield
/// `Null`.
pub open spec fn ev_call(st1: StateV, name: u64, vals: Seq<ObjectV>, fuel: nat) -> Option<
    (StateV, Result<ObjectV, EvalError>),
>
    decreases fuel, 1int,
{
    if !st1.funcs.dom().contains(name) {
        Some((st1, Err(EvalError::UndeclaredVariable)))
    } else {
        let fd = st1.funcs[name];
        if fd.params.len() != vals.len() {
            Some((st1, Err(EvalError::TypeMismatch)))
        } else if !can_bind(st1.vars, fd.params) {
            Some((st1, Err(EvalError::AlreadyDeclared)))
        } else {
            let st2 = StateV { vars: bind_params(st1.vars, fd.params, vals), ..st1 };
            match ev_block(st2, fd.body, fuel) {
                None => None,
                Some((st3, r)) => {
                    let st4 = StateV { vars: unbind_params(st3.vars, fd.params), ..st3 };
                    match r {
                        Ok(_) => Some((st4, Ok(ObjectV::Null))),
                        Err(e1) => Some((st4, Err(e1))),
                    }
                },
            }
        }
    }
}

/// Evaluate one statement.
pub open spec fn ev_stmt(st: StateV, s: StatementV, fuel: nat) -> Option<
    (StateV, Result<(), EvalError>),
>
    decreases fuel, 0int,
{
    if fuel == 0 {
        None
    } else {
        let f = (fuel - 1) as nat;
        match s {
            StatementV::Error => Some((st, Err(EvalError::ErrorStatement))),
            StatementV::Empty => Some((st, Ok(()))),
            StatementV::Test(e) => match ev_expr(st, e, f) {
                None => None,
                Some((st1, Err(e1))) => Some((st1, Err(e1))),
                Some((st1, Ok(v))) => match render_v(v, st1.table) {
                    Ok(line) => Some(
                        (StateV { output: st1.output.push(line), ..st1 }, Ok(())),
                    ),
                    Err(e1) => Some((st1, Err(e1))),
                },
            },
            StatementV::Assign { name, op, value } => match ev_expr(st, (*value).0, f) {
                None => None,
                Some((st1, Err(e1))) => Some((st1, Err(e1))),
                Some((st1, Ok(v))) => if !st1.vars.dom().contains(name.0) {
                    Some((st1, Err(EvalError::UndeclaredVariable)))
                } else if !st1.vars[name.0].1 {
                    Some((st1, Err(EvalError::Immutable)))
                } else {
                    let cur = st1.vars[name.0].0;
                    let bop = match op.0 {
                        AssignOp::Add => Some(BinaryOp::Add),
                        AssignOp::Sub => Some(BinaryOp::Sub),
                        AssignOp::Mul => Some(BinaryOp::Mul),
                        AssignOp::Div => Some(BinaryOp::Div),
                        AssignOp::Assign => None,
                    };
                    match bop {
                        None => Some(
                            (
                                StateV { vars: st1.vars.insert(name.0, (v, true)), ..st1 },
                                Ok(()),
                            ),
                        ),
                        Some(b) => {
                            let (r, tbl) = obj_binary_spec(b, cur, v, st1.table);
                            match r {
                                Ok(nv) => Some(
                                    (
                                        StateV {
                                            vars: st1.vars.insert(name.0, (nv, true)),
                                            table: tbl,
                                            ..st1
                                        },
                                        Ok(()),
                                    ),
                                ),
                                Err(e1) => Some((StateV { table: tbl, ..st1 }, Err(e1))),
                            }
                        },
                    }
                },
            },
            StatementV::Block { stmts } => ev_block(st, stmts, f),
            StatementV::Expression { expr } => match ev_expr(st, (*expr).0, f) {
                None => None,
                Some((st1, Ok(_))) => Some((st1, Ok(()))),
                Some((st1, Err(e1))) => Some((st1, Err(e1))),
            },
            StatementV::Declaration { declaration_type, name, manual_type, value } => {
                if st.vars.dom().contains(name.0) {
                    Some((st, Err(EvalError::AlreadyDeclared)))
                } else {
                    match ev_expr(st, (*value).0, f) {
                        None => None,
                        Some((st1, Err(e1))) => Some((st1, Err(e1))),
                        Some((st1, Ok(v))) => {
                            let m = declaration_type == DeclarationType::Mutable;
                            Some(
                                (
                                    StateV { vars: st1.vars.insert(name.0, (v, m)), ..st1 },
                                    Ok(()),
                                ),
                            )
                        },
                    }
                }
            },
            StatementV::FuncDeclaration { name, parameters, return_type, stmts } => {
                if st.funcs.dom().contains(name.0) {
                    Some((st, Err(EvalError::AlreadyDeclared)))
                } else {
                    let ps = match parameters {
                        Some(p) => p,
                        None => Seq::empty(),
                    };
                    let fd = FuncDefV { params: ps, body: stmts };
                    Some((StateV { funcs: st.funcs.insert(name.0, fd), ..st }, Ok(())))
                }
            },
            StatementV::IfStmt { condition, then_branch, else_branch } => match ev_expr(
                st,
                (*condition).0,
                f,
            ) {
                None => None,
                Some((st1, Err(e1))) => Some((st1, Err(e1))),
                Some((st1, Ok(c))) => match c {
                    ObjectV::Boolean(b) => if b {
                        ev_stmt(st1, (*then_branch).0, f)
                    } else {
                        match else_branch {
                            Some(eb) => ev_stmt(st1, (*eb).0, f),
                            None => Some((st1, Ok(()))),
                        }
                    },
                    _ => Some((st1, Err(EvalError::TypeMismatch))),
                },
            },
            StatementV::MatchStmt { predicate, arms } => match ev_expr(
                st,
                (*predicate).0,
                f,
            ) {
                None => None,
                Some((st1, Err(e1))) => Some((st1, Err(e1))),
                Some((st1, Ok(v))) => ev_arms(st1, arms.0, v, f),
            },
            StatementV::WhileStmt { condition, body } => match ev_expr(
                st,
                (*condition).0,
                f,
            ) {
                None => None,
                Some((st1, Err(e1))) => Some((st1, Err(e1))),
                Some((st1, Ok(c))) => match c {
                    ObjectV::Boolean(b) => if b {
                        match ev_stmt(st1, (*body).0, f) {
                            None => None,
                            Some((st2, Err(e2))) => Some((st2, Err(e2))),
                            Some((st2, Ok(_))) => ev_stmt(st2, s, f),
                        }
                    } else {
                        Some((st1, Ok(())))
                    },
                    _ => Some((st1, Err(EvalError::TypeMismatch))),
                },
            },
            StatementV::Defer { stmt } => ev_stmt(st, (*stmt).0, f),
        }
    }
}

/// Evaluate a statement list and, on success, its deferred statements,
/// latest first.
pub open spec fn ev_block(
    st: StateV,
    stmts: Seq<Spanned<StatementV>>,
    fuel: nat,
) -> Option<(StateV, Result<(), EvalError>)>
    decreases fuel, 0int,
{
    if fuel == 0 {
        None
    } else {
        let f = (fuel - 1) as nat;
        match ev_stmt_list(st, stmts, f) {
            None => None,
            Some((st1, Err(e1))) => Some((st1, Err(e1))),
            Some((st1, Ok(defs))) => ev_deferred(st1, defs, f),
        }
    }
}

/// Walk a statement list in order, postponing the statements directly
/// under `defer` and returning them in reverse encounter order; the walk
/// aborts on the first error.
pub open spec fn ev_stmt_list(
    st: StateV,
    stmts: Seq<Spanned<StatementV>>,
    fuel: nat,
) -> Option<(StateV, Result<Seq<StatementV>, EvalError>)>
    decreases fuel, 0int,
{
    if fuel == 0 {
        None
    } else {
        let f = (fuel - 1) as nat;
        if stmts.len() == 0 {
            Some((st, Ok(Seq::empty())))
        } else {
            match stmts[0].0 {
                StatementV::Defer { stmt } => match ev_stmt_list(
                    st,
                    stmts.subrange(1, stmts.len() as int),
                    f,
                ) {
                    None => None,
                    Some((st1, Err(e1))) => Some((st1, Err(e1))),
                    Some((st1, Ok(defs))) => Some((st1, Ok(seq![(*stmt).0] + defs))),
                },
                _ => match ev_stmt(st, stmts[0].0, f) {
                    None => None,
                    Some((st1, Err(e1))) => Some((st1, Err(e1))),
                    Some((st1, Ok(_))) => ev_stmt_list(
                        st1,
                        stmts.subrange(1, stmts.len() as int),
                        f,
                    ),
                },
            }
        }
    }
}

/// Run the deferred statements, last collected first.
pub open spec fn ev_deferred(st: StateV, defs: Seq<StatementV>, fuel: nat) -> Option<
    (StateV, Result<(), EvalError>),
>
    decreases fuel, 0int,
{
    if fuel == 0 {
        None
    } else {
        let f = (fuel - 1) as nat;
        if defs.len() == 0 {
            Some((st, Ok(())))
        } else {
            match ev_stmt(st, defs.last(), f) {
                None => None,
                Some((st1, Err(e1))) => Some((st1, Err(e1))),
                Some((st1, Ok(_))) => ev_deferred(
                    st1,
                    defs.subrange(0, defs.len() - 1),
                    f,
                ),
            }
        }
    }
}

/// Scan the arms of a match in order and run the first whose pattern
/// matches; when none does, the match is a no-op.
pub open spec fn ev_arms(
    st: StateV,
    arms: Seq<(PatternV, StatementV)>,
    v: ObjectV,
    fuel: nat,
) -> Option<(StateV, Result<(), EvalError>)>
    decreases fuel, 0int,
{
    if fuel == 0 {
        None
    } else {
        let f = (fuel - 1) as nat;
        if arms.len() == 0 {
            Some((st, Ok(())))
        } else if pat_matches(arms[0].0, v) {
            ev_stmt(st, arms[0].1, f)
        } else {
            ev_arms(st, arms.subrange(1, arms.len() as int), v, f)
        }
    }
}

// ------------------------------------------------------------------
// Fuel monotonicity
// ------------------------------------------------------------------

/// A settled expression evaluation does not change with more fuel.
pub proof fn mono_expr(st: StateV, e: ExprV, f1: nat, f2: nat)
    requires
        f1 <= f2,
        ev_expr(st, e, f1) is Some,
    ensures
        ev_expr(st, e, f2) == ev_expr(st, e, f1),
    decreases f1, 0int,
{
    let g1 = (f1 - 1) as nat;
    let g2 = (f2 - 1) as nat;
    match e {
        ExprV::Unary { op, right } => {
            mono_expr(st, (*right).0, g1, g2);
        },
        ExprV::Binary { op, left, right } => {
            mono_expr(st, (*left).0, g1, g2);
            match ev_expr(st, (*left).0, g1) {
                Some((st1, Ok(_))) => {
                    mono_expr(st1, (*right).0, g1, g2);
                },
                _ => {},
            }
        },
        ExprV::TernaryIf { condition, value, else_value } => {
            mono_expr(st, (*condition).0, g1, g2);
            match ev_expr(st, (*condition).0, g1) {
                Some((st1, Ok(c))) => {
                    if truthy(c) {
                        mono_expr(st1, (*value).0, g1, g2);
                    } else {
                        mono_expr(st1, (*else_value).0, g1, g2);
                    }
                },
                _ => {},
            }
        },
        ExprV::FunctionCall { func_name, arguments } => {
            let args = match arguments {
                Some(a) => a,
                None => Seq::empty(),
            };
            mono_args(st, args, g1, g2);
            match ev_args(st, args, g1) {
                Some((st1, Ok(vals))) => {
                    mono_call(st1, (*func_name).0, vals, g1, g2);
                },
                _ => {},
            }
        },
        _ => {},
    }
}

/// A settled call does not change with more fuel.
pub proof fn mono_call(st1: StateV, name: u64, vals: Seq<ObjectV>, f1: nat, f2: nat)
    requires
        f1 <= f2,
        ev_call(st1, name, vals, f1) is Some,
    ensures
        ev_call(st1, name, vals, f2) == ev_call(st1, name, vals, f1),
    decreases f1, 1int,
{
    if st1.funcs.dom().contains(name) {
        let fd = st1.funcs[name];
        if fd.params.len() == vals.len() && can_bind(st1.vars, fd.params) {
            let st2 = StateV { vars: bind_params(st1.vars, fd.params, vals), ..st1 };
            mono_block(st2, fd.body, f1, f2);
        }
    }
}

/// A settled argument-list evaluation does not change with more fuel.
pub proof fn mono_args(st: StateV, args: Seq<ExprV>, f1: nat, f2: nat)
    requires
        f1 <= f2,
        ev_args(st, args, f1) is Some,
    ensures
        ev_args(st, args, f2) == ev_args(st, args, f1),
    decreases f1, 0int,
{
    let g1 = (f1 - 1) as nat;
    let g2 = (f2 - 1) as nat;
    if args.len() != 0 {
        mono_expr(st, args[0], g1, g2);
        match ev_expr(st, args[0], g1) {
            Some((st1, Ok(_))) => {
                mono_args(st1, args.subrange(1, args.len() as int), g1, g2);
            },
            _ => {},
        }
    }
}

/// A settled statement evaluation does not change with more fuel.
pub proof fn mono_stmt(st: StateV, s: StatementV, f1: nat, f2: nat)
    requires
        f1 <= f2,
        ev_stmt(st, s, f1) is Some,
    ensures
        ev_stmt(st, s, f2) == ev_stmt(st, s, f1),
    decreases f1, 0int,
{
    let g1 = (f1 - 1) as nat;
    let g2 = (f2 - 1) as nat;
    match s {
        StatementV::Test(e) => {
            mono_expr(st, e, g1, g2);
        },
        StatementV::Assign { name, op, value } => {
            mono_expr(st, (*value).0, g1, g2);
        },
        StatementV::Block { stmts } => {
            mono_block(st, stmts, g1, g2);
        },
        StatementV::Expression { expr } => {
            mono_expr(st, (*expr).0, g1, g2);
        },
        StatementV::Declaration { declaration_type, name, manual_type, value } => {
            if !st.vars.dom().contains(name.0) {
                mono_expr(st, (*value).0, g1, g2);
            }
        },
        StatementV::IfStmt { condition, then_branch, else_branch } => {
            mono_expr(st, (*condition).0, g1, g2);
            match ev_expr(st, (*condition).0, g1) {
                Some((st1, Ok(ObjectV::Boolean(b)))) => {
                    if b {
                        mono_stmt(st1, (*then_branch).0, g1, g2);
                    } else {
                        match else_branch {
                            Some(eb) => {
                                mono_stmt(st1, (*eb).0, g1, g2);
                            },
                            None => {},
                        }
                    }
                },
                _ => {},
            }
        },
        StatementV::MatchStmt { predicate, arms } => {
            mono_expr(st, (*predicate).0, g1, g2);
            match ev_expr(st, (*predicate).0, g1) {
                Some((st1, Ok(v))) => {
                    mono_arms(st1, arms.0, v, g1, g2);
                },
                _ => {},
            }
        },
        StatementV::WhileStmt { condition, body } => {
            mono_expr(st, (*condition).0, g1, g2);
            match ev_expr(st, (*condition).0, g1) {
                Some((st1, Ok(ObjectV::Boolean(b)))) => {
                    if b {
                        mono_stmt(st1, (*body).0, g1, g2);
                        match ev_stmt(st1, (*body).0, g1) {
                            Some((st2, Ok(_))) => {
                                mono_stmt(st2, s, g1, g2);
                            },
                            _ => {},
                        }
                    }
                },
                _ => {},
            }
        },
        StatementV::Defer { stmt } => {
            mono_stmt(st, (*stmt).0, g1, g2);
        },
        _ => {},
    }
}

/// A settled block evaluation does not change with more fuel.
pub proof fn mono_block(st: StateV, stmts: Seq<Spanned<StatementV>>, f1: nat, f2: nat)
    requires
        f1 <= f2,
        ev_block(st, stmts, f1) is Some,
    ensures
        ev_block(st, stmts, f2) == ev_block(st, stmts, f1),
    decreases f1, 0int,
{
    let g1 = (f1 - 1) as nat;
    let g2 = (f2 - 1) as nat;
    mono_stmt_list(st, stmts, g1, g2);
    match ev_stmt_list(st, stmts, g1) {
        Some((st1, Ok(defs))) => {
            mono_deferred(st1, defs, g1, g2);
        },
        _ => {},
    }
}

/// A settled statement-list walk does not change with more fuel.
pub proof fn mono_stmt_list(
    st: StateV,
    stmts: Seq<Spanned<StatementV>>,
    f1: nat,
    f2: nat,
)
    requires
        f1 <= f2,
        ev_stmt_list(st, stmts, f1) is Some,
    ensures
        ev_stmt_list(st, stmts, f2) == ev_stmt_list(st, stmts, f1),
    decreases f1, 0int,
{
    let g1 = (f1 - 1) as nat;
    let g2 = (f2 - 1) as nat;
    if stmts.len() != 0 {
        match stmts[0].0 {
            StatementV::Defer { stmt } => {
                mono_stmt_list(st, stmts.subrange(1, stmts.len() as int), g1, g2);
            },
            _ => {
                mono_stmt(st, stmts[0].0, g1, g2);
                match ev_stmt(st, stmts[0].0, g1) {
                    Some((st1, Ok(_))) => {
                        mono_stmt_list(st1, stmts.subrange(1, stmts.len() as int), g1, g2);
                    },
                    _ => {},
                }
            },
        }
    }
}

/// A settled deferred-statement run does not change with more fuel.
pub proof fn mono_deferred(st: StateV, defs: Seq<StatementV>, f1: nat, f2: nat)
    requires
        f1 <= f2,
        ev_deferred(st, defs, f1) is Some,
    ensures
        ev_deferred(st, defs, f2) == ev_deferred(st, defs, f1),
    decreases f1, 0int,
{
    let g1 = (f1 - 1) as nat;
    let g2 = (f2 - 1) as nat;
    if defs.len() != 0 {
        mono_stmt(st, defs.last(), g1, g2);
        match ev_stmt(st, defs.last(), g1) {
            Some((st1, Ok(_))) => {
                mono_deferred(st1, defs.subrange(0, defs.len() - 1), g1, g2);
            },
            _ => {},
        }
    }
}

/// A settled arm scan does not change with more fuel.
pub proof fn mono_arms(
    st: StateV,
    arms: Seq<(PatternV, StatementV)>,
    v: ObjectV,
    f1: nat,
    f2: nat,
)
    requires
        f1 <= f2,
        ev_arms(st, arms, v, f1) is Some,
    ensures
        ev_arms(st, arms, v, f2) == ev_arms(st, arms, v, f1),
    decreases f1, 0int,
{
    let g1 = (f1 - 1) as nat;
    let g2 = (f2 - 1) as nat;
    if arms.len() != 0 {
        if pat_matches(arms[0].0, v) {
            mono_stmt(st, arms[0].1, g1, g2);
        } else {
            mono_arms(st, arms.subrange(1, arms.len() as int), v, g1, g2);
        }
    }
}

} // verus!
