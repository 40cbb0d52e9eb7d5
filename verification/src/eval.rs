//! The tree-walking evaluator.
//!
//! An `Interperter` owns the flat variable environment, the declared
//! functions, the string interner and the lines printed so far. Each
//! evaluation method is proved to return exactly what the big-step
//! semantics of `semantics` states, for the evaluation budget it was
//! given; the public entry points run with the largest budget, and a
//! run that exhausts it stops with `RecursionLimit`.

use vstd::prelude::*;

use std::collections::HashMap;

use crate::ast::Assign;
use crate::ast::AssignOp;
use crate::ast::Binary;
use crate::ast::BinaryOp;
use crate::ast::DeclarationType;
use crate::ast::Expr;
use crate::ast::ExprV;
use crate::ast::FuncParameter;
use crate::ast::Pattern;
use crate::ast::Statement;
use crate::ast::StatementV;
use crate::ast::Unary;
use crate::ast::expr_v;
use crate::ast::exprs_v;
use crate::ast::lemma_arms_v_props;
use crate::ast::lemma_exprs_v_props;
use crate::ast::lemma_params_v_props;
use crate::ast::lemma_stmts_v_props;
use crate::ast::param_v;
use crate::ast::params_v;
use crate::ast::pattern_v;
use crate::ast::stmt_v;
use crate::ast::stmts_v;
use crate::ast::arms_v;
use crate::copying::clone_params;
use crate::copying::clone_stmt;
use crate::copying::clone_stmts;
use crate::interner::interner_seq;
use crate::interner::rodeo_new;
use crate::interner::table_injective;
use crate::object::EvalError;
use crate::object::Object;
use crate::object::ObjectV;
use crate::object::obj_binary_exec;
use crate::object::obj_eq_exec;
use crate::object::obj_unary_exec;
use crate::object::obj_v;
use crate::object::res_v;
use crate::object::truthy_exec;
use crate::render::render_obj;
use crate::semantics::FuncDefV;
use crate::semantics::StateV;
use crate::semantics::bind_params;
use crate::semantics::can_bind;
use crate::semantics::ev_args;
use crate::semantics::ev_arms;
use crate::semantics::ev_block;
use crate::semantics::ev_call;
use crate::semantics::ev_deferred;
use crate::semantics::ev_expr;
use crate::semantics::ev_stmt;
use crate::semantics::ev_stmt_list;
use crate::semantics::param_mutable;
use crate::semantics::param_name;
use crate::semantics::pat_matches;
use crate::semantics::unbind_params;
use crate::span::Span;
use crate::span::Spanned;

verus! {

broadcast use vstd::std_specs::hash::group_hash_axioms;

/// The largest evaluation budget: one unit is consumed per semantic
/// step, so this bound is never reached by a program that terminates in
/// practice.
pub const MAX_FUEL: u64 = 0xFFFF_FFFF_FFFF_FFFF;

/// A declared function: its parameters and its body.
pub struct FuncDef {
    pub parameters: Vec<FuncParameter>,
    pub body: Vec<Spanned<Statement>>,
}

/// The model of a declared function.
pub open spec fn func_def_v(fd: FuncDef) -> FuncDefV {
    FuncDefV { params: params_v(fd.parameters@), body: stmts_v(fd.body@) }
}

/// The model of a variable table.
pub open spec fn vars_v(m: Map<u64, (Object, bool)>) -> Map<u64, (ObjectV, bool)> {
    m.map_values(|p: (Object, bool)| (obj_v(p.0), p.1))
}

/// The model of a function table.
pub open spec fn funcs_v(m: Map<u64, FuncDef>) -> Map<u64, FuncDefV> {
    m.map_values(|fd: FuncDef| func_def_v(fd))
}

/// The model of the printed lines.
pub open spec fn output_v(s: Seq<String>) -> Seq<Seq<char>> {
    s.map_values(|line: String| line@)
}

/// The model of a sequence of runtime values.
pub open spec fn objs_v(s: Seq<Object>) -> Seq<ObjectV> {
    s.map_values(|o: Object| obj_v(o))
}

/// What an expression evaluation may report: the settled result of the
/// semantics at the given budget, or `RecursionLimit` when the budget
/// ran out.
pub open spec fn expr_outcome(
    pre: StateV,
    e: ExprV,
    fuel: nat,
    post: StateV,
    r: Result<Object, EvalError>,
) -> bool {
    match ev_expr(pre, e, fuel) {
        Some((st2, r2)) => post == st2 && res_v(r) == r2,
        None => r == Err::<Object, EvalError>(EvalError::RecursionLimit),
    }
}

/// What a statement evaluation may report.
pub open spec fn stmt_outcome(
    pre: StateV,
    s: StatementV,
    fuel: nat,
    post: StateV,
    r: Result<(), EvalError>,
) -> bool {
    match ev_stmt(pre, s, fuel) {
        Some((st2, r2)) => post == st2 && r == r2,
        None => r == Err::<(), EvalError>(EvalError::RecursionLimit),
    }
}

/// The tree-walking interpreter: the flat variable environment, the
/// declared functions, the string interner, and the printed lines.
pub struct Interperter {
    vars: HashMap<u64, (Object, bool)>,
    funcs: HashMap<u64, FuncDef>,
    strings: lasso::Rodeo,
    output: Vec<String>,
}

impl View for Interperter {
    type V = StateV;

    closed spec fn view(&self) -> StateV {
        StateV {
            vars: vars_v(self.vars@),
            funcs: funcs_v(self.funcs@),
            table: interner_seq(self.strings),
            output: output_v(self.output@),
        }
    }
}

impl Interperter {
    /// The interner never holds the same string twice; every method
    /// keeps this.
    pub closed spec fn wf(&self) -> bool {
        table_injective(interner_seq(self.strings))
    }

    /// A fresh interpreter: nothing declared, nothing interned, nothing
    /// printed.
    pub fn new() -> (r: Interperter)
        ensures
            r.wf(),
            r@.vars == Map::<u64, (ObjectV, bool)>::empty(),
            r@.funcs == Map::<u64, FuncDefV>::empty(),
            r@.table == Seq::<Seq<char>>::empty(),
            r@.output == Seq::<Seq<char>>::empty(),
    {
        let r = Interperter {
            vars: HashMap::new(),
            funcs: HashMap::new(),
            strings: rodeo_new(),
            output: Vec::new(),
        };
        proof {
            assert(r@.vars =~= Map::<u64, (ObjectV, bool)>::empty());
            assert(r@.funcs =~= Map::<u64, FuncDefV>::empty());
            assert(r@.output =~= Seq::<Seq<char>>::empty());
        }
        r
    }

    /// Intern a string and return its handle, or `None` when the table
    /// is full.
    pub fn intern(&mut self, s: &str) -> (h: Option<u32>)
        requires
            old(self).wf(),
        ensures
            final(self).wf(),
            final(self)@.vars == old(self)@.vars,
            final(self)@.funcs == old(self)@.funcs,
            final(self)@.output == old(self)@.output,
            h matches Some(hh) ==> {
                &&& (hh as int) < final(self)@.table.len()
                &&& final(self)@.table[hh as int] == s@
                &&& if crate::interner::table_has(old(self)@.table, s@) {
                    final(self)@.table == old(self)@.table
                } else {
                    final(self)@.table == old(self)@.table.push(s@)
                }
            },
            h is None ==> final(self)@.table == old(self)@.table,
    {
        let len = crate::interner::interner_len(&self.strings);
        if len >= crate::interner::INTERNER_CAPACITY as usize {
            return None;
        }
        let ghost tbl0 = interner_seq(self.strings);
        let h = crate::interner::intern_str(&mut self.strings, s);
        proof {
            if !crate::interner::table_has(tbl0, s@) {
                crate::interner::lemma_push_injective(tbl0, s@);
            }
        }
        Some(h)
    }

    /// The string a handle stands for, when the table holds it.
    pub fn resolve(&self, h: u32) -> (r: Option<String>)
        ensures
            (r is Some) <==> (h as int) < self@.table.len(),
            r matches Some(s) ==> s@ == self@.table[h as int],
    {
        crate::interner::resolve_str(&self.strings, h)
    }

    /// The lines printed so far.
    pub fn output(&self) -> (r: &Vec<String>)
        ensures
            r@.len() == self@.output.len(),
            forall|i: int| 0 <= i < r@.len() ==> r@[i]@ == self@.output[i],
    {
        &self.output
    }
}

impl Default for Interperter {
    /// The same fresh interpreter `new` builds.
    fn default() -> (r: Interperter)
        ensures
            r.wf(),
            r@.vars == Map::<u64, (ObjectV, bool)>::empty(),
            r@.funcs == Map::<u64, FuncDefV>::empty(),
            r@.table == Seq::<Seq<char>>::empty(),
            r@.output == Seq::<Seq<char>>::empty(),
    {
        Interperter::new()
    }
}

/// The model of a list of plain statements.
pub open spec fn stmts_plain_v(s: Seq<Statement>) -> Seq<StatementV> {
    s.map_values(|x: Statement| stmt_v(x))
}

/// Whether a pattern matches a value, as `pat_matches` states.
fn pat_matches_exec(p: &Pattern, v: &Object) -> (r: bool)
    ensures
        r == pat_matches(pattern_v(*p), obj_v(*v)),
{
    match p {
        Pattern::WildCard => true,
        Pattern::Literal(l) => match obj_eq_exec(&l.value.0, v) {
            Ok(b) => b,
            Err(_) => false,
        },
        Pattern::TypeName(_) => false,
    }
}

impl Interperter {
    /// Evaluate an expression within a budget, as `ev_expr` states.
    #[verifier::rlimit(100)]
    #[verifier::spinoff_prover]
    fn expr_eval_fuel(&mut self, e: &Expr, fuel: u64) -> (r: Result<Object, EvalError>)
        requires
            old(self).wf(),
        ensures
            final(self).wf(),
            expr_outcome(old(self)@, expr_v(*e), fuel as nat, final(self)@, r),
        decreases fuel, 1int,
    {
        if fuel == 0 {
            return Err(EvalError::RecursionLimit);
        }
        let f = fuel - 1;
        match e {
            Expr::Error => Err(EvalError::ErrorStatement),
            Expr::Literal(l) => Ok(l.value.0),
            Expr::Variable { name } => {
                let ghost vm = self.vars@;
                match self.vars.get(&name.0) {
                    Some(p) => {
                        proof {
                            assert(self@.vars.dom().contains(name.0));
                            assert(self@.vars[name.0] == (obj_v(vm[name.0].0), vm[name.0].1));
                        }
                        Ok(p.0)
                    },
                    None => {
                        proof {
                            assert(!self@.vars.dom().contains(name.0));
                        }
                        Err(EvalError::UndeclaredVariable)
                    },
                }
            },
            Expr::Unary(u) => {
                let v = match self.expr_eval_fuel(&(*u.right).0, f) {
                    Ok(v) => v,
                    Err(e1) => {
                        return Err(e1);
                    },
                };
                obj_unary_exec(u.operator.0, &v)
            },
            Expr::Binary(b) => {
                let a = match self.expr_eval_fuel(&(*b.left).0, f) {
                    Ok(v) => v,
                    Err(e1) => {
                        return Err(e1);
                    },
                };
                let c = match self.expr_eval_fuel(&(*b.right).0, f) {
                    Ok(v) => v,
                    Err(e2) => {
                        return Err(e2);
                    },
                };
                obj_binary_exec(b.operator.0, &a, &c, &mut self.strings)
            },
            Expr::TernaryIf { condition, value, else_value } => {
                let c = match self.expr_eval_fuel(&(**condition).0, f) {
                    Ok(v) => v,
                    Err(e1) => {
                        return Err(e1);
                    },
                };
                if truthy_exec(&c) {
                    self.expr_eval_fuel(&(**value).0, f)
                } else {
                    self.expr_eval_fuel(&(**else_value).0, f)
                }
            },
            Expr::FunctionCall { func_name, arguments } => {
                let no_args: Vec<Expr> = Vec::new();
                let args: &Vec<Expr> = match arguments {
                    Some(a) => a,
                    None => &no_args,
                };
                proof {
                    assert(exprs_v(no_args@) =~= Seq::<ExprV>::empty());
                    lemma_exprs_v_props(args@);
                    assert(exprs_v(args@).subrange(0, exprs_v(args@).len() as int) =~= exprs_v(
                        args@,
                    ));
                }
                let vals = match self.args_eval_fuel(args, 0, f) {
                    Ok(v) => v,
                    Err(e1) => {
                        return Err(e1);
                    },
                };
                self.call_eval_fuel((**func_name).0, vals, f)
            },
        }
    }

    /// Evaluate the arguments of a call from index `i` on, as `ev_args`
    /// states.
    fn args_eval_fuel(&mut self, args: &Vec<Expr>, i: usize, fuel: u64) -> (r: Result<
        Vec<Object>,
        EvalError,
    >)
        requires
            old(self).wf(),
            i <= args.len(),
        ensures
            final(self).wf(),
            (match ev_args(
                old(self)@,
                exprs_v(args@).subrange(i as int, args@.len() as int),
                fuel as nat,
            ) {
                Some((st2, r2)) => final(self)@ == st2 && (match r {
                    Ok(vals) => r2 == Ok::<Seq<ObjectV>, EvalError>(objs_v(vals@)),
                    Err(e1) => r2 == Err::<Seq<ObjectV>, EvalError>(e1),
                }),
                None => r == Err::<Vec<Object>, EvalError>(EvalError::RecursionLimit),
            }),
        decreases fuel, 0int,
    {
        proof {
            lemma_exprs_v_props(args@);
        }
        if fuel == 0 {
            return Err(EvalError::RecursionLimit);
        }
        let f = fuel - 1;
        let ghost whole = exprs_v(args@).subrange(i as int, args@.len() as int);
        if i >= args.len() {
            let done: Vec<Object> = Vec::new();
            proof {
                assert(whole =~= Seq::<ExprV>::empty());
                assert(objs_v(done@) =~= Seq::<ObjectV>::empty());
            }
            return Ok(done);
        }
        proof {
            assert(whole[0] == expr_v(args@[i as int]));
            assert(whole.subrange(1, whole.len() as int) =~= exprs_v(args@).subrange(
                i as int + 1,
                args@.len() as int,
            ));
        }
        let v = match self.expr_eval_fuel(&args[i], f) {
            Ok(v) => v,
            Err(e1) => {
                return Err(e1);
            },
        };
        let rest = match self.args_eval_fuel(args, i + 1, f) {
            Ok(vs) => vs,
            Err(e2) => {
                return Err(e2);
            },
        };
        let ghost rest_view = rest@;
        let mut out = rest;
        out.insert(0, v);
        proof {
            assert(out@ =~= seq![v] + rest_view);
            assert(objs_v(out@) =~= seq![obj_v(v)] + objs_v(rest_view));
        }
        Ok(out)
    }

    /// Call a declared function on already-evaluated argument values.
    fn call_eval_fuel(&mut self, name: u64, vals: Vec<Object>, fuel: u64) -> (r: Result<
        Object,
        EvalError,
    >)
        requires
            old(self).wf(),
        ensures
            final(self).wf(),
            (match ev_call(old(self)@, name, objs_v(vals@), fuel as nat) {
                Some((st2, r2)) => final(self)@ == st2 && res_v(r) == r2,
                None => r == Err::<Object, EvalError>(EvalError::RecursionLimit),
            }),
        decreases fuel, 3int,
    {
        let ghost pre = self@;
        let fd: FuncDef = {
            let ghost fm = self.funcs@;
            match self.funcs.get(&name) {
                Some(fd0) => {
                    let c = FuncDef {
                        parameters: clone_params(&fd0.parameters),
                        body: clone_stmts(&fd0.body),
                    };
                    proof {
                        assert(self@.funcs.dom().contains(name));
                        assert(self@.funcs[name] == func_def_v(fm[name]));
                        assert(func_def_v(c) == func_def_v(fm[name]));
                    }
                    c
                },
                None => {
                    proof {
                        assert(!self@.funcs.dom().contains(name));
                    }
                    return Err(EvalError::UndeclaredVariable);
                },
            }
        };
        proof {
            lemma_params_v_props(fd.parameters@);
        }
        if fd.parameters.len() != vals.len() {
            proof {
                assert(objs_v(vals@).len() == vals@.len());
            }
            return Err(EvalError::TypeMismatch);
        }
        proof {
            assert(objs_v(vals@).len() == vals@.len());
        }
        if !self.check_bindable(&fd.parameters) {
            return Err(EvalError::AlreadyDeclared);
        }
        proof {
            assert(params_v(fd.parameters@).subrange(0, fd.parameters@.len() as int) =~= params_v(
                fd.parameters@,
            ));
            assert(objs_v(vals@).subrange(0, vals@.len() as int) =~= objs_v(vals@));
        }
        self.bind_args(&fd.parameters, &vals, 0);
        let body_r = self.block_eval_fuel(&fd.body, fuel);
        proof {
            assert(params_v(fd.parameters@).subrange(0, fd.parameters@.len() as int) =~= params_v(
                fd.parameters@,
            ));
        }
        match body_r {
            Ok(_) => {
                self.unbind_args(&fd.parameters, 0);
                Ok(Object::NullValue)
            },
            Err(e1) => {
                self.unbind_args(&fd.parameters, 0);
                Err(e1)
            },
        }
    }

    /// Whether every parameter name is free: not a declared variable and
    /// not an earlier parameter.
    fn check_bindable(&self, params: &Vec<FuncParameter>) -> (ok: bool)
        ensures
            ok == can_bind(self@.vars, params_v(params@)),
    {
        proof {
            lemma_params_v_props(params@);
        }
        let ghost psv = params_v(params@);
        let mut i: usize = 0;
        while i < params.len()
            invariant
                i <= params.len(),
                psv == params_v(params@),
                psv.len() == params@.len(),
                forall|k: int| 0 <= k < params@.len() ==> psv[k] == param_v(params@[k]),
                forall|k: int|
                    0 <= k < i ==> !self@.vars.dom().contains(#[trigger] param_name(psv[k])),
                forall|k: int, j: int| 0 <= k < j < i ==> param_name(psv[k]) != param_name(psv[j]),
            decreases params.len() - i,
        {
            let n = (*params[i].param_value_name).0;
            proof {
                assert(param_name(psv[i as int]) == n);
            }
            let ghost vm = self.vars@;
            if self.vars.contains_key(&n) {
                proof {
                    assert(self@.vars.dom().contains(n));
                    assert(self@.vars.dom().contains(param_name(psv[i as int])));
                    assert(!can_bind(self@.vars, psv));
                }
                return false;
            }
            proof {
                assert(!self@.vars.dom().contains(n));
            }
            let mut j: usize = 0;
            while j < i
                invariant
                    j <= i,
                    i < params.len(),
                    psv == params_v(params@),
                    psv.len() == params@.len(),
                    forall|k: int| 0 <= k < params@.len() ==> psv[k] == param_v(params@[k]),
                    param_name(psv[i as int]) == n,
                    forall|k: int| 0 <= k < j ==> param_name(psv[k]) != param_name(
                        psv[i as int],
                    ),
                decreases i - j,
            {
                let m = (*params[j].param_value_name).0;
                proof {
                    assert(param_name(psv[j as int]) == m);
                }
                if m == n {
                    proof {
                        assert(0 <= j < i < psv.len() && param_name(psv[j as int]) == param_name(
                            psv[i as int],
                        ));
                        assert(!can_bind(self@.vars, psv));
                    }
                    return false;
                }
                j += 1;
            }
            i += 1;
        }
        true
    }

    /// Bind the parameters to the argument values, left to right.
    fn bind_args(&mut self, params: &Vec<FuncParameter>, vals: &Vec<Object>, i: usize)
        requires
            old(self).wf(),
            i <= params.len(),
            params.len() == vals.len(),
        ensures
            final(self).wf(),
            final(self)@ == (StateV {
                vars: bind_params(
                    old(self)@.vars,
                    params_v(params@).subrange(i as int, params@.len() as int),
                    objs_v(vals@).subrange(i as int, vals@.len() as int),
                ),
                ..old(self)@
            }),
        decreases params.len() - i,
    {
        proof {
            lemma_params_v_props(params@);
        }
        let ghost pre = self@;
        let ghost ps = params_v(params@).subrange(i as int, params@.len() as int);
        let ghost vs = objs_v(vals@).subrange(i as int, vals@.len() as int);
        if i >= params.len() {
            proof {
                assert(ps.len() == 0);
                assert(bind_params(pre.vars, ps, vs) == pre.vars);
                assert(final(self)@ =~= (StateV { vars: bind_params(pre.vars, ps, vs), ..pre }));
            }
            return;
        }
        let n = (*params[i].param_value_name).0;
        let mta = match params[i].param_restrictor {
            Some(r) => matches!(r.0, crate::ast::ParamRestrictor::Mutable),
            None => false,
        };
        let ghost vm = self.vars@;
        self.vars.insert(n, (vals[i], mta));
        proof {
            assert(ps[0] == param_v(params@[i as int]));
            assert(param_name(ps[0]) == n);
            assert(param_mutable(ps[0]) == mta);
            assert(vs[0] == obj_v(vals@[i as int]));
            assert(vars_v(self.vars@) =~= pre.vars.insert(n, (obj_v(vals@[i as int]), mta)));
            assert(self@ =~= (StateV {
                vars: pre.vars.insert(n, (obj_v(vals@[i as int]), mta)),
                ..pre
            }));
            assert(ps.subrange(1, ps.len() as int) =~= params_v(params@).subrange(
                i as int + 1,
                params@.len() as int,
            ));
            assert(vs.subrange(1, vs.len() as int) =~= objs_v(vals@).subrange(
                i as int + 1,
                vals@.len() as int,
            ));
        }
        self.bind_args(params, vals, i + 1);
    }

    /// Remove the parameter bindings, left to right.
    fn unbind_args(&mut self, params: &Vec<FuncParameter>, i: usize)
        requires
            old(self).wf(),
            i <= params.len(),
        ensures
            final(self).wf(),
            final(self)@ == (StateV {
                vars: unbind_params(
                    old(self)@.vars,
                    params_v(params@).subrange(i as int, params@.len() as int),
                ),
                ..old(self)@
            }),
        decreases params.len() - i,
    {
        proof {
            lemma_params_v_props(params@);
        }
        let ghost pre = self@;
        let ghost ps = params_v(params@).subrange(i as int, params@.len() as int);
        if i >= params.len() {
            proof {
                assert(ps.len() == 0);
                assert(final(self)@ =~= (StateV { vars: unbind_params(pre.vars, ps), ..pre }));
            }
            return;
        }
        let n = (*params[i].param_value_name).0;
        self.vars.remove(&n);
        proof {
            assert(ps[0] == param_v(params@[i as int]));
            assert(param_name(ps[0]) == n);
            assert(vars_v(self.vars@) =~= pre.vars.remove(n));
            assert(self@ =~= (StateV { vars: pre.vars.remove(n), ..pre }));
            assert(ps.subrange(1, ps.len() as int) =~= params_v(params@).subrange(
                i as int + 1,
                params@.len() as int,
            ));
        }
        self.unbind_args(params, i + 1);
    }

    /// Evaluate one statement within a budget, as `ev_stmt` states.
    #[verifier::rlimit(100)]
    #[verifier::spinoff_prover]
    fn stmt_eval_fuel(&mut self, s: &Statement, fuel: u64) -> (r: Result<(), EvalError>)
        requires
            old(self).wf(),
        ensures
            final(self).wf(),
            stmt_outcome(old(self)@, stmt_v(*s), fuel as nat, final(self)@, r),
        decreases fuel, 4int,
    {
        if fuel == 0 {
            return Err(EvalError::RecursionLimit);
        }
        let f = fuel - 1;
        match s {
            Statement::Error => Err(EvalError::ErrorStatement),
            Statement::Empty => Ok(()),
            Statement::Test(e) => self.test_eval(e, fuel),
            Statement::Assign(a) => self.assign_eval(a, fuel),
            Statement::Block { statments } => self.block_eval_fuel(statments, f),
            Statement::Expression { expr } => {
                match self.expr_eval_fuel(&(**expr).0, f) {
                    Ok(_) => Ok(()),
                    Err(e1) => Err(e1),
                }
            },
            Statement::Declaration { declaration_type, name, manual_type, value } => self
                .declar_eval(s, fuel),
            Statement::FuncDeclaration { name, parameters, return_type, statments } => self
                .func_declar_eval(s, fuel),
            Statement::IfStmt { condition, then_branch, else_branch } => {
                let c = match self.expr_eval_fuel(&(**condition).0, f) {
                    Ok(v) => v,
                    Err(e1) => {
                        return Err(e1);
                    },
                };
                match c {
                    Object::Boolean(b) => {
                        if b {
                            self.stmt_eval_fuel(&(**then_branch).0, f)
                        } else {
                            match else_branch {
                                Some(eb) => self.stmt_eval_fuel(&(**eb).0, f),
                                None => Ok(()),
                            }
                        }
                    },
                    _ => Err(EvalError::TypeMismatch),
                }
            },
            Statement::MatchStmt(m) => {
                let v = match self.expr_eval_fuel(&(*m.predicate).0, f) {
                    Ok(v) => v,
                    Err(e1) => {
                        return Err(e1);
                    },
                };
                proof {
                    lemma_arms_v_props(m.then_branches.0@);
                    assert(arms_v(m.then_branches.0@).subrange(
                        0,
                        arms_v(m.then_branches.0@).len() as int,
                    ) =~= arms_v(m.then_branches.0@));
                }
                self.arms_eval_fuel(&m.then_branches.0, 0, &v, f)
            },
            Statement::WhileStmt { condition, then_branch } => {
                let c = match self.expr_eval_fuel(&(**condition).0, f) {
                    Ok(v) => v,
                    Err(e1) => {
                        return Err(e1);
                    },
                };
                match c {
                    Object::Boolean(b) => {
                        if b {
                            match self.stmt_eval_fuel(&(**then_branch).0, f) {
                                Ok(_) => self.stmt_eval_fuel(s, f),
                                Err(e2) => Err(e2),
                            }
                        } else {
                            Ok(())
                        }
                    },
                    _ => Err(EvalError::TypeMismatch),
                }
            },
            Statement::Defer { defered_statment } => {
                self.stmt_eval_fuel(&(**defered_statment).0, f)
            },
        }
    }

    /// Evaluate a block: the statement list, then its deferred
    /// statements, as `ev_block` states.
    fn block_eval_fuel(&mut self, stmts: &Vec<Spanned<Statement>>, fuel: u64) -> (r: Result<
        (),
        EvalError,
    >)
        requires
            old(self).wf(),
        ensures
            final(self).wf(),
            (match ev_block(old(self)@, stmts_v(stmts@), fuel as nat) {
                Some((st2, r2)) => final(self)@ == st2 && r == r2,
                None => r == Err::<(), EvalError>(EvalError::RecursionLimit),
            }),
        decreases fuel, 2int,
    {
        if fuel == 0 {
            return Err(EvalError::RecursionLimit);
        }
        let f = fuel - 1;
        proof {
            lemma_stmts_v_props(stmts@);
            assert(stmts_v(stmts@).subrange(0, stmts_v(stmts@).len() as int) =~= stmts_v(stmts@));
        }
        let defs = match self.stmt_list_eval_fuel(stmts, 0, f) {
            Ok(d) => d,
            Err(e1) => {
                return Err(e1);
            },
        };
        proof {
            assert(stmts_plain_v(defs@).subrange(0, stmts_plain_v(defs@).len() as int)
                =~= stmts_plain_v(defs@));
        }
        self.deferred_eval_fuel(&defs, defs.len(), f)
    }

    /// Walk a statement list from index `i`, postponing deferred
    /// statements, as `ev_stmt_list` states.
    fn stmt_list_eval_fuel(&mut self, stmts: &Vec<Spanned<Statement>>, i: usize, fuel: u64) -> (r:
        Result<Vec<Statement>, EvalError>)
        requires
            old(self).wf(),
            i <= stmts.len(),
        ensures
            final(self).wf(),
            (match ev_stmt_list(
                old(self)@,
                stmts_v(stmts@).subrange(i as int, stmts@.len() as int),
                fuel as nat,
            ) {
                Some((st2, r2)) => final(self)@ == st2 && (match r {
                    Ok(defs) => r2 == Ok::<Seq<StatementV>, EvalError>(stmts_plain_v(defs@)),
                    Err(e1) => r2 == Err::<Seq<StatementV>, EvalError>(e1),
                }),
                None => r == Err::<Vec<Statement>, EvalError>(EvalError::RecursionLimit),
            }),
        decreases fuel, 0int,
    {
        proof {
            lemma_stmts_v_props(stmts@);
        }
        if fuel == 0 {
            return Err(EvalError::RecursionLimit);
        }
        let f = fuel - 1;
        let ghost whole = stmts_v(stmts@).subrange(i as int, stmts@.len() as int);
        if i >= stmts.len() {
            let done: Vec<Statement> = Vec::new();
            proof {
                assert(whole =~= Seq::<Spanned<StatementV>>::empty());
                assert(stmts_plain_v(done@) =~= Seq::<StatementV>::empty());
            }
            return Ok(done);
        }
        proof {
            assert(whole[0] == Spanned(stmt_v(stmts@[i as int].0), stmts@[i as int].1));
            assert(whole.subrange(1, whole.len() as int) =~= stmts_v(stmts@).subrange(
                i as int + 1,
                stmts@.len() as int,
            ));
        }
        match &stmts[i].0 {
            Statement::Defer { defered_statment } => {
                let d = clone_stmt(&(**defered_statment).0);
                let rest = match self.stmt_list_eval_fuel(stmts, i + 1, f) {
                    Ok(ds) => ds,
                    Err(e1) => {
                        return Err(e1);
                    },
                };
                let ghost rest_view = rest@;
                let mut out = rest;
                out.insert(0, d);
                proof {
                    assert(out@ =~= seq![d] + rest_view);
                    assert(stmts_plain_v(out@) =~= seq![stmt_v(d)] + stmts_plain_v(rest_view));
                }
                Ok(out)
            },
            _ => {
                match self.stmt_eval_fuel(&stmts[i].0, f) {
                    Ok(_) => self.stmt_list_eval_fuel(stmts, i + 1, f),
                    Err(e1) => Err(e1),
                }
            },
        }
    }

    /// Run the deferred statements `defs[0..k]`, last first, as
    /// `ev_deferred` states.
    fn deferred_eval_fuel(&mut self, defs: &Vec<Statement>, k: usize, fuel: u64) -> (r: Result<
        (),
        EvalError,
    >)
        requires
            old(self).wf(),
            k <= defs.len(),
        ensures
            final(self).wf(),
            (match ev_deferred(
                old(self)@,
                stmts_plain_v(defs@).subrange(0, k as int),
                fuel as nat,
            ) {
                Some((st2, r2)) => final(self)@ == st2 && r == r2,
                None => r == Err::<(), EvalError>(EvalError::RecursionLimit),
            }),
        decreases fuel, 0int,
    {
        if fuel == 0 {
            return Err(EvalError::RecursionLimit);
        }
        let f = fuel - 1;
        let ghost whole = stmts_plain_v(defs@).subrange(0, k as int);
        if k == 0 {
            proof {
                assert(whole =~= Seq::<StatementV>::empty());
            }
            return Ok(());
        }
        proof {
            assert(whole.last() == stmt_v(defs@[k as int - 1]));
            assert(whole.subrange(0, whole.len() - 1) =~= stmts_plain_v(defs@).subrange(
                0,
                k as int - 1,
            ));
        }
        match self.stmt_eval_fuel(&defs[k - 1], f) {
            Ok(_) => self.deferred_eval_fuel(defs, k - 1, f),
            Err(e1) => Err(e1),
        }
    }

    /// Scan the arms from index `i` and run the first that matches, as
    /// `ev_arms` states.
    fn arms_eval_fuel(
        &mut self,
        arms: &Vec<(Pattern, Statement)>,
        i: usize,
        v: &Object,
        fuel: u64,
    ) -> (r: Result<(), EvalError>)
        requires
            old(self).wf(),
            i <= arms.len(),
        ensures
            final(self).wf(),
            (match ev_arms(
                old(self)@,
                arms_v(arms@).subrange(i as int, arms@.len() as int),
                obj_v(*v),
                fuel as nat,
            ) {
                Some((st2, r2)) => final(self)@ == st2 && r == r2,
                None => r == Err::<(), EvalError>(EvalError::RecursionLimit),
            }),
        decreases fuel, 0int,
    {
        proof {
            lemma_arms_v_props(arms@);
        }
        if fuel == 0 {
            return Err(EvalError::RecursionLimit);
        }
        let f = fuel - 1;
        let ghost whole = arms_v(arms@).subrange(i as int, arms@.len() as int);
        if i >= arms.len() {
            proof {
                assert(whole =~= Seq::<(crate::ast::PatternV, StatementV)>::empty());
            }
            return Ok(());
        }
        proof {
            assert(whole[0] == (pattern_v(arms@[i as int].0), stmt_v(arms@[i as int].1)));
            assert(whole.subrange(1, whole.len() as int) =~= arms_v(arms@).subrange(
                i as int + 1,
                arms@.len() as int,
            ));
        }
        if pat_matches_exec(&arms[i].0, v) {
            self.stmt_eval_fuel(&arms[i].1, f)
        } else {
            self.arms_eval_fuel(arms, i + 1, v, f)
        }
    }


    /// Evaluate a test statement: print the value's canonical form.
    fn test_eval(&mut self, e: &Expr, fuel: u64) -> (r: Result<(), EvalError>)
        requires
            old(self).wf(),
        ensures
            final(self).wf(),
            stmt_outcome(old(self)@, StatementV::Test(expr_v(*e)), fuel as nat, final(self)@, r),
        decreases fuel, 3int,
    {
        if fuel == 0 {
            return Err(EvalError::RecursionLimit);
        }
        let f = fuel - 1;
        let v = match self.expr_eval_fuel(e, f) {
            Ok(v) => v,
            Err(e1) => {
                return Err(e1);
            },
        };
        let line = match render_obj(&v, &self.strings) {
            Ok(line) => line,
            Err(e1) => {
                return Err(e1);
            },
        };
        let ghost pre = self@;
        let ghost lv = line@;
        self.output.push(line);
        proof {
            assert(output_v(self.output@) =~= pre.output.push(lv));
            assert(self@ =~= (StateV { output: pre.output.push(lv), ..pre }));
        }
        Ok(())
    }

    /// Evaluate an assignment: the right-hand side first, then the
    /// lookup, the mutability check, and for the compound forms the
    /// combination with the current value.
    fn assign_eval(&mut self, a: &Assign, fuel: u64) -> (r: Result<(), EvalError>)
        requires
            old(self).wf(),
        ensures
            final(self).wf(),
            stmt_outcome(
                old(self)@,
                (StatementV::Assign {
                    name: a.name,
                    op: a.operator,
                    value: Box::new(Spanned(expr_v((*a.value).0), (*a.value).1)),
                }),
                fuel as nat,
                final(self)@,
                r,
            ),
        decreases fuel, 3int,
    {
        proof {
            assert(stmt_v(Statement::Assign(*a)) == (StatementV::Assign {
                name: a.name,
                op: a.operator,
                value: Box::new(Spanned(expr_v((*a.value).0), (*a.value).1)),
            }));
        }
        if fuel == 0 {
            return Err(EvalError::RecursionLimit);
        }
        let f = fuel - 1;
        let v = match self.expr_eval_fuel(&(*a.value).0, f) {
            Ok(v) => v,
            Err(e1) => {
                return Err(e1);
            },
        };
        let name = a.name.0;
        let ghost vm = self.vars@;
        let (cur, mta) = match self.vars.get(&name) {
            Some(p) => *p,
            None => {
                proof {
                    assert(!self@.vars.dom().contains(name));
                }
                return Err(EvalError::UndeclaredVariable);
            },
        };
        proof {
            assert(self@.vars.dom().contains(name));
            assert(self@.vars[name] == (obj_v(vm[name].0), vm[name].1));
        }
        if !mta {
            return Err(EvalError::Immutable);
        }
        let bop: Option<BinaryOp> = match a.operator.0 {
            AssignOp::Add => Some(BinaryOp::Add),
            AssignOp::Sub => Some(BinaryOp::Sub),
            AssignOp::Mul => Some(BinaryOp::Mul),
            AssignOp::Div => Some(BinaryOp::Div),
            AssignOp::Assign => None,
        };
        match bop {
            None => {
                let ghost pre = self@;
                self.vars.insert(name, (v, true));
                proof {
                    assert(vars_v(self.vars@) =~= pre.vars.insert(name, (obj_v(v), true)));
                    assert(self@ =~= (StateV {
                        vars: pre.vars.insert(name, (obj_v(v), true)),
                        ..pre
                    }));
                }
                Ok(())
            },
            Some(b) => {
                let nv = match obj_binary_exec(b, &cur, &v, &mut self.strings) {
                    Ok(nv) => nv,
                    Err(e1) => {
                        return Err(e1);
                    },
                };
                let ghost mid = self@;
                self.vars.insert(name, (nv, true));
                proof {
                    assert(vars_v(self.vars@) =~= mid.vars.insert(name, (obj_v(nv), true)));
                    assert(self@ =~= (StateV {
                        vars: mid.vars.insert(name, (obj_v(nv), true)),
                        ..mid
                    }));
                }
                Ok(())
            },
        }
    }

    /// Evaluate a declaration: the redeclaration check first, then the
    /// initializer, then the insertion.
    fn declar_eval(&mut self, s: &Statement, fuel: u64) -> (r: Result<(), EvalError>)
        requires
            old(self).wf(),
            s is Declaration,
        ensures
            final(self).wf(),
            stmt_outcome(old(self)@, stmt_v(*s), fuel as nat, final(self)@, r),
        decreases fuel, 3int,
    {
        if fuel == 0 {
            return Err(EvalError::RecursionLimit);
        }
        let f = fuel - 1;
        match s {
            Statement::Declaration { declaration_type, name, manual_type, value } => {
                let ghost vm = self.vars@;
                if self.vars.contains_key(&name.0) {
                    proof {
                        assert(self@.vars.dom().contains(name.0));
                    }
                    return Err(EvalError::AlreadyDeclared);
                }
                proof {
                    assert(!self@.vars.dom().contains(name.0));
                }
                let v = match self.expr_eval_fuel(&(**value).0, f) {
                    Ok(v) => v,
                    Err(e1) => {
                        return Err(e1);
                    },
                };
                let m = matches!(declaration_type, DeclarationType::Mutable);
                let ghost pre = self@;
                self.vars.insert(name.0, (v, m));
                proof {
                    assert(vars_v(self.vars@) =~= pre.vars.insert(name.0, (obj_v(v), m)));
                    assert(self@ =~= (StateV {
                        vars: pre.vars.insert(name.0, (obj_v(v), m)),
                        ..pre
                    }));
                }
                Ok(())
            },
            _ => {
                proof {
                    assert(false);
                }
                Err(EvalError::ErrorStatement)
            },
        }
    }

    /// Record a function declaration in the function table.
    fn func_declar_eval(&mut self, s: &Statement, fuel: u64) -> (r: Result<(), EvalError>)
        requires
            old(self).wf(),
            s is FuncDeclaration,
        ensures
            final(self).wf(),
            stmt_outcome(old(self)@, stmt_v(*s), fuel as nat, final(self)@, r),
        decreases fuel, 3int,
    {
        if fuel == 0 {
            return Err(EvalError::RecursionLimit);
        }
        match s {
            Statement::FuncDeclaration { name, parameters, return_type, statments } => {
                let ghost fm = self.funcs@;
                if self.funcs.contains_key(&name.0) {
                    proof {
                        assert(self@.funcs.dom().contains(name.0));
                    }
                    return Err(EvalError::AlreadyDeclared);
                }
                proof {
                    assert(!self@.funcs.dom().contains(name.0));
                }
                let ps: Vec<FuncParameter> = match parameters {
                    Some(p) => clone_params(p),
                    None => Vec::new(),
                };
                proof {
                    if parameters is None {
                        assert(params_v(ps@) =~= Seq::<crate::ast::FuncParameterV>::empty());
                    }
                }
                let fd = FuncDef { parameters: ps, body: clone_stmts(statments) };
                let ghost pre = self@;
                let ghost fdv = func_def_v(fd);
                self.funcs.insert(name.0, fd);
                proof {
                    assert(funcs_v(self.funcs@) =~= pre.funcs.insert(name.0, fdv));
                    assert(self@ =~= (StateV { funcs: pre.funcs.insert(name.0, fdv), ..pre }));
                }
                Ok(())
            },
            _ => {
                proof {
                    assert(false);
                }
                Err(EvalError::ErrorStatement)
            },
        }
    }

    /// Evaluate one statement with the full budget.
    pub fn stmt_eval(&mut self, stmt: Statement) -> (r: Result<(), EvalError>)
        requires
            old(self).wf(),
        ensures
            final(self).wf(),
            stmt_outcome(old(self)@, stmt_v(stmt), MAX_FUEL as nat, final(self)@, r),
    {
        self.stmt_eval_fuel(&stmt, MAX_FUEL)
    }

    /// Evaluate one expression with the full budget.
    pub fn expr_eval(&mut self, expr: Expr) -> (r: Result<Object, EvalError>)
        requires
            old(self).wf(),
        ensures
            final(self).wf(),
            expr_outcome(old(self)@, expr_v(expr), MAX_FUEL as nat, final(self)@, r),
    {
        self.expr_eval_fuel(&expr, MAX_FUEL)
    }

    /// Evaluate a prefix node with the full budget.
    pub fn unary_eval(&mut self, unary: Unary) -> (r: Result<Object, EvalError>)
        requires
            old(self).wf(),
        ensures
            final(self).wf(),
            expr_outcome(old(self)@, expr_v(Expr::Unary(unary)), MAX_FUEL as nat, final(self)@, r),
    {
        let e = Expr::Unary(unary);
        self.expr_eval_fuel(&e, MAX_FUEL)
    }

    /// Evaluate a binary node with the full budget.
    pub fn binary_eval(&mut self, binary: Binary) -> (r: Result<Object, EvalError>)
        requires
            old(self).wf(),
        ensures
            final(self).wf(),
            expr_outcome(
                old(self)@,
                expr_v(Expr::Binary(binary)),
                MAX_FUEL as nat,
                final(self)@,
                r,
            ),
    {
        let e = Expr::Binary(binary);
        self.expr_eval_fuel(&e, MAX_FUEL)
    }

    /// Evaluate a while form with the full budget; the pieces are given
    /// the empty span.
    pub fn while_eval(&mut self, condition: Expr, then_branch: Statement) -> (r: Result<
        (),
        EvalError,
    >)
        requires
            old(self).wf(),
        ensures
            final(self).wf(),
            stmt_outcome(
                old(self)@,
                (StatementV::WhileStmt {
                    condition: Box::new(Spanned(expr_v(condition), Span { start: 0, end: 0 })),
                    body: Box::new(Spanned(stmt_v(then_branch), Span { start: 0, end: 0 })),
                }),
                MAX_FUEL as nat,
                final(self)@,
                r,
            ),
    {
        let s = Statement::WhileStmt {
            condition: Box::new(Spanned(condition, Span::new(0, 0))),
            then_branch: Box::new(Spanned(then_branch, Span::new(0, 0))),
        };
        self.stmt_eval_fuel(&s, MAX_FUEL)
    }
}

} // verus!
