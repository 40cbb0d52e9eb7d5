//! Structural copies of AST nodes, proved to keep the mathematical
//! mirror. The evaluator copies statements into the function table and
//! the deferred-statement list.

use vstd::prelude::*;

use crate::ast::Assign;
use crate::ast::Binary;
use crate::ast::Expr;
use crate::ast::ExprV;
use crate::ast::FuncParameter;
use crate::ast::FuncParameterV;
use crate::ast::Literal;
use crate::ast::MatchStmt;
use crate::ast::Pattern;
use crate::ast::PatternV;
use crate::ast::Statement;
use crate::ast::StatementV;
use crate::ast::Type;
use crate::ast::TypeV;
use crate::ast::Unary;
use crate::ast::arms_v;
use crate::ast::expr_v;
use crate::ast::exprs_v;
use crate::ast::param_v;
use crate::ast::params_v;
use crate::ast::pattern_v;
use crate::ast::stmt_v;
use crate::ast::stmts_v;
use crate::ast::type_v;
use crate::ast::types_v;
use crate::span::Spanned;

verus! {

/// Prepending an element commutes with mirroring a type list.
proof fn lemma_types_v_cons(x: Type, ts: Seq<Type>)
    ensures
        types_v(seq![x] + ts) == seq![type_v(x)] + types_v(ts),
{
    let p = seq![x] + ts;
    assert(p[0] == x);
    assert(p.subrange(1, p.len() as int) =~= ts);
    assert(types_v(seq![x] + ts) =~= seq![type_v(x)] + types_v(ts));
}

/// Prepending an element commutes with mirroring an expression list.
proof fn lemma_exprs_v_cons(x: Expr, es: Seq<Expr>)
    ensures
        exprs_v(seq![x] + es) == seq![expr_v(x)] + exprs_v(es),
{
    let p = seq![x] + es;
    assert(p[0] == x);
    assert(p.subrange(1, p.len() as int) =~= es);
    assert(exprs_v(seq![x] + es) =~= seq![expr_v(x)] + exprs_v(es));
}

/// Prepending an element commutes with mirroring a statement list.
proof fn lemma_stmts_v_cons2(x: Spanned<Statement>, ss: Seq<Spanned<Statement>>)
    ensures
        stmts_v(seq![x] + ss) == seq![Spanned(stmt_v(x.0), x.1)] + stmts_v(ss),
{
    let p = seq![x] + ss;
    assert(p[0] == x);
    assert(p.subrange(1, p.len() as int) =~= ss);
    assert(stmts_v(seq![x] + ss) =~= seq![Spanned(stmt_v(x.0), x.1)] + stmts_v(ss));
}

/// Prepending an element commutes with mirroring an arm list.
proof fn lemma_arms_v_cons(x: (Pattern, Statement), aa: Seq<(Pattern, Statement)>)
    ensures
        arms_v(seq![x] + aa) == seq![(pattern_v(x.0), stmt_v(x.1))] + arms_v(aa),
{
    let p = seq![x] + aa;
    assert(p[0] == x);
    assert(p.subrange(1, p.len() as int) =~= aa);
    assert(arms_v(seq![x] + aa) =~= seq![(pattern_v(x.0), stmt_v(x.1))] + arms_v(aa));
}

/// Prepending an element commutes with mirroring a parameter list.
proof fn lemma_params_v_cons(x: FuncParameter, ps: Seq<FuncParameter>)
    ensures
        params_v(seq![x] + ps) == seq![param_v(x)] + params_v(ps),
{
    let p = seq![x] + ps;
    assert(p[0] == x);
    assert(p.subrange(1, p.len() as int) =~= ps);
    assert(params_v(seq![x] + ps) =~= seq![param_v(x)] + params_v(ps));
}

/// A structural copy of a declared type.
pub fn clone_type(t: &Type) -> (r: Type)
    ensures
        type_v(r) == type_v(*t),
    decreases *t, 0int,
{
    match t {
        Type::Ident(n) => Type::Ident(*n),
        Type::Generic(base, args) => {
            let b = clone_type(&**base);
            let a = clone_types_from(args, 0);
            proof {
                assert(args@.subrange(0, args@.len() as int) =~= args@);
            }
            Type::Generic(Box::new(b), a)
        },
    }
}

/// A structural copy of the types of `v` from index `i` on.
fn clone_types_from(v: &Vec<Type>, i: usize) -> (r: Vec<Type>)
    requires
        i <= v.len(),
    ensures
        types_v(r@) == types_v(v@.subrange(i as int, v@.len() as int)),
    decreases v@, v@.len() - i as int,
{
    if i >= v.len() {
        let done: Vec<Type> = Vec::new();
        proof {
            assert(types_v(done@) =~= Seq::<TypeV>::empty());
            assert(v@.subrange(i as int, v@.len() as int) =~= Seq::<Type>::empty());
        }
        done
    } else {
        let x = clone_type(&v[i]);
        let rest = clone_types_from(v, i + 1);
        let ghost rest_view = rest@;
        let mut out = rest;
        out.insert(0, x);
        proof {
            assert(out@ =~= seq![x] + rest_view);
            lemma_types_v_cons(x, rest_view);
            let whole = v@.subrange(i as int, v@.len() as int);
            assert(whole[0] == v@[i as int]);
            assert(whole.subrange(1, whole.len() as int) =~= v@.subrange(
                i as int + 1,
                v@.len() as int,
            ));
            assert(types_v(out@) =~= types_v(whole));
        }
        out
    }
}

/// A structural copy of an expression.
pub fn clone_expr(e: &Expr) -> (r: Expr)
    ensures
        expr_v(r) == expr_v(*e),
    decreases *e, 0int,
{
    match e {
        Expr::Error => Expr::Error,
        Expr::Binary(b) => Expr::Binary(
            Binary {
                left: Box::new(Spanned(clone_expr(&(*b.left).0), (*b.left).1)),
                operator: b.operator,
                right: Box::new(Spanned(clone_expr(&(*b.right).0), (*b.right).1)),
            },
        ),
        Expr::Unary(u) => Expr::Unary(
            Unary {
                operator: u.operator,
                right: Box::new(Spanned(clone_expr(&(*u.right).0), (*u.right).1)),
            },
        ),
        Expr::Literal(l) => Expr::Literal(Literal { value: l.value }),
        Expr::Variable { name } => Expr::Variable { name: *name },
        Expr::TernaryIf { condition, value, else_value } => Expr::TernaryIf {
            condition: Box::new(Spanned(clone_expr(&(**condition).0), (**condition).1)),
            value: Box::new(Spanned(clone_expr(&(**value).0), (**value).1)),
            else_value: Box::new(Spanned(clone_expr(&(**else_value).0), (**else_value).1)),
        },
        Expr::FunctionCall { func_name, arguments } => Expr::FunctionCall {
            func_name: Box::new(**func_name),
            arguments: match arguments {
                Some(args) => {
                    let a = clone_exprs_from(args, 0);
                    proof {
                        assert(args@.subrange(0, args@.len() as int) =~= args@);
                    }
                    Some(a)
                },
                None => None,
            },
        },
    }
}

/// A structural copy of the expressions of `v` from index `i` on.
fn clone_exprs_from(v: &Vec<Expr>, i: usize) -> (r: Vec<Expr>)
    requires
        i <= v.len(),
    ensures
        exprs_v(r@) == exprs_v(v@.subrange(i as int, v@.len() as int)),
    decreases v@, v@.len() - i as int,
{
    if i >= v.len() {
        let done: Vec<Expr> = Vec::new();
        proof {
            assert(exprs_v(done@) =~= Seq::<ExprV>::empty());
            assert(v@.subrange(i as int, v@.len() as int) =~= Seq::<Expr>::empty());
        }
        done
    } else {
        let x = clone_expr(&v[i]);
        let rest = clone_exprs_from(v, i + 1);
        let ghost rest_view = rest@;
        let mut out = rest;
        out.insert(0, x);
        proof {
            assert(out@ =~= seq![x] + rest_view);
            lemma_exprs_v_cons(x, rest_view);
            let whole = v@.subrange(i as int, v@.len() as int);
            assert(whole[0] == v@[i as int]);
            assert(whole.subrange(1, whole.len() as int) =~= v@.subrange(
                i as int + 1,
                v@.len() as int,
            ));
            assert(exprs_v(out@) =~= exprs_v(whole));
        }
        out
    }
}

/// A structural copy of a pattern.
pub fn clone_pattern(p: &Pattern) -> (r: Pattern)
    ensures
        pattern_v(r) == pattern_v(*p),
{
    match p {
        Pattern::WildCard => Pattern::WildCard,
        Pattern::Literal(l) => Pattern::Literal(Literal { value: l.value }),
        Pattern::TypeName(t) => Pattern::TypeName(clone_type(t)),
    }
}

/// A structural copy of a function parameter.
pub fn clone_param(p: &FuncParameter) -> (r: FuncParameter)
    ensures
        param_v(r) == param_v(*p),
{
    FuncParameter {
        param_type: Box::new(*p.param_type),
        param_value_name: Box::new(*p.param_value_name),
        param_restrictor: p.param_restrictor,
        param_value_type: Box::new(
            Spanned(clone_type(&(*p.param_value_type).0), (*p.param_value_type).1),
        ),
    }
}

/// A structural copy of a parameter list.
pub fn clone_params(v: &Vec<FuncParameter>) -> (r: Vec<FuncParameter>)
    ensures
        params_v(r@) == params_v(v@),
{
    let r = clone_params_from(v, 0);
    proof {
        assert(v@.subrange(0, v@.len() as int) =~= v@);
    }
    r
}

/// A structural copy of the parameters of `v` from index `i` on.
fn clone_params_from(v: &Vec<FuncParameter>, i: usize) -> (r: Vec<FuncParameter>)
    requires
        i <= v.len(),
    ensures
        params_v(r@) == params_v(v@.subrange(i as int, v@.len() as int)),
    decreases v@.len() - i as int,
{
    if i >= v.len() {
        let done: Vec<FuncParameter> = Vec::new();
        proof {
            assert(params_v(done@) =~= Seq::<FuncParameterV>::empty());
            assert(v@.subrange(i as int, v@.len() as int) =~= Seq::<FuncParameter>::empty());
        }
        done
    } else {
        let x = clone_param(&v[i]);
        let rest = clone_params_from(v, i + 1);
        let ghost rest_view = rest@;
        let mut out = rest;
        out.insert(0, x);
        proof {
            assert(out@ =~= seq![x] + rest_view);
            lemma_params_v_cons(x, rest_view);
            let whole = v@.subrange(i as int, v@.len() as int);
            assert(whole[0] == v@[i as int]);
            assert(whole.subrange(1, whole.len() as int) =~= v@.subrange(
                i as int + 1,
                v@.len() as int,
            ));
            assert(params_v(out@) =~= params_v(whole));
        }
        out
    }
}

/// A structural copy of a statement.
pub fn clone_stmt(s: &Statement) -> (r: Statement)
    ensures
        stmt_v(r) == stmt_v(*s),
    decreases *s, 1int,
{
    match s {
        Statement::Error => Statement::Error,
        Statement::Empty => Statement::Empty,
        Statement::Test(e) => Statement::Test(clone_expr(e)),
        Statement::Assign(a) => Statement::Assign(
            Assign {
                name: a.name,
                operator: a.operator,
                value: Box::new(Spanned(clone_expr(&(*a.value).0), (*a.value).1)),
            },
        ),
        Statement::Block { statments } => {
            let ss = clone_stmts(statments);
            Statement::Block { statments: ss }
        },
        Statement::Expression { expr } => Statement::Expression {
            expr: Box::new(Spanned(clone_expr(&(**expr).0), (**expr).1)),
        },
        Statement::Declaration { declaration_type, name, manual_type, value } => {
            Statement::Declaration {
                declaration_type: *declaration_type,
                name: *name,
                manual_type: match manual_type {
                    Some(t) => Some(Spanned(clone_type(&t.0), t.1)),
                    None => None,
                },
                value: Box::new(Spanned(clone_expr(&(**value).0), (**value).1)),
            }
        },
        Statement::FuncDeclaration { name, parameters, return_type, statments } => {
            Statement::FuncDeclaration {
                name: *name,
                parameters: match parameters {
                    Some(ps) => {
                        let c = clone_params_from(ps, 0);
                        proof {
                            assert(ps@.subrange(0, ps@.len() as int) =~= ps@);
                        }
                        Some(c)
                    },
                    None => None,
                },
                return_type: match return_type {
                    Some(t) => Some(Spanned(clone_type(&t.0), t.1)),
                    None => None,
                },
                statments: clone_stmts(statments),
            }
        },
        Statement::IfStmt { condition, then_branch, else_branch } => Statement::IfStmt {
            condition: Box::new(Spanned(clone_expr(&(**condition).0), (**condition).1)),
            then_branch: Box::new(Spanned(clone_stmt(&(**then_branch).0), (**then_branch).1)),
            else_branch: match else_branch {
                Some(eb) => Some(Box::new(Spanned(clone_stmt(&(**eb).0), (**eb).1))),
                None => None,
            },
        },
        Statement::MatchStmt(m) => {
            let aa = clone_arms_from(&m.then_branches.0, 0);
            proof {
                assert(m.then_branches.0@.subrange(0, m.then_branches.0@.len() as int)
                    =~= m.then_branches.0@);
            }
            Statement::MatchStmt(
                MatchStmt {
                    predicate: Box::new(
                        Spanned(clone_expr(&(*m.predicate).0), (*m.predicate).1),
                    ),
                    then_branches: Spanned(aa, m.then_branches.1),
                },
            )
        },
        Statement::WhileStmt { condition, then_branch } => Statement::WhileStmt {
            condition: Box::new(Spanned(clone_expr(&(**condition).0), (**condition).1)),
            then_branch: Box::new(Spanned(clone_stmt(&(**then_branch).0), (**then_branch).1)),
        },
        Statement::Defer { defered_statment } => Statement::Defer {
            defered_statment: Box::new(
                Spanned(clone_stmt(&(**defered_statment).0), (**defered_statment).1),
            ),
        },
    }
}

/// A structural copy of a statement list.
pub fn clone_stmts(v: &Vec<Spanned<Statement>>) -> (r: Vec<Spanned<Statement>>)
    ensures
        stmts_v(r@) == stmts_v(v@),
    decreases v@, v@.len() as int + 1,
{
    let r = clone_stmts_from(v, 0);
    proof {
        assert(v@.subrange(0, v@.len() as int) =~= v@);
    }
    r
}

/// A structural copy of the statements of `v` from index `i` on.
fn clone_stmts_from(v: &Vec<Spanned<Statement>>, i: usize) -> (r: Vec<Spanned<Statement>>)
    requires
        i <= v.len(),
    ensures
        stmts_v(r@) == stmts_v(v@.subrange(i as int, v@.len() as int)),
    decreases v@, v@.len() - i as int,
{
    if i >= v.len() {
        let done: Vec<Spanned<Statement>> = Vec::new();
        proof {
            assert(stmts_v(done@) =~= Seq::<Spanned<StatementV>>::empty());
            assert(v@.subrange(i as int, v@.len() as int) =~= Seq::<Spanned<Statement>>::empty());
        }
        done
    } else {
        let x = Spanned(clone_stmt(&v[i].0), v[i].1);
        let rest = clone_stmts_from(v, i + 1);
        let ghost rest_view = rest@;
        let mut out = rest;
        out.insert(0, x);
        proof {
            assert(out@ =~= seq![x] + rest_view);
            lemma_stmts_v_cons2(x, rest_view);
            let whole = v@.subrange(i as int, v@.len() as int);
            assert(whole[0] == v@[i as int]);
            assert(whole.subrange(1, whole.len() as int) =~= v@.subrange(
                i as int + 1,
                v@.len() as int,
            ));
            assert(stmts_v(out@) =~= stmts_v(whole));
        }
        out
    }
}

/// A structural copy of the arms of `v` from index `i` on.
fn clone_arms_from(v: &Vec<(Pattern, Statement)>, i: usize) -> (r: Vec<(Pattern, Statement)>)
    requires
        i <= v.len(),
    ensures
        arms_v(r@) == arms_v(v@.subrange(i as int, v@.len() as int)),
    decreases v@, v@.len() - i as int,
{
    if i >= v.len() {
        let done: Vec<(Pattern, Statement)> = Vec::new();
        proof {
            assert(arms_v(done@) =~= Seq::<(PatternV, StatementV)>::empty());
            assert(v@.subrange(i as int, v@.len() as int) =~= Seq::<(Pattern, Statement)>::empty());
        }
        done
    } else {
        let x = (clone_pattern(&v[i].0), clone_stmt(&v[i].1));
        let rest = clone_arms_from(v, i + 1);
        let ghost rest_view = rest@;
        let mut out = rest;
        out.insert(0, x);
        proof {
            assert(out@ =~= seq![x] + rest_view);
            lemma_arms_v_cons(x, rest_view);
            let whole = v@.subrange(i as int, v@.len() as int);
            assert(whole[0] == v@[i as int]);
            assert(whole.subrange(1, whole.len() as int) =~= v@.subrange(
                i as int + 1,
                v@.len() as int,
            ));
            assert(arms_v(out@) =~= arms_v(whole));
        }
        out
    }
}

} // verus!
