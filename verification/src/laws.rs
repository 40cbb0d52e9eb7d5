//! The laws the library states about itself: general properties of the
//! grammar and the semantics, each proved from the definitions that the
//! parser's and evaluator's contracts are stated over.

use vstd::prelude::*;

use crate::ast::AssignOp;
use crate::ast::BinaryOp;
use crate::ast::DeclarationType;
use crate::ast::ExprV;
use crate::ast::PatternV;
use crate::ast::StatementV;
use crate::ast::TypeV;
use crate::object::EvalError;
use crate::object::ObjectV;
use crate::object::obj_div_spec;
use crate::parser::cmp_op;
use crate::parser::literal_obj;
use crate::parser::product_op;
use crate::parser::sp_atom;
use crate::parser::sp_cmp;
use crate::parser::sp_cmp_tail;
use crate::parser::sp_expr;
use crate::parser::sp_func_call;
use crate::parser::sp_product;
use crate::parser::sp_product_tail;
use crate::parser::sp_sum;
use crate::parser::sp_sum_tail;
use crate::parser::sp_ternary;
use crate::parser::sp_unary;
use crate::parser::span_range;
use crate::parser::span_union;
use crate::parser::sum_op;
use crate::parser::unary_op;
use crate::render::render_v;
use crate::semantics::StateV;
use crate::semantics::ev_arms;
use crate::semantics::ev_expr;
use crate::semantics::ev_stmt;
use crate::semantics::mono_expr;
use crate::semantics::pat_matches;
use crate::span::Span;
use crate::span::Spanned;
use crate::token::TokenType;

verus! {

/// A token that is a plain literal and nothing else: it starts no call,
/// no ternary, no prefix chain.
pub open spec fn plain_literal(t: TokenType) -> bool {
    &&& literal_obj(t) is Some
    &&& !(t is Identifier)
    &&& !(t is If)
}

/// The atom a plain literal token parses to.
pub open spec fn lit_node(t: (TokenType, Span)) -> Spanned<ExprV> {
    Spanned(
        ExprV::Literal { value: Spanned(literal_obj(t.0).unwrap(), t.1) },
        t.1,
    )
}

/// A plain literal parses through every expression tier to its literal
/// node, consuming one token.
proof fn lemma_literal_through_tiers(toks: Seq<(TokenType, Span)>, pos: int)
    requires
        0 <= pos < toks.len(),
        plain_literal(toks[pos].0),
    ensures
        sp_atom(toks, pos) == Some((lit_node(toks[pos]), pos + 1)),
        sp_unary(toks, pos) == Some((lit_node(toks[pos]), pos + 1)),
{
    assert(unary_op(toks[pos].0) is None);
}

/// **Associativity.** Three literals joined by two additive-tier
/// operators parse as a left-leaning tree: the first two operands fold
/// first, and the third folds onto that result.
pub proof fn lemma_additive_left_fold(
    toks: Seq<(TokenType, Span)>,
    t1: (TokenType, Span),
    o1: (TokenType, Span),
    t2: (TokenType, Span),
    o2: (TokenType, Span),
    t3: (TokenType, Span),
)
    requires
        toks == seq![t1, o1, t2, o2, t3],
        plain_literal(t1.0),
        plain_literal(t2.0),
        plain_literal(t3.0),
        sum_op(o1.0) is Some,
        sum_op(o2.0) is Some,
    ensures
        ({
            let n1 = lit_node(t1);
            let n2 = lit_node(t2);
            let n3 = lit_node(t3);
            let inner = Spanned(
                (ExprV::Binary {
                    op: Spanned(sum_op(o1.0).unwrap(), o1.1),
                    left: Box::new(n1),
                    right: Box::new(n2),
                }),
                span_union(n1.1, n2.1),
            );
            let outer = Spanned(
                (ExprV::Binary {
                    op: Spanned(sum_op(o2.0).unwrap(), o2.1),
                    left: Box::new(inner),
                    right: Box::new(n3),
                }),
                span_union(inner.1, n3.1),
            );
            sp_expr(toks, 0) == Some((outer, 5int))
        }),
{
    let n1 = lit_node(t1);
    let n2 = lit_node(t2);
    let n3 = lit_node(t3);
    assert(toks[0] == t1 && toks[1] == o1 && toks[2] == t2 && toks[3] == o2 && toks[4] == t3);
    lemma_literal_through_tiers(toks, 0);
    lemma_literal_through_tiers(toks, 2);
    lemma_literal_through_tiers(toks, 4);
    assert(sp_func_call(toks, 0) is None);
    assert(sp_ternary(toks, 0) is None);
    assert(product_op(o1.0) is None && product_op(o2.0) is None);
    assert(cmp_op(o1.0) is None && cmp_op(o2.0) is None);
    assert(sp_product_tail(toks, n1, 1) == Some((n1, 1int)));
    assert(sp_product(toks, 0) == Some((n1, 1int)));
    assert(sp_product_tail(toks, n2, 3) == Some((n2, 3int)));
    assert(sp_product(toks, 2) == Some((n2, 3int)));
    assert(sp_product_tail(toks, n3, 5) == Some((n3, 5int)));
    assert(sp_product(toks, 4) == Some((n3, 5int)));
    let inner = Spanned(
        (ExprV::Binary {
            op: Spanned(sum_op(o1.0).unwrap(), o1.1),
            left: Box::new(n1),
            right: Box::new(n2),
        }),
        span_union(n1.1, n2.1),
    );
    let outer = Spanned(
        (ExprV::Binary {
            op: Spanned(sum_op(o2.0).unwrap(), o2.1),
            left: Box::new(inner),
            right: Box::new(n3),
        }),
        span_union(inner.1, n3.1),
    );
    assert(sp_sum_tail(toks, outer, 5) == Some((outer, 5int)));
    assert(sp_sum_tail(toks, inner, 3) == Some((outer, 5int)));
    assert(sp_sum_tail(toks, n1, 1) == Some((outer, 5int)));
    assert(sp_sum(toks, 0) == Some((outer, 5int)));
    assert(sp_cmp_tail(toks, outer, 5) == Some((outer, 5int)));
    assert(sp_cmp(toks, 0) == Some((outer, 5int)));
}

/// **Precedence.** A multiplicative operator to the right of an additive
/// one binds tighter: `a + b * c` parses with the product as the right
/// operand of the sum.
pub proof fn lemma_product_binds_tighter(
    toks: Seq<(TokenType, Span)>,
    t1: (TokenType, Span),
    o1: (TokenType, Span),
    t2: (TokenType, Span),
    o2: (TokenType, Span),
    t3: (TokenType, Span),
)
    requires
        toks == seq![t1, o1, t2, o2, t3],
        plain_literal(t1.0),
        plain_literal(t2.0),
        plain_literal(t3.0),
        sum_op(o1.0) is Some,
        product_op(o2.0) is Some,
    ensures
        ({
            let n1 = lit_node(t1);
            let n2 = lit_node(t2);
            let n3 = lit_node(t3);
            let prod = Spanned(
                (ExprV::Binary {
                    op: Spanned(product_op(o2.0).unwrap(), o2.1),
                    left: Box::new(n2),
                    right: Box::new(n3),
                }),
                span_range(n2.1, n3.1),
            );
            let sum = Spanned(
                (ExprV::Binary {
                    op: Spanned(sum_op(o1.0).unwrap(), o1.1),
                    left: Box::new(n1),
                    right: Box::new(prod),
                }),
                span_union(n1.1, prod.1),
            );
            sp_expr(toks, 0) == Some((sum, 5int))
        }),
{
    let n1 = lit_node(t1);
    let n2 = lit_node(t2);
    let n3 = lit_node(t3);
    assert(toks[0] == t1 && toks[1] == o1 && toks[2] == t2 && toks[3] == o2 && toks[4] == t3);
    lemma_literal_through_tiers(toks, 0);
    lemma_literal_through_tiers(toks, 2);
    lemma_literal_through_tiers(toks, 4);
    assert(sp_func_call(toks, 0) is None);
    assert(sp_ternary(toks, 0) is None);
    assert(product_op(o1.0) is None && cmp_op(o1.0) is None);
    assert(sum_op(o2.0) is None && cmp_op(o2.0) is None);
    assert(sp_product_tail(toks, n1, 1) == Some((n1, 1int)));
    assert(sp_product(toks, 0) == Some((n1, 1int)));
    let prod = Spanned(
        (ExprV::Binary {
            op: Spanned(product_op(o2.0).unwrap(), o2.1),
            left: Box::new(n2),
            right: Box::new(n3),
        }),
        span_range(n2.1, n3.1),
    );
    assert(sp_product_tail(toks, prod, 5) == Some((prod, 5int)));
    assert(sp_product_tail(toks, n2, 3) == Some((prod, 5int)));
    assert(sp_product(toks, 2) == Some((prod, 5int)));
    let sum = Spanned(
        (ExprV::Binary {
            op: Spanned(sum_op(o1.0).unwrap(), o1.1),
            left: Box::new(n1),
            right: Box::new(prod),
        }),
        span_union(n1.1, prod.1),
    );
    assert(sp_sum_tail(toks, sum, 5) == Some((sum, 5int)));
    assert(sp_sum_tail(toks, n1, 1) == Some((sum, 5int)));
    assert(sp_sum(toks, 0) == Some((sum, 5int)));
    assert(sp_cmp_tail(toks, sum, 5) == Some((sum, 5int)));
    assert(sp_cmp(toks, 0) == Some((sum, 5int)));
}

/// **Uniform comparison tier.** Any two comparison or logical operators
/// — relational, equality, `and`, `or` — fold in one left-associative
/// tier with no precedence gap between them.
pub proof fn lemma_comparison_single_tier(
    toks: Seq<(TokenType, Span)>,
    t1: (TokenType, Span),
    o1: (TokenType, Span),
    t2: (TokenType, Span),
    o2: (TokenType, Span),
    t3: (TokenType, Span),
)
    requires
        toks == seq![t1, o1, t2, o2, t3],
        plain_literal(t1.0),
        plain_literal(t2.0),
        plain_literal(t3.0),
        cmp_op(o1.0) is Some,
        cmp_op(o2.0) is Some,
    ensures
        ({
            let n1 = lit_node(t1);
            let n2 = lit_node(t2);
            let n3 = lit_node(t3);
            let inner = Spanned(
                (ExprV::Binary {
                    op: Spanned(cmp_op(o1.0).unwrap(), o1.1),
                    left: Box::new(n1),
                    right: Box::new(n2),
                }),
                span_union(n1.1, n2.1),
            );
            let outer = Spanned(
                (ExprV::Binary {
                    op: Spanned(cmp_op(o2.0).unwrap(), o2.1),
                    left: Box::new(inner),
                    right: Box::new(n3),
                }),
                span_union(inner.1, n3.1),
            );
            sp_expr(toks, 0) == Some((outer, 5int))
        }),
{
    let n1 = lit_node(t1);
    let n2 = lit_node(t2);
    let n3 = lit_node(t3);
    assert(toks[0] == t1 && toks[1] == o1 && toks[2] == t2 && toks[3] == o2 && toks[4] == t3);
    lemma_literal_through_tiers(toks, 0);
    lemma_literal_through_tiers(toks, 2);
    lemma_literal_through_tiers(toks, 4);
    assert(sp_func_call(toks, 0) is None);
    assert(sp_ternary(toks, 0) is None);
    assert(product_op(o1.0) is None && sum_op(o1.0) is None);
    assert(product_op(o2.0) is None && sum_op(o2.0) is None);
    assert(sp_product_tail(toks, n1, 1) == Some((n1, 1int)));
    assert(sp_product(toks, 0) == Some((n1, 1int)));
    assert(sp_sum_tail(toks, n1, 1) == Some((n1, 1int)));
    assert(sp_sum(toks, 0) == Some((n1, 1int)));
    assert(sp_product_tail(toks, n2, 3) == Some((n2, 3int)));
    assert(sp_product(toks, 2) == Some((n2, 3int)));
    assert(sp_sum_tail(toks, n2, 3) == Some((n2, 3int)));
    assert(sp_sum(toks, 2) == Some((n2, 3int)));
    assert(sp_product_tail(toks, n3, 5) == Some((n3, 5int)));
    assert(sp_product(toks, 4) == Some((n3, 5int)));
    assert(sp_sum_tail(toks, n3, 5) == Some((n3, 5int)));
    assert(sp_sum(toks, 4) == Some((n3, 5int)));
    let inner = Spanned(
        (ExprV::Binary {
            op: Spanned(cmp_op(o1.0).unwrap(), o1.1),
            left: Box::new(n1),
            right: Box::new(n2),
        }),
        span_union(n1.1, n2.1),
    );
    let outer = Spanned(
        (ExprV::Binary {
            op: Spanned(cmp_op(o2.0).unwrap(), o2.1),
            left: Box::new(inner),
            right: Box::new(n3),
        }),
        span_union(inner.1, n3.1),
    );
    assert(sp_cmp_tail(toks, outer, 5) == Some((outer, 5int)));
    assert(sp_cmp_tail(toks, inner, 3) == Some((outer, 5int)));
    assert(sp_cmp_tail(toks, n1, 1) == Some((outer, 5int)));
    assert(sp_cmp(toks, 0) == Some((outer, 5int)));
}

/// **No short-circuit.** An `and`/`or` expression whose right operand
/// fails surfaces that failure, even though the left operand alone
/// would settle the logical answer.
pub proof fn lemma_logical_right_error(
    st: StateV,
    op: Spanned<BinaryOp>,
    left: Spanned<ExprV>,
    right: Spanned<ExprV>,
    f1: nat,
    f2: nat,
    st1: StateV,
    a: ObjectV,
    st2: StateV,
    e: EvalError,
)
    requires
        op.0 == BinaryOp::And || op.0 == BinaryOp::Or,
        ev_expr(st, left.0, f1) == Some((st1, Ok::<ObjectV, EvalError>(a))),
        ev_expr(st1, right.0, f2) == Some((st2, Err::<ObjectV, EvalError>(e))),
    ensures
        exists|f: nat|
            ev_expr(
                st,
                (ExprV::Binary { op, left: Box::new(left), right: Box::new(right) }),
                f,
            ) == Some((st2, Err::<ObjectV, EvalError>(e))),
{
    let f = if f1 >= f2 {
        f1
    } else {
        f2
    };
    mono_expr(st, left.0, f1, f);
    mono_expr(st1, right.0, f2, f);
    let whole = ExprV::Binary { op, left: Box::new(left), right: Box::new(right) };
    assert(ev_expr(st, whole, f + 1) == Some((st2, Err::<ObjectV, EvalError>(e))));
}

/// **Mutability.** Assigning to a binding that is immutable when the
/// right-hand side has been evaluated fails with `Immutable`, and the
/// variables keep their values.
pub proof fn lemma_assign_immutable(
    st: StateV,
    name: Spanned<u64>,
    op: Spanned<AssignOp>,
    value: Spanned<ExprV>,
    f1: nat,
    st1: StateV,
    v: ObjectV,
)
    requires
        ev_expr(st, value.0, f1) == Some((st1, Ok::<ObjectV, EvalError>(v))),
        st1.vars.dom().contains(name.0),
        !st1.vars[name.0].1,
    ensures
        exists|f: nat|
            ev_stmt(
                st,
                (StatementV::Assign { name, op, value: Box::new(value) }),
                f,
            ) == Some((st1, Err::<(), EvalError>(EvalError::Immutable))),
{
    let whole = StatementV::Assign { name, op, value: Box::new(value) };
    assert(ev_stmt(st, whole, f1 + 1) == Some((st1, Err::<(), EvalError>(EvalError::Immutable))));
}

/// **Mutability, the other side.** A plain assignment to a mutable
/// binding stores the evaluated value, which then reads back.
pub proof fn lemma_assign_mutable_set(
    st: StateV,
    name: Spanned<u64>,
    value: Spanned<ExprV>,
    f1: nat,
    st1: StateV,
    v: ObjectV,
)
    requires
        ev_expr(st, value.0, f1) == Some((st1, Ok::<ObjectV, EvalError>(v))),
        st1.vars.dom().contains(name.0),
        st1.vars[name.0].1,
    ensures
        exists|f: nat|
            ev_stmt(
                st,
                (StatementV::Assign {
                    name,
                    op: Spanned(AssignOp::Assign, Span { start: 0, end: 0 }),
                    value: Box::new(value),
                }),
                f,
            ) == Some(
                ((StateV { vars: st1.vars.insert(name.0, (v, true)), ..st1 }), Ok::<
                    (),
                    EvalError,
                >(())),
            ),
        (StateV { vars: st1.vars.insert(name.0, (v, true)), ..st1 }).vars[name.0].0 == v,
{
    let whole = StatementV::Assign {
        name,
        op: Spanned(AssignOp::Assign, Span { start: 0, end: 0 }),
        value: Box::new(value),
    };
    assert(ev_stmt(st, whole, f1 + 1) == Some(
        ((StateV { vars: st1.vars.insert(name.0, (v, true)), ..st1 }), Ok::<(), EvalError>(())),
    ));
}

/// **Redeclaration.** Declaring a name that is already bound fails with
/// `AlreadyDeclared` before the initializer is even evaluated, and the
/// whole state — the earlier binding included — is untouched.
pub proof fn lemma_redeclare_keeps_env(
    st: StateV,
    decl: DeclarationType,
    name: Spanned<u64>,
    manual_type: Option<Spanned<TypeV>>,
    value: Spanned<ExprV>,
    f: nat,
)
    requires
        st.vars.dom().contains(name.0),
        f >= 1,
    ensures
        ev_stmt(
            st,
            (StatementV::Declaration {
                declaration_type: decl,
                name,
                manual_type,
                value: Box::new(value),
            }),
            f,
        ) == Some((st, Err::<(), EvalError>(EvalError::AlreadyDeclared))),
{
}

/// **Round trip.** A `test` of any literal appends exactly the
/// literal's canonical textual form to the output, and changes nothing
/// else.
pub proof fn lemma_test_literal_prints(st: StateV, value: Spanned<ObjectV>, f: nat)
    requires
        f >= 2,
        render_v(value.0, st.table) is Ok,
    ensures
        ev_stmt(st, StatementV::Test(ExprV::Literal { value }), f) == Some(
            (
                (StateV { output: st.output.push(render_v(value.0, st.table).unwrap()), ..st }),
                Ok::<(), EvalError>(()),
            ),
        ),
{
    assert(ev_expr(st, (ExprV::Literal { value }), (f - 1) as nat) == Some(
        (st, Ok::<ObjectV, EvalError>(value.0)),
    ));
}

/// **Division by zero.** Dividing a numeric value by integer zero, or a
/// decimal by decimal zero, is the `DivisionByZero` error, never a
/// silently substituted value. (An integer divided by a decimal follows
/// the mixed-operand rule, which puts the integer in the divisor's
/// place, so only its being zero can raise the error there.)
pub proof fn lemma_div_by_zero(a: ObjectV, s: int)
    requires
        a is Integer || a is Float,
    ensures
        obj_div_spec(a, ObjectV::Integer(0)) == Err::<ObjectV, EvalError>(
            EvalError::DivisionByZero,
        ),
        a is Float ==> obj_div_spec(a, ObjectV::Float { m: 0, s }) == Err::<ObjectV, EvalError>(
            EvalError::DivisionByZero,
        ),
{
}

/// **First match wins.** When the first arm's pattern matches the
/// predicate value, the match runs exactly that arm's statement — the
/// later arms, matching or not, never run.
pub proof fn lemma_match_first_arm(
    st: StateV,
    arms: Seq<(PatternV, StatementV)>,
    v: ObjectV,
    f: nat,
)
    requires
        arms.len() > 0,
        pat_matches(arms[0].0, v),
        f >= 1,
    ensures
        ev_arms(st, arms, v, f) == ev_stmt(st, arms[0].1, (f - 1) as nat),
{
}

} // verus!
