//! The recursive-descent parser.
//!
//! The grammar is stated once as spec functions over the token sequence
//! (`sp_*`), and the executable parser is proved to return exactly what
//! those functions describe. Expressions are parsed in precedence tiers,
//! lowest binding first: one tier for all comparison and logical
//! operators, one additive, one multiplicative, then prefix operators and
//! atoms; every tier folds left-associatively. A parse function takes the
//! token vector and a position and either fails, consuming nothing, or
//! returns a node and the position after the tokens it consumed.

use vstd::prelude::*;

use crate::ast::BinaryOp;
use crate::ast::Binary;
use crate::ast::Expr;
use crate::ast::ExprV;
use crate::ast::Literal;
use crate::ast::Unary;
use crate::ast::UnaryOp;
use crate::ast::AssignOp;
use crate::ast::DeclarationType;
use crate::ast::FuncParameter;
use crate::ast::FuncParameterV;
use crate::ast::ParamRestrictor;
use crate::ast::ParamType;
use crate::ast::Pattern;
use crate::ast::PatternV;
use crate::ast::Assign;
use crate::ast::MatchStmt;
use crate::ast::Statement;
use crate::ast::StatementV;
use crate::ast::Type;
use crate::ast::TypeV;
use crate::ast::expr_v;
use crate::ast::exprs_v;
use crate::ast::stmt_v;
use crate::ast::stmts_v;
use crate::ast::arms_v;
use crate::ast::params_v;
use crate::ast::param_v;
use crate::ast::pattern_v;
use crate::ast::type_v;
use crate::object::Object;
use crate::object::ObjectV;
use crate::span::Span;
use crate::span::Spanned;
use crate::token::TokenType;

verus! {

/// The span from the start of `a` to the end of `b`.
pub open spec fn span_range(a: Span, b: Span) -> Span {
    Span { start: a.start, end: b.end }
}

/// The smallest span covering both arguments.
pub open spec fn span_union(a: Span, b: Span) -> Span {
    Span {
        start: if a.start <= b.start {
            a.start
        } else {
            b.start
        },
        end: if a.end >= b.end {
            a.end
        } else {
            b.end
        },
    }
}

/// The model of an expression-parse result.
pub open spec fn opt_expr_v(r: Option<(Spanned<Expr>, usize)>) -> Option<(Spanned<ExprV>, int)> {
    match r {
        Some((e, q)) => Some((Spanned(expr_v(e.0), e.1), q as int)),
        None => None,
    }
}

/// The multiplicative operator a token stands for.
pub open spec fn product_op(t: TokenType) -> Option<BinaryOp> {
    match t {
        TokenType::Times => Some(BinaryOp::Mul),
        TokenType::Div => Some(BinaryOp::Div),
        _ => None,
    }
}

/// The additive operator a token stands for.
pub open spec fn sum_op(t: TokenType) -> Option<BinaryOp> {
    match t {
        TokenType::Plus => Some(BinaryOp::Add),
        TokenType::Minus => Some(BinaryOp::Sub),
        _ => None,
    }
}

/// The comparison or logical operator a token stands for; all of them
/// share one precedence tier.
pub open spec fn cmp_op(t: TokenType) -> Option<BinaryOp> {
    match t {
        TokenType::GreaterThan => Some(BinaryOp::GreaterThan),
        TokenType::GreaterThanEqual => Some(BinaryOp::GreaterThanEqual),
        TokenType::LessThan => Some(BinaryOp::LessThan),
        TokenType::LessThanEqual => Some(BinaryOp::LessThanEqual),
        TokenType::Equal => Some(BinaryOp::Equal),
        TokenType::NotEqual => Some(BinaryOp::NotEqual),
        TokenType::And => Some(BinaryOp::And),
        TokenType::Or => Some(BinaryOp::Or),
        _ => None,
    }
}

/// The prefix operator a token stands for.
pub open spec fn unary_op(t: TokenType) -> Option<UnaryOp> {
    match t {
        TokenType::Not => Some(UnaryOp::Not),
        TokenType::Minus => Some(UnaryOp::Neg),
        _ => None,
    }
}

/// The literal value a token stands for, if it is a literal token.
pub open spec fn literal_obj(t: TokenType) -> Option<ObjectV> {
    match t {
        TokenType::True => Some(ObjectV::Boolean(true)),
        TokenType::False => Some(ObjectV::Boolean(false)),
        TokenType::Null => Some(ObjectV::Null),
        TokenType::StringLiteral(h) => Some(ObjectV::Str(h)),
        TokenType::CharLiteral(c) => Some(ObjectV::Integer(c as u32 as i32)),
        TokenType::Number(i) => Some(ObjectV::Integer(i)),
        TokenType::FloatingNumber(d) => Some(ObjectV::Float { m: d.mant(), s: d.scl() }),
        _ => None,
    }
}

/// An atom: a literal, a variable, or a parenthesized expression.
pub open spec fn sp_atom(toks: Seq<(TokenType, Span)>, pos: int) -> Option<(Spanned<ExprV>, int)>
    decreases toks.len() - pos, 10int,
{
    if pos < 0 || pos >= toks.len() {
        None
    } else {
        let (t, sp) = toks[pos];
        match literal_obj(t) {
            Some(v) => Some(
                (Spanned(ExprV::Literal { value: Spanned(v, sp) }, sp), pos + 1),
            ),
            None => match t {
                TokenType::Identifier(i) => Some(
                    (Spanned(ExprV::Variable { name: Spanned(i, sp) }, sp), pos + 1),
                ),
                TokenType::LeftParenthesis => match sp_expr(toks, pos + 1) {
                    Some((e, q)) => if 0 <= q < toks.len() && toks[q].0 is RightParenthesis {
                        Some((Spanned(e.0, span_range(sp, toks[q].1)), q + 1))
                    } else {
                        None
                    },
                    None => None,
                },
                _ => None,
            },
        }
    }
}

/// The prefix tier: a fold of prefix operators over an atom.
pub open spec fn sp_unary(toks: Seq<(TokenType, Span)>, pos: int) -> Option<(Spanned<ExprV>, int)>
    decreases toks.len() - pos, 20int,
{
    if pos < 0 || pos >= toks.len() {
        None
    } else {
        let (t, sp) = toks[pos];
        match unary_op(t) {
            Some(o) => match sp_unary(toks, pos + 1) {
                Some((r, q)) => Some(
                    (
                        Spanned(
                            ExprV::Unary { op: Spanned(o, sp), right: Box::new(r) },
                            span_union(sp, r.1),
                        ),
                        q,
                    ),
                ),
                None => None,
            },
            None => sp_atom(toks, pos),
        }
    }
}

/// The trailing `(operator, operand)` pairs of the multiplicative tier,
/// folded left-associatively onto `lhs`.
pub open spec fn sp_product_tail(
    toks: Seq<(TokenType, Span)>,
    lhs: Spanned<ExprV>,
    pos: int,
) -> Option<(Spanned<ExprV>, int)>
    decreases toks.len() - pos, 25int,
{
    if pos < 0 || pos >= toks.len() {
        Some((lhs, pos))
    } else {
        let (t, sp) = toks[pos];
        match product_op(t) {
            Some(o) => match sp_unary(toks, pos + 1) {
                Some((rhs, q)) => {
                    let node = Spanned(
                        ExprV::Binary {
                            op: Spanned(o, sp),
                            left: Box::new(lhs),
                            right: Box::new(rhs),
                        },
                        span_range(lhs.1, rhs.1),
                    );
                    if pos < q <= toks.len() {
                        sp_product_tail(toks, node, q)
                    } else {
                        Some((node, q))
                    }
                },
                None => Some((lhs, pos)),
            },
            None => Some((lhs, pos)),
        }
    }
}

/// The multiplicative tier.
pub open spec fn sp_product(toks: Seq<(TokenType, Span)>, pos: int) -> Option<
    (Spanned<ExprV>, int),
>
    decreases toks.len() - pos, 30int,
{
    match sp_unary(toks, pos) {
        Some((first, q)) => if pos < q <= toks.len() {
            sp_product_tail(toks, first, q)
        } else {
            Some((first, q))
        },
        None => None,
    }
}

/// The trailing pairs of the additive tier.
pub open spec fn sp_sum_tail(toks: Seq<(TokenType, Span)>, lhs: Spanned<ExprV>, pos: int) -> Option<
    (Spanned<ExprV>, int),
>
    decreases toks.len() - pos, 35int,
{
    if pos < 0 || pos >= toks.len() {
        Some((lhs, pos))
    } else {
        let (t, sp) = toks[pos];
        match sum_op(t) {
            Some(o) => match sp_product(toks, pos + 1) {
                Some((rhs, q)) => {
                    let node = Spanned(
                        ExprV::Binary {
                            op: Spanned(o, sp),
                            left: Box::new(lhs),
                            right: Box::new(rhs),
                        },
                        span_union(lhs.1, rhs.1),
                    );
                    if pos < q <= toks.len() {
                        sp_sum_tail(toks, node, q)
                    } else {
                        Some((node, q))
                    }
                },
                None => Some((lhs, pos)),
            },
            None => Some((lhs, pos)),
        }
    }
}

/// The additive tier.
pub open spec fn sp_sum(toks: Seq<(TokenType, Span)>, pos: int) -> Option<(Spanned<ExprV>, int)>
    decreases toks.len() - pos, 40int,
{
    match sp_product(toks, pos) {
        Some((first, q)) => if pos < q <= toks.len() {
            sp_sum_tail(toks, first, q)
        } else {
            Some((first, q))
        },
        None => None,
    }
}

/// The trailing pairs of the comparison tier.
pub open spec fn sp_cmp_tail(toks: Seq<(TokenType, Span)>, lhs: Spanned<ExprV>, pos: int) -> Option<
    (Spanned<ExprV>, int),
>
    decreases toks.len() - pos, 45int,
{
    if pos < 0 || pos >= toks.len() {
        Some((lhs, pos))
    } else {
        let (t, sp) = toks[pos];
        match cmp_op(t) {
            Some(o) => match sp_sum(toks, pos + 1) {
                Some((rhs, q)) => {
                    let node = Spanned(
                        ExprV::Binary {
                            op: Spanned(o, sp),
                            left: Box::new(lhs),
                            right: Box::new(rhs),
                        },
                        span_union(lhs.1, rhs.1),
                    );
                    if pos < q <= toks.len() {
                        sp_cmp_tail(toks, node, q)
                    } else {
                        Some((node, q))
                    }
                },
                None => Some((lhs, pos)),
            },
            None => Some((lhs, pos)),
        }
    }
}

/// The comparison tier, the lowest-binding binary tier.
pub open spec fn sp_cmp(toks: Seq<(TokenType, Span)>, pos: int) -> Option<(Spanned<ExprV>, int)>
    decreases toks.len() - pos, 50int,
{
    match sp_sum(toks, pos) {
        Some((first, q)) => if pos < q <= toks.len() {
            sp_cmp_tail(toks, first, q)
        } else {
            Some((first, q))
        },
        None => None,
    }
}

/// The trailing comma-separated arguments of a function call.
pub open spec fn sp_args_tail(toks: Seq<(TokenType, Span)>, acc: Seq<ExprV>, pos: int) -> Option<
    (Seq<ExprV>, int),
>
    decreases toks.len() - pos, 72int,
{
    if pos < 0 || pos >= toks.len() {
        Some((acc, pos))
    } else if toks[pos].0 is Comma {
        match sp_expr(toks, pos + 1) {
            Some((e, q)) => if pos < q <= toks.len() {
                sp_args_tail(toks, acc.push(e.0), q)
            } else {
                Some((acc.push(e.0), q))
            },
            None => None,
        }
    } else {
        Some((acc, pos))
    }
}

/// A function call: an identifier and a parenthesized, comma-separated
/// argument list.
pub open spec fn sp_func_call(toks: Seq<(TokenType, Span)>, pos: int) -> Option<
    (Spanned<ExprV>, int),
>
    decreases toks.len() - pos, 65int,
{
    if pos < 0 || pos + 1 >= toks.len() {
        None
    } else {
        let (t, sp) = toks[pos];
        match t {
            TokenType::Identifier(i) => if toks[pos + 1].0 is LeftParenthesis {
                let inner = pos + 2;
                if inner < toks.len() && toks[inner].0 is RightParenthesis {
                    Some(
                        (
                            Spanned(
                                ExprV::FunctionCall {
                                    func_name: Box::new(Spanned(i, sp)),
                                    arguments: Some(Seq::empty()),
                                },
                                span_range(sp, toks[inner].1),
                            ),
                            inner + 1,
                        ),
                    )
                } else {
                    match sp_expr(toks, inner) {
                        Some((e, q)) => if !(pos < q <= toks.len()) {
                            None
                        } else {
                            match sp_args_tail(toks, seq![e.0], q) {
                            Some((args, q2)) => if 0 <= q2 < toks.len() && toks[q2].0
                                is RightParenthesis {
                                Some(
                                    (
                                        Spanned(
                                            ExprV::FunctionCall {
                                                func_name: Box::new(Spanned(i, sp)),
                                                arguments: Some(args),
                                            },
                                            span_range(sp, toks[q2].1),
                                        ),
                                        q2 + 1,
                                    ),
                                )
                                } else {
                                    None
                                },
                                None => None,
                            }
                        },
                        None => None,
                    }
                }
            } else {
                None
            },
            _ => None,
        }
    }
}

/// A ternary-if expression: `if <expr> : <expr> else <expr>`.
pub open spec fn sp_ternary(toks: Seq<(TokenType, Span)>, pos: int) -> Option<
    (Spanned<ExprV>, int),
>
    decreases toks.len() - pos, 65int,
{
    if pos < 0 || pos >= toks.len() || !(toks[pos].0 is If) {
        None
    } else {
        let sp = toks[pos].1;
        match sp_expr(toks, pos + 1) {
            Some((c, q1)) => if pos < q1 < toks.len() && toks[q1].0 is Colon {
                match sp_expr(toks, q1 + 1) {
                    Some((v, q2)) => if q1 < q2 < toks.len() && toks[q2].0 is Else {
                        match sp_expr(toks, q2 + 1) {
                            Some((w, q3)) => Some(
                                (
                                    Spanned(
                                        ExprV::TernaryIf {
                                            condition: Box::new(c),
                                            value: Box::new(v),
                                            else_value: Box::new(w),
                                        },
                                        span_range(sp, w.1),
                                    ),
                                    q3,
                                ),
                            ),
                            None => None,
                        }
                    } else {
                        None
                    },
                    None => None,
                }
            } else {
                None
            },
            None => None,
        }
    }
}

/// An expression: a function call, a ternary-if, or the binary tiers,
/// tried in that order.
pub open spec fn sp_expr(toks: Seq<(TokenType, Span)>, pos: int) -> Option<(Spanned<ExprV>, int)>
    decreases toks.len() - pos, 70int,
{
    match sp_func_call(toks, pos) {
        Some(r) => Some(r),
        None => match sp_ternary(toks, pos) {
            Some(r) => Some(r),
            None => sp_cmp(toks, pos),
        },
    }
}

// ------------------------------------------------------------------
// Executable parser
// ------------------------------------------------------------------

/// An atom, as `sp_atom` states.
fn atom(toks: &Vec<(TokenType, Span)>, pos: usize) -> (r: Option<(Spanned<Expr>, usize)>)
    ensures
        opt_expr_v(r) == sp_atom(toks@, pos as int),
        r matches Some((_, q)) ==> pos < q <= toks.len(),
    decreases toks@.len() - pos as int, 10int,
{
    if pos >= toks.len() {
        return None;
    }
    let (t, sp) = toks[pos];
    match t {
        TokenType::True => Some(
            (
                Spanned(
                    Expr::Literal(Literal { value: Spanned(Object::Boolean(true), sp) }),
                    sp,
                ),
                pos + 1,
            ),
        ),
        TokenType::False => Some(
            (
                Spanned(
                    Expr::Literal(Literal { value: Spanned(Object::Boolean(false), sp) }),
                    sp,
                ),
                pos + 1,
            ),
        ),
        TokenType::Null => Some(
            (Spanned(Expr::Literal(Literal { value: Spanned(Object::NullValue, sp) }), sp), pos + 1),
        ),
        TokenType::StringLiteral(h) => Some(
            (Spanned(Expr::Literal(Literal { value: Spanned(Object::Str(h), sp) }), sp), pos + 1),
        ),
        TokenType::CharLiteral(c) => Some(
            (
                Spanned(
                    Expr::Literal(Literal { value: Spanned(Object::Integer(c as u32 as i32), sp) }),
                    sp,
                ),
                pos + 1,
            ),
        ),
        TokenType::Number(i) => Some(
            (Spanned(Expr::Literal(Literal { value: Spanned(Object::Integer(i), sp) }), sp), pos + 1),
        ),
        TokenType::FloatingNumber(d) => Some(
            (Spanned(Expr::Literal(Literal { value: Spanned(Object::Float(d), sp) }), sp), pos + 1),
        ),
        TokenType::Identifier(i) => Some(
            (Spanned(Expr::Variable { name: Spanned(i, sp) }, sp), pos + 1),
        ),
        TokenType::LeftParenthesis => match expr(toks, pos + 1) {
            Some((e, q)) => {
                if q < toks.len() && toks[q].0 == TokenType::RightParenthesis {
                    let sp2 = toks[q].1;
                    Some((Spanned(e.0, Span { start: sp.start, end: sp2.end }), q + 1))
                } else {
                    None
                }
            },
            None => None,
        },
        _ => None,
    }
}

/// The prefix tier, as `sp_unary` states.
fn unary(toks: &Vec<(TokenType, Span)>, pos: usize) -> (r: Option<(Spanned<Expr>, usize)>)
    ensures
        opt_expr_v(r) == sp_unary(toks@, pos as int),
        r matches Some((_, q)) ==> pos < q <= toks.len(),
    decreases toks@.len() - pos as int, 20int,
{
    if pos >= toks.len() {
        return None;
    }
    let (t, sp) = toks[pos];
    let op: Option<UnaryOp> = match t {
        TokenType::Not => Some(UnaryOp::Not),
        TokenType::Minus => Some(UnaryOp::Neg),
        _ => None,
    };
    match op {
        Some(o) => match unary(toks, pos + 1) {
            Some((r, q)) => {
                let usp = concat_span_exec(sp, r.1);
                Some(
                    (
                        Spanned(
                            Expr::Unary(Unary { operator: Spanned(o, sp), right: Box::new(r) }),
                            usp,
                        ),
                        q,
                    ),
                )
            },
            None => None,
        },
        None => atom(toks, pos),
    }
}

/// The smallest span covering both arguments.
fn concat_span_exec(a: Span, b: Span) -> (s: Span)
    ensures
        s == span_union(a, b),
{
    Span {
        start: if a.start <= b.start {
            a.start
        } else {
            b.start
        },
        end: if a.end >= b.end {
            a.end
        } else {
            b.end
        },
    }
}

/// The multiplicative tail, as `sp_product_tail` states.
fn product_tail(toks: &Vec<(TokenType, Span)>, lhs: Spanned<Expr>, pos: usize) -> (r: Option<
    (Spanned<Expr>, usize),
>)
    requires
        pos <= toks.len(),
    ensures
        opt_expr_v(r) == sp_product_tail(toks@, Spanned(expr_v(lhs.0), lhs.1), pos as int),
        r matches Some((_, q)) ==> pos <= q <= toks.len(),
    decreases toks@.len() - pos as int, 25int,
{
    if pos >= toks.len() {
        return Some((lhs, pos));
    }
    let (t, sp) = toks[pos];
    let op: Option<BinaryOp> = match t {
        TokenType::Times => Some(BinaryOp::Mul),
        TokenType::Div => Some(BinaryOp::Div),
        _ => None,
    };
    match op {
        Some(o) => {
            let saved = pos;
            match unary(toks, pos + 1) {
                Some((rhs, q)) => {
                    let nsp = Span { start: lhs.1.start, end: rhs.1.end };
                    let node = Spanned(
                        Expr::Binary(
                            Binary {
                                left: Box::new(lhs),
                                operator: Spanned(o, sp),
                                right: Box::new(rhs),
                            },
                        ),
                        nsp,
                    );
                    product_tail(toks, node, q)
                },
                None => Some((lhs, saved)),
            }
        },
        None => Some((lhs, pos)),
    }
}

/// The multiplicative tier, as `sp_product` states.
fn product(toks: &Vec<(TokenType, Span)>, pos: usize) -> (r: Option<(Spanned<Expr>, usize)>)
    ensures
        opt_expr_v(r) == sp_product(toks@, pos as int),
        r matches Some((_, q)) ==> pos < q <= toks.len(),
    decreases toks@.len() - pos as int, 30int,
{
    match unary(toks, pos) {
        Some((first, q)) => product_tail(toks, first, q),
        None => None,
    }
}

/// The additive tail, as `sp_sum_tail` states.
fn sum_tail(toks: &Vec<(TokenType, Span)>, lhs: Spanned<Expr>, pos: usize) -> (r: Option<
    (Spanned<Expr>, usize),
>)
    requires
        pos <= toks.len(),
    ensures
        opt_expr_v(r) == sp_sum_tail(toks@, Spanned(expr_v(lhs.0), lhs.1), pos as int),
        r matches Some((_, q)) ==> pos <= q <= toks.len(),
    decreases toks@.len() - pos as int, 35int,
{
    if pos >= toks.len() {
        return Some((lhs, pos));
    }
    let (t, sp) = toks[pos];
    let op: Option<BinaryOp> = match t {
        TokenType::Plus => Some(BinaryOp::Add),
        TokenType::Minus => Some(BinaryOp::Sub),
        _ => None,
    };
    match op {
        Some(o) => {
            let saved = pos;
            match product(toks, pos + 1) {
                Some((rhs, q)) => {
                    let nsp = concat_span_exec(lhs.1, rhs.1);
                    let node = Spanned(
                        Expr::Binary(
                            Binary {
                                left: Box::new(lhs),
                                operator: Spanned(o, sp),
                                right: Box::new(rhs),
                            },
                        ),
                        nsp,
                    );
                    sum_tail(toks, node, q)
                },
                None => Some((lhs, saved)),
            }
        },
        None => Some((lhs, pos)),
    }
}

/// The additive tier, as `sp_sum` states.
fn sum(toks: &Vec<(TokenType, Span)>, pos: usize) -> (r: Option<(Spanned<Expr>, usize)>)
    ensures
        opt_expr_v(r) == sp_sum(toks@, pos as int),
        r matches Some((_, q)) ==> pos < q <= toks.len(),
    decreases toks@.len() - pos as int, 40int,
{
    match product(toks, pos) {
        Some((first, q)) => sum_tail(toks, first, q),
        None => None,
    }
}

/// The comparison tail, as `sp_cmp_tail` states.
fn cmp_tail(toks: &Vec<(TokenType, Span)>, lhs: Spanned<Expr>, pos: usize) -> (r: Option<
    (Spanned<Expr>, usize),
>)
    requires
        pos <= toks.len(),
    ensures
        opt_expr_v(r) == sp_cmp_tail(toks@, Spanned(expr_v(lhs.0), lhs.1), pos as int),
        r matches Some((_, q)) ==> pos <= q <= toks.len(),
    decreases toks@.len() - pos as int, 45int,
{
    if pos >= toks.len() {
        return Some((lhs, pos));
    }
    let (t, sp) = toks[pos];
    let op: Option<BinaryOp> = match t {
        TokenType::GreaterThan => Some(BinaryOp::GreaterThan),
        TokenType::GreaterThanEqual => Some(BinaryOp::GreaterThanEqual),
        TokenType::LessThan => Some(BinaryOp::LessThan),
        TokenType::LessThanEqual => Some(BinaryOp::LessThanEqual),
        TokenType::Equal => Some(BinaryOp::Equal),
        TokenType::NotEqual => Some(BinaryOp::NotEqual),
        TokenType::And => Some(BinaryOp::And),
        TokenType::Or => Some(BinaryOp::Or),
        _ => None,
    };
    match op {
        Some(o) => {
            let saved = pos;
            match sum(toks, pos + 1) {
                Some((rhs, q)) => {
                    let nsp = concat_span_exec(lhs.1, rhs.1);
                    let node = Spanned(
                        Expr::Binary(
                            Binary {
                                left: Box::new(lhs),
                                operator: Spanned(o, sp),
                                right: Box::new(rhs),
                            },
                        ),
                        nsp,
                    );
                    cmp_tail(toks, node, q)
                },
                None => Some((lhs, saved)),
            }
        },
        None => Some((lhs, pos)),
    }
}

/// The comparison tier, as `sp_cmp` states.
fn cmp(toks: &Vec<(TokenType, Span)>, pos: usize) -> (r: Option<(Spanned<Expr>, usize)>)
    ensures
        opt_expr_v(r) == sp_cmp(toks@, pos as int),
        r matches Some((_, q)) ==> pos < q <= toks.len(),
    decreases toks@.len() - pos as int, 50int,
{
    match sum(toks, pos) {
        Some((first, q)) => cmp_tail(toks, first, q),
        None => None,
    }
}

/// The call-argument tail, as `sp_args_tail` states.
fn args_tail(toks: &Vec<(TokenType, Span)>, acc: Vec<Expr>, pos: usize) -> (r: Option<
    (Vec<Expr>, usize),
>)
    requires
        pos <= toks.len(),
    ensures
        (match r {
            Some((args, q)) => Some((exprs_v(args@), q as int)),
            None => None,
        }) == sp_args_tail(toks@, exprs_v(acc@), pos as int),
        r matches Some((_, q)) ==> pos <= q <= toks.len(),
    decreases toks@.len() - pos as int, 72int,
{
    if pos >= toks.len() {
        return Some((acc, pos));
    }
    if toks[pos].0 == TokenType::Comma {
        let saved_len: Ghost<Seq<ExprV>> = Ghost(exprs_v(acc@));
        match expr(toks, pos + 1) {
            Some((e, q)) => {
                let mut acc2 = acc;
                let ghost old_acc = acc2@;
                acc2.push(e.0);
                proof {
                    lemma_exprs_v_push(old_acc, e.0);
                }
                args_tail(toks, acc2, q)
            },
            None => None,
        }
    } else {
        Some((acc, pos))
    }
}

/// Mapping a sequence of expressions distributes over `push`.
proof fn lemma_exprs_v_push(es: Seq<Expr>, e: Expr)
    ensures
        exprs_v(es.push(e)) == exprs_v(es).push(expr_v(e)),
    decreases es.len(),
{
    let p = es.push(e);
    assert(p.len() == es.len() + 1);
    if es.len() == 0 {
        assert(p.subrange(1, 1) =~= Seq::<Expr>::empty());
        assert(exprs_v(p) == seq![expr_v(p[0])] + exprs_v(p.subrange(1, 1)));
        assert(p[0] == e);
        assert(exprs_v(p.subrange(1, 1)) =~= Seq::<ExprV>::empty());
        assert(exprs_v(es) =~= Seq::<ExprV>::empty());
        assert(exprs_v(es.push(e)) =~= exprs_v(es).push(expr_v(e)));
    } else {
        let tail = es.subrange(1, es.len() as int);
        assert(p.subrange(1, p.len() as int) =~= tail.push(e));
        lemma_exprs_v_push(tail, e);
        assert(p[0] == es[0]);
        assert(exprs_v(p) == seq![expr_v(p[0])] + exprs_v(p.subrange(1, p.len() as int)));
        assert(exprs_v(es) == seq![expr_v(es[0])] + exprs_v(tail));
        assert(exprs_v(es.push(e)) =~= exprs_v(es).push(expr_v(e)));
    }
}

/// A function call, as `sp_func_call` states.
fn func_call(toks: &Vec<(TokenType, Span)>, pos: usize) -> (r: Option<(Spanned<Expr>, usize)>)
    ensures
        opt_expr_v(r) == sp_func_call(toks@, pos as int),
        r matches Some((_, q)) ==> pos < q <= toks.len(),
    decreases toks@.len() - pos as int, 65int,
{
    if pos >= toks.len() || pos + 1 >= toks.len() {
        return None;
    }
    let (t, sp) = toks[pos];
    match t {
        TokenType::Identifier(i) => {
            if toks[pos + 1].0 == TokenType::LeftParenthesis {
                let inner = pos + 2;
                if inner < toks.len() && toks[inner].0 == TokenType::RightParenthesis {
                    let sp2 = toks[inner].1;
                    let no_args: Vec<Expr> = Vec::new();
                    proof {
                        assert(exprs_v(no_args@) =~= Seq::<ExprV>::empty());
                    }
                    Some(
                        (
                            Spanned(
                                Expr::FunctionCall {
                                    func_name: Box::new(Spanned(i, sp)),
                                    arguments: Some(no_args),
                                },
                                Span { start: sp.start, end: sp2.end },
                            ),
                            inner + 1,
                        ),
                    )
                } else {
                    match expr(toks, inner) {
                        Some((e, q)) => {
                            let mut first: Vec<Expr> = Vec::new();
                            let ghost empty_args = first@;
                            first.push(e.0);
                            proof {
                                lemma_exprs_v_push(empty_args, e.0);
                                assert(exprs_v(empty_args) =~= Seq::<ExprV>::empty());
                                assert(exprs_v(first@) =~= seq![expr_v(e.0)]);
                            }
                            match args_tail(toks, first, q) {
                                Some((args, q2)) => {
                                    if q2 < toks.len() && toks[q2].0
                                        == TokenType::RightParenthesis {
                                        let sp2 = toks[q2].1;
                                        Some(
                                            (
                                                Spanned(
                                                    Expr::FunctionCall {
                                                        func_name: Box::new(Spanned(i, sp)),
                                                        arguments: Some(args),
                                                    },
                                                    Span { start: sp.start, end: sp2.end },
                                                ),
                                                q2 + 1,
                                            ),
                                        )
                                    } else {
                                        None
                                    }
                                },
                                None => None,
                            }
                        },
                        None => None,
                    }
                }
            } else {
                None
            }
        },
        _ => None,
    }
}

/// A ternary-if expression, as `sp_ternary` states.
fn ternary(toks: &Vec<(TokenType, Span)>, pos: usize) -> (r: Option<(Spanned<Expr>, usize)>)
    ensures
        opt_expr_v(r) == sp_ternary(toks@, pos as int),
        r matches Some((_, q)) ==> pos < q <= toks.len(),
    decreases toks@.len() - pos as int, 65int,
{
    if pos >= toks.len() {
        return None;
    }
    if toks[pos].0 != TokenType::If {
        return None;
    }
    let sp = toks[pos].1;
    match expr(toks, pos + 1) {
        Some((c, q1)) => {
            if q1 < toks.len() && toks[q1].0 == TokenType::Colon {
                match expr(toks, q1 + 1) {
                    Some((v, q2)) => {
                        if q2 < toks.len() && toks[q2].0 == TokenType::Else {
                            match expr(toks, q2 + 1) {
                                Some((w, q3)) => {
                                    let nsp = Span { start: sp.start, end: w.1.end };
                                    Some(
                                        (
                                            Spanned(
                                                Expr::TernaryIf {
                                                    condition: Box::new(c),
                                                    value: Box::new(v),
                                                    else_value: Box::new(w),
                                                },
                                                nsp,
                                            ),
                                            q3,
                                        ),
                                    )
                                },
                                None => None,
                            }
                        } else {
                            None
                        }
                    },
                    None => None,
                }
            } else {
                None
            }
        },
        None => None,
    }
}

/// An expression, as `sp_expr` states.
pub fn expr(toks: &Vec<(TokenType, Span)>, pos: usize) -> (r: Option<(Spanned<Expr>, usize)>)
    ensures
        opt_expr_v(r) == sp_expr(toks@, pos as int),
        r matches Some((_, q)) ==> pos < q <= toks.len(),
    decreases toks@.len() - pos as int, 70int,
{
    match func_call(toks, pos) {
        Some(r) => Some(r),
        None => match ternary(toks, pos) {
            Some(r) => Some(r),
            None => cmp(toks, pos),
        },
    }
}

// ------------------------------------------------------------------
// Statement grammar
// ------------------------------------------------------------------

/// The model of a statement-parse result.
pub open spec fn opt_stmt_v(r: Option<(Spanned<Statement>, usize)>) -> Option<
    (Spanned<StatementV>, int),
> {
    match r {
        Some((s, q)) => Some((Spanned(stmt_v(s.0), s.1), q as int)),
        None => None,
    }
}

/// The assignment operator a token stands for.
pub open spec fn assign_op(t: TokenType) -> Option<AssignOp> {
    match t {
        TokenType::Assign => Some(AssignOp::Assign),
        TokenType::PlusAssign => Some(AssignOp::Add),
        TokenType::MinusAssign => Some(AssignOp::Sub),
        TokenType::TimesAssign => Some(AssignOp::Mul),
        TokenType::DivAssign => Some(AssignOp::Div),
        _ => None,
    }
}

/// A declared type: a bare identifier.
pub open spec fn sp_type_ident(toks: Seq<(TokenType, Span)>, pos: int) -> Option<
    (Spanned<TypeV>, int),
> {
    if pos < 0 || pos >= toks.len() {
        None
    } else {
        match toks[pos].0 {
            TokenType::Identifier(i) => Some((Spanned(TypeV::Ident(i), toks[pos].1), pos + 1)),
            _ => None,
        }
    }
}

/// A match-arm pattern: wildcard, integer literal, or type name.
pub open spec fn sp_pattern(toks: Seq<(TokenType, Span)>, pos: int) -> Option<(PatternV, int)> {
    if pos < 0 || pos >= toks.len() {
        None
    } else {
        let (t, sp) = toks[pos];
        match t {
            TokenType::WildCard => Some((PatternV::WildCard, pos + 1)),
            TokenType::Number(i) => Some(
                (PatternV::Literal { value: Spanned(ObjectV::Integer(i), sp) }, pos + 1),
            ),
            TokenType::Identifier(i) => Some((PatternV::TypeName(TypeV::Ident(i)), pos + 1)),
            _ => None,
        }
    }
}

/// The passing mode a token stands for.
pub open spec fn param_mode(t: TokenType) -> Option<ParamType> {
    match t {
        TokenType::Ref => Some(ParamType::Reference),
        TokenType::Val => Some(ParamType::Value),
        TokenType::In => Some(ParamType::Input),
        TokenType::Out => Some(ParamType::Output),
        _ => None,
    }
}

/// The parameter restrictor a token stands for.
pub open spec fn param_restrictor(t: TokenType) -> Option<ParamRestrictor> {
    match t {
        TokenType::Mutable => Some(ParamRestrictor::Mutable),
        TokenType::Const => Some(ParamRestrictor::Constant),
        _ => None,
    }
}

/// One function parameter: `(ref|val|in|out) name : [mut|const]? type`.
pub open spec fn sp_param(toks: Seq<(TokenType, Span)>, pos: int) -> Option<(FuncParameterV, int)> {
    if pos < 0 || pos + 2 >= toks.len() {
        None
    } else {
        match param_mode(toks[pos].0) {
            Some(mode) => match toks[pos + 1].0 {
                TokenType::Identifier(name) => if toks[pos + 2].0 is Colon {
                    let rest = match param_restrictor(toks[pos + 3].0) {
                        Some(rr) => if pos + 3 < toks.len() {
                            Some(Spanned(rr, toks[pos + 3].1))
                        } else {
                            None
                        },
                        None => None,
                    };
                    let tpos = if rest is Some {
                        pos + 4
                    } else {
                        pos + 3
                    };
                    match sp_type_ident(toks, tpos) {
                        Some((ty, q)) => Some(
                            (
                                FuncParameterV {
                                    param_type: Box::new(Spanned(mode, toks[pos].1)),
                                    param_value_name: Box::new(Spanned(name, toks[pos + 1].1)),
                                    param_restrictor: rest,
                                    param_value_type: Box::new(ty),
                                },
                                q,
                            ),
                        ),
                        None => None,
                    }
                } else {
                    None
                },
                _ => None,
            },
            None => None,
        }
    }
}

/// The trailing comma-separated parameters of a function declaration.
pub open spec fn sp_params_tail(
    toks: Seq<(TokenType, Span)>,
    acc: Seq<FuncParameterV>,
    pos: int,
) -> Option<(Seq<FuncParameterV>, int)>
    decreases toks.len() - pos, 75int,
{
    if pos < 0 || pos >= toks.len() {
        Some((acc, pos))
    } else if toks[pos].0 is Comma {
        match sp_param(toks, pos + 1) {
            Some((p, q)) => if pos < q <= toks.len() {
                sp_params_tail(toks, acc.push(p), q)
            } else {
                Some((acc.push(p), q))
            },
            None => None,
        }
    } else {
        Some((acc, pos))
    }
}

/// A possibly empty parameter list, read up to the closing parenthesis.
pub open spec fn sp_params(toks: Seq<(TokenType, Span)>, pos: int) -> Option<
    (Seq<FuncParameterV>, int),
>
    decreases toks.len() - pos, 76int,
{
    if pos < 0 || pos >= toks.len() {
        None
    } else if toks[pos].0 is RightParenthesis {
        Some((Seq::empty(), pos))
    } else {
        match sp_param(toks, pos) {
            Some((p, q)) => if pos < q <= toks.len() {
                sp_params_tail(toks, seq![p], q)
            } else {
                Some((seq![p], q))
            },
            None => None,
        }
    }
}

/// A test statement: `test <expr>;`.
pub open spec fn sp_test(toks: Seq<(TokenType, Span)>, pos: int) -> Option<
    (Spanned<StatementV>, int),
>
    decreases toks.len() - pos, 80int,
{
    if pos < 0 || pos >= toks.len() || !(toks[pos].0 is Test) {
        None
    } else {
        match sp_expr(toks, pos + 1) {
            Some((e, q)) => if pos < q < toks.len() && toks[q].0 is SemiColon {
                Some(
                    (
                        Spanned(StatementV::Test(e.0), span_range(toks[pos].1, toks[q].1)),
                        q + 1,
                    ),
                )
            } else {
                None
            },
            None => None,
        }
    }
}

/// An assignment statement: `name (=|+=|-=|*=|/=) <expr>;`.
pub open spec fn sp_assign(toks: Seq<(TokenType, Span)>, pos: int) -> Option<
    (Spanned<StatementV>, int),
>
    decreases toks.len() - pos, 80int,
{
    if pos < 0 || pos + 1 >= toks.len() {
        None
    } else {
        match toks[pos].0 {
            TokenType::Identifier(i) => match assign_op(toks[pos + 1].0) {
                Some(op) => match sp_expr(toks, pos + 2) {
                    Some((e, q)) => if pos < q < toks.len() && toks[q].0 is SemiColon {
                        Some(
                            (
                                Spanned(
                                    StatementV::Assign {
                                        name: Spanned(i, toks[pos].1),
                                        op: Spanned(op, toks[pos + 1].1),
                                        value: Box::new(e),
                                    },
                                    span_range(toks[pos].1, toks[q].1),
                                ),
                                q + 1,
                            ),
                        )
                    } else {
                        None
                    },
                    None => None,
                },
                None => None,
            },
            _ => None,
        }
    }
}

/// A defer statement: `defer <statement>`.
pub open spec fn sp_defer(toks: Seq<(TokenType, Span)>, pos: int) -> Option<
    (Spanned<StatementV>, int),
>
    decreases toks.len() - pos, 80int,
{
    if pos < 0 || pos >= toks.len() || !(toks[pos].0 is Defer) {
        None
    } else {
        match sp_stmt(toks, pos + 1) {
            Some((s, q)) => Some(
                (
                    Spanned(
                        StatementV::Defer { stmt: Box::new(s) },
                        span_range(toks[pos].1, s.1),
                    ),
                    q,
                ),
            ),
            None => None,
        }
    }
}

/// A bare expression statement.
pub open spec fn sp_expr_stmt(toks: Seq<(TokenType, Span)>, pos: int) -> Option<
    (Spanned<StatementV>, int),
>
    decreases toks.len() - pos, 80int,
{
    match sp_expr(toks, pos) {
        Some((e, q)) => Some((Spanned(StatementV::Expression { expr: Box::new(e) }, e.1), q)),
        None => None,
    }
}

/// The trailing comma-separated arms of a match statement; a trailing
/// comma before the closing bracket is allowed.
pub open spec fn sp_arms_tail(
    toks: Seq<(TokenType, Span)>,
    acc: Seq<(PatternV, StatementV)>,
    pos: int,
) -> Option<(Seq<(PatternV, StatementV)>, int)>
    decreases toks.len() - pos, 100int,
{
    if pos < 0 || pos >= toks.len() {
        Some((acc, pos))
    } else if toks[pos].0 is Comma {
        if pos + 1 < toks.len() && toks[pos + 1].0 is RightBracket {
            Some((acc, pos + 1))
        } else {
            match sp_arm(toks, pos + 1) {
                Some((a, q)) => if pos < q <= toks.len() {
                    sp_arms_tail(toks, acc.push(a), q)
                } else {
                    Some((acc.push(a), q))
                },
                None => None,
            }
        }
    } else {
        Some((acc, pos))
    }
}

/// One match arm: `pattern => statement`.
pub open spec fn sp_arm(toks: Seq<(TokenType, Span)>, pos: int) -> Option<
    ((PatternV, StatementV), int),
>
    decreases toks.len() - pos, 95int,
{
    match sp_pattern(toks, pos) {
        Some((p, q)) => if pos < q < toks.len() && toks[q].0 is FatArrow {
            match sp_stmt(toks, q + 1) {
                Some((s, q2)) => Some(((p, s.0), q2)),
                None => None,
            }
        } else {
            None
        },
        None => None,
    }
}

/// The possibly empty arm list of a match statement.
pub open spec fn sp_arms(toks: Seq<(TokenType, Span)>, pos: int) -> Option<
    (Seq<(PatternV, StatementV)>, int),
>
    decreases toks.len() - pos, 101int,
{
    if pos < 0 || pos >= toks.len() {
        None
    } else if toks[pos].0 is RightBracket {
        Some((Seq::empty(), pos))
    } else {
        match sp_arm(toks, pos) {
            Some((a, q)) => if pos < q <= toks.len() {
                sp_arms_tail(toks, seq![a], q)
            } else {
                Some((seq![a], q))
            },
            None => None,
        }
    }
}

/// A match statement: `match <expr> { pattern => statement, ... }`.
pub open spec fn sp_match(toks: Seq<(TokenType, Span)>, pos: int) -> Option<
    (Spanned<StatementV>, int),
>
    decreases toks.len() - pos, 80int,
{
    if pos < 0 || pos >= toks.len() || !(toks[pos].0 is Match) {
        None
    } else {
        match sp_expr(toks, pos + 1) {
            Some((e, q)) => if pos < q < toks.len() && toks[q].0 is LeftBracket {
                match sp_arms(toks, q + 1) {
                    Some((arms, q2)) => if q < q2 < toks.len() && toks[q2].0 is RightBracket {
                        Some(
                            (
                                Spanned(
                                    StatementV::MatchStmt {
                                        predicate: Box::new(e),
                                        arms: Spanned(arms, span_range(toks[q].1, toks[q2].1)),
                                    },
                                    span_range(toks[pos].1, toks[q2].1),
                                ),
                                q2 + 1,
                            ),
                        )
                    } else {
                        None
                    },
                    None => None,
                }
            } else {
                None
            },
            None => None,
        }
    }
}

/// The position after skipping to a recovery point: just past the next
/// semicolon, or at the next closing bracket or the end of input.
pub open spec fn sp_sync(toks: Seq<(TokenType, Span)>, pos: int) -> int
    decreases toks.len() - pos,
{
    if pos < 0 || pos >= toks.len() {
        toks.len() as int
    } else if toks[pos].0 is RightBracket {
        pos
    } else if toks[pos].0 is SemiColon {
        pos + 1
    } else {
        sp_sync(toks, pos + 1)
    }
}

/// The statements of a brace-delimited list, up to the closing bracket.
/// A statement that fails to parse is replaced by an `Error` node and
/// parsing resumes at the next recovery point, so one malformed
/// statement does not take its well-formed siblings with it.
pub open spec fn sp_block_items(toks: Seq<(TokenType, Span)>, pos: int) -> (Seq<
    Spanned<StatementV>,
>, int)
    decreases toks.len() - pos, 110int,
{
    if pos < 0 || pos >= toks.len() || toks[pos].0 is RightBracket {
        (Seq::empty(), pos)
    } else {
        match sp_stmt(toks, pos) {
            Some((s, q)) => if pos < q <= toks.len() {
                let (rest, q2) = sp_block_items(toks, q);
                (seq![s] + rest, q2)
            } else {
                (seq![s], q)
            },
            None => {
                let q = sp_sync(toks, pos);
                let errnode = Spanned(StatementV::Error, toks[pos].1);
                if pos < q <= toks.len() {
                    let (rest, q2) = sp_block_items(toks, q);
                    (seq![errnode] + rest, q2)
                } else {
                    (seq![errnode], q)
                }
            },
        }
    }
}

/// A block statement: `{ statement+ }`.
pub open spec fn sp_block(toks: Seq<(TokenType, Span)>, pos: int) -> Option<
    (Spanned<StatementV>, int),
>
    decreases toks.len() - pos, 80int,
{
    if pos < 0 || pos >= toks.len() || !(toks[pos].0 is LeftBracket) {
        None
    } else {
        let (items, q) = sp_block_items(toks, pos + 1);
        if items.len() >= 1 && pos < q < toks.len() && toks[q].0 is RightBracket {
            Some(
                (
                    Spanned(
                        StatementV::Block { stmts: items },
                        span_range(toks[pos].1, toks[q].1),
                    ),
                    q + 1,
                ),
            )
        } else {
            None
        }
    }
}

/// A while statement: `while <expr> { statement* }`; the body is kept as
/// one block node.
pub open spec fn sp_while(toks: Seq<(TokenType, Span)>, pos: int) -> Option<
    (Spanned<StatementV>, int),
>
    decreases toks.len() - pos, 80int,
{
    if pos < 0 || pos >= toks.len() || !(toks[pos].0 is While) {
        None
    } else {
        match sp_expr(toks, pos + 1) {
            Some((e, q)) => if pos < q < toks.len() && toks[q].0 is LeftBracket {
                let (items, q2) = sp_block_items(toks, q + 1);
                if q < q2 < toks.len() && toks[q2].0 is RightBracket {
                    let body = Spanned(
                        StatementV::Block { stmts: items },
                        span_range(toks[q].1, toks[q2].1),
                    );
                    Some(
                        (
                            Spanned(
                                StatementV::WhileStmt {
                                    condition: Box::new(e),
                                    body: Box::new(body),
                                },
                                span_range(toks[pos].1, toks[q2].1),
                            ),
                            q2 + 1,
                        ),
                    )
                } else {
                    None
                }
            } else {
                None
            },
            None => None,
        }
    }
}

/// A function declaration:
/// `fn name(params) [, returnType] { statement+ }`.
pub open spec fn sp_func(toks: Seq<(TokenType, Span)>, pos: int) -> Option<
    (Spanned<StatementV>, int),
>
    decreases toks.len() - pos, 80int,
{
    if pos < 0 || pos + 2 >= toks.len() || !(toks[pos].0 is Function) {
        None
    } else {
        match toks[pos + 1].0 {
            TokenType::Identifier(name) => if toks[pos + 2].0 is LeftParenthesis {
                match sp_params(toks, pos + 3) {
                    Some((ps, q)) => if pos < q < toks.len() && toks[q].0 is RightParenthesis {
                        let (rt, k) = if q + 2 < toks.len() && toks[q + 1].0 is Comma {
                            match sp_type_ident(toks, q + 2) {
                                Some((ty, k2)) => (Some(ty), k2),
                                None => (None, q + 1),
                            }
                        } else {
                            (None, q + 1)
                        };
                        if q < k < toks.len() && toks[k].0 is LeftBracket {
                            let (items, q2) = sp_block_items(toks, k + 1);
                            if items.len() >= 1 && k < q2 < toks.len() && toks[q2].0
                                is RightBracket {
                                Some(
                                    (
                                        Spanned(
                                            StatementV::FuncDeclaration {
                                                name: Spanned(name, toks[pos + 1].1),
                                                parameters: Some(ps),
                                                return_type: rt,
                                                stmts: items,
                                            },
                                            span_range(toks[pos].1, toks[q2].1),
                                        ),
                                        q2 + 1,
                                    ),
                                )
                            } else {
                                None
                            }
                        } else {
                            None
                        }
                    } else {
                        None
                    },
                    None => None,
                }
            } else {
                None
            },
            _ => None,
        }
    }
}

/// A variable declaration: `(let|var) name [: type] = <expr>;`.
pub open spec fn sp_var_decl(toks: Seq<(TokenType, Span)>, pos: int) -> Option<
    (Spanned<StatementV>, int),
>
    decreases toks.len() - pos, 80int,
{
    if pos < 0 || pos + 1 >= toks.len() {
        None
    } else {
        let decl = match toks[pos].0 {
            TokenType::Let => Some(DeclarationType::Immutable),
            TokenType::Var => Some(DeclarationType::Mutable),
            _ => None,
        };
        match decl {
            Some(d) => match toks[pos + 1].0 {
                TokenType::Identifier(name) => {
                    let (mt, k) = if pos + 2 < toks.len() && toks[pos + 2].0 is Colon {
                        match sp_type_ident(toks, pos + 3) {
                            Some((ty, k2)) => (Some(ty), k2),
                            None => (None, pos + 2),
                        }
                    } else {
                        (None, pos + 2)
                    };
                    if pos < k < toks.len() && toks[k].0 is Assign {
                        match sp_expr(toks, k + 1) {
                            Some((e, q)) => if k < q < toks.len() && toks[q].0 is SemiColon {
                                Some(
                                    (
                                        Spanned(
                                            StatementV::Declaration {
                                                declaration_type: d,
                                                name: Spanned(name, toks[pos + 1].1),
                                                manual_type: mt,
                                                value: Box::new(e),
                                            },
                                            span_range(toks[pos].1, toks[q].1),
                                        ),
                                        q + 1,
                                    ),
                                )
                            } else {
                                None
                            },
                            None => None,
                        }
                    } else {
                        None
                    }
                },
                _ => None,
            },
            None => None,
        }
    }
}

/// An if statement: `if <expr> { statement } [else statement]`.
pub open spec fn sp_if(toks: Seq<(TokenType, Span)>, pos: int) -> Option<
    (Spanned<StatementV>, int),
>
    decreases toks.len() - pos, 80int,
{
    if pos < 0 || pos >= toks.len() || !(toks[pos].0 is If) {
        None
    } else {
        match sp_expr(toks, pos + 1) {
            Some((c, q)) => if pos < q < toks.len() && toks[q].0 is LeftBracket {
                match sp_stmt(toks, q + 1) {
                    Some((s, q2)) => if q < q2 < toks.len() && toks[q2].0 is RightBracket {
                        if q2 + 1 < toks.len() && toks[q2 + 1].0 is Else {
                            match sp_stmt(toks, q2 + 2) {
                                Some((es, q3)) => Some(
                                    (
                                        Spanned(
                                            StatementV::IfStmt {
                                                condition: Box::new(c),
                                                then_branch: Box::new(s),
                                                else_branch: Some(Box::new(es)),
                                            },
                                            span_range(toks[pos].1, es.1),
                                        ),
                                        q3,
                                    ),
                                ),
                                None => None,
                            }
                        } else {
                            Some(
                                (
                                    Spanned(
                                        StatementV::IfStmt {
                                            condition: Box::new(c),
                                            then_branch: Box::new(s),
                                            else_branch: None,
                                        },
                                        span_range(toks[pos].1, toks[q2].1),
                                    ),
                                    q2 + 1,
                                ),
                            )
                        }
                    } else {
                        None
                    },
                    None => None,
                }
            } else {
                None
            },
            None => None,
        }
    }
}

/// An empty statement: a bare semicolon.
pub open spec fn sp_empty(toks: Seq<(TokenType, Span)>, pos: int) -> Option<
    (Spanned<StatementV>, int),
> {
    if 0 <= pos < toks.len() && toks[pos].0 is SemiColon {
        Some((Spanned(StatementV::Empty, toks[pos].1), pos + 1))
    } else {
        None
    }
}

/// A statement: the alternatives are tried in order and the first that
/// parses wins, which settles every look-alike prefix.
pub open spec fn sp_stmt(toks: Seq<(TokenType, Span)>, pos: int) -> Option<
    (Spanned<StatementV>, int),
>
    decreases toks.len() - pos, 90int,
{
    match sp_test(toks, pos) {
        Some(r) => Some(r),
        None => match sp_assign(toks, pos) {
            Some(r) => Some(r),
            None => match sp_defer(toks, pos) {
                Some(r) => Some(r),
                None => match sp_expr_stmt(toks, pos) {
                    Some(r) => Some(r),
                    None => match sp_match(toks, pos) {
                        Some(r) => Some(r),
                        None => match sp_while(toks, pos) {
                            Some(r) => Some(r),
                            None => match sp_func(toks, pos) {
                                Some(r) => Some(r),
                                None => match sp_block(toks, pos) {
                                    Some(r) => Some(r),
                                    None => match sp_var_decl(toks, pos) {
                                        Some(r) => Some(r),
                                        None => match sp_if(toks, pos) {
                                            Some(r) => Some(r),
                                            None => sp_empty(toks, pos),
                                        },
                                    },
                                },
                            },
                        },
                    },
                },
            },
        },
    }
}

/// The whole program: one statement covering every token; anything else
/// is the `Error` placeholder.
pub open spec fn sp_parse(toks: Seq<(TokenType, Span)>) -> StatementV {
    match sp_stmt(toks, 0) {
        Some((s, q)) => if q == toks.len() {
            s.0
        } else {
            StatementV::Error
        },
        None => StatementV::Error,
    }
}

// ------------------------------------------------------------------
// Executable statement parser
// ------------------------------------------------------------------

/// Prepending an element commutes with mirroring a statement list.
proof fn lemma_stmts_v_cons(x: Spanned<Statement>, ss: Seq<Spanned<Statement>>)
    ensures
        stmts_v(seq![x] + ss) == seq![Spanned(stmt_v(x.0), x.1)] + stmts_v(ss),
{
    let p = seq![x] + ss;
    assert(p[0] == x);
    assert(p.subrange(1, p.len() as int) =~= ss);
    assert(stmts_v(seq![x] + ss) =~= seq![Spanned(stmt_v(x.0), x.1)] + stmts_v(ss));
}

/// Mirroring a parameter list distributes over `push`.
proof fn lemma_params_v_push(ps: Seq<FuncParameter>, x: FuncParameter)
    ensures
        params_v(ps.push(x)) == params_v(ps).push(param_v(x)),
    decreases ps.len(),
{
    let p = ps.push(x);
    assert(p.len() == ps.len() + 1);
    if ps.len() == 0 {
        assert(p.subrange(1, 1) =~= Seq::<FuncParameter>::empty());
        assert(p[0] == x);
        assert(params_v(p.subrange(1, 1)) =~= Seq::<FuncParameterV>::empty());
        assert(params_v(ps) =~= Seq::<FuncParameterV>::empty());
        assert(params_v(ps.push(x)) =~= params_v(ps).push(param_v(x)));
    } else {
        let tail = ps.subrange(1, ps.len() as int);
        assert(p.subrange(1, p.len() as int) =~= tail.push(x));
        lemma_params_v_push(tail, x);
        assert(p[0] == ps[0]);
        assert(params_v(p) == seq![param_v(p[0])] + params_v(p.subrange(1, p.len() as int)));
        assert(params_v(ps) == seq![param_v(ps[0])] + params_v(tail));
        assert(params_v(ps.push(x)) =~= params_v(ps).push(param_v(x)));
    }
}

/// Mirroring an arm list distributes over `push`.
proof fn lemma_arms_v_push(aa: Seq<(Pattern, Statement)>, x: (Pattern, Statement))
    ensures
        arms_v(aa.push(x)) == arms_v(aa).push((pattern_v(x.0), stmt_v(x.1))),
    decreases aa.len(),
{
    let p = aa.push(x);
    assert(p.len() == aa.len() + 1);
    if aa.len() == 0 {
        assert(p.subrange(1, 1) =~= Seq::<(Pattern, Statement)>::empty());
        assert(p[0] == x);
        assert(arms_v(p.subrange(1, 1)) =~= Seq::<(PatternV, StatementV)>::empty());
        assert(arms_v(aa) =~= Seq::<(PatternV, StatementV)>::empty());
        assert(arms_v(aa.push(x)) =~= arms_v(aa).push((pattern_v(x.0), stmt_v(x.1))));
    } else {
        let tail = aa.subrange(1, aa.len() as int);
        assert(p.subrange(1, p.len() as int) =~= tail.push(x));
        lemma_arms_v_push(tail, x);
        assert(p[0] == aa[0]);
        assert(arms_v(p) == seq![(pattern_v(p[0].0), stmt_v(p[0].1))] + arms_v(
            p.subrange(1, p.len() as int),
        ));
        assert(arms_v(aa) == seq![(pattern_v(aa[0].0), stmt_v(aa[0].1))] + arms_v(tail));
        assert(arms_v(aa.push(x)) =~= arms_v(aa).push((pattern_v(x.0), stmt_v(x.1))));
    }
}

/// A declared type, as `sp_type_ident` states.
fn type_ident(toks: &Vec<(TokenType, Span)>, pos: usize) -> (r: Option<(Spanned<Type>, usize)>)
    ensures
        (match r {
            Some((ty, q)) => Some((Spanned(type_v(ty.0), ty.1), q as int)),
            None => None,
        }) == sp_type_ident(toks@, pos as int),
        r matches Some((_, q)) ==> pos < q <= toks.len(),
{
    if pos >= toks.len() {
        return None;
    }
    match toks[pos].0 {
        TokenType::Identifier(i) => Some((Spanned(Type::Ident(i), toks[pos].1), pos + 1)),
        _ => None,
    }
}

/// A match-arm pattern, as `sp_pattern` states.
fn pattern(toks: &Vec<(TokenType, Span)>, pos: usize) -> (r: Option<(Pattern, usize)>)
    ensures
        (match r {
            Some((p, q)) => Some((pattern_v(p), q as int)),
            None => None,
        }) == sp_pattern(toks@, pos as int),
        r matches Some((_, q)) ==> pos < q <= toks.len(),
{
    if pos >= toks.len() {
        return None;
    }
    let (t, sp) = toks[pos];
    match t {
        TokenType::WildCard => Some((Pattern::WildCard, pos + 1)),
        TokenType::Number(i) => Some(
            (Pattern::Literal(Literal { value: Spanned(Object::Integer(i), sp) }), pos + 1),
        ),
        TokenType::Identifier(i) => Some((Pattern::TypeName(Type::Ident(i)), pos + 1)),
        _ => None,
    }
}

/// One function parameter, as `sp_param` states.
fn param(toks: &Vec<(TokenType, Span)>, pos: usize) -> (r: Option<(FuncParameter, usize)>)
    ensures
        (match r {
            Some((p, q)) => Some((param_v(p), q as int)),
            None => None,
        }) == sp_param(toks@, pos as int),
        r matches Some((_, q)) ==> pos < q <= toks.len(),
{
    if pos >= toks.len() || toks.len() - pos <= 2 {
        return None;
    }
    let mode: Option<ParamType> = match toks[pos].0 {
        TokenType::Ref => Some(ParamType::Reference),
        TokenType::Val => Some(ParamType::Value),
        TokenType::In => Some(ParamType::Input),
        TokenType::Out => Some(ParamType::Output),
        _ => None,
    };
    let mode = match mode {
        Some(m) => m,
        None => {
            return None;
        },
    };
    let name = match toks[pos + 1].0 {
        TokenType::Identifier(n) => n,
        _ => {
            return None;
        },
    };
    if toks[pos + 2].0 != TokenType::Colon {
        return None;
    }
    let rest: Option<Spanned<ParamRestrictor>> = if pos + 3 < toks.len() {
        match toks[pos + 3].0 {
            TokenType::Mutable => Some(Spanned(ParamRestrictor::Mutable, toks[pos + 3].1)),
            TokenType::Const => Some(Spanned(ParamRestrictor::Constant, toks[pos + 3].1)),
            _ => None,
        }
    } else {
        None
    };
    let tpos = if rest.is_some() {
        pos + 4
    } else {
        pos + 3
    };
    match type_ident(toks, tpos) {
        Some((ty, q)) => Some(
            (
                FuncParameter {
                    param_type: Box::new(Spanned(mode, toks[pos].1)),
                    param_value_name: Box::new(Spanned(name, toks[pos + 1].1)),
                    param_restrictor: rest,
                    param_value_type: Box::new(ty),
                },
                q,
            ),
        ),
        None => None,
    }
}

/// The parameter tail, as `sp_params_tail` states.
fn params_tail(toks: &Vec<(TokenType, Span)>, acc: Vec<FuncParameter>, pos: usize) -> (r: Option<
    (Vec<FuncParameter>, usize),
>)
    requires
        pos <= toks.len(),
    ensures
        (match r {
            Some((ps, q)) => Some((params_v(ps@), q as int)),
            None => None,
        }) == sp_params_tail(toks@, params_v(acc@), pos as int),
        r matches Some((_, q)) ==> pos <= q <= toks.len(),
    decreases toks@.len() - pos as int, 75int,
{
    if pos >= toks.len() {
        return Some((acc, pos));
    }
    if toks[pos].0 == TokenType::Comma {
        match param(toks, pos + 1) {
            Some((p, q)) => {
                let mut acc2 = acc;
                let ghost old_acc = acc2@;
                acc2.push(p);
                proof {
                    lemma_params_v_push(old_acc, p);
                }
                params_tail(toks, acc2, q)
            },
            None => None,
        }
    } else {
        Some((acc, pos))
    }
}

/// A possibly empty parameter list, as `sp_params` states.
fn params(toks: &Vec<(TokenType, Span)>, pos: usize) -> (r: Option<(Vec<FuncParameter>, usize)>)
    ensures
        (match r {
            Some((ps, q)) => Some((params_v(ps@), q as int)),
            None => None,
        }) == sp_params(toks@, pos as int),
        r matches Some((_, q)) ==> pos <= q <= toks.len(),
    decreases toks@.len() - pos as int, 76int,
{
    if pos >= toks.len() {
        return None;
    }
    if toks[pos].0 == TokenType::RightParenthesis {
        let none_yet: Vec<FuncParameter> = Vec::new();
        proof {
            assert(params_v(none_yet@) =~= Seq::<FuncParameterV>::empty());
        }
        return Some((none_yet, pos));
    }
    match param(toks, pos) {
        Some((p, q)) => {
            let mut first: Vec<FuncParameter> = Vec::new();
            let ghost empty_ps = first@;
            first.push(p);
            proof {
                lemma_params_v_push(empty_ps, p);
                assert(params_v(empty_ps) =~= Seq::<FuncParameterV>::empty());
                assert(params_v(first@) =~= seq![param_v(p)]);
            }
            params_tail(toks, first, q)
        },
        None => None,
    }
}

/// A test statement, as `sp_test` states.
fn test_stmt(toks: &Vec<(TokenType, Span)>, pos: usize) -> (r: Option<(Spanned<Statement>, usize)>)
    ensures
        opt_stmt_v(r) == sp_test(toks@, pos as int),
        r matches Some((_, q)) ==> pos < q <= toks.len(),
    decreases toks@.len() - pos as int, 80int,
{
    if pos >= toks.len() || toks[pos].0 != TokenType::Test {
        return None;
    }
    match expr(toks, pos + 1) {
        Some((e, q)) => {
            if q < toks.len() && toks[q].0 == TokenType::SemiColon {
                let nsp = Span { start: toks[pos].1.start, end: toks[q].1.end };
                Some((Spanned(Statement::Test(e.0), nsp), q + 1))
            } else {
                None
            }
        },
        None => None,
    }
}

/// An assignment statement, as `sp_assign` states.
fn assign_stmt(toks: &Vec<(TokenType, Span)>, pos: usize) -> (r: Option<
    (Spanned<Statement>, usize),
>)
    ensures
        opt_stmt_v(r) == sp_assign(toks@, pos as int),
        r matches Some((_, q)) ==> pos < q <= toks.len(),
    decreases toks@.len() - pos as int, 80int,
{
    if pos >= toks.len() || pos + 1 >= toks.len() {
        return None;
    }
    let name = match toks[pos].0 {
        TokenType::Identifier(i) => i,
        _ => {
            return None;
        },
    };
    let op: Option<AssignOp> = match toks[pos + 1].0 {
        TokenType::Assign => Some(AssignOp::Assign),
        TokenType::PlusAssign => Some(AssignOp::Add),
        TokenType::MinusAssign => Some(AssignOp::Sub),
        TokenType::TimesAssign => Some(AssignOp::Mul),
        TokenType::DivAssign => Some(AssignOp::Div),
        _ => None,
    };
    let op = match op {
        Some(o) => o,
        None => {
            return None;
        },
    };
    match expr(toks, pos + 2) {
        Some((e, q)) => {
            if q < toks.len() && toks[q].0 == TokenType::SemiColon {
                let nsp = Span { start: toks[pos].1.start, end: toks[q].1.end };
                Some(
                    (
                        Spanned(
                            Statement::Assign(
                                Assign {
                                    name: Spanned(name, toks[pos].1),
                                    operator: Spanned(op, toks[pos + 1].1),
                                    value: Box::new(e),
                                },
                            ),
                            nsp,
                        ),
                        q + 1,
                    ),
                )
            } else {
                None
            }
        },
        None => None,
    }
}

/// A defer statement, as `sp_defer` states.
fn defer_stmt(toks: &Vec<(TokenType, Span)>, pos: usize) -> (r: Option<
    (Spanned<Statement>, usize),
>)
    ensures
        opt_stmt_v(r) == sp_defer(toks@, pos as int),
        r matches Some((_, q)) ==> pos < q <= toks.len(),
    decreases toks@.len() - pos as int, 80int,
{
    if pos >= toks.len() || toks[pos].0 != TokenType::Defer {
        return None;
    }
    match stmt(toks, pos + 1) {
        Some((s, q)) => {
            let nsp = Span { start: toks[pos].1.start, end: s.1.end };
            Some((Spanned(Statement::Defer { defered_statment: Box::new(s) }, nsp), q))
        },
        None => None,
    }
}

/// A bare expression statement, as `sp_expr_stmt` states.
fn expr_stmt(toks: &Vec<(TokenType, Span)>, pos: usize) -> (r: Option<(Spanned<Statement>, usize)>)
    ensures
        opt_stmt_v(r) == sp_expr_stmt(toks@, pos as int),
        r matches Some((_, q)) ==> pos < q <= toks.len(),
    decreases toks@.len() - pos as int, 80int,
{
    match expr(toks, pos) {
        Some((e, q)) => {
            let nsp = e.1;
            Some((Spanned(Statement::Expression { expr: Box::new(e) }, nsp), q))
        },
        None => None,
    }
}

/// One match arm, as `sp_arm` states.
fn arm(toks: &Vec<(TokenType, Span)>, pos: usize) -> (r: Option<((Pattern, Statement), usize)>)
    ensures
        (match r {
            Some((a, q)) => Some(((pattern_v(a.0), stmt_v(a.1)), q as int)),
            None => None,
        }) == sp_arm(toks@, pos as int),
        r matches Some((_, q)) ==> pos < q <= toks.len(),
    decreases toks@.len() - pos as int, 95int,
{
    match pattern(toks, pos) {
        Some((p, q)) => {
            if q < toks.len() && toks[q].0 == TokenType::FatArrow {
                match stmt(toks, q + 1) {
                    Some((s, q2)) => Some(((p, s.0), q2)),
                    None => None,
                }
            } else {
                None
            }
        },
        None => None,
    }
}

/// The arm tail, as `sp_arms_tail` states.
fn arms_tail(toks: &Vec<(TokenType, Span)>, acc: Vec<(Pattern, Statement)>, pos: usize) -> (r:
    Option<(Vec<(Pattern, Statement)>, usize)>)
    requires
        pos <= toks.len(),
    ensures
        (match r {
            Some((aa, q)) => Some((arms_v(aa@), q as int)),
            None => None,
        }) == sp_arms_tail(toks@, arms_v(acc@), pos as int),
        r matches Some((_, q)) ==> pos <= q <= toks.len(),
    decreases toks@.len() - pos as int, 100int,
{
    if pos >= toks.len() {
        return Some((acc, pos));
    }
    if toks[pos].0 == TokenType::Comma {
        if pos + 1 < toks.len() && toks[pos + 1].0 == TokenType::RightBracket {
            return Some((acc, pos + 1));
        }
        match arm(toks, pos + 1) {
            Some((a, q)) => {
                let mut acc2 = acc;
                let ghost old_acc = acc2@;
                acc2.push(a);
                proof {
                    lemma_arms_v_push(old_acc, a);
                }
                arms_tail(toks, acc2, q)
            },
            None => None,
        }
    } else {
        Some((acc, pos))
    }
}

/// The possibly empty arm list, as `sp_arms` states.
fn arms(toks: &Vec<(TokenType, Span)>, pos: usize) -> (r: Option<
    (Vec<(Pattern, Statement)>, usize),
>)
    ensures
        (match r {
            Some((aa, q)) => Some((arms_v(aa@), q as int)),
            None => None,
        }) == sp_arms(toks@, pos as int),
        r matches Some((_, q)) ==> pos <= q <= toks.len(),
    decreases toks@.len() - pos as int, 101int,
{
    if pos >= toks.len() {
        return None;
    }
    if toks[pos].0 == TokenType::RightBracket {
        let no_arms: Vec<(Pattern, Statement)> = Vec::new();
        proof {
            assert(arms_v(no_arms@) =~= Seq::<(PatternV, StatementV)>::empty());
        }
        return Some((no_arms, pos));
    }
    match arm(toks, pos) {
        Some((a, q)) => {
            let mut first: Vec<(Pattern, Statement)> = Vec::new();
            let ghost empty_arms = first@;
            first.push(a);
            proof {
                lemma_arms_v_push(empty_arms, a);
                assert(arms_v(empty_arms) =~= Seq::<(PatternV, StatementV)>::empty());
                assert(arms_v(first@) =~= seq![(pattern_v(a.0), stmt_v(a.1))]);
            }
            arms_tail(toks, first, q)
        },
        None => None,
    }
}

/// A match statement, as `sp_match` states.
fn match_stmt(toks: &Vec<(TokenType, Span)>, pos: usize) -> (r: Option<
    (Spanned<Statement>, usize),
>)
    ensures
        opt_stmt_v(r) == sp_match(toks@, pos as int),
        r matches Some((_, q)) ==> pos < q <= toks.len(),
    decreases toks@.len() - pos as int, 80int,
{
    if pos >= toks.len() || toks[pos].0 != TokenType::Match {
        return None;
    }
    match expr(toks, pos + 1) {
        Some((e, q)) => {
            if q < toks.len() && toks[q].0 == TokenType::LeftBracket {
                match arms(toks, q + 1) {
                    Some((aa, q2)) => {
                        if q2 < toks.len() && toks[q2].0 == TokenType::RightBracket {
                            let asp = Span { start: toks[q].1.start, end: toks[q2].1.end };
                            let nsp = Span { start: toks[pos].1.start, end: toks[q2].1.end };
                            Some(
                                (
                                    Spanned(
                                        Statement::MatchStmt(
                                            MatchStmt {
                                                predicate: Box::new(e),
                                                then_branches: Spanned(aa, asp),
                                            },
                                        ),
                                        nsp,
                                    ),
                                    q2 + 1,
                                ),
                            )
                        } else {
                            None
                        }
                    },
                    None => None,
                }
            } else {
                None
            }
        },
        None => None,
    }
}

/// The recovery point after a malformed statement, as `sp_sync` states.
fn sync(toks: &Vec<(TokenType, Span)>, pos: usize) -> (q: usize)
    requires
        pos <= toks.len(),
    ensures
        q as int == sp_sync(toks@, pos as int),
        pos <= q <= toks.len(),
        pos < toks.len() && !(toks@[pos as int].0 is RightBracket) ==> q > pos,
    decreases toks@.len() - pos as int,
{
    if pos >= toks.len() {
        return toks.len();
    }
    if toks[pos].0 == TokenType::RightBracket {
        return pos;
    }
    if toks[pos].0 == TokenType::SemiColon {
        return pos + 1;
    }
    sync(toks, pos + 1)
}

/// A brace-delimited statement list with error recovery, as
/// `sp_block_items` states.
fn block_items(toks: &Vec<(TokenType, Span)>, pos: usize) -> (r: (Vec<Spanned<Statement>>, usize))
    requires
        pos <= toks.len(),
    ensures
        (stmts_v(r.0@), r.1 as int) == sp_block_items(toks@, pos as int),
        pos <= r.1 <= toks.len(),
    decreases toks@.len() - pos as int, 110int,
{
    if pos >= toks.len() || toks[pos].0 == TokenType::RightBracket {
        let no_items: Vec<Spanned<Statement>> = Vec::new();
        proof {
            assert(stmts_v(no_items@) =~= Seq::<Spanned<StatementV>>::empty());
        }
        return (no_items, pos);
    }
    match stmt(toks, pos) {
        Some((s, q)) => {
            let (rest, q2) = block_items(toks, q);
            let ghost rest_view = rest@;
            let mut items = rest;
            items.insert(0, s);
            proof {
                assert(items@ =~= seq![s] + rest_view);
                lemma_stmts_v_cons(s, rest_view);
            }
            (items, q2)
        },
        None => {
            let q = sync(toks, pos);
            let errnode = Spanned(Statement::Error, toks[pos].1);
            let (rest, q2) = block_items(toks, q);
            let ghost rest_view = rest@;
            let mut items = rest;
            items.insert(0, errnode);
            proof {
                assert(items@ =~= seq![errnode] + rest_view);
                lemma_stmts_v_cons(errnode, rest_view);
            }
            (items, q2)
        },
    }
}

/// A block statement, as `sp_block` states.
fn block_stmt(toks: &Vec<(TokenType, Span)>, pos: usize) -> (r: Option<
    (Spanned<Statement>, usize),
>)
    ensures
        opt_stmt_v(r) == sp_block(toks@, pos as int),
        r matches Some((_, q)) ==> pos < q <= toks.len(),
    decreases toks@.len() - pos as int, 80int,
{
    if pos >= toks.len() || toks[pos].0 != TokenType::LeftBracket {
        return None;
    }
    let (items, q) = block_items(toks, pos + 1);
    if items.len() >= 1 && q < toks.len() && toks[q].0 == TokenType::RightBracket {
        proof {
            assert(stmts_v(items@).len() == items@.len()) by {
                lemma_stmts_v_len(items@);
            }
        }
        let nsp = Span { start: toks[pos].1.start, end: toks[q].1.end };
        Some((Spanned(Statement::Block { statments: items }, nsp), q + 1))
    } else {
        proof {
            assert(stmts_v(items@).len() == items@.len()) by {
                lemma_stmts_v_len(items@);
            }
        }
        None
    }
}

/// A statement list and its mirror have the same length.
proof fn lemma_stmts_v_len(ss: Seq<Spanned<Statement>>)
    ensures
        stmts_v(ss).len() == ss.len(),
    decreases ss.len(),
{
    if ss.len() > 0 {
        lemma_stmts_v_len(ss.subrange(1, ss.len() as int));
    }
}

/// A while statement, as `sp_while` states.
fn while_stmt(toks: &Vec<(TokenType, Span)>, pos: usize) -> (r: Option<
    (Spanned<Statement>, usize),
>)
    ensures
        opt_stmt_v(r) == sp_while(toks@, pos as int),
        r matches Some((_, q)) ==> pos < q <= toks.len(),
    decreases toks@.len() - pos as int, 80int,
{
    if pos >= toks.len() || toks[pos].0 != TokenType::While {
        return None;
    }
    match expr(toks, pos + 1) {
        Some((e, q)) => {
            if q < toks.len() && toks[q].0 == TokenType::LeftBracket {
                let (items, q2) = block_items(toks, q + 1);
                if q2 < toks.len() && toks[q2].0 == TokenType::RightBracket {
                    let bsp = Span { start: toks[q].1.start, end: toks[q2].1.end };
                    proof {
                        assert(stmt_v(Statement::Block { statments: items }) == (StatementV::Block {
                            stmts: stmts_v(items@),
                        }));
                    }
                    let body = Spanned(Statement::Block { statments: items }, bsp);
                    let nsp = Span { start: toks[pos].1.start, end: toks[q2].1.end };
                    Some(
                        (
                            Spanned(
                                Statement::WhileStmt {
                                    condition: Box::new(e),
                                    then_branch: Box::new(body),
                                },
                                nsp,
                            ),
                            q2 + 1,
                        ),
                    )
                } else {
                    None
                }
            } else {
                None
            }
        },
        None => None,
    }
}

/// A function declaration, as `sp_func` states.
fn func_stmt(toks: &Vec<(TokenType, Span)>, pos: usize) -> (r: Option<
    (Spanned<Statement>, usize),
>)
    ensures
        opt_stmt_v(r) == sp_func(toks@, pos as int),
        r matches Some((_, q)) ==> pos < q <= toks.len(),
    decreases toks@.len() - pos as int, 80int,
{
    if pos >= toks.len() || toks.len() - pos <= 2 || toks[pos].0 != TokenType::Function {
        return None;
    }
    let name = match toks[pos + 1].0 {
        TokenType::Identifier(n) => n,
        _ => {
            return None;
        },
    };
    if toks[pos + 2].0 != TokenType::LeftParenthesis {
        return None;
    }
    match params(toks, pos + 3) {
        Some((ps, q)) => {
            if q < toks.len() && toks[q].0 == TokenType::RightParenthesis {
                let mut rt: Option<Spanned<Type>> = None;
                let mut k = q + 1;
                if toks.len() - q > 2 && toks[q + 1].0 == TokenType::Comma {
                    match type_ident(toks, q + 2) {
                        Some((ty, k2)) => {
                            rt = Some(ty);
                            k = k2;
                        },
                        None => {},
                    }
                }
                if k < toks.len() && toks[k].0 == TokenType::LeftBracket {
                    let (items, q2) = block_items(toks, k + 1);
                    proof {
                        lemma_stmts_v_len(items@);
                    }
                    if items.len() >= 1 && q2 < toks.len() && toks[q2].0
                        == TokenType::RightBracket {
                        let nsp = Span { start: toks[pos].1.start, end: toks[q2].1.end };
                        Some(
                            (
                                Spanned(
                                    Statement::FuncDeclaration {
                                        name: Spanned(name, toks[pos + 1].1),
                                        parameters: Some(ps),
                                        return_type: rt,
                                        statments: items,
                                    },
                                    nsp,
                                ),
                                q2 + 1,
                            ),
                        )
                    } else {
                        None
                    }
                } else {
                    None
                }
            } else {
                None
            }
        },
        None => None,
    }
}

/// A variable declaration, as `sp_var_decl` states.
fn var_decl_stmt(toks: &Vec<(TokenType, Span)>, pos: usize) -> (r: Option<
    (Spanned<Statement>, usize),
>)
    ensures
        opt_stmt_v(r) == sp_var_decl(toks@, pos as int),
        r matches Some((_, q)) ==> pos < q <= toks.len(),
    decreases toks@.len() - pos as int, 80int,
{
    if pos >= toks.len() || pos + 1 >= toks.len() {
        return None;
    }
    let decl: DeclarationType = match toks[pos].0 {
        TokenType::Let => DeclarationType::Immutable,
        TokenType::Var => DeclarationType::Mutable,
        _ => {
            return None;
        },
    };
    let name = match toks[pos + 1].0 {
        TokenType::Identifier(n) => n,
        _ => {
            return None;
        },
    };
    let mut mt: Option<Spanned<Type>> = None;
    let mut k = pos + 2;
    if pos + 2 < toks.len() && toks[pos + 2].0 == TokenType::Colon {
        match type_ident(toks, pos + 3) {
            Some((ty, k2)) => {
                mt = Some(ty);
                k = k2;
            },
            None => {},
        }
    }
    if k < toks.len() && toks[k].0 == TokenType::Assign {
        match expr(toks, k + 1) {
            Some((e, q)) => {
                if q < toks.len() && toks[q].0 == TokenType::SemiColon {
                    let nsp = Span { start: toks[pos].1.start, end: toks[q].1.end };
                    Some(
                        (
                            Spanned(
                                Statement::Declaration {
                                    declaration_type: decl,
                                    name: Spanned(name, toks[pos + 1].1),
                                    manual_type: mt,
                                    value: Box::new(e),
                                },
                                nsp,
                            ),
                            q + 1,
                        ),
                    )
                } else {
                    None
                }
            },
            None => None,
        }
    } else {
        None
    }
}

/// An if statement, as `sp_if` states.
fn if_stmt(toks: &Vec<(TokenType, Span)>, pos: usize) -> (r: Option<(Spanned<Statement>, usize)>)
    ensures
        opt_stmt_v(r) == sp_if(toks@, pos as int),
        r matches Some((_, q)) ==> pos < q <= toks.len(),
    decreases toks@.len() - pos as int, 80int,
{
    if pos >= toks.len() || toks[pos].0 != TokenType::If {
        return None;
    }
    match expr(toks, pos + 1) {
        Some((c, q)) => {
            if q < toks.len() && toks[q].0 == TokenType::LeftBracket {
                match stmt(toks, q + 1) {
                    Some((s, q2)) => {
                        if q2 < toks.len() && toks[q2].0 == TokenType::RightBracket {
                            if q2 + 1 < toks.len() && toks[q2 + 1].0 == TokenType::Else {
                                match stmt(toks, q2 + 2) {
                                    Some((es, q3)) => {
                                        let nsp = Span {
                                            start: toks[pos].1.start,
                                            end: es.1.end,
                                        };
                                        Some(
                                            (
                                                Spanned(
                                                    Statement::IfStmt {
                                                        condition: Box::new(c),
                                                        then_branch: Box::new(s),
                                                        else_branch: Some(Box::new(es)),
                                                    },
                                                    nsp,
                                                ),
                                                q3,
                                            ),
                                        )
                                    },
                                    None => None,
                                }
                            } else {
                                let nsp = Span {
                                    start: toks[pos].1.start,
                                    end: toks[q2].1.end,
                                };
                                Some(
                                    (
                                        Spanned(
                                            Statement::IfStmt {
                                                condition: Box::new(c),
                                                then_branch: Box::new(s),
                                                else_branch: None,
                                            },
                                            nsp,
                                        ),
                                        q2 + 1,
                                    ),
                                )
                            }
                        } else {
                            None
                        }
                    },
                    None => None,
                }
            } else {
                None
            }
        },
        None => None,
    }
}

/// An empty statement, as `sp_empty` states.
fn empty_stmt(toks: &Vec<(TokenType, Span)>, pos: usize) -> (r: Option<
    (Spanned<Statement>, usize),
>)
    ensures
        opt_stmt_v(r) == sp_empty(toks@, pos as int),
        r matches Some((_, q)) ==> pos < q <= toks.len(),
{
    if pos < toks.len() && toks[pos].0 == TokenType::SemiColon {
        Some((Spanned(Statement::Empty, toks[pos].1), pos + 1))
    } else {
        None
    }
}

/// A statement, as `sp_stmt` states: the first alternative that parses
/// wins.
fn stmt(toks: &Vec<(TokenType, Span)>, pos: usize) -> (r: Option<(Spanned<Statement>, usize)>)
    ensures
        opt_stmt_v(r) == sp_stmt(toks@, pos as int),
        r matches Some((_, q)) ==> pos < q <= toks.len(),
    decreases toks@.len() - pos as int, 90int,
{
    match test_stmt(toks, pos) {
        Some(r) => Some(r),
        None => match assign_stmt(toks, pos) {
            Some(r) => Some(r),
            None => match defer_stmt(toks, pos) {
                Some(r) => Some(r),
                None => match expr_stmt(toks, pos) {
                    Some(r) => Some(r),
                    None => match match_stmt(toks, pos) {
                        Some(r) => Some(r),
                        None => match while_stmt(toks, pos) {
                            Some(r) => Some(r),
                            None => match func_stmt(toks, pos) {
                                Some(r) => Some(r),
                                None => match block_stmt(toks, pos) {
                                    Some(r) => Some(r),
                                    None => match var_decl_stmt(toks, pos) {
                                        Some(r) => Some(r),
                                        None => match if_stmt(toks, pos) {
                                            Some(r) => Some(r),
                                            None => empty_stmt(toks, pos),
                                        },
                                    },
                                },
                            },
                        },
                    },
                },
            },
        },
    }
}

/// Parse a whole program: one statement that must cover every token.
/// The parser never fails: any irrecoverable mismatch yields the
/// `Error` placeholder statement.
pub fn parse(tokens: &Vec<(TokenType, Span)>) -> (r: Statement)
    ensures
        stmt_v(r) == sp_parse(tokens@),
{
    match stmt(tokens, 0) {
        Some((s, q)) => {
            if q == tokens.len() {
                s.0
            } else {
                Statement::Error
            }
        },
        None => Statement::Error,
    }
}

} // verus!
