//! The abstract syntax tree the parser builds and the evaluator walks.
//!
//! Every node carries the source span it was read from. Each executable
//! node type has a mathematical mirror (`...V`) in which sequences replace
//! vectors; contracts speak about the mirror through the view functions
//! at the bottom of this module.

use vstd::prelude::*;

use crate::object::Object;
use crate::object::ObjectV;
use crate::object::obj_v;
use crate::span::Spanned;

verus! {

/// Whether a declaration introduces a mutable or an immutable binding.
#[derive(Debug, Clone, Copy, PartialEq, Eq, Structural)]
pub enum DeclarationType {
    Mutable,
    Immutable,
}

/// How a function parameter is passed.
#[derive(Debug, Clone, Copy, PartialEq, Eq, Structural)]
pub enum ParamType {
    Reference,
    Value,
    Input,
    Output,
}

/// An extra restriction on a function parameter.
#[derive(Debug, Clone, Copy, PartialEq, Eq, Structural)]
pub enum ParamRestrictor {
    Mutable,
    Constant,
}

/// The binary operators. Comparison and logical operators share one
/// precedence tier; additive and multiplicative operators have their own.
#[derive(Debug, Clone, Copy, PartialEq, Eq, Structural)]
pub enum BinaryOp {
    Add,
    Sub,
    Mul,
    Div,
    GreaterThan,
    GreaterThanEqual,
    LessThan,
    LessThanEqual,
    Equal,
    NotEqual,
    And,
    Or,
}

/// The assignment operators: plain assignment and the compound forms.
#[derive(Debug, Clone, Copy, PartialEq, Eq, Structural)]
pub enum AssignOp {
    Add,
    Sub,
    Mul,
    Div,
    Assign,
}

/// The prefix operators.
#[derive(Debug, Clone, Copy, PartialEq, Eq, Structural)]
pub enum UnaryOp {
    Neg,
    Not,
}

/// A declared type: a named type or a generic application.
#[derive(Debug)]
pub enum Type {
    Ident(u64),
    Generic(Box<Type>, Vec<Type>),
}

/// A binary expression node.
#[derive(Debug)]
pub struct Binary {
    pub left: Box<Spanned<Expr>>,
    pub operator: Spanned<BinaryOp>,
    pub right: Box<Spanned<Expr>>,
}

/// A prefix expression node.
#[derive(Debug)]
pub struct Unary {
    pub operator: Spanned<UnaryOp>,
    pub right: Box<Spanned<Expr>>,
}

/// A literal expression node.
#[derive(Debug)]
pub struct Literal {
    pub value: Spanned<Object>,
}

/// An expression.
#[derive(Debug)]
pub enum Expr {
    /// Placeholder left behind where an expression failed to parse.
    Error,
    Binary(Binary),
    Unary(Unary),
    Literal(Literal),
    Variable { name: Spanned<u64> },
    TernaryIf {
        condition: Box<Spanned<Expr>>,
        value: Box<Spanned<Expr>>,
        else_value: Box<Spanned<Expr>>,
    },
    FunctionCall { func_name: Box<Spanned<u64>>, arguments: Option<Vec<Expr>> },
}

/// A pattern of a `match` arm.
#[derive(Debug)]
pub enum Pattern {
    WildCard,
    Literal(Literal),
    TypeName(Type),
}

/// A function parameter: passing mode, name, optional restrictor, type.
#[derive(Debug)]
pub struct FuncParameter {
    pub param_type: Box<Spanned<ParamType>>,
    pub param_value_name: Box<Spanned<u64>>,
    pub param_restrictor: Option<Spanned<ParamRestrictor>>,
    pub param_value_type: Box<Spanned<Type>>,
}

/// An assignment statement.
#[derive(Debug)]
pub struct Assign {
    pub name: Spanned<u64>,
    pub operator: Spanned<AssignOp>,
    pub value: Box<Spanned<Expr>>,
}

/// A `match` statement: a predicate and its ordered arms.
#[derive(Debug)]
pub struct MatchStmt {
    pub predicate: Box<Spanned<Expr>>,
    pub then_branches: Spanned<Vec<(Pattern, Statement)>>,
}

/// A statement.
#[derive(Debug)]
pub enum Statement {
    /// Placeholder left behind where a statement failed to parse.
    Error,
    Empty,
    Test(Expr),
    Assign(Assign),
    Block { statments: Vec<Spanned<Statement>> },
    Expression { expr: Box<Spanned<Expr>> },
    Declaration {
        declaration_type: DeclarationType,
        name: Spanned<u64>,
        manual_type: Option<Spanned<Type>>,
        value: Box<Spanned<Expr>>,
    },
    FuncDeclaration {
        name: Spanned<u64>,
        parameters: Option<Vec<FuncParameter>>,
        return_type: Option<Spanned<Type>>,
        statments: Vec<Spanned<Statement>>,
    },
    IfStmt {
        condition: Box<Spanned<Expr>>,
        then_branch: Box<Spanned<Statement>>,
        else_branch: Option<Box<Spanned<Statement>>>,
    },
    MatchStmt(MatchStmt),
    WhileStmt { condition: Box<Spanned<Expr>>, then_branch: Box<Spanned<Statement>> },
    Defer { defered_statment: Box<Spanned<Statement>> },
}

// ------------------------------------------------------------------
// Mathematical mirrors
// ------------------------------------------------------------------

/// Mirror of `Type`.
pub enum TypeV {
    Ident(u64),
    Generic(Box<TypeV>, Seq<TypeV>),
}

/// Mirror of `Expr`, with struct nodes flattened.
pub enum ExprV {
    Error,
    Binary { op: Spanned<BinaryOp>, left: Box<Spanned<ExprV>>, right: Box<Spanned<ExprV>> },
    Unary { op: Spanned<UnaryOp>, right: Box<Spanned<ExprV>> },
    Literal { value: Spanned<ObjectV> },
    Variable { name: Spanned<u64> },
    TernaryIf {
        condition: Box<Spanned<ExprV>>,
        value: Box<Spanned<ExprV>>,
        else_value: Box<Spanned<ExprV>>,
    },
    FunctionCall { func_name: Box<Spanned<u64>>, arguments: Option<Seq<ExprV>> },
}

/// Mirror of `Pattern`.
pub enum PatternV {
    WildCard,
    Literal { value: Spanned<ObjectV> },
    TypeName(TypeV),
}

/// Mirror of `FuncParameter`.
pub struct FuncParameterV {
    pub param_type: Box<Spanned<ParamType>>,
    pub param_value_name: Box<Spanned<u64>>,
    pub param_restrictor: Option<Spanned<ParamRestrictor>>,
    pub param_value_type: Box<Spanned<TypeV>>,
}

/// Mirror of `Statement`.
pub enum StatementV {
    Error,
    Empty,
    Test(ExprV),
    Assign { name: Spanned<u64>, op: Spanned<AssignOp>, value: Box<Spanned<ExprV>> },
    Block { stmts: Seq<Spanned<StatementV>> },
    Expression { expr: Box<Spanned<ExprV>> },
    Declaration {
        declaration_type: DeclarationType,
        name: Spanned<u64>,
        manual_type: Option<Spanned<TypeV>>,
        value: Box<Spanned<ExprV>>,
    },
    FuncDeclaration {
        name: Spanned<u64>,
        parameters: Option<Seq<FuncParameterV>>,
        return_type: Option<Spanned<TypeV>>,
        stmts: Seq<Spanned<StatementV>>,
    },
    IfStmt {
        condition: Box<Spanned<ExprV>>,
        then_branch: Box<Spanned<StatementV>>,
        else_branch: Option<Box<Spanned<StatementV>>>,
    },
    MatchStmt { predicate: Box<Spanned<ExprV>>, arms: Spanned<Seq<(PatternV, StatementV)>> },
    WhileStmt { condition: Box<Spanned<ExprV>>, body: Box<Spanned<StatementV>> },
    Defer { stmt: Box<Spanned<StatementV>> },
}

// ------------------------------------------------------------------
// View functions
// ------------------------------------------------------------------

/// Mirror of a declared type.
pub open spec fn type_v(t: Type) -> TypeV
    decreases t,
{
    match t {
        Type::Ident(n) => TypeV::Ident(n),
        Type::Generic(base, args) => TypeV::Generic(
            Box::new(type_v(*base)),
            types_v(args@),
        ),
    }
}

/// Mirror of a sequence of declared types.
pub open spec fn types_v(ts: Seq<Type>) -> Seq<TypeV>
    decreases ts,
{
    if ts.len() == 0 {
        Seq::empty()
    } else {
        seq![type_v(ts[0])] + types_v(ts.subrange(1, ts.len() as int))
    }
}

/// Mirror of an expression.
pub open spec fn expr_v(e: Expr) -> ExprV
    decreases e,
{
    match e {
        Expr::Error => ExprV::Error,
        Expr::Binary(b) => ExprV::Binary {
            op: b.operator,
            left: Box::new(Spanned(expr_v((*b.left).0), (*b.left).1)),
            right: Box::new(Spanned(expr_v((*b.right).0), (*b.right).1)),
        },
        Expr::Unary(u) => ExprV::Unary {
            op: u.operator,
            right: Box::new(Spanned(expr_v((*u.right).0), (*u.right).1)),
        },
        Expr::Literal(l) => ExprV::Literal { value: Spanned(obj_v(l.value.0), l.value.1) },
        Expr::Variable { name } => ExprV::Variable { name },
        Expr::TernaryIf { condition, value, else_value } => ExprV::TernaryIf {
            condition: Box::new(Spanned(expr_v((*condition).0), (*condition).1)),
            value: Box::new(Spanned(expr_v((*value).0), (*value).1)),
            else_value: Box::new(Spanned(expr_v((*else_value).0), (*else_value).1)),
        },
        Expr::FunctionCall { func_name, arguments } => ExprV::FunctionCall {
            func_name,
            arguments: match arguments {
                Some(args) => Some(exprs_v(args@)),
                None => None,
            },
        },
    }
}

/// Mirror of a sequence of expressions.
pub open spec fn exprs_v(es: Seq<Expr>) -> Seq<ExprV>
    decreases es,
{
    if es.len() == 0 {
        Seq::empty()
    } else {
        seq![expr_v(es[0])] + exprs_v(es.subrange(1, es.len() as int))
    }
}

/// Mirror of a pattern.
pub open spec fn pattern_v(p: Pattern) -> PatternV {
    match p {
        Pattern::WildCard => PatternV::WildCard,
        Pattern::Literal(l) => PatternV::Literal { value: Spanned(obj_v(l.value.0), l.value.1) },
        Pattern::TypeName(t) => PatternV::TypeName(type_v(t)),
    }
}

/// Mirror of a function parameter.
pub open spec fn param_v(p: FuncParameter) -> FuncParameterV {
    FuncParameterV {
        param_type: p.param_type,
        param_value_name: p.param_value_name,
        param_restrictor: p.param_restrictor,
        param_value_type: Box::new(
            Spanned(type_v((*p.param_value_type).0), (*p.param_value_type).1),
        ),
    }
}

/// Mirror of a sequence of function parameters.
pub open spec fn params_v(ps: Seq<FuncParameter>) -> Seq<FuncParameterV>
    decreases ps,
{
    if ps.len() == 0 {
        Seq::empty()
    } else {
        seq![param_v(ps[0])] + params_v(ps.subrange(1, ps.len() as int))
    }
}

/// Mirror of a statement.
pub open spec fn stmt_v(s: Statement) -> StatementV
    decreases s,
{
    match s {
        Statement::Error => StatementV::Error,
        Statement::Empty => StatementV::Empty,
        Statement::Test(e) => StatementV::Test(expr_v(e)),
        Statement::Assign(a) => StatementV::Assign {
            name: a.name,
            op: a.operator,
            value: Box::new(Spanned(expr_v((*a.value).0), (*a.value).1)),
        },
        Statement::Block { statments } => StatementV::Block { stmts: stmts_v(statments@) },
        Statement::Expression { expr } => StatementV::Expression {
            expr: Box::new(Spanned(expr_v((*expr).0), (*expr).1)),
        },
        Statement::Declaration { declaration_type, name, manual_type, value } => {
            StatementV::Declaration {
                declaration_type,
                name,
                manual_type: match manual_type {
                    Some(t) => Some(Spanned(type_v(t.0), t.1)),
                    None => None,
                },
                value: Box::new(Spanned(expr_v((*value).0), (*value).1)),
            }
        },
        Statement::FuncDeclaration { name, parameters, return_type, statments } => {
            StatementV::FuncDeclaration {
                name,
                parameters: match parameters {
                    Some(ps) => Some(params_v(ps@)),
                    None => None,
                },
                return_type: match return_type {
                    Some(t) => Some(Spanned(type_v(t.0), t.1)),
                    None => None,
                },
                stmts: stmts_v(statments@),
            }
        },
        Statement::IfStmt { condition, then_branch, else_branch } => StatementV::IfStmt {
            condition: Box::new(Spanned(expr_v((*condition).0), (*condition).1)),
            then_branch: Box::new(Spanned(stmt_v((*then_branch).0), (*then_branch).1)),
            else_branch: match else_branch {
                Some(e) => Some(Box::new(Spanned(stmt_v((*e).0), (*e).1))),
                None => None,
            },
        },
        Statement::MatchStmt(m) => StatementV::MatchStmt {
            predicate: Box::new(Spanned(expr_v((*m.predicate).0), (*m.predicate).1)),
            arms: Spanned(arms_v(m.then_branches.0@), m.then_branches.1),
        },
        Statement::WhileStmt { condition, then_branch } => StatementV::WhileStmt {
            condition: Box::new(Spanned(expr_v((*condition).0), (*condition).1)),
            body: Box::new(Spanned(stmt_v((*then_branch).0), (*then_branch).1)),
        },
        Statement::Defer { defered_statment } => StatementV::Defer {
            stmt: Box::new(Spanned(stmt_v((*defered_statment).0), (*defered_statment).1)),
        },
    }
}

/// Mirror of a sequence of spanned statements.
pub open spec fn stmts_v(ss: Seq<Spanned<Statement>>) -> Seq<Spanned<StatementV>>
    decreases ss,
{
    if ss.len() == 0 {
        Seq::empty()
    } else {
        seq![Spanned(stmt_v(ss[0].0), ss[0].1)] + stmts_v(ss.subrange(1, ss.len() as int))
    }
}

/// Mirror of a sequence of match arms.
pub open spec fn arms_v(aa: Seq<(Pattern, Statement)>) -> Seq<(PatternV, StatementV)>
    decreases aa,
{
    if aa.len() == 0 {
        Seq::empty()
    } else {
        seq![(pattern_v(aa[0].0), stmt_v(aa[0].1))] + arms_v(aa.subrange(1, aa.len() as int))
    }
}

// ------------------------------------------------------------------
// Facts about the list mirrors
// ------------------------------------------------------------------

/// A mirrored expression list has the same length and mirrors each
/// element in place.
pub proof fn lemma_exprs_v_props(es: Seq<Expr>)
    ensures
        exprs_v(es).len() == es.len(),
        forall|i: int| 0 <= i < es.len() ==> exprs_v(es)[i] == expr_v(es[i]),
    decreases es.len(),
{
    if es.len() > 0 {
        lemma_exprs_v_props(es.subrange(1, es.len() as int));
    }
}

/// A mirrored statement list has the same length and mirrors each
/// element in place.
pub proof fn lemma_stmts_v_props(ss: Seq<Spanned<Statement>>)
    ensures
        stmts_v(ss).len() == ss.len(),
        forall|i: int|
            0 <= i < ss.len() ==> stmts_v(ss)[i] == Spanned(stmt_v(ss[i].0), ss[i].1),
    decreases ss.len(),
{
    if ss.len() > 0 {
        lemma_stmts_v_props(ss.subrange(1, ss.len() as int));
    }
}

/// A mirrored arm list has the same length and mirrors each arm in
/// place.
pub proof fn lemma_arms_v_props(aa: Seq<(Pattern, Statement)>)
    ensures
        arms_v(aa).len() == aa.len(),
        forall|i: int|
            0 <= i < aa.len() ==> arms_v(aa)[i] == (pattern_v(aa[i].0), stmt_v(aa[i].1)),
    decreases aa.len(),
{
    if aa.len() > 0 {
        lemma_arms_v_props(aa.subrange(1, aa.len() as int));
    }
}

/// A mirrored parameter list has the same length and mirrors each
/// parameter in place.
pub proof fn lemma_params_v_props(ps: Seq<FuncParameter>)
    ensures
        params_v(ps).len() == ps.len(),
        forall|i: int| 0 <= i < ps.len() ==> params_v(ps)[i] == param_v(ps[i]),
    decreases ps.len(),
{
    if ps.len() > 0 {
        lemma_params_v_props(ps.subrange(1, ps.len() as int));
    }
}

/// A mirrored type list has the same length and mirrors each type in
/// place.
pub proof fn lemma_types_v_props(ts: Seq<Type>)
    ensures
        types_v(ts).len() == ts.len(),
        forall|i: int| 0 <= i < ts.len() ==> types_v(ts)[i] == type_v(ts[i]),
    decreases ts.len(),
{
    if ts.len() > 0 {
        lemma_types_v_props(ts.subrange(1, ts.len() as int));
    }
}

} // verus!
