//! Runtime values and the operator semantics the evaluator delegates to.
//!
//! Arithmetic, comparison and truthiness are defined by case analysis on
//! the operand variants, mirrored exactly by spec functions over the
//! mathematical value model `ObjectV`. Integer arithmetic wraps (the
//! two's-complement result of the machine operation); integer division
//! truncates toward zero and fails on a zero divisor. Mixed
//! integer/decimal arithmetic follows the one case arm of the original
//! semantics: the decimal operand is always the left argument of the
//! underlying decimal operation, whichever side it stood on.

use vstd::prelude::*;

use crate::ast::BinaryOp;
use crate::ast::UnaryOp;
use crate::decimal::Dec;
use crate::decimal::dec_add;
use crate::decimal::dec_add_exec;
use crate::decimal::dec_div;
use crate::decimal::dec_div_exec;
use crate::decimal::dec_eq_exec;
use crate::decimal::dec_eq_val;
use crate::decimal::dec_lt_exec;
use crate::decimal::dec_lt_val;
use crate::decimal::dec_mul;
use crate::decimal::dec_mul_exec;
use crate::decimal::dec_sub;
use crate::decimal::dec_sub_exec;
use crate::interner::INTERNER_CAPACITY;
use crate::interner::get_str;
use crate::interner::intern_str;
use crate::interner::interner_len;
use crate::interner::interner_seq;
use crate::interner::lemma_push_injective;
use crate::interner::resolve_str;
use crate::interner::table_has;
use crate::interner::table_injective;
use vstd::string::StringExecFns;

verus! {

/// A runtime value. Values have copy semantics; string content lives in
/// the interner and is carried by handle.
#[derive(Debug, Clone, Copy, PartialEq, Eq, Structural)]
pub enum Object {
    Str(u32),
    Integer(i32),
    Float(Dec),
    Boolean(bool),
    NullValue,
}

/// The mathematical model of a runtime value: a decimal is its mantissa
/// and scale as unbounded integers.
pub enum ObjectV {
    Str(u32),
    Integer(i32),
    Float { m: int, s: int },
    Boolean(bool),
    Null,
}

/// The model of a value.
pub open spec fn obj_v(o: Object) -> ObjectV {
    match o {
        Object::Str(h) => ObjectV::Str(h),
        Object::Integer(i) => ObjectV::Integer(i),
        Object::Float(d) => ObjectV::Float { m: d.mant(), s: d.scl() },
        Object::Boolean(b) => ObjectV::Boolean(b),
        Object::NullValue => ObjectV::Null,
    }
}

/// The model of an operation result.
pub open spec fn res_v(r: Result<Object, EvalError>) -> Result<ObjectV, EvalError> {
    match r {
        Ok(o) => Ok(obj_v(o)),
        Err(e) => Err(e),
    }
}

/// Why an evaluation failed.
///
/// The first six kinds are the core taxonomy; the last three are forced
/// by totality: `Overflow` for a decimal result or an interner outside
/// the representable range, `RecursionLimit` for function calls nested
/// past the evaluator's budget, and `UnknownSymbol` for a string handle
/// the interner does not hold.
#[derive(Debug, Clone, Copy, PartialEq, Eq, Structural)]
pub enum EvalError {
    UndeclaredVariable,
    AlreadyDeclared,
    Immutable,
    TypeMismatch,
    DivisionByZero,
    ErrorStatement,
    Overflow,
    RecursionLimit,
    UnknownSymbol,
}

/// Truthiness: only `Boolean(true)` counts as true.
pub open spec fn truthy(o: ObjectV) -> bool {
    o == ObjectV::Boolean(true)
}

/// Equality of two values: same-variant pairs compare structurally,
/// mixed integer/decimal pairs compare numerically, anything else is a
/// type error. Two strings are equal exactly when their handles are,
/// which the interner's injectivity makes content equality.
pub open spec fn obj_eq_spec(a: ObjectV, b: ObjectV) -> Result<bool, EvalError> {
    match (a, b) {
        (ObjectV::Str(h1), ObjectV::Str(h2)) => Ok(h1 == h2),
        (ObjectV::Integer(i1), ObjectV::Integer(i2)) => Ok(i1 == i2),
        (ObjectV::Float { m: m1, s: s1 }, ObjectV::Float { m: m2, s: s2 }) => Ok(
            dec_eq_val(m1, s1, m2, s2),
        ),
        (ObjectV::Integer(i), ObjectV::Float { m, s }) => Ok(dec_eq_val(i as int, 0, m, s)),
        (ObjectV::Float { m, s }, ObjectV::Integer(i)) => Ok(dec_eq_val(m, s, i as int, 0)),
        (ObjectV::Boolean(b1), ObjectV::Boolean(b2)) => Ok(b1 == b2),
        (ObjectV::Null, ObjectV::Null) => Ok(true),
        _ => Err(EvalError::TypeMismatch),
    }
}

/// Strict order of two values: numeric pairs (with integer promotion)
/// order numerically, booleans order `false < true`, anything else is a
/// type error.
pub open spec fn obj_lt_spec(a: ObjectV, b: ObjectV) -> Result<bool, EvalError> {
    match (a, b) {
        (ObjectV::Integer(i1), ObjectV::Integer(i2)) => Ok(i1 < i2),
        (ObjectV::Float { m: m1, s: s1 }, ObjectV::Float { m: m2, s: s2 }) => Ok(
            dec_lt_val(m1, s1, m2, s2),
        ),
        (ObjectV::Integer(i), ObjectV::Float { m, s }) => Ok(dec_lt_val(i as int, 0, m, s)),
        (ObjectV::Float { m, s }, ObjectV::Integer(i)) => Ok(dec_lt_val(m, s, i as int, 0)),
        (ObjectV::Boolean(b1), ObjectV::Boolean(b2)) => Ok(!b1 && b2),
        _ => Err(EvalError::TypeMismatch),
    }
}

/// The decimal result of one of the named decimal operations, mapped
/// into a value: `None` from the underlying operation is an overflow.
pub open spec fn dec_res(r: Option<(int, int)>) -> Result<ObjectV, EvalError> {
    match r {
        Some((m, s)) => Ok(ObjectV::Float { m, s }),
        None => Err(EvalError::Overflow),
    }
}

/// The handle under which the table holds `s`.
pub open spec fn table_index_of(tbl: Seq<Seq<char>>, s: Seq<char>) -> int {
    choose|i: int| 0 <= i < tbl.len() && tbl[i] == s
}

/// Addition. Strings concatenate, interning the result; integer
/// addition wraps; mixed integer/decimal promotes the integer.
pub open spec fn obj_add_spec(a: ObjectV, b: ObjectV, tbl: Seq<Seq<char>>) -> (Result<
    ObjectV,
    EvalError,
>, Seq<Seq<char>>) {
    match (a, b) {
        (ObjectV::Str(h1), ObjectV::Str(h2)) => {
            if h1 as int >= tbl.len() || h2 as int >= tbl.len() {
                (Err(EvalError::UnknownSymbol), tbl)
            } else {
                let s = tbl[h1 as int] + tbl[h2 as int];
                if table_has(tbl, s) {
                    (Ok(ObjectV::Str(table_index_of(tbl, s) as u32)), tbl)
                } else if tbl.len() >= INTERNER_CAPACITY as int {
                    (Err(EvalError::Overflow), tbl)
                } else {
                    (Ok(ObjectV::Str(tbl.len() as u32)), tbl.push(s))
                }
            }
        },
        (ObjectV::Integer(i1), ObjectV::Integer(i2)) => (
            Ok(ObjectV::Integer(i1.wrapping_add(i2))),
            tbl,
        ),
        (ObjectV::Integer(i), ObjectV::Float { m, s }) => (dec_res(dec_add(m, s, i as int, 0)), tbl),
        (ObjectV::Float { m, s }, ObjectV::Integer(i)) => (dec_res(dec_add(m, s, i as int, 0)), tbl),
        (ObjectV::Float { m: m1, s: s1 }, ObjectV::Float { m: m2, s: s2 }) => (
            dec_res(dec_add(m1, s1, m2, s2)),
            tbl,
        ),
        _ => (Err(EvalError::TypeMismatch), tbl),
    }
}

/// Subtraction. As in the original single case arm, a mixed pair always
/// computes decimal-minus-integer, whichever side the integer stood on.
pub open spec fn obj_sub_spec(a: ObjectV, b: ObjectV) -> Result<ObjectV, EvalError> {
    match (a, b) {
        (ObjectV::Integer(i1), ObjectV::Integer(i2)) => Ok(ObjectV::Integer(i1.wrapping_sub(i2))),
        (ObjectV::Integer(i), ObjectV::Float { m, s }) => dec_res(dec_sub(m, s, i as int, 0)),
        (ObjectV::Float { m, s }, ObjectV::Integer(i)) => dec_res(dec_sub(m, s, i as int, 0)),
        (ObjectV::Float { m: m1, s: s1 }, ObjectV::Float { m: m2, s: s2 }) => dec_res(
            dec_sub(m1, s1, m2, s2),
        ),
        _ => Err(EvalError::TypeMismatch),
    }
}

/// Multiplication. Integer multiplication wraps; mixed pairs promote.
pub open spec fn obj_mul_spec(a: ObjectV, b: ObjectV) -> Result<ObjectV, EvalError> {
    match (a, b) {
        (ObjectV::Integer(i1), ObjectV::Integer(i2)) => Ok(ObjectV::Integer(i1.wrapping_mul(i2))),
        (ObjectV::Integer(i), ObjectV::Float { m, s }) => dec_res(dec_mul(m, s, i as int, 0)),
        (ObjectV::Float { m, s }, ObjectV::Integer(i)) => dec_res(dec_mul(m, s, i as int, 0)),
        (ObjectV::Float { m: m1, s: s1 }, ObjectV::Float { m: m2, s: s2 }) => dec_res(
            dec_mul(m1, s1, m2, s2),
        ),
        _ => Err(EvalError::TypeMismatch),
    }
}

/// Division. A zero divisor fails with `DivisionByZero`; integer
/// division truncates toward zero (`i32::MIN / -1`, whose quotient is
/// unrepresentable, yields 0 as the original's checked division did);
/// a mixed pair always computes decimal-divided-by-integer.
pub open spec fn obj_div_spec(a: ObjectV, b: ObjectV) -> Result<ObjectV, EvalError> {
    match (a, b) {
        (ObjectV::Integer(i1), ObjectV::Integer(i2)) => {
            if i2 == 0 {
                Err(EvalError::DivisionByZero)
            } else {
                match i1.checked_div(i2) {
                    Some(q) => Ok(ObjectV::Integer(q)),
                    None => Ok(ObjectV::Integer(0)),
                }
            }
        },
        (ObjectV::Integer(i), ObjectV::Float { m, s }) => {
            if i == 0 {
                Err(EvalError::DivisionByZero)
            } else {
                dec_res(dec_div(m, s, i as int, 0))
            }
        },
        (ObjectV::Float { m, s }, ObjectV::Integer(i)) => {
            if i == 0 {
                Err(EvalError::DivisionByZero)
            } else {
                dec_res(dec_div(m, s, i as int, 0))
            }
        },
        (ObjectV::Float { m: m1, s: s1 }, ObjectV::Float { m: m2, s: s2 }) => {
            if m2 == 0 {
                Err(EvalError::DivisionByZero)
            } else {
                dec_res(dec_div(m1, s1, m2, s2))
            }
        },
        _ => Err(EvalError::TypeMismatch),
    }
}

/// A binary operation applied to two already-evaluated operands. Only
/// string concatenation can change the interner table. `and`/`or`
/// combine the truthiness of both operands and never fail.
pub open spec fn obj_binary_spec(op: BinaryOp, a: ObjectV, b: ObjectV, tbl: Seq<Seq<char>>)
    -> (Result<ObjectV, EvalError>, Seq<Seq<char>>) {
    match op {
        BinaryOp::Add => obj_add_spec(a, b, tbl),
        BinaryOp::Sub => (obj_sub_spec(a, b), tbl),
        BinaryOp::Mul => (obj_mul_spec(a, b), tbl),
        BinaryOp::Div => (obj_div_spec(a, b), tbl),
        BinaryOp::GreaterThan => (bool_res(obj_lt_spec(b, a)), tbl),
        BinaryOp::GreaterThanEqual => (bool_res(not_res(obj_lt_spec(a, b))), tbl),
        BinaryOp::LessThan => (bool_res(obj_lt_spec(a, b)), tbl),
        BinaryOp::LessThanEqual => (bool_res(not_res(obj_lt_spec(b, a))), tbl),
        BinaryOp::Equal => (bool_res(obj_eq_spec(a, b)), tbl),
        BinaryOp::NotEqual => (bool_res(not_res(obj_eq_spec(a, b))), tbl),
        BinaryOp::And => (Ok(ObjectV::Boolean(truthy(a) && truthy(b))), tbl),
        BinaryOp::Or => (Ok(ObjectV::Boolean(truthy(a) || truthy(b))), tbl),
    }
}

/// A boolean result wrapped back into a value.
pub open spec fn bool_res(r: Result<bool, EvalError>) -> Result<ObjectV, EvalError> {
    match r {
        Ok(b) => Ok(ObjectV::Boolean(b)),
        Err(e) => Err(e),
    }
}

/// A negated boolean result.
pub open spec fn not_res(r: Result<bool, EvalError>) -> Result<bool, EvalError> {
    match r {
        Ok(b) => Ok(!b),
        Err(e) => Err(e),
    }
}

/// A prefix operation applied to an evaluated operand. Negation wraps
/// on `i32::MIN` and flips a decimal's mantissa; `not` requires a
/// boolean.
pub open spec fn obj_unary_spec(op: UnaryOp, a: ObjectV) -> Result<ObjectV, EvalError> {
    match op {
        UnaryOp::Neg => match a {
            ObjectV::Integer(i) => Ok(ObjectV::Integer((0i32).wrapping_sub(i))),
            ObjectV::Float { m, s } => Ok(ObjectV::Float { m: -m, s }),
            _ => Err(EvalError::TypeMismatch),
        },
        UnaryOp::Not => match a {
            ObjectV::Boolean(b) => Ok(ObjectV::Boolean(!b)),
            _ => Err(EvalError::TypeMismatch),
        },
    }
}

/// Truthiness of a runtime value.
pub fn truthy_exec(o: &Object) -> (r: bool)
    ensures
        r == truthy(obj_v(*o)),
{
    match o {
        Object::Boolean(b) => *b,
        _ => false,
    }
}

/// Strict order of two runtime values, as `obj_lt_spec` states.
pub fn obj_lt_exec(a: &Object, b: &Object) -> (r: Result<bool, EvalError>)
    ensures
        r == obj_lt_spec(obj_v(*a), obj_v(*b)),
{
    match (a, b) {
        (Object::Integer(i1), Object::Integer(i2)) => Ok(*i1 < *i2),
        (Object::Float(d1), Object::Float(d2)) => Ok(dec_lt_exec(*d1, *d2)),
        (Object::Integer(i), Object::Float(d)) => Ok(dec_lt_exec(Dec::from_i32(*i), *d)),
        (Object::Float(d), Object::Integer(i)) => Ok(dec_lt_exec(*d, Dec::from_i32(*i))),
        (Object::Boolean(b1), Object::Boolean(b2)) => Ok(!*b1 && *b2),
        _ => Err(EvalError::TypeMismatch),
    }
}

/// Equality of two runtime values, as `obj_eq_spec` states.
pub fn obj_eq_exec(a: &Object, b: &Object) -> (r: Result<bool, EvalError>)
    ensures
        r == obj_eq_spec(obj_v(*a), obj_v(*b)),
{
    match (a, b) {
        (Object::Str(h1), Object::Str(h2)) => Ok(*h1 == *h2),
        (Object::Integer(i1), Object::Integer(i2)) => Ok(*i1 == *i2),
        (Object::Float(d1), Object::Float(d2)) => Ok(dec_eq_exec(*d1, *d2)),
        (Object::Integer(i), Object::Float(d)) => Ok(dec_eq_exec(Dec::from_i32(*i), *d)),
        (Object::Float(d), Object::Integer(i)) => Ok(dec_eq_exec(*d, Dec::from_i32(*i))),
        (Object::Boolean(b1), Object::Boolean(b2)) => Ok(*b1 == *b2),
        (Object::NullValue, Object::NullValue) => Ok(true),
        _ => Err(EvalError::TypeMismatch),
    }
}

/// A prefix operation on a runtime value, as `obj_unary_spec` states.
pub fn obj_unary_exec(op: UnaryOp, a: &Object) -> (r: Result<Object, EvalError>)
    ensures
        res_v(r) == obj_unary_spec(op, obj_v(*a)),
{
    match op {
        UnaryOp::Neg => match a {
            Object::Integer(i) => Ok(Object::Integer((0i32).wrapping_sub(*i))),
            Object::Float(d) => Ok(Object::Float(d.neg())),
            _ => Err(EvalError::TypeMismatch),
        },
        UnaryOp::Not => match a {
            Object::Boolean(b) => Ok(Object::Boolean(!*b)),
            _ => Err(EvalError::TypeMismatch),
        },
    }
}

/// A decimal operation result mapped into a runtime value.
fn dec_res_exec(r: Option<Dec>) -> (o: Result<Object, EvalError>)
    ensures
        res_v(o) == dec_res(
            match r {
                Some(d) => Some((d.mant(), d.scl())),
                None => None,
            },
        ),
{
    match r {
        Some(d) => Ok(Object::Float(d)),
        None => Err(EvalError::Overflow),
    }
}

/// A binary operation on two runtime values, as `obj_binary_spec`
/// states; only string concatenation touches the interner table, whose
/// injectivity it preserves.
pub fn obj_binary_exec(op: BinaryOp, a: &Object, b: &Object, table: &mut lasso::Rodeo) -> (r:
    Result<Object, EvalError>)
    requires
        table_injective(interner_seq(*old(table))),
    ensures
        (res_v(r), interner_seq(*final(table))) == obj_binary_spec(
            op,
            obj_v(*a),
            obj_v(*b),
            interner_seq(*old(table)),
        ),
        table_injective(interner_seq(*final(table))),
{
    match op {
        BinaryOp::Add => obj_add_exec(a, b, table),
        BinaryOp::Sub => obj_sub_exec(a, b),
        BinaryOp::Mul => obj_mul_exec(a, b),
        BinaryOp::Div => obj_div_exec(a, b),
        BinaryOp::GreaterThan => bool_res_exec(obj_lt_exec(b, a)),
        BinaryOp::GreaterThanEqual => bool_res_exec(not_res_exec(obj_lt_exec(a, b))),
        BinaryOp::LessThan => bool_res_exec(obj_lt_exec(a, b)),
        BinaryOp::LessThanEqual => bool_res_exec(not_res_exec(obj_lt_exec(b, a))),
        BinaryOp::Equal => bool_res_exec(obj_eq_exec(a, b)),
        BinaryOp::NotEqual => bool_res_exec(not_res_exec(obj_eq_exec(a, b))),
        BinaryOp::And => {
            let ta = truthy_exec(a);
            let tb = truthy_exec(b);
            Ok(Object::Boolean(ta && tb))
        },
        BinaryOp::Or => {
            let ta = truthy_exec(a);
            let tb = truthy_exec(b);
            Ok(Object::Boolean(ta || tb))
        },
    }
}

/// A boolean result wrapped back into a runtime value.
fn bool_res_exec(r: Result<bool, EvalError>) -> (o: Result<Object, EvalError>)
    ensures
        res_v(o) == bool_res(r),
{
    match r {
        Ok(b) => Ok(Object::Boolean(b)),
        Err(e) => Err(e),
    }
}

/// A negated boolean result.
fn not_res_exec(r: Result<bool, EvalError>) -> (o: Result<bool, EvalError>)
    ensures
        o == not_res(r),
{
    match r {
        Ok(b) => Ok(!b),
        Err(e) => Err(e),
    }
}

/// Addition of two runtime values, concatenating strings through the
/// interner.
fn obj_add_exec(a: &Object, b: &Object, table: &mut lasso::Rodeo) -> (r: Result<Object, EvalError>)
    requires
        table_injective(interner_seq(*old(table))),
    ensures
        (res_v(r), interner_seq(*final(table))) == obj_add_spec(
            obj_v(*a),
            obj_v(*b),
            interner_seq(*old(table)),
        ),
        table_injective(interner_seq(*final(table))),
{
    match (a, b) {
        (Object::Str(h1), Object::Str(h2)) => {
            let ghost tbl0 = interner_seq(*table);
            let s1 = match resolve_str(table, *h1) {
                Some(s) => s,
                None => {
                    return Err(EvalError::UnknownSymbol);
                },
            };
            let s2 = match resolve_str(table, *h2) {
                Some(s) => s,
                None => {
                    return Err(EvalError::UnknownSymbol);
                },
            };
            let mut s = s1;
            s.append(s2.as_str());
            let ghost cat = tbl0[*h1 as int] + tbl0[*h2 as int];
            match get_str(table, s.as_str()) {
                Some(h) => {
                    proof {
                        let i = table_index_of(tbl0, cat);
                        assert(0 <= i < tbl0.len() && tbl0[i] == cat);
                        assert(i == h as int);
                    }
                    Ok(Object::Str(h))
                },
                None => {
                    let len = interner_len(table);
                    if len >= INTERNER_CAPACITY as usize {
                        Err(EvalError::Overflow)
                    } else {
                        let h = intern_str(table, s.as_str());
                        proof {
                            lemma_push_injective(tbl0, cat);
                        }
                        Ok(Object::Str(h))
                    }
                },
            }
        },
        (Object::Integer(i1), Object::Integer(i2)) => Ok(Object::Integer(i1.wrapping_add(*i2))),
        (Object::Integer(i), Object::Float(d)) => dec_res_exec(
            dec_add_exec(*d, Dec::from_i32(*i)),
        ),
        (Object::Float(d), Object::Integer(i)) => dec_res_exec(
            dec_add_exec(*d, Dec::from_i32(*i)),
        ),
        (Object::Float(d1), Object::Float(d2)) => dec_res_exec(dec_add_exec(*d1, *d2)),
        _ => Err(EvalError::TypeMismatch),
    }
}

/// Subtraction of two runtime values.
fn obj_sub_exec(a: &Object, b: &Object) -> (r: Result<Object, EvalError>)
    ensures
        res_v(r) == obj_sub_spec(obj_v(*a), obj_v(*b)),
{
    match (a, b) {
        (Object::Integer(i1), Object::Integer(i2)) => Ok(Object::Integer(i1.wrapping_sub(*i2))),
        (Object::Integer(i), Object::Float(d)) => dec_res_exec(
            dec_sub_exec(*d, Dec::from_i32(*i)),
        ),
        (Object::Float(d), Object::Integer(i)) => dec_res_exec(
            dec_sub_exec(*d, Dec::from_i32(*i)),
        ),
        (Object::Float(d1), Object::Float(d2)) => dec_res_exec(dec_sub_exec(*d1, *d2)),
        _ => Err(EvalError::TypeMismatch),
    }
}

/// Multiplication of two runtime values.
fn obj_mul_exec(a: &Object, b: &Object) -> (r: Result<Object, EvalError>)
    ensures
        res_v(r) == obj_mul_spec(obj_v(*a), obj_v(*b)),
{
    match (a, b) {
        (Object::Integer(i1), Object::Integer(i2)) => Ok(Object::Integer(i1.wrapping_mul(*i2))),
        (Object::Integer(i), Object::Float(d)) => dec_res_exec(
            dec_mul_exec(*d, Dec::from_i32(*i)),
        ),
        (Object::Float(d), Object::Integer(i)) => dec_res_exec(
            dec_mul_exec(*d, Dec::from_i32(*i)),
        ),
        (Object::Float(d1), Object::Float(d2)) => dec_res_exec(dec_mul_exec(*d1, *d2)),
        _ => Err(EvalError::TypeMismatch),
    }
}

/// Division of two runtime values; zero divisors fail first.
fn obj_div_exec(a: &Object, b: &Object) -> (r: Result<Object, EvalError>)
    ensures
        res_v(r) == obj_div_spec(obj_v(*a), obj_v(*b)),
{
    match (a, b) {
        (Object::Integer(i1), Object::Integer(i2)) => {
            if *i2 == 0 {
                Err(EvalError::DivisionByZero)
            } else {
                match i1.checked_div(*i2) {
                    Some(q) => Ok(Object::Integer(q)),
                    None => Ok(Object::Integer(0)),
                }
            }
        },
        (Object::Integer(i), Object::Float(d)) => {
            if *i == 0 {
                Err(EvalError::DivisionByZero)
            } else {
                dec_res_exec(dec_div_exec(*d, Dec::from_i32(*i)))
            }
        },
        (Object::Float(d), Object::Integer(i)) => {
            if *i == 0 {
                Err(EvalError::DivisionByZero)
            } else {
                dec_res_exec(dec_div_exec(*d, Dec::from_i32(*i)))
            }
        },
        (Object::Float(d1), Object::Float(d2)) => {
            if d2.is_zero() {
                Err(EvalError::DivisionByZero)
            } else {
                dec_res_exec(dec_div_exec(*d1, *d2))
            }
        },
        _ => Err(EvalError::TypeMismatch),
    }
}

} // verus!
