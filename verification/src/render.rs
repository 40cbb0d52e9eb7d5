//! The canonical textual form of runtime values, as the `test` statement
//! prints them.

use vstd::prelude::*;

use crate::decimal::dec_str;
use crate::decimal::dec_to_string;
use crate::interner::interner_seq;
use crate::interner::resolve_str;
use crate::object::EvalError;
use crate::object::Object;
use crate::object::ObjectV;
use crate::object::obj_v;
use vstd::string::StringExecFns;

verus! {

/// The character of one decimal digit.
pub open spec fn digit_char(d: nat) -> char {
    if d == 0 {
        '0'
    } else if d == 1 {
        '1'
    } else if d == 2 {
        '2'
    } else if d == 3 {
        '3'
    } else if d == 4 {
        '4'
    } else if d == 5 {
        '5'
    } else if d == 6 {
        '6'
    } else if d == 7 {
        '7'
    } else if d == 8 {
        '8'
    } else {
        '9'
    }
}

/// The decimal digits of a natural number, most significant first.
pub open spec fn digits_of(n: nat) -> Seq<char>
    decreases n,
{
    if n < 10 {
        seq![digit_char(n)]
    } else {
        digits_of(n / 10).push(digit_char(n % 10))
    }
}

/// The decimal representation of an integer.
pub open spec fn int_str_v(i: int) -> Seq<char> {
    if i < 0 {
        seq!['-'] + digits_of((-i) as nat)
    } else {
        digits_of(i as nat)
    }
}

/// The canonical textual form of a value: integers and decimals in
/// decimal notation, booleans and null as their keywords, strings as the
/// interned content (failing on a handle the table does not hold).
pub open spec fn render_v(v: ObjectV, tbl: Seq<Seq<char>>) -> Result<Seq<char>, EvalError> {
    match v {
        ObjectV::Integer(i) => Ok(int_str_v(i as int)),
        ObjectV::Float { m, s } => Ok(dec_str(m, s)),
        ObjectV::Boolean(b) => if b {
            Ok("true"@)
        } else {
            Ok("false"@)
        },
        ObjectV::Null => Ok("null"@),
        ObjectV::Str(h) => if (h as int) < tbl.len() {
            Ok(tbl[h as int])
        } else {
            Err(EvalError::UnknownSymbol)
        },
    }
}

/// The string slice of one decimal digit.
fn digit_str(d: u32) -> (r: &'static str)
    requires
        d < 10,
    ensures
        r@ == seq![digit_char(d as nat)],
{
    proof {
        reveal_strlit("0");
        reveal_strlit("1");
        reveal_strlit("2");
        reveal_strlit("3");
        reveal_strlit("4");
        reveal_strlit("5");
        reveal_strlit("6");
        reveal_strlit("7");
        reveal_strlit("8");
        reveal_strlit("9");
    }
    match d {
        0 => "0",
        1 => "1",
        2 => "2",
        3 => "3",
        4 => "4",
        5 => "5",
        6 => "6",
        7 => "7",
        8 => "8",
        _ => "9",
    }
}

/// Append the decimal digits of `n`, most significant first.
fn push_digits(s: &mut String, n: u32)
    ensures
        final(s)@ == old(s)@ + digits_of(n as nat),
    decreases n,
{
    if n < 10 {
        s.append(digit_str(n));
        proof {
            assert(old(s)@ + seq![digit_char(n as nat)] =~= old(s)@ + digits_of(n as nat));
        }
    } else {
        push_digits(s, n / 10);
        s.append(digit_str(n % 10));
        proof {
            assert((old(s)@ + digits_of((n / 10) as nat)) + seq![digit_char((n % 10) as nat)]
                =~= old(s)@ + digits_of(n as nat));
        }
    }
}

/// The decimal representation of an integer, as `int_str_v` states.
pub fn int_to_string(i: i32) -> (r: String)
    ensures
        r@ == int_str_v(i as int),
{
    let mut s = String::new();
    if i >= 0 {
        push_digits(&mut s, i as u32);
        proof {
            assert(Seq::<char>::empty() + digits_of(i as nat) =~= int_str_v(i as int));
        }
        s
    } else {
        proof {
            reveal_strlit("-");
        }
        s.append("-");
        let n: u32 = (-(i as i64)) as u32;
        push_digits(&mut s, n);
        proof {
            assert((Seq::<char>::empty() + "-"@) + digits_of(n as nat) =~= int_str_v(i as int));
        }
        s
    }
}

/// The model of a rendering result.
pub open spec fn res_str_v(r: Result<String, EvalError>) -> Result<Seq<char>, EvalError> {
    match r {
        Ok(s) => Ok(s@),
        Err(e) => Err(e),
    }
}

/// The canonical textual form of a runtime value, as `render_v` states.
pub fn render_obj(o: &Object, table: &lasso::Rodeo) -> (r: Result<String, EvalError>)
    ensures
        res_str_v(r) == render_v(obj_v(*o), interner_seq(*table)),
{
    match o {
        Object::Integer(i) => Ok(int_to_string(*i)),
        Object::Float(d) => Ok(dec_to_string(*d)),
        Object::Boolean(b) => {
            if *b {
                Ok("true".to_owned())
            } else {
                Ok("false".to_owned())
            }
        },
        Object::NullValue => Ok("null".to_owned()),
        Object::Str(h) => match resolve_str(table, *h) {
            Some(s) => Ok(s),
            None => Err(EvalError::UnknownSymbol),
        },
    }
}

} // verus!
