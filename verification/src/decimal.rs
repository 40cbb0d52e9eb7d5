//! The `Float` runtime value: a fixed-precision decimal number.
//!
//! A value is `mantissa / 10^scale` with `|mantissa| < 2^96` and
//! `scale <= 28`, the representation of `rust_decimal::Decimal`. The
//! library holds the two components as plain integers; the arithmetic
//! that needs rounding (add, sub, mul, div) is done by `rust_decimal`
//! behind trusted wrappers, while comparison, negation and conversion
//! from integers are exact and verified here.

use vstd::prelude::*;

verus! {

/// Largest mantissa magnitude a decimal can carry: `2^96 - 1`.
pub const DEC_MAX_ABS: i128 = 79228162514264337593543950335;

/// Largest scale a decimal can carry.
pub const DEC_MAX_SCALE: u32 = 28;

/// A decimal number `m / 10^s`.
#[derive(Debug, Clone, Copy, PartialEq, Eq, Structural)]
pub struct Dec {
    m: i128,
    s: u32,
}

/// The representation bounds every decimal satisfies.
pub open spec fn dec_wf(m: int, s: int) -> bool {
    &&& -(DEC_MAX_ABS as int) <= m <= DEC_MAX_ABS as int
    &&& 0 <= s <= DEC_MAX_SCALE as int
}

impl Dec {
    /// Every `Dec` ever constructed satisfies the representation bounds.
    #[verifier::type_invariant]
    pub closed spec fn inv(self) -> bool {
        dec_wf(self.m as int, self.s as int)
    }

    /// The mantissa, as a mathematical integer.
    pub closed spec fn mant(self) -> int {
        self.m as int
    }

    /// The scale, as a mathematical integer.
    pub closed spec fn scl(self) -> int {
        self.s as int
    }

    /// Build a decimal from its components; `None` when they are out of
    /// the representable range.
    pub fn new(m: i128, s: u32) -> (r: Option<Dec>)
        ensures
            r is Some <==> dec_wf(m as int, s as int),
            r matches Some(d) ==> d.mant() == m as int && d.scl() == s as int,
    {
        if -DEC_MAX_ABS <= m && m <= DEC_MAX_ABS && s <= DEC_MAX_SCALE {
            Some(Dec { m, s })
        } else {
            None
        }
    }

    /// The decimal representing an integer exactly.
    pub fn from_i32(i: i32) -> (r: Dec)
        ensures
            r.mant() == i as int,
            r.scl() == 0,
    {
        Dec { m: i as i128, s: 0 }
    }

    /// The mantissa.
    pub fn mantissa(&self) -> (r: i128)
        ensures
            r as int == self.mant(),
    {
        self.m
    }

    /// The scale.
    pub fn scale(&self) -> (r: u32)
        ensures
            r as int == self.scl(),
    {
        self.s
    }

    /// Exact negation: the mantissa flips sign, the scale is kept.
    pub fn neg(self) -> (r: Dec)
        ensures
            r.mant() == -self.mant(),
            r.scl() == self.scl(),
    {
        proof {
            use_type_invariant(self);
        }
        Dec { m: -self.m, s: self.s }
    }

    /// Whether the decimal is exactly zero.
    pub fn is_zero(&self) -> (r: bool)
        ensures
            r <==> self.mant() == 0,
    {
        self.m == 0
    }
}

/// `10^e`.
pub open spec fn pow10(e: nat) -> int
    decreases e,
{
    if e == 0 {
        1
    } else {
        10 * pow10((e - 1) as nat)
    }
}

/// Numeric equality of two decimals: `m1 / 10^s1 == m2 / 10^s2`,
/// stated by cross-multiplication.
pub open spec fn dec_eq_val(m1: int, s1: int, m2: int, s2: int) -> bool {
    m1 * pow10(s2 as nat) == m2 * pow10(s1 as nat)
}

/// Numeric strict order of two decimals, by cross-multiplication.
pub open spec fn dec_lt_val(m1: int, s1: int, m2: int, s2: int) -> bool {
    m1 * pow10(s2 as nat) < m2 * pow10(s1 as nat)
}

/// What `rust_decimal`'s checked addition returns on the components of
/// its arguments: `None` for overflow, otherwise the components of the
/// (possibly rounded) sum.
pub uninterp spec fn dec_add(m1: int, s1: int, m2: int, s2: int) -> Option<(int, int)>;

/// What `rust_decimal`'s checked subtraction returns.
pub uninterp spec fn dec_sub(m1: int, s1: int, m2: int, s2: int) -> Option<(int, int)>;

/// What `rust_decimal`'s checked multiplication returns.
pub uninterp spec fn dec_mul(m1: int, s1: int, m2: int, s2: int) -> Option<(int, int)>;

/// What `rust_decimal`'s checked division returns (the divisor is not zero).
pub uninterp spec fn dec_div(m1: int, s1: int, m2: int, s2: int) -> Option<(int, int)>;

/// The canonical textual form `rust_decimal` prints for a decimal.
pub uninterp spec fn dec_str(m: int, s: int) -> Seq<char>;

/// Relies on `rust_decimal::Decimal::checked_add`: the checked sum of the
/// two decimals, `None` on overflow; the result is a function of the
/// arguments alone and stays in the representable range.
#[verifier::external_body]
pub fn dec_add_exec(a: Dec, b: Dec) -> (r: Option<Dec>)
    ensures
        (match r {
            Some(c) => Some((c.mant(), c.scl())),
            None => None,
        }) == dec_add(a.mant(), a.scl(), b.mant(), b.scl()),
{
    let x = rust_decimal::Decimal::from_i128_with_scale(a.m, a.s);
    let y = rust_decimal::Decimal::from_i128_with_scale(b.m, b.s);
    match x.checked_add(y) {
        Some(c) => Some(Dec { m: c.mantissa(), s: c.scale() }),
        None => None,
    }
}

/// Relies on `rust_decimal::Decimal::checked_sub`: the checked difference,
/// `None` on overflow.
#[verifier::external_body]
pub fn dec_sub_exec(a: Dec, b: Dec) -> (r: Option<Dec>)
    ensures
        (match r {
            Some(c) => Some((c.mant(), c.scl())),
            None => None,
        }) == dec_sub(a.mant(), a.scl(), b.mant(), b.scl()),
{
    let x = rust_decimal::Decimal::from_i128_with_scale(a.m, a.s);
    let y = rust_decimal::Decimal::from_i128_with_scale(b.m, b.s);
    match x.checked_sub(y) {
        Some(c) => Some(Dec { m: c.mantissa(), s: c.scale() }),
        None => None,
    }
}

/// Relies on `rust_decimal::Decimal::checked_mul`: the checked product,
/// `None` on overflow.
#[verifier::external_body]
pub fn dec_mul_exec(a: Dec, b: Dec) -> (r: Option<Dec>)
    ensures
        (match r {
            Some(c) => Some((c.mant(), c.scl())),
            None => None,
        }) == dec_mul(a.mant(), a.scl(), b.mant(), b.scl()),
{
    let x = rust_decimal::Decimal::from_i128_with_scale(a.m, a.s);
    let y = rust_decimal::Decimal::from_i128_with_scale(b.m, b.s);
    match x.checked_mul(y) {
        Some(c) => Some(Dec { m: c.mantissa(), s: c.scale() }),
        None => None,
    }
}

/// Relies on `rust_decimal::Decimal::checked_div`: the checked quotient,
/// `None` on overflow.
#[verifier::external_body]
pub fn dec_div_exec(a: Dec, b: Dec) -> (r: Option<Dec>)
    requires
        b.mant() != 0,
    ensures
        (match r {
            Some(c) => Some((c.mant(), c.scl())),
            None => None,
        }) == dec_div(a.mant(), a.scl(), b.mant(), b.scl()),
{
    let x = rust_decimal::Decimal::from_i128_with_scale(a.m, a.s);
    let y = rust_decimal::Decimal::from_i128_with_scale(b.m, b.s);
    match x.checked_div(y) {
        Some(c) => Some(Dec { m: c.mantissa(), s: c.scale() }),
        None => None,
    }
}

/// Relies on `rust_decimal::Decimal`'s `Ord`: decimals compare by numeric
/// value, so the order is the cross-multiplied order of the components.
#[verifier::external_body]
pub fn dec_lt_exec(a: Dec, b: Dec) -> (r: bool)
    ensures
        r <==> dec_lt_val(a.mant(), a.scl(), b.mant(), b.scl()),
{
    let x = rust_decimal::Decimal::from_i128_with_scale(a.m, a.s);
    let y = rust_decimal::Decimal::from_i128_with_scale(b.m, b.s);
    x < y
}

/// Relies on `rust_decimal::Decimal`'s `PartialEq`: decimals compare equal
/// exactly when their numeric values are equal.
#[verifier::external_body]
pub fn dec_eq_exec(a: Dec, b: Dec) -> (r: bool)
    ensures
        r <==> dec_eq_val(a.mant(), a.scl(), b.mant(), b.scl()),
{
    let x = rust_decimal::Decimal::from_i128_with_scale(a.m, a.s);
    let y = rust_decimal::Decimal::from_i128_with_scale(b.m, b.s);
    x == y
}

/// Relies on `rust_decimal::Decimal`'s `Display`: the canonical textual
/// form of the value, a function of the components alone.
#[verifier::external_body]
pub fn dec_to_string(a: Dec) -> (r: String)
    ensures
        r@ == dec_str(a.mant(), a.scl()),
{
    let x = rust_decimal::Decimal::from_i128_with_scale(a.m, a.s);
    format!("{}", x)
}

} // verus!
