//! The token alphabet the parser consumes.
//!
//! The external lexer classifies source text into these tokens and hands
//! the parser a `Vec<(TokenType, Span)>`. Identifiers arrive as stable
//! 64-bit hashes of their text, string literals as interner handles, and
//! decimal literals as `Dec` values; the stream carries no end marker —
//! the end of the vector is the end of the input.

use vstd::prelude::*;

use std::collections::hash_map::DefaultHasher;
use std::hash::Hasher;

use crate::decimal::Dec;
use vstd::std_specs::hash::DefaultHasherAdditionalSpecFns;
use vstd::string::StringSliceAdditionalSpecFns;

verus! {

/// The stable 64-bit handle of an identifier's text: the standard
/// hasher, freshly keyed, run over the text's bytes. The same text
/// always gets the same handle.
pub fn convert_to_hash(t: &str) -> (r: u64)
    ensures
        r == DefaultHasher::spec_finish(
            Seq::<Seq<u8>>::empty().push(t.spec_bytes()),
        ),
{
    let mut hasher = DefaultHasher::new();
    hasher.write(t.as_bytes());
    hasher.finish()
}

/// A lexical token.
#[derive(Debug, Clone, Copy, PartialEq, Eq, Structural)]
pub enum TokenType {
    Test,
    Struct,
    Class,
    Trait,
    Enum,
    Impl,
    Defer,
    Case,
    BitPack,
    Function,
    Define,
    If,
    Elif,
    Else,
    Match,
    And,
    Or,
    Not,
    For,
    While,
    Loop,
    Skip,
    Stop,
    Var,
    Let,
    Scope,
    Val,
    Ref,
    In,
    Out,
    Const,
    Mutable,
    Params,
    External,
    Use,
    With,
    PlusAssign,
    MinusAssign,
    TimesAssign,
    DivAssign,
    Assign,
    Plus,
    Minus,
    Times,
    Div,
    Equal,
    NotEqual,
    GreaterThan,
    LessThan,
    GreaterThanEqual,
    LessThanEqual,
    LeftParenthesis,
    RightParenthesis,
    LeftBracket,
    RightBracket,
    LeftSquareBracket,
    RightSquareBracket,
    SemiColon,
    Colon,
    SkinnyArrow,
    FatArrow,
    Comma,
    IsNull,
    NullChecker,
    AttributeStart,
    WildCard,
    Identifier(u64),
    Number(i32),
    FloatingNumber(Dec),
    StringLiteral(u32),
    CharLiteral(char),
    True,
    False,
    Null,
    EOF,
}

/// Why lexing failed; the lexer reports these, the parser never sees
/// them.
#[derive(Debug, Clone, Copy, PartialEq, Eq, Structural)]
pub enum LexingErrorKind {
    IntOverflowError,
    IntZeroOrEmptyError,
    InvalidParseError,
    Other,
}

} // verus!
