//! Front end and evaluator of a small scripting language: a
//! precedence-driven statement/expression parser over a stream of spanned
//! tokens, and a tree-walking evaluator with a typed runtime-value model,
//! a flat variable environment, and mutability enforcement.
//!
//! The lexer and the command-line driver are external collaborators: the
//! library consumes a `Vec<(TokenType, Span)>` and produces its observable
//! output as a sequence of printed lines collected by the interpreter.

pub mod ast;
pub mod copying;
pub mod decimal;
pub mod eval;
pub mod interner;
pub mod laws;
pub mod object;
pub mod parser;
pub mod render;
pub mod semantics;
pub mod span;
pub mod token;
