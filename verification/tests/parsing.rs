//! Tests of the parser: precedence, associativity, the uniform
//! comparison tier, statement forms, and error recovery inside blocks.

use scorpio::ast::{AssignOp, BinaryOp, DeclarationType, Expr, Statement};
use scorpio::parser::parse;
use scorpio::span::Span;
use scorpio::token::TokenType;

fn toks(kinds: Vec<TokenType>) -> Vec<(TokenType, Span)> {
    kinds
        .into_iter()
        .enumerate()
        .map(|(i, t)| (t, Span::new(i, i + 1)))
        .collect()
}

fn num(i: i32) -> TokenType {
    TokenType::Number(i)
}

#[test]
fn sub_is_left_associative() {
    // 1 - 2 - 3 parses as (1 - 2) - 3
    let stream = toks(vec![num(1), TokenType::Minus, num(2), TokenType::Minus, num(3)]);
    let stmt = parse(&stream);
    let expr = match stmt {
        Statement::Expression { expr } => expr.0,
        other => panic!("expected expression statement, got {:?}", other),
    };
    match expr {
        Expr::Binary(outer) => {
            assert_eq!(outer.operator.0, BinaryOp::Sub);
            match (*outer.left).0 {
                Expr::Binary(inner) => {
                    assert_eq!(inner.operator.0, BinaryOp::Sub);
                    assert!(matches!((*inner.left).0, Expr::Literal(_)));
                    assert!(matches!((*inner.right).0, Expr::Literal(_)));
                }
                other => panic!("expected left-leaning tree, got {:?}", other),
            }
            assert!(matches!((*outer.right).0, Expr::Literal(_)));
        }
        other => panic!("expected binary expression, got {:?}", other),
    }
}

#[test]
fn product_binds_tighter_than_sum() {
    // 2 + 3 * 4 parses as 2 + (3 * 4)
    let stream = toks(vec![num(2), TokenType::Plus, num(3), TokenType::Times, num(4)]);
    let stmt = parse(&stream);
    let expr = match stmt {
        Statement::Expression { expr } => expr.0,
        other => panic!("expected expression statement, got {:?}", other),
    };
    match expr {
        Expr::Binary(outer) => {
            assert_eq!(outer.operator.0, BinaryOp::Add);
            assert!(matches!((*outer.left).0, Expr::Literal(_)));
            match (*outer.right).0 {
                Expr::Binary(inner) => assert_eq!(inner.operator.0, BinaryOp::Mul),
                other => panic!("expected product on the right, got {:?}", other),
            }
        }
        other => panic!("expected binary expression, got {:?}", other),
    }
}

#[test]
fn comparison_and_logic_share_one_tier() {
    // All comparison and logical operators fold in one left-associative
    // tier, so 1 < 2 and 3 > 2 parses as ((1 < 2) and 3) > 2 — no
    // precedence gap between `<`, `and` and `>`.
    let stream = toks(vec![
        num(1),
        TokenType::LessThan,
        num(2),
        TokenType::And,
        num(3),
        TokenType::GreaterThan,
        num(2),
    ]);
    let stmt = parse(&stream);
    let expr = match stmt {
        Statement::Expression { expr } => expr.0,
        other => panic!("expected expression statement, got {:?}", other),
    };
    match expr {
        Expr::Binary(outer) => {
            assert_eq!(outer.operator.0, BinaryOp::GreaterThan);
            match (*outer.left).0 {
                Expr::Binary(mid) => {
                    assert_eq!(mid.operator.0, BinaryOp::And);
                    match (*mid.left).0 {
                        Expr::Binary(inner) => {
                            assert_eq!(inner.operator.0, BinaryOp::LessThan)
                        }
                        other => panic!("expected 1 < 2 innermost, got {:?}", other),
                    }
                }
                other => panic!("expected and in the middle, got {:?}", other),
            }
        }
        other => panic!("expected binary expression, got {:?}", other),
    }
}

#[test]
fn malformed_statement_recovers_inside_block() {
    // { let x = 1; : ; let y = 2; } — the stray colon becomes one Error
    // node and both declarations survive as siblings.
    let stream = toks(vec![
        TokenType::LeftBracket,
        TokenType::Let,
        TokenType::Identifier(1),
        TokenType::Assign,
        num(1),
        TokenType::SemiColon,
        TokenType::Colon,
        TokenType::SemiColon,
        TokenType::Let,
        TokenType::Identifier(2),
        TokenType::Assign,
        num(2),
        TokenType::SemiColon,
        TokenType::RightBracket,
    ]);
    let stmt = parse(&stream);
    match stmt {
        Statement::Block { statments } => {
            assert_eq!(statments.len(), 3);
            assert!(matches!(statments[0].0, Statement::Declaration { .. }));
            assert!(matches!(statments[1].0, Statement::Error));
            assert!(matches!(statments[2].0, Statement::Declaration { .. }));
        }
        other => panic!("expected a block, got {:?}", other),
    }
}

#[test]
fn statement_forms_parse() {
    // test 1;
    let stream = toks(vec![TokenType::Test, num(1), TokenType::SemiColon]);
    assert!(matches!(parse(&stream), Statement::Test(_)));

    // x += 2;
    let stream = toks(vec![
        TokenType::Identifier(9),
        TokenType::PlusAssign,
        num(2),
        TokenType::SemiColon,
    ]);
    match parse(&stream) {
        Statement::Assign(a) => assert_eq!(a.operator.0, AssignOp::Add),
        other => panic!("expected assignment, got {:?}", other),
    }

    // var x = 1;
    let stream = toks(vec![
        TokenType::Var,
        TokenType::Identifier(9),
        TokenType::Assign,
        num(1),
        TokenType::SemiColon,
    ]);
    match parse(&stream) {
        Statement::Declaration { declaration_type, .. } => {
            assert_eq!(declaration_type, DeclarationType::Mutable)
        }
        other => panic!("expected declaration, got {:?}", other),
    }

    // ;
    let stream = toks(vec![TokenType::SemiColon]);
    assert!(matches!(parse(&stream), Statement::Empty));

    // trailing garbage makes the whole parse the Error placeholder
    let stream = toks(vec![TokenType::Test, num(1), TokenType::SemiColon, TokenType::Colon]);
    assert!(matches!(parse(&stream), Statement::Error));
}

#[test]
fn if_while_func_and_match_parse() {
    // if true { ; } else ;
    let stream = toks(vec![
        TokenType::If,
        TokenType::True,
        TokenType::LeftBracket,
        TokenType::SemiColon,
        TokenType::RightBracket,
        TokenType::Else,
        TokenType::SemiColon,
    ]);
    assert!(matches!(parse(&stream), Statement::IfStmt { .. }));

    // while true { ; }
    let stream = toks(vec![
        TokenType::While,
        TokenType::True,
        TokenType::LeftBracket,
        TokenType::SemiColon,
        TokenType::RightBracket,
    ]);
    assert!(matches!(parse(&stream), Statement::WhileStmt { .. }));

    // fn f(val a : T) { ; }
    let stream = toks(vec![
        TokenType::Function,
        TokenType::Identifier(5),
        TokenType::LeftParenthesis,
        TokenType::Val,
        TokenType::Identifier(6),
        TokenType::Colon,
        TokenType::Identifier(7),
        TokenType::RightParenthesis,
        TokenType::LeftBracket,
        TokenType::SemiColon,
        TokenType::RightBracket,
    ]);
    match parse(&stream) {
        Statement::FuncDeclaration { parameters, .. } => {
            assert_eq!(parameters.unwrap().len(), 1)
        }
        other => panic!("expected function declaration, got {:?}", other),
    }

    // match 1 { 1 => ;, _ => ; }
    let stream = toks(vec![
        TokenType::Match,
        num(1),
        TokenType::LeftBracket,
        num(1),
        TokenType::FatArrow,
        TokenType::SemiColon,
        TokenType::Comma,
        TokenType::WildCard,
        TokenType::FatArrow,
        TokenType::SemiColon,
        TokenType::RightBracket,
    ]);
    match parse(&stream) {
        Statement::MatchStmt(m) => assert_eq!(m.then_branches.0.len(), 2),
        other => panic!("expected match statement, got {:?}", other),
    }

    // defer test 1;
    let stream = toks(vec![
        TokenType::Defer,
        TokenType::Test,
        num(1),
        TokenType::SemiColon,
    ]);
    assert!(matches!(parse(&stream), Statement::Defer { .. }));
}

#[test]
fn ternary_and_call_expressions_parse() {
    // if true : 1 else 2
    let stream = toks(vec![
        TokenType::If,
        TokenType::True,
        TokenType::Colon,
        num(1),
        TokenType::Else,
        num(2),
    ]);
    match parse(&stream) {
        Statement::Expression { expr } => {
            assert!(matches!(expr.0, Expr::TernaryIf { .. }))
        }
        other => panic!("expected expression statement, got {:?}", other),
    }

    // f(1, 2)
    let stream = toks(vec![
        TokenType::Identifier(5),
        TokenType::LeftParenthesis,
        num(1),
        TokenType::Comma,
        num(2),
        TokenType::RightParenthesis,
    ]);
    match parse(&stream) {
        Statement::Expression { expr } => match expr.0 {
            Expr::FunctionCall { arguments, .. } => {
                assert_eq!(arguments.unwrap().len(), 2)
            }
            other => panic!("expected call, got {:?}", other),
        },
        other => panic!("expected expression statement, got {:?}", other),
    }
}
