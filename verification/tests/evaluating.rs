//! Tests of the evaluator: operator semantics, mutability and
//! redeclaration, printing, matching, loops, functions and defer.

use scorpio::ast::{
    Assign, AssignOp, Binary, BinaryOp, DeclarationType, Expr, Literal, MatchStmt, Pattern,
    Statement, Unary, UnaryOp,
};
use scorpio::decimal::Dec;
use scorpio::eval::Interperter;
use scorpio::object::{EvalError, Object};
use scorpio::parser::parse;
use scorpio::span::{Span, Spanned};
use scorpio::token::{convert_to_hash, TokenType};

fn sp() -> Span {
    Span::new(0, 0)
}

fn lit(o: Object) -> Expr {
    Expr::Literal(Literal { value: Spanned(o, sp()) })
}

fn int_lit(i: i32) -> Expr {
    lit(Object::Integer(i))
}

fn bin(op: BinaryOp, l: Expr, r: Expr) -> Expr {
    Expr::Binary(Binary {
        left: Box::new(Spanned(l, sp())),
        operator: Spanned(op, sp()),
        right: Box::new(Spanned(r, sp())),
    })
}

fn toks(kinds: Vec<TokenType>) -> Vec<(TokenType, Span)> {
    kinds
        .into_iter()
        .enumerate()
        .map(|(i, t)| (t, Span::new(i, i + 1)))
        .collect()
}

fn dec(m: i128, s: u32) -> Dec {
    Dec::new(m, s).unwrap()
}

#[test]
fn left_associative_subtraction_evaluates() {
    // 1 - 2 - 3 is (1 - 2) - 3 = -4, never 1 - (2 - 3) = 2
    let stream = toks(vec![
        TokenType::Number(1),
        TokenType::Minus,
        TokenType::Number(2),
        TokenType::Minus,
        TokenType::Number(3),
    ]);
    let stmt = parse(&stream);
    let expr = match stmt {
        Statement::Expression { expr } => expr.0,
        other => panic!("expected expression, got {:?}", other),
    };
    let mut interp = Interperter::new();
    assert_eq!(interp.expr_eval(expr), Ok(Object::Integer(-4)));
}

#[test]
fn precedence_evaluates() {
    // 2 + 3 * 4 = 14
    let stream = toks(vec![
        TokenType::Number(2),
        TokenType::Plus,
        TokenType::Number(3),
        TokenType::Times,
        TokenType::Number(4),
    ]);
    let expr = match parse(&stream) {
        Statement::Expression { expr } => expr.0,
        other => panic!("expected expression, got {:?}", other),
    };
    let mut interp = Interperter::new();
    assert_eq!(interp.expr_eval(expr), Ok(Object::Integer(14)));

    // (2 + 3) * 4 = 20
    let stream = toks(vec![
        TokenType::LeftParenthesis,
        TokenType::Number(2),
        TokenType::Plus,
        TokenType::Number(3),
        TokenType::RightParenthesis,
        TokenType::Times,
        TokenType::Number(4),
    ]);
    let expr = match parse(&stream) {
        Statement::Expression { expr } => expr.0,
        other => panic!("expected expression, got {:?}", other),
    };
    let mut interp = Interperter::new();
    assert_eq!(interp.expr_eval(expr), Ok(Object::Integer(20)));
}

#[test]
fn uniform_tier_evaluates_under_strict_comparison() {
    // 1 < 2 and 3 > 2 parses as ((1 < 2) and 3) > 2. The left fold
    // gives Boolean(false) for the `and` (3 is not Boolean(true)), and
    // comparing a boolean against an integer is a type error under the
    // strict same-variant comparison rule, not a silent answer.
    let stream = toks(vec![
        TokenType::Number(1),
        TokenType::LessThan,
        TokenType::Number(2),
        TokenType::And,
        TokenType::Number(3),
        TokenType::GreaterThan,
        TokenType::Number(2),
    ]);
    let expr = match parse(&stream) {
        Statement::Expression { expr } => expr.0,
        other => panic!("expected expression, got {:?}", other),
    };
    let mut interp = Interperter::new();
    assert_eq!(interp.expr_eval(expr), Err(EvalError::TypeMismatch));

    // the same fold over booleans only evaluates through: true and true
    let e = bin(
        BinaryOp::And,
        bin(BinaryOp::LessThan, int_lit(1), int_lit(2)),
        bin(BinaryOp::GreaterThan, int_lit(3), int_lit(2)),
    );
    let mut interp = Interperter::new();
    assert_eq!(interp.expr_eval(e), Ok(Object::Boolean(true)));
}

#[test]
fn and_or_do_not_short_circuit() {
    // true or (1 / 0) errors even though the left operand already
    // settles the logical answer; same for false and (1 / 0).
    let div0 = bin(BinaryOp::Div, int_lit(1), int_lit(0));
    let e = bin(BinaryOp::Or, lit(Object::Boolean(true)), div0);
    let mut interp = Interperter::new();
    assert_eq!(interp.expr_eval(e), Err(EvalError::DivisionByZero));

    let div0 = bin(BinaryOp::Div, int_lit(1), int_lit(0));
    let e = bin(BinaryOp::And, lit(Object::Boolean(false)), div0);
    let mut interp = Interperter::new();
    assert_eq!(interp.expr_eval(e), Err(EvalError::DivisionByZero));
}

fn declare(name: u64, mutable: bool, value: Expr) -> Statement {
    Statement::Declaration {
        declaration_type: if mutable {
            DeclarationType::Mutable
        } else {
            DeclarationType::Immutable
        },
        name: Spanned(name, sp()),
        manual_type: None,
        value: Box::new(Spanned(value, sp())),
    }
}

fn assign(name: u64, op: AssignOp, value: Expr) -> Statement {
    Statement::Assign(Assign {
        name: Spanned(name, sp()),
        operator: Spanned(op, sp()),
        value: Box::new(Spanned(value, sp())),
    })
}

#[test]
fn immutable_bindings_reject_assignment() {
    let x = convert_to_hash("x");
    let mut interp = Interperter::new();
    assert_eq!(interp.stmt_eval(declare(x, false, int_lit(1))), Ok(()));
    assert_eq!(
        interp.stmt_eval(assign(x, AssignOp::Assign, int_lit(2))),
        Err(EvalError::Immutable)
    );
    // the binding still reads back as 1
    assert_eq!(
        interp.expr_eval(Expr::Variable { name: Spanned(x, sp()) }),
        Ok(Object::Integer(1))
    );
}

#[test]
fn mutable_bindings_accept_assignment() {
    let x = convert_to_hash("x");
    let mut interp = Interperter::new();
    assert_eq!(interp.stmt_eval(declare(x, true, int_lit(1))), Ok(()));
    assert_eq!(interp.stmt_eval(assign(x, AssignOp::Assign, int_lit(2))), Ok(()));
    assert_eq!(
        interp.expr_eval(Expr::Variable { name: Spanned(x, sp()) }),
        Ok(Object::Integer(2))
    );
    // compound assignment reads, combines and stores
    assert_eq!(interp.stmt_eval(assign(x, AssignOp::Add, int_lit(40))), Ok(()));
    assert_eq!(
        interp.expr_eval(Expr::Variable { name: Spanned(x, sp()) }),
        Ok(Object::Integer(42))
    );
}

#[test]
fn redeclaration_fails_and_keeps_first_binding() {
    let x = convert_to_hash("x");
    let mut interp = Interperter::new();
    assert_eq!(interp.stmt_eval(declare(x, false, int_lit(1))), Ok(()));
    assert_eq!(
        interp.stmt_eval(declare(x, false, int_lit(2))),
        Err(EvalError::AlreadyDeclared)
    );
    assert_eq!(
        interp.expr_eval(Expr::Variable { name: Spanned(x, sp()) }),
        Ok(Object::Integer(1))
    );
}

#[test]
fn test_statement_prints_canonical_literals() {
    let mut interp = Interperter::new();
    let h = interp.intern("Hello World!").unwrap();
    let cases = vec![
        (Object::Integer(3), "3"),
        (Object::Integer(-5), "-5"),
        (Object::Integer(0), "0"),
        (Object::Integer(i32::MIN), "-2147483648"),
        (Object::Float(dec(35, 1)), "3.5"),
        (Object::Boolean(true), "true"),
        (Object::Boolean(false), "false"),
        (Object::NullValue, "null"),
        (Object::Str(h), "Hello World!"),
    ];
    for (i, (value, expected)) in cases.into_iter().enumerate() {
        assert_eq!(interp.stmt_eval(Statement::Test(lit(value))), Ok(()));
        assert_eq!(interp.output()[i], expected);
    }
}

#[test]
fn division_by_zero_is_an_error() {
    // test 4 / 0; fails with DivisionByZero, not a substituted value
    let stream = toks(vec![
        TokenType::Test,
        TokenType::Number(4),
        TokenType::Div,
        TokenType::Number(0),
        TokenType::SemiColon,
    ]);
    let stmt = parse(&stream);
    let mut interp = Interperter::new();
    assert_eq!(interp.stmt_eval(stmt), Err(EvalError::DivisionByZero));
    assert_eq!(interp.output().len(), 0);

    // decimal by decimal zero as well
    let e = bin(
        BinaryOp::Div,
        lit(Object::Float(dec(15, 1))),
        lit(Object::Float(dec(0, 0))),
    );
    let mut interp = Interperter::new();
    assert_eq!(interp.expr_eval(e), Err(EvalError::DivisionByZero));
}

#[test]
fn match_runs_first_matching_arm_only() {
    // match 1 { 1 => x = 10;, 1 => x = 20; } runs only the first arm
    let x = convert_to_hash("x");
    let mut interp = Interperter::new();
    assert_eq!(interp.stmt_eval(declare(x, true, int_lit(0))), Ok(()));
    let m = Statement::MatchStmt(MatchStmt {
        predicate: Box::new(Spanned(int_lit(1), sp())),
        then_branches: Spanned(
            vec![
                (
                    Pattern::Literal(Literal { value: Spanned(Object::Integer(1), sp()) }),
                    assign(x, AssignOp::Assign, int_lit(10)),
                ),
                (
                    Pattern::Literal(Literal { value: Spanned(Object::Integer(1), sp()) }),
                    assign(x, AssignOp::Assign, int_lit(20)),
                ),
            ],
            sp(),
        ),
    });
    assert_eq!(interp.stmt_eval(m), Ok(()));
    assert_eq!(
        interp.expr_eval(Expr::Variable { name: Spanned(x, sp()) }),
        Ok(Object::Integer(10))
    );
}

#[test]
fn match_without_matching_arm_is_a_no_op() {
    let x = convert_to_hash("x");
    let mut interp = Interperter::new();
    assert_eq!(interp.stmt_eval(declare(x, true, int_lit(0))), Ok(()));
    let m = Statement::MatchStmt(MatchStmt {
        predicate: Box::new(Spanned(int_lit(5), sp())),
        then_branches: Spanned(
            vec![(
                Pattern::Literal(Literal { value: Spanned(Object::Integer(1), sp()) }),
                assign(x, AssignOp::Assign, int_lit(10)),
            )],
            sp(),
        ),
    });
    assert_eq!(interp.stmt_eval(m), Ok(()));
    assert_eq!(
        interp.expr_eval(Expr::Variable { name: Spanned(x, sp()) }),
        Ok(Object::Integer(0))
    );
}

#[test]
fn wildcard_matches_and_type_name_does_not() {
    let x = convert_to_hash("x");
    let mut interp = Interperter::new();
    assert_eq!(interp.stmt_eval(declare(x, true, int_lit(0))), Ok(()));
    let m = Statement::MatchStmt(MatchStmt {
        predicate: Box::new(Spanned(int_lit(5), sp())),
        then_branches: Spanned(
            vec![
                (
                    Pattern::TypeName(scorpio::ast::Type::Ident(convert_to_hash("Integer"))),
                    assign(x, AssignOp::Assign, int_lit(99)),
                ),
                (Pattern::WildCard, assign(x, AssignOp::Assign, int_lit(7))),
            ],
            sp(),
        ),
    });
    assert_eq!(interp.stmt_eval(m), Ok(()));
    assert_eq!(
        interp.expr_eval(Expr::Variable { name: Spanned(x, sp()) }),
        Ok(Object::Integer(7))
    );
}

#[test]
fn while_loop_counts_up() {
    // { var i = 0; while i < 3 { i += 1; } test i; } prints 3
    let i = convert_to_hash("i");
    let body = Statement::WhileStmt {
        condition: Box::new(Spanned(
            bin(BinaryOp::LessThan, Expr::Variable { name: Spanned(i, sp()) }, int_lit(3)),
            sp(),
        )),
        then_branch: Box::new(Spanned(
            Statement::Block {
                statments: vec![Spanned(assign(i, AssignOp::Add, int_lit(1)), sp())],
            },
            sp(),
        )),
    };
    let mut interp = Interperter::new();
    assert_eq!(interp.stmt_eval(declare(i, true, int_lit(0))), Ok(()));
    assert_eq!(interp.stmt_eval(body), Ok(()));
    assert_eq!(
        interp.expr_eval(Expr::Variable { name: Spanned(i, sp()) }),
        Ok(Object::Integer(3))
    );
}

#[test]
fn while_condition_must_be_boolean() {
    let w = Statement::WhileStmt {
        condition: Box::new(Spanned(int_lit(1), sp())),
        then_branch: Box::new(Spanned(Statement::Empty, sp())),
    };
    let mut interp = Interperter::new();
    assert_eq!(interp.stmt_eval(w), Err(EvalError::TypeMismatch));
}

#[test]
fn public_eval_entry_points() {
    let mut interp = Interperter::new();
    assert_eq!(
        interp.unary_eval(Unary {
            operator: Spanned(UnaryOp::Neg, sp()),
            right: Box::new(Spanned(int_lit(5), sp())),
        }),
        Ok(Object::Integer(-5))
    );
    let mut interp = Interperter::new();
    assert_eq!(
        interp.unary_eval(Unary {
            operator: Spanned(UnaryOp::Not, sp()),
            right: Box::new(Spanned(lit(Object::Boolean(false)), sp())),
        }),
        Ok(Object::Boolean(true))
    );
    let mut interp = Interperter::new();
    assert_eq!(
        interp.binary_eval(Binary {
            left: Box::new(Spanned(int_lit(20), sp())),
            operator: Spanned(BinaryOp::Mul, sp()),
            right: Box::new(Spanned(int_lit(2), sp())),
        }),
        Ok(Object::Integer(40))
    );
    let mut interp = Interperter::new();
    let i = convert_to_hash("i");
    assert_eq!(interp.stmt_eval(declare(i, true, int_lit(0))), Ok(()));
    assert_eq!(
        interp.while_eval(
            bin(BinaryOp::LessThan, Expr::Variable { name: Spanned(i, sp()) }, int_lit(2)),
            assign(i, AssignOp::Add, int_lit(1)),
        ),
        Ok(())
    );
    assert_eq!(
        interp.expr_eval(Expr::Variable { name: Spanned(i, sp()) }),
        Ok(Object::Integer(2))
    );
}

#[test]
fn remaining_error_kinds_surface() {
    // an undeclared variable
    let mut interp = Interperter::new();
    let x = convert_to_hash("x");
    assert_eq!(
        interp.expr_eval(Expr::Variable { name: Spanned(x, sp()) }),
        Err(EvalError::UndeclaredVariable)
    );
    // assignment to an undeclared variable
    assert_eq!(
        interp.stmt_eval(assign(x, AssignOp::Assign, int_lit(1))),
        Err(EvalError::UndeclaredVariable)
    );
    // a type mismatch in arithmetic
    assert_eq!(
        interp.expr_eval(bin(BinaryOp::Add, lit(Object::Boolean(true)), int_lit(1))),
        Err(EvalError::TypeMismatch)
    );
    // an if condition that is not a boolean
    assert_eq!(
        interp.stmt_eval(Statement::IfStmt {
            condition: Box::new(Spanned(int_lit(1), sp())),
            then_branch: Box::new(Spanned(Statement::Empty, sp())),
            else_branch: None,
        }),
        Err(EvalError::TypeMismatch)
    );
    // a parse-error placeholder reached at runtime
    assert_eq!(interp.stmt_eval(Statement::Error), Err(EvalError::ErrorStatement));
    assert_eq!(interp.expr_eval(Expr::Error), Err(EvalError::ErrorStatement));
    // a string handle the interner does not hold
    assert_eq!(
        interp.stmt_eval(Statement::Test(lit(Object::Str(12345)))),
        Err(EvalError::UnknownSymbol)
    );
    // a decimal result outside the representable range
    let big = dec(79228162514264337593543950335, 0);
    assert_eq!(
        interp.expr_eval(bin(
            BinaryOp::Mul,
            lit(Object::Float(big)),
            lit(Object::Float(big)),
        )),
        Err(EvalError::Overflow)
    );
}

#[test]
fn decimal_arithmetic_and_comparison() {
    let mut interp = Interperter::new();
    // 1.5 + 2.25 = 3.75
    assert_eq!(
        interp.expr_eval(bin(
            BinaryOp::Add,
            lit(Object::Float(dec(15, 1))),
            lit(Object::Float(dec(225, 2))),
        )),
        Ok(Object::Float(dec(375, 2)))
    );
    // 2.25 - 1.5 = 0.75
    assert_eq!(
        interp.expr_eval(bin(
            BinaryOp::Sub,
            lit(Object::Float(dec(225, 2))),
            lit(Object::Float(dec(15, 1))),
        )),
        Ok(Object::Float(dec(75, 2)))
    );
    // 1.5 * 2.0 = 3.00
    assert_eq!(
        interp.expr_eval(bin(
            BinaryOp::Mul,
            lit(Object::Float(dec(15, 1))),
            lit(Object::Float(dec(20, 1))),
        )),
        Ok(Object::Float(dec(300, 2)))
    );
    // 3.0 / 2.0 = 1.50, at the scale the decimal division yields
    assert_eq!(
        interp.expr_eval(bin(
            BinaryOp::Div,
            lit(Object::Float(dec(30, 1))),
            lit(Object::Float(dec(20, 1))),
        )),
        Ok(Object::Float(dec(150, 2)))
    );
    // mixed: 1 + 0.5 promotes the integer
    assert_eq!(
        interp.expr_eval(bin(BinaryOp::Add, int_lit(1), lit(Object::Float(dec(5, 1))))),
        Ok(Object::Float(dec(15, 1)))
    );
    // 1.0 equals 1.00 numerically, whatever the scales
    assert_eq!(
        interp.expr_eval(bin(
            BinaryOp::Equal,
            lit(Object::Float(dec(10, 1))),
            lit(Object::Float(dec(100, 2))),
        )),
        Ok(Object::Boolean(true))
    );
    // 1.5 < 2 across integer and decimal
    assert_eq!(
        interp.expr_eval(bin(BinaryOp::LessThan, lit(Object::Float(dec(15, 1))), int_lit(2))),
        Ok(Object::Boolean(true))
    );
}

#[test]
fn string_concatenation_interns_the_result() {
    let mut interp = Interperter::new();
    let a = interp.intern("Hello, ").unwrap();
    let b = interp.intern("world").unwrap();
    let e = bin(BinaryOp::Add, lit(Object::Str(a)), lit(Object::Str(b)));
    let joined = match interp.expr_eval(e) {
        Ok(Object::Str(h)) => h,
        other => panic!("expected a string, got {:?}", other),
    };
    assert_eq!(interp.resolve(joined).unwrap(), "Hello, world");
    // equal strings share a handle, so equality by handle is content
    // equality
    let c = interp.intern("world").unwrap();
    assert_eq!(b, c);
    let e = bin(BinaryOp::Equal, lit(Object::Str(b)), lit(Object::Str(c)));
    assert_eq!(interp.expr_eval(e), Ok(Object::Boolean(true)));
}

#[test]
fn ternary_is_lazy() {
    // if true : 1 else (1 / 0) never evaluates the unchosen branch
    let e = Expr::TernaryIf {
        condition: Box::new(Spanned(lit(Object::Boolean(true)), sp())),
        value: Box::new(Spanned(int_lit(1), sp())),
        else_value: Box::new(Spanned(bin(BinaryOp::Div, int_lit(1), int_lit(0)), sp())),
    };
    let mut interp = Interperter::new();
    assert_eq!(interp.expr_eval(e), Ok(Object::Integer(1)));
}

#[test]
fn functions_declare_call_and_unbind() {
    // fn f(val a : T) { test a; }  then f(7) prints 7 and leaves no
    // binding behind; the call itself is Null.
    let stream = toks(vec![
        TokenType::Function,
        TokenType::Identifier(convert_to_hash("f")),
        TokenType::LeftParenthesis,
        TokenType::Val,
        TokenType::Identifier(convert_to_hash("a")),
        TokenType::Colon,
        TokenType::Identifier(convert_to_hash("T")),
        TokenType::RightParenthesis,
        TokenType::LeftBracket,
        TokenType::Test,
        TokenType::Identifier(convert_to_hash("a")),
        TokenType::SemiColon,
        TokenType::RightBracket,
    ]);
    let decl = parse(&stream);
    let mut interp = Interperter::new();
    assert_eq!(interp.stmt_eval(decl), Ok(()));
    let call = Expr::FunctionCall {
        func_name: Box::new(Spanned(convert_to_hash("f"), sp())),
        arguments: Some(vec![int_lit(7)]),
    };
    assert_eq!(interp.expr_eval(call), Ok(Object::NullValue));
    assert_eq!(interp.output()[0], "7");
    // the parameter is unbound again
    assert_eq!(
        interp.expr_eval(Expr::Variable { name: Spanned(convert_to_hash("a"), sp()) }),
        Err(EvalError::UndeclaredVariable)
    );
    // wrong arity is a type mismatch
    let call = Expr::FunctionCall {
        func_name: Box::new(Spanned(convert_to_hash("f"), sp())),
        arguments: Some(vec![]),
    };
    assert_eq!(interp.expr_eval(call), Err(EvalError::TypeMismatch));
    // calling an undeclared function
    let call = Expr::FunctionCall {
        func_name: Box::new(Spanned(convert_to_hash("g"), sp())),
        arguments: None,
    };
    assert_eq!(interp.expr_eval(call), Err(EvalError::UndeclaredVariable));
}

#[test]
fn defer_runs_at_block_end_in_reverse_order() {
    // { test 1; defer test 2; defer test 3; test 4; } prints 1 4 3 2
    let block = Statement::Block {
        statments: vec![
            Spanned(Statement::Test(int_lit(1)), sp()),
            Spanned(
                Statement::Defer {
                    defered_statment: Box::new(Spanned(Statement::Test(int_lit(2)), sp())),
                },
                sp(),
            ),
            Spanned(
                Statement::Defer {
                    defered_statment: Box::new(Spanned(Statement::Test(int_lit(3)), sp())),
                },
                sp(),
            ),
            Spanned(Statement::Test(int_lit(4)), sp()),
        ],
    };
    let mut interp = Interperter::new();
    assert_eq!(interp.stmt_eval(block), Ok(()));
    let printed: Vec<&str> = interp.output().iter().map(|s| s.as_str()).collect();
    assert_eq!(printed, vec!["1", "4", "3", "2"]);
}

#[test]
fn expression_statement_discards_its_value() {
    let s = Statement::Expression {
        expr: Box::new(Spanned(bin(BinaryOp::Add, int_lit(1), int_lit(2)), sp())),
    };
    let mut interp = Interperter::new();
    assert_eq!(interp.stmt_eval(s), Ok(()));
    assert_eq!(interp.output().len(), 0);
}

#[test]
fn integer_arithmetic_wraps_and_truncates() {
    let mut interp = Interperter::new();
    // wrapping addition at the i32 boundary
    assert_eq!(
        interp.expr_eval(bin(BinaryOp::Add, int_lit(i32::MAX), int_lit(1))),
        Ok(Object::Integer(i32::MIN))
    );
    // division truncates toward zero
    assert_eq!(
        interp.expr_eval(bin(BinaryOp::Div, int_lit(-7), int_lit(2))),
        Ok(Object::Integer(-3))
    );
    // the one unrepresentable quotient keeps the original's zero
    assert_eq!(
        interp.expr_eval(bin(BinaryOp::Div, int_lit(i32::MIN), int_lit(-1))),
        Ok(Object::Integer(0))
    );
}

#[test]
fn hashes_are_stable_per_text() {
    assert_eq!(convert_to_hash("x"), convert_to_hash("x"));
    assert_ne!(convert_to_hash("x"), convert_to_hash("y"));
}

#[test]
fn parsed_test_statements_print_canonical_forms() {
    // the full pipeline from tokens: test <literal>; prints the
    // literal's canonical textual form, for every literal kind
    let mut interp = Interperter::new();
    let h = interp.intern("hi").unwrap();
    let cases = vec![
        (TokenType::Number(3), "3"),
        (TokenType::FloatingNumber(dec(35, 1)), "3.5"),
        (TokenType::True, "true"),
        (TokenType::False, "false"),
        (TokenType::Null, "null"),
        (TokenType::StringLiteral(h), "hi"),
        (TokenType::CharLiteral('A'), "65"),
    ];
    for (i, (token, expected)) in cases.into_iter().enumerate() {
        let stream = toks(vec![TokenType::Test, token, TokenType::SemiColon]);
        let stmt = parse(&stream);
        assert_eq!(interp.stmt_eval(stmt), Ok(()));
        assert_eq!(interp.output()[i], expected);
    }
}
