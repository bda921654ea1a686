use expr_eval::ast::{BinaryOp, Expr};
use expr_eval::eval::{eval, EvalError, Value};

fn arith(op: BinaryOp, x: u64, y: u64) -> u64 {
    let (a, b) = (f64::from_bits(x), f64::from_bits(y));
    let r = match op {
        BinaryOp::Add => a + b,
        BinaryOp::Sub => a - b,
        BinaryOp::Mul => a * b,
        _ => a / b,
    };
    r.to_bits()
}

fn number_expr(n: f64) -> Expr {
    Expr::Number(n.to_bits())
}

fn number(n: f64) -> Value {
    Value::Number(n.to_bits())
}

fn binary(l: f64, op: BinaryOp, r: f64) -> Expr {
    Expr::BinaryOp {
        left: Box::new(number_expr(l)),
        op,
        right: Box::new(number_expr(r)),
    }
}

#[test]
fn test_number() {
    let expr = number_expr(42.0);
    let result = eval(&expr, &arith).unwrap();
    assert_eq!(result, number(42.0));
}

#[test]
fn test_unary_op() {
    let expr = Expr::UnaryOp {
        op: BinaryOp::Sub,
        expr: Box::new(number_expr(5.0)),
    };
    let result = eval(&expr, &arith).unwrap();
    assert_eq!(result, number(-5.0));
}

#[test]
fn test_binary_op_add() {
    let result = eval(&binary(2.0, BinaryOp::Add, 3.0), &arith).unwrap();
    assert_eq!(result, number(5.0));
}

#[test]
fn test_binary_op_sub() {
    let result = eval(&binary(5.0, BinaryOp::Sub, 3.0), &arith).unwrap();
    assert_eq!(result, number(2.0));
}

#[test]
fn test_binary_op_mul() {
    let result = eval(&binary(4.0, BinaryOp::Mul, 2.0), &arith).unwrap();
    assert_eq!(result, number(8.0));
}

#[test]
fn test_binary_op_div() {
    let result = eval(&binary(10.0, BinaryOp::Div, 2.0), &arith).unwrap();
    assert_eq!(result, number(5.0));
}

#[test]
fn test_binary_op_eq() {
    let result = eval(&binary(3.0, BinaryOp::Eq, 3.0), &arith).unwrap();
    assert_eq!(result, Value::Bool(true));
}

#[test]
fn test_binary_op_neq() {
    let result = eval(&binary(3.0, BinaryOp::Neq, 4.0), &arith).unwrap();
    assert_eq!(result, Value::Bool(true));
}

#[test]
fn test_binary_op_gt() {
    let result = eval(&binary(5.0, BinaryOp::Gt, 3.0), &arith).unwrap();
    assert_eq!(result, Value::Bool(true));
}

#[test]
fn test_binary_op_gte() {
    let result = eval(&binary(5.0, BinaryOp::Gte, 5.0), &arith).unwrap();
    assert_eq!(result, Value::Bool(true));
}

#[test]
fn test_binary_op_lt() {
    let result = eval(&binary(2.0, BinaryOp::Lt, 3.0), &arith).unwrap();
    assert_eq!(result, Value::Bool(true));
}

#[test]
fn test_binary_op_lte() {
    let result = eval(&binary(2.0, BinaryOp::Lte, 2.0), &arith).unwrap();
    assert_eq!(result, Value::Bool(true));
}

#[test]
fn test_divide_by_zero() {
    let result = eval(&binary(10.0, BinaryOp::Div, 0.0), &arith);
    assert!(result.is_err());
    assert_eq!(result, Err(EvalError::DivisionByZero));
}

#[test]
fn negative_zero_divisor_is_zero() {
    let result = eval(&binary(1.0, BinaryOp::Div, -0.0), &arith);
    assert_eq!(result, Err(EvalError::DivisionByZero));
}

#[test]
fn false_divisor_is_zero() {
    let expr = Expr::BinaryOp {
        left: Box::new(number_expr(1.0)),
        op: BinaryOp::Div,
        right: Box::new(binary(1.0, BinaryOp::Gt, 2.0)),
    };
    assert_eq!(eval(&expr, &arith), Err(EvalError::DivisionByZero));
}

#[test]
fn truthiness_of_numbers() {
    assert!(number(0.5).and(&Value::Bool(true)));
    assert!(!number(0.0).and(&Value::Bool(true)));
    assert!(!number(-1.0).or(&Value::Bool(false)));
    assert!(number(-1.0).or(&Value::Bool(true)));
    let and = Expr::BinaryOp {
        left: Box::new(number_expr(0.5)),
        op: BinaryOp::And,
        right: Box::new(binary(1.0, BinaryOp::Eq, 1.0)),
    };
    assert_eq!(eval(&and, &arith), Ok(Value::Bool(true)));
    let and = Expr::BinaryOp {
        left: Box::new(number_expr(0.0)),
        op: BinaryOp::And,
        right: Box::new(binary(1.0, BinaryOp::Eq, 1.0)),
    };
    assert_eq!(eval(&and, &arith), Ok(Value::Bool(false)));
}

#[test]
fn booleans_compare_as_numbers() {
    let t = Value::Bool(true);
    let f = Value::Bool(false);
    assert!(t.compare(BinaryOp::Eq, &number(1.0)));
    assert!(f.compare(BinaryOp::Eq, &number(0.0)));
    assert!(f.compare(BinaryOp::Lt, &t));
    assert!(number(0.5).compare(BinaryOp::Lt, &t));
    assert!(number(2.0).compare(BinaryOp::Gt, &t));
    assert!(number(-3.0).compare(BinaryOp::Lt, &number(-2.0)));
    assert!(number(-0.0).compare(BinaryOp::Eq, &number(0.0)));
    assert!(number(-1.0).compare(BinaryOp::Lt, &number(0.0)));
    assert!(number(f64::NEG_INFINITY).compare(BinaryOp::Lt, &number(-1e300)));
}

#[test]
fn nan_is_unordered() {
    let nan = number(f64::NAN);
    assert!(!nan.compare(BinaryOp::Eq, &nan));
    assert!(nan.compare(BinaryOp::Neq, &nan));
    assert!(!nan.compare(BinaryOp::Lt, &number(1.0)));
    assert!(!nan.compare(BinaryOp::Gte, &number(1.0)));
    assert!(!nan.is_truthy());
}

#[test]
fn coercion_to_number() {
    assert_eq!(Value::Bool(true).as_number(), 1.0f64.to_bits());
    assert_eq!(Value::Bool(false).as_number(), 0.0f64.to_bits());
    let sum = Expr::BinaryOp {
        left: Box::new(binary(1.0, BinaryOp::Lt, 2.0)),
        op: BinaryOp::Add,
        right: Box::new(number_expr(2.5)),
    };
    assert_eq!(eval(&sum, &arith), Ok(number(3.5)));
}

#[test]
fn unary_operators() {
    let not0 = Expr::UnaryOp { op: BinaryOp::Not, expr: Box::new(number_expr(0.0)) };
    assert_eq!(eval(&not0, &arith), Ok(Value::Bool(true)));
    let not2 = Expr::UnaryOp { op: BinaryOp::Not, expr: Box::new(number_expr(2.0)) };
    assert_eq!(eval(&not2, &arith), Ok(Value::Bool(false)));
    let plus = Expr::UnaryOp { op: BinaryOp::Add, expr: Box::new(number_expr(-2.0)) };
    assert_eq!(eval(&plus, &arith), Ok(number(-2.0)));
    let neg_bool = Expr::UnaryOp {
        op: BinaryOp::Sub,
        expr: Box::new(binary(1.0, BinaryOp::Lt, 2.0)),
    };
    assert_eq!(eval(&neg_bool, &arith), Ok(Value::Bool(false)));
}

#[test]
fn negation_of_any_number() {
    for x in [0.0, -0.0, 1.5, -7.25, 1e300, f64::INFINITY] {
        let e = Expr::UnaryOp { op: BinaryOp::Sub, expr: Box::new(number_expr(x)) };
        assert_eq!(eval(&e, &arith), Ok(Value::Number((-x).to_bits())));
    }
}

#[test]
fn unsupported_operators() {
    let e = Expr::UnaryOp { op: BinaryOp::Mul, expr: Box::new(number_expr(1.0)) };
    assert_eq!(eval(&e, &arith), Err(EvalError::UnsupportedUnaryOp));
    assert_eq!(
        eval(&binary(1.0, BinaryOp::Not, 2.0), &arith),
        Err(EvalError::UnsupportedBinaryOp)
    );
}

#[test]
fn left_error_comes_first() {
    let bad_left = Expr::UnaryOp { op: BinaryOp::Div, expr: Box::new(number_expr(1.0)) };
    let e = Expr::BinaryOp {
        left: Box::new(bad_left),
        op: BinaryOp::Add,
        right: Box::new(binary(1.0, BinaryOp::Div, 0.0)),
    };
    assert_eq!(eval(&e, &arith), Err(EvalError::UnsupportedUnaryOp));
}
