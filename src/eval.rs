//! Tree-walking evaluation of an expression to a number or a boolean.
//!
//! A number is the bit pattern of an IEEE-754 binary64 value. Sign, zero,
//! negation and ordering are read off the bits here; the four arithmetic
//! operations are done by a caller-supplied function.
use vstd::prelude::*;

use crate::ast::{BinaryOp, Expr};

verus! {

/// The sign bit of a binary64 pattern.
pub const SIGN_BIT: u64 = 0x8000_0000_0000_0000;

/// The largest magnitude that is no NaN: the pattern of infinity.
pub const INFINITY_BITS: u64 = 0x7FF0_0000_0000_0000;

/// The pattern of `1.0`.
pub const ONE_BITS: u64 = 0x3FF0_0000_0000_0000;

/// The result of an evaluation.
#[derive(Clone, Copy, Debug, PartialEq, Eq, Structural)]
pub enum Value {
    Number(u64),
    Bool(bool),
}

#[derive(Clone, Copy, Debug, PartialEq, Eq, Structural)]
pub enum EvalError {
    /// A unary node whose operator is neither `+`, `-` nor `!`.
    UnsupportedUnaryOp,
    /// A binary node whose operator is `!`.
    UnsupportedBinaryOp,
    /// A division whose right operand is `0` or `false`.
    DivisionByZero,
}

pub open spec fn sign_of(b: u64) -> bool {
    b >= SIGN_BIT
}

/// The pattern without its sign bit.
pub open spec fn magnitude(b: u64) -> u64 {
    if sign_of(b) { (b - SIGN_BIT) as u64 } else { b }
}

pub open spec fn is_nan(b: u64) -> bool {
    magnitude(b) > INFINITY_BITS
}

/// `+0.0` and `-0.0`.
pub open spec fn is_zero(b: u64) -> bool {
    magnitude(b) == 0
}

/// The number is greater than `0.0`.
pub open spec fn is_positive(b: u64) -> bool {
    !sign_of(b) && !is_zero(b) && !is_nan(b)
}

/// The number with its sign flipped, as IEEE-754 negation does.
pub open spec fn negated(b: u64) -> u64 {
    if sign_of(b) { (b - SIGN_BIT) as u64 } else { (b + SIGN_BIT) as u64 }
}

/// For numbers that are no NaN, a key whose integer order is the order of
/// the numbers; both zeros get the key 0.
pub open spec fn order_key(b: u64) -> int {
    if sign_of(b) { -(magnitude(b) as int) } else { magnitude(b) as int }
}

pub open spec fn is_comparison(op: BinaryOp) -> bool {
    op == BinaryOp::Eq || op == BinaryOp::Neq || op == BinaryOp::Gt || op == BinaryOp::Gte
        || op == BinaryOp::Lt || op == BinaryOp::Lte
}

pub open spec fn is_arithmetic(op: BinaryOp) -> bool {
    op == BinaryOp::Add || op == BinaryOp::Sub || op == BinaryOp::Mul || op == BinaryOp::Div
}

/// How IEEE-754 compares two numbers: a NaN is unequal to everything and
/// unordered.
pub open spec fn float_compare(op: BinaryOp, x: u64, y: u64) -> bool {
    if is_nan(x) || is_nan(y) {
        op == BinaryOp::Neq
    } else {
        let (a, b) = (order_key(x), order_key(y));
        match op {
            BinaryOp::Eq => a == b,
            BinaryOp::Neq => a != b,
            BinaryOp::Gt => a > b,
            BinaryOp::Gte => a >= b,
            BinaryOp::Lt => a < b,
            _ => a <= b,
        }
    }
}

impl Value {
    /// The value as a number: `true` is `1.0`, `false` is `0.0`.
    pub open spec fn spec_as_number(self) -> u64 {
        match self {
            Value::Number(n) => n,
            Value::Bool(b) => if b { ONE_BITS } else { 0 },
        }
    }

    /// A number is truthy when it is greater than `0.0`.
    pub open spec fn spec_is_truthy(self) -> bool {
        match self {
            Value::Number(n) => is_positive(n),
            Value::Bool(b) => b,
        }
    }

    /// Both operands are brought to numbers before they are compared; two
    /// booleans thus compare as booleans, `false` below `true`.
    pub open spec fn spec_compare(self, op: BinaryOp, other: Value) -> bool {
        float_compare(op, self.spec_as_number(), other.spec_as_number())
    }

    pub open spec fn spec_is_zero(self) -> bool {
        self == Value::Bool(false) || (self is Number && is_zero(self->Number_0))
    }

    pub fn as_number(&self) -> (r: u64)
        ensures
            r == self.spec_as_number(),
    {
        match self {
            Value::Number(n) => *n,
            Value::Bool(b) => if *b { ONE_BITS } else { 0 },
        }
    }

    pub fn is_truthy(&self) -> (r: bool)
        ensures
            r == self.spec_is_truthy(),
    {
        match self {
            Value::Number(n) => number_is_positive(*n),
            Value::Bool(b) => *b,
        }
    }

    /// Logical and of the two operands' truthiness.
    pub fn and(&self, right: &Value) -> (r: bool)
        ensures
            r == (self.spec_is_truthy() && right.spec_is_truthy()),
    {
        let a = self.is_truthy();
        let b = right.is_truthy();
        a && b
    }

    /// Logical or of the two operands' truthiness.
    pub fn or(&self, right: &Value) -> (r: bool)
        ensures
            r == (self.spec_is_truthy() || right.spec_is_truthy()),
    {
        let a = self.is_truthy();
        let b = right.is_truthy();
        a || b
    }

    /// Compares by one of `==, !=, >, >=, <, <=`.
    pub fn compare(&self, op: BinaryOp, other: &Value) -> (r: bool)
        requires
            is_comparison(op),
        ensures
            r == self.spec_compare(op, *other),
    {
        let x = self.as_number();
        let y = other.as_number();
        if number_is_nan(x) || number_is_nan(y) {
            return op == BinaryOp::Neq;
        }
        let mx = number_magnitude(x);
        let my = number_magnitude(y);
        let sx = x >= SIGN_BIT && mx != 0;
        let sy = y >= SIGN_BIT && my != 0;
        // Whether x is below y, and whether they are equal.
        let less = if sx != sy {
            sx
        } else if sx {
            mx > my
        } else {
            mx < my
        };
        let equal = sx == sy && mx == my;
        match op {
            BinaryOp::Eq => equal,
            BinaryOp::Neq => !equal,
            BinaryOp::Gt => !less && !equal,
            BinaryOp::Gte => !less,
            BinaryOp::Lt => less,
            _ => less || equal,
        }
    }

    /// Whether the value counts as zero for a division.
    pub fn is_zero(&self) -> (r: bool)
        ensures
            r == self.spec_is_zero(),
    {
        match self {
            Value::Number(n) => number_magnitude(*n) == 0,
            Value::Bool(b) => !*b,
        }
    }
}

pub fn number_magnitude(b: u64) -> (r: u64)
    ensures
        r == magnitude(b),
{
    if b >= SIGN_BIT { b - SIGN_BIT } else { b }
}

pub fn number_is_nan(b: u64) -> (r: bool)
    ensures
        r == is_nan(b),
{
    number_magnitude(b) > INFINITY_BITS
}

pub fn number_is_positive(b: u64) -> (r: bool)
    ensures
        r == is_positive(b),
{
    let m = number_magnitude(b);
    b < SIGN_BIT && m != 0 && m <= INFINITY_BITS
}

pub fn number_negated(b: u64) -> (r: u64)
    ensures
        r == negated(b),
{
    if b >= SIGN_BIT { b - SIGN_BIT } else { b + SIGN_BIT }
}

/// The value of a unary node whose operand evaluated to `v`.
pub open spec fn unary_value(op: BinaryOp, v: Value) -> Value {
    match (op, v) {
        (BinaryOp::Sub, Value::Number(n)) => Value::Number(negated(n)),
        (BinaryOp::Sub, Value::Bool(b)) => Value::Bool(!b),
        (BinaryOp::Not, Value::Number(n)) => Value::Bool(is_zero(n)),
        (BinaryOp::Not, Value::Bool(b)) => Value::Bool(!b),
        _ => v,
    }
}

/// `res` may come of a binary node with operator `op` whose operands
/// evaluated to `l` and `r`; `arith` does the arithmetic.
pub open spec fn combines<A: Fn(BinaryOp, u64, u64) -> u64>(
    op: BinaryOp,
    l: Value,
    r: Value,
    arith: A,
    res: Result<Value, EvalError>,
) -> bool {
    if is_arithmetic(op) {
        if op == BinaryOp::Div && r.spec_is_zero() {
            res == Err::<Value, EvalError>(EvalError::DivisionByZero)
        } else {
            res is Ok && res->Ok_0 is Number && arith.ensures(
                (op, l.spec_as_number(), r.spec_as_number()),
                res->Ok_0->Number_0,
            )
        }
    } else if is_comparison(op) {
        res == Ok::<Value, EvalError>(Value::Bool(l.spec_compare(op, r)))
    } else if op == BinaryOp::And {
        res == Ok::<Value, EvalError>(Value::Bool(l.spec_is_truthy() && r.spec_is_truthy()))
    } else if op == BinaryOp::Or {
        res == Ok::<Value, EvalError>(Value::Bool(l.spec_is_truthy() || r.spec_is_truthy()))
    } else {
        res == Err::<Value, EvalError>(EvalError::UnsupportedBinaryOp)
    }
}

/// The outcome of each node of an evaluation, laid out as the expression
/// tree is: `first` is the operand or left operand, `second` the right one.
pub enum Trace {
    Node { res: Result<Value, EvalError>, first: Box<Trace>, second: Box<Trace> },
    Leaf,
}

impl Trace {
    pub open spec fn outcome(self) -> Result<Value, EvalError> {
        match self {
            Trace::Node { res, .. } => res,
            Trace::Leaf => Err(EvalError::UnsupportedUnaryOp),
        }
    }

    pub open spec fn first(self) -> Trace {
        match self {
            Trace::Node { first, .. } => *first,
            Trace::Leaf => Trace::Leaf,
        }
    }

    pub open spec fn second(self) -> Trace {
        match self {
            Trace::Node { second, .. } => *second,
            Trace::Leaf => Trace::Leaf,
        }
    }
}

/// `t` records an evaluation of `e`, `arith` doing the arithmetic. Operands
/// are evaluated left before right, and the first error is the result.
pub open spec fn consistent<A: Fn(BinaryOp, u64, u64) -> u64>(e: Expr, t: Trace, arith: A) -> bool
    decreases e,
{
    t is Node && match e {
        Expr::Number(n) => t.outcome() == Ok::<Value, EvalError>(Value::Number(n)),
        Expr::UnaryOp { op, expr } => {
            if op == BinaryOp::Add || op == BinaryOp::Sub || op == BinaryOp::Not {
                consistent(*expr, t.first(), arith) && match t.first().outcome() {
                    Ok(v) => t.outcome() == Ok::<Value, EvalError>(unary_value(op, v)),
                    Err(x) => t.outcome() == Err::<Value, EvalError>(x),
                }
            } else {
                t.outcome() == Err::<Value, EvalError>(EvalError::UnsupportedUnaryOp)
            }
        },
        Expr::BinaryOp { left, op, right } => consistent(*left, t.first(), arith) && match t.first().outcome() {
            Err(x) => t.outcome() == Err::<Value, EvalError>(x),
            Ok(l) => consistent(*right, t.second(), arith) && match t.second().outcome() {
                Err(x) => t.outcome() == Err::<Value, EvalError>(x),
                Ok(r) => combines(op, l, r, arith, t.outcome()),
            },
        },
    }
}

/// `res` may come of evaluating `e`, `arith` doing the arithmetic.
pub open spec fn evaluates_to<A: Fn(BinaryOp, u64, u64) -> u64>(
    e: Expr,
    arith: A,
    res: Result<Value, EvalError>,
) -> bool {
    exists|t: Trace| #[trigger] consistent(e, t, arith) && t.outcome() == res
}

/// The value of a unary node whose operand evaluated to `v`: `+` keeps it,
/// `-` negates a number and a boolean, `!` is true of zero and of `false`.
pub fn apply_unary(op: BinaryOp, v: Value) -> (r: Result<Value, EvalError>)
    ensures
        op == BinaryOp::Add || op == BinaryOp::Sub || op == BinaryOp::Not ==> r == Ok::<
            Value,
            EvalError,
        >(unary_value(op, v)),
        !(op == BinaryOp::Add || op == BinaryOp::Sub || op == BinaryOp::Not) ==> r == Err::<
            Value,
            EvalError,
        >(EvalError::UnsupportedUnaryOp),
{
    match op {
        BinaryOp::Add => Ok(v),
        BinaryOp::Sub => match v {
            Value::Number(n) => Ok(Value::Number(number_negated(n))),
            Value::Bool(b) => Ok(Value::Bool(!b)),
        },
        BinaryOp::Not => match v {
            Value::Number(n) => Ok(Value::Bool(number_magnitude(n) == 0)),
            Value::Bool(b) => Ok(Value::Bool(!b)),
        },
        _ => Err(EvalError::UnsupportedUnaryOp),
    }
}

/// The value of a binary node whose operands evaluated to `l` and `r`.
pub fn apply_binary<A: Fn(BinaryOp, u64, u64) -> u64>(op: BinaryOp, l: Value, r: Value, arith: &A) -> (res: Result<Value, EvalError>)
    requires
        forall|o: BinaryOp, x: u64, y: u64| is_arithmetic(o) ==> arith.requires((o, x, y)),
    ensures
        combines(op, l, r, *arith, res),
{
    match op {
        BinaryOp::Add | BinaryOp::Sub | BinaryOp::Mul | BinaryOp::Div => {
            if op == BinaryOp::Div && r.is_zero() {
                return Err(EvalError::DivisionByZero);
            }
            let x = arith(op, l.as_number(), r.as_number());
            Ok(Value::Number(x))
        },
        BinaryOp::Eq | BinaryOp::Neq | BinaryOp::Gt | BinaryOp::Gte | BinaryOp::Lt
        | BinaryOp::Lte => Ok(Value::Bool(l.compare(op, &r))),
        BinaryOp::And => Ok(Value::Bool(l.and(&r))),
        BinaryOp::Or => Ok(Value::Bool(l.or(&r))),
        BinaryOp::Not => Err(EvalError::UnsupportedBinaryOp),
    }
}

fn eval_traced<A: Fn(BinaryOp, u64, u64) -> u64>(expr: &Expr, arith: &A) -> (r: (
    Result<Value, EvalError>,
    Ghost<Trace>,
))
    requires
        forall|o: BinaryOp, x: u64, y: u64| is_arithmetic(o) ==> arith.requires((o, x, y)),
    ensures
        consistent(*expr, r.1@, *arith),
        r.1@.outcome() == r.0,
    decreases expr,
{
    match expr {
        Expr::Number(n) => {
            let res = Ok(Value::Number(*n));
            let ghost t = Trace::Node { res, first: Box::new(Trace::Leaf), second: Box::new(Trace::Leaf) };
            (res, Ghost(t))
        },
        Expr::UnaryOp { op, expr: inner } => {
            if !(*op == BinaryOp::Add || *op == BinaryOp::Sub || *op == BinaryOp::Not) {
                let res = Err(EvalError::UnsupportedUnaryOp);
                let ghost t = Trace::Node { res, first: Box::new(Trace::Leaf), second: Box::new(Trace::Leaf) };
                return (res, Ghost(t));
            }
            let (v, Ghost(ti)) = eval_traced(inner, arith);
            let res = match v {
                Ok(v) => apply_unary(*op, v),
                Err(x) => Err(x),
            };
            let ghost t = Trace::Node { res, first: Box::new(ti), second: Box::new(Trace::Leaf) };
            (res, Ghost(t))
        },
        Expr::BinaryOp { left, op, right } => {
            let (lr, Ghost(tl)) = eval_traced(left, arith);
            let l = match lr {
                Ok(l) => l,
                Err(x) => {
                    let ghost t = Trace::Node { res: lr, first: Box::new(tl), second: Box::new(Trace::Leaf) };
                    return (Err(x), Ghost(t));
                },
            };
            let (rr, Ghost(tr)) = eval_traced(right, arith);
            let res = match rr {
                Ok(r) => apply_binary(*op, l, r, arith),
                Err(x) => Err(x),
            };
            let ghost t = Trace::Node { res, first: Box::new(tl), second: Box::new(tr) };
            (res, Ghost(t))
        },
    }
}

/// Evaluates `expr`. `arith` adds, subtracts, multiplies or divides two
/// numbers given by their bit patterns; operands are brought to numbers
/// before it is called, and it is never called to divide by zero.
pub fn eval<A: Fn(BinaryOp, u64, u64) -> u64>(expr: &Expr, arith: &A) -> (r: Result<Value, EvalError>)
    requires
        forall|o: BinaryOp, x: u64, y: u64| is_arithmetic(o) ==> arith.requires((o, x, y)),
    ensures
        evaluates_to(*expr, *arith, r),
{
    let (r, Ghost(t)) = eval_traced(expr, arith);
    assert(consistent(*expr, t, *arith));
    r
}

} // verus!
