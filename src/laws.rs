//! Laws of evaluation and of printing trees, proved from the specifications
//! that the evaluator and the parser meet.
use vstd::prelude::*;

use crate::ast::{expr_tokens, BinaryOp, Expr};
use crate::lexer::Token;
use crate::parser::{fold_tier, parse_primary, parse_spec, parse_tier, prefix_op, tier_op, MAX_DEPTH};
use crate::eval::{consistent, evaluates_to, negated, EvalError, Trace, Value};

verus! {

/// A number evaluates to itself, and to nothing else.
pub proof fn number_evaluates_to_itself<A: Fn(BinaryOp, u64, u64) -> u64>(
    n: u64,
    arith: A,
    res: Result<Value, EvalError>,
)
    ensures
        evaluates_to(Expr::Number(n), arith, res) <==> res == Ok::<Value, EvalError>(
            Value::Number(n),
        ),
{
    if res == Ok::<Value, EvalError>(Value::Number(n)) {
        let t = Trace::Node { res, first: Box::new(Trace::Leaf), second: Box::new(Trace::Leaf) };
        assert(consistent(Expr::Number(n), t, arith));
    }
}

/// Negating an expression that evaluates to a number gives that number with
/// its sign flipped.
pub proof fn negation_flips_sign<A: Fn(BinaryOp, u64, u64) -> u64>(e: Expr, arith: A, n: u64)
    requires
        evaluates_to(e, arith, Ok(Value::Number(n))),
    ensures
        evaluates_to(
            Expr::UnaryOp { op: BinaryOp::Sub, expr: Box::new(e) },
            arith,
            Ok(Value::Number(negated(n))),
        ),
{
    let inner = choose|t: Trace| #[trigger] consistent(e, t, arith) && t.outcome() == Ok::<
        Value,
        EvalError,
    >(Value::Number(n));
    let res = Ok::<Value, EvalError>(Value::Number(negated(n)));
    let t = Trace::Node { res, first: Box::new(inner), second: Box::new(Trace::Leaf) };
    assert(consistent(Expr::UnaryOp { op: BinaryOp::Sub, expr: Box::new(e) }, t, arith));
}

/// Unary nodes carry `+`, `-` or `!`; binary nodes any operator but `!`.
pub open spec fn printable(e: Expr) -> bool
    decreases e,
{
    match e {
        Expr::Number(_) => true,
        Expr::UnaryOp { op, expr } => (op == BinaryOp::Add || op == BinaryOp::Sub || op
            == BinaryOp::Not) && printable(*expr),
        Expr::BinaryOp { left, op, right } => op != BinaryOp::Not && printable(*left) && printable(
            *right,
        ),
    }
}

/// How deep inner nodes nest; each is printed inside its own parentheses.
pub open spec fn nesting(e: Expr) -> nat
    decreases e,
{
    match e {
        Expr::Number(_) => 0,
        Expr::UnaryOp { expr, .. } => 1 + nesting(*expr),
        Expr::BinaryOp { left, right, .. } => 1 + if nesting(*left) >= nesting(*right) {
            nesting(*left)
        } else {
            nesting(*right)
        },
    }
}

/// The parser tier of a binary operator.
pub open spec fn tier_of(op: BinaryOp) -> int {
    match op {
        BinaryOp::Or => 0,
        BinaryOp::And => 1,
        BinaryOp::Add | BinaryOp::Sub => 3,
        BinaryOp::Mul | BinaryOp::Div => 4,
        _ => 2,
    }
}

pub open spec fn occurs_at(toks: Seq<Token>, pos: int, t: Seq<Token>) -> bool {
    0 <= pos && pos + t.len() <= toks.len() && toks.subrange(pos, pos + t.len()) == t
}

/// The token after an operand stops the folding of every tier from `level`
/// on.
pub open spec fn stops(toks: Seq<Token>, p: int, level: int) -> bool {
    forall|j: int| level <= j < 5 ==> !(p < toks.len() && #[trigger] tier_op(j, toks[p]) is Some)
}

proof fn lemma_tier_of_atom(toks: Seq<Token>, pos: int, level: int, depth: int, e: Expr, p: int)
    requires
        0 <= level <= 5,
        0 <= pos < p <= toks.len(),
        parse_tier(toks, pos, 5, depth) == Ok::<(Expr, int), crate::parser::ParseError>((e, p)),
        stops(toks, p, level),
    ensures
        parse_tier(toks, pos, level, depth) == Ok::<(Expr, int), crate::parser::ParseError>((e, p)),
    decreases 5 - level,
{
    if level < 5 {
        lemma_tier_of_atom(toks, pos, level + 1, depth, e, p);
        assert(!(p < toks.len() && tier_op(level, toks[p]) is Some));
        assert(fold_tier(toks, p, level, depth, e) == Ok::<(Expr, int), crate::parser::ParseError>((e, p)));
    }
}

proof fn lemma_tier_of_binary(
    toks: Seq<Token>,
    pos: int,
    level: int,
    depth: int,
    l: Expr,
    op: BinaryOp,
    r: Expr,
    pl: int,
    pr: int,
)
    requires
        op != BinaryOp::Not,
        0 <= level <= tier_of(op),
        0 <= pos < pl,
        pl + 1 < pr < toks.len(),
        toks[pl] == op.spec_token(),
        toks[pr] == Token::RParen,
        parse_tier(toks, pos, 5, depth) == Ok::<(Expr, int), crate::parser::ParseError>((l, pl)),
        parse_tier(toks, pl + 1, 5, depth) == Ok::<(Expr, int), crate::parser::ParseError>((r, pr)),
    ensures
        parse_tier(toks, pos, level, depth) == Ok::<(Expr, int), crate::parser::ParseError>(
            (Expr::BinaryOp { left: Box::new(l), op, right: Box::new(r) }, pr),
        ),
    decreases tier_of(op) - level,
{
    let b = Expr::BinaryOp { left: Box::new(l), op, right: Box::new(r) };
    let k = tier_of(op);
    assert(tier_op(k, toks[pl]) == Some(op));
    assert(!(tier_op(level, toks[pr]) is Some));
    assert(fold_tier(toks, pr, level, depth, b) == Ok::<(Expr, int), crate::parser::ParseError>((b, pr)));
    if level == k {
        assert(stops(toks, pl, k + 1));
        assert(stops(toks, pr, k + 1));
        lemma_tier_of_atom(toks, pos, k + 1, depth, l, pl);
        lemma_tier_of_atom(toks, pl + 1, k + 1, depth, r, pr);
        assert(fold_tier(toks, pr, k, depth, b) == Ok::<(Expr, int), crate::parser::ParseError>((b, pr)));
        assert(fold_tier(toks, pl, k, depth, l) == fold_tier(toks, pr, k, depth, b));
        assert(parse_tier(toks, pos, k, depth) == fold_tier(toks, pl, k, depth, l));
    } else {
        lemma_tier_of_binary(toks, pos, level + 1, depth, l, op, r, pl, pr);
        assert(parse_tier(toks, pos, level, depth) == fold_tier(toks, pr, level, depth, b));
    }
}

proof fn lemma_printed_primary(toks: Seq<Token>, pos: int, depth: int, e: Expr)
    requires
        printable(e),
        0 <= depth,
        depth + nesting(e) <= MAX_DEPTH,
        occurs_at(toks, pos, expr_tokens(e)),
    ensures
        parse_primary(toks, pos, depth) == Ok::<(Expr, int), crate::parser::ParseError>(
            (e, pos + expr_tokens(e).len()),
        ),
        parse_tier(toks, pos, 5, depth) == Ok::<(Expr, int), crate::parser::ParseError>(
            (e, pos + expr_tokens(e).len()),
        ),
    decreases e,
{
    let t = expr_tokens(e);
    assert(toks[pos] == t[0]) by {
        assert(toks.subrange(pos, pos + t.len())[0] == t[0]);
    }
    match e {
        Expr::Number(n) => {},
        Expr::UnaryOp { op, expr } => {
            let x = *expr;
            let tx = expr_tokens(x);
            let px = pos + 2 + tx.len();
            assert(toks.subrange(pos + 2, px) =~= tx) by {
                assert forall|i: int| 0 <= i < tx.len() implies toks.subrange(pos + 2, px)[i] == tx[i] by {
                    assert(toks.subrange(pos, pos + t.len())[2 + i] == t[2 + i]);
                }
            }
            assert(toks[pos + 1] == op.spec_token()) by {
                assert(toks.subrange(pos, pos + t.len())[1] == t[1]);
            }
            assert(toks[px] == Token::RParen) by {
                assert(toks.subrange(pos, pos + t.len())[px - pos] == t[px - pos]);
            }
            lemma_printed_primary(toks, pos + 2, depth + 1, x);
            assert(prefix_op(toks[pos + 1]) == Some(op));
            assert(parse_tier(toks, pos + 1, 5, depth + 1) == Ok::<(Expr, int), crate::parser::ParseError>((e, px)));
            assert(stops(toks, px, 0));
            lemma_tier_of_atom(toks, pos + 1, 0, depth + 1, e, px);
        },
        Expr::BinaryOp { left, op, right } => {
            let l = *left;
            let r = *right;
            let tl = expr_tokens(l);
            let tr = expr_tokens(r);
            let pl = pos + 1 + tl.len();
            let pr = pl + 1 + tr.len();
            assert(toks.subrange(pos + 1, pl) =~= tl) by {
                assert forall|i: int| 0 <= i < tl.len() implies toks.subrange(pos + 1, pl)[i] == tl[i] by {
                    assert(toks.subrange(pos, pos + t.len())[1 + i] == t[1 + i]);
                }
            }
            assert(toks.subrange(pl + 1, pr) =~= tr) by {
                assert forall|i: int| 0 <= i < tr.len() implies toks.subrange(pl + 1, pr)[i] == tr[i] by {
                    assert(toks.subrange(pos, pos + t.len())[pl + 1 - pos + i] == t[pl + 1 - pos + i]);
                }
            }
            assert(toks[pl] == op.spec_token()) by {
                assert(toks.subrange(pos, pos + t.len())[pl - pos] == t[pl - pos]);
            }
            assert(toks[pr] == Token::RParen) by {
                assert(toks.subrange(pos, pos + t.len())[pr - pos] == t[pr - pos]);
            }
            lemma_printed_primary(toks, pos + 1, depth + 1, l);
            lemma_printed_primary(toks, pl + 1, depth + 1, r);
            lemma_tier_of_binary(toks, pos + 1, 0, depth + 1, l, op, r, pl, pr);
        },
    }
}

/// Printing a tree as tokens, every inner node in parentheses, and parsing
/// those tokens gives the same tree back, for trees whose operators can
/// stand where they are and whose parentheses nest no deeper than the
/// parser's limit.
pub proof fn printed_tree_parses_back(e: Expr)
    requires
        printable(e),
        nesting(e) <= MAX_DEPTH,
    ensures
        parse_spec(expr_tokens(e)) == Ok::<Expr, crate::parser::ParseError>(e),
{
    let t = expr_tokens(e);
    assert(t.subrange(0, t.len() as int) =~= t);
    lemma_printed_primary(t, 0, 0, e);
    lemma_tier_of_atom(t, 0, 0, 0, e, t.len() as int);
}

} // verus!
