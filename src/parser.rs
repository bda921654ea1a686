//! Recursive-descent parsing of a token sequence into an expression tree.
//!
//! Tiers, lowest precedence first: `||`, `&&`, comparisons, `+ -`, `* /`,
//! each left-associative; then a prefix `+`, `-` or `!` bound to a single
//! primary; a primary is a number or a parenthesized expression.
use vstd::prelude::*;

use crate::ast::{BinaryOp, Expr};
use crate::lexer::Token;

verus! {

/// The deepest nesting of parentheses that is parsed.
pub const MAX_DEPTH: usize = 128;

/// The tier of prefix operators; the binary tiers are numbered below it.
pub const UNARY_TIER: usize = 5;

#[derive(Clone, Copy, Debug, PartialEq, Eq, Structural)]
pub enum ParseError {
    /// A token, or the end of input, where a number or `(` was expected.
    UnexpectedToken,
    /// A parenthesized expression not closed by `)`.
    UnmatchedParen,
    /// Tokens left over after a complete expression.
    TrailingTokens,
    /// Parentheses nested deeper than `MAX_DEPTH`.
    TooDeep,
}

/// The binary operator that `t` stands for on tier `level`.
pub open spec fn tier_op(level: int, t: Token) -> Option<BinaryOp> {
    if level == 0 {
        if t == Token::Or { Some(BinaryOp::Or) } else { None }
    } else if level == 1 {
        if t == Token::And { Some(BinaryOp::And) } else { None }
    } else if level == 2 {
        match t {
            Token::Equal => Some(BinaryOp::Eq),
            Token::NotEqual => Some(BinaryOp::Neq),
            Token::Greater => Some(BinaryOp::Gt),
            Token::GreaterEqual => Some(BinaryOp::Gte),
            Token::Less => Some(BinaryOp::Lt),
            Token::LessEqual => Some(BinaryOp::Lte),
            _ => None,
        }
    } else if level == 3 {
        match t {
            Token::Plus => Some(BinaryOp::Add),
            Token::Minus => Some(BinaryOp::Sub),
            _ => None,
        }
    } else if level == 4 {
        match t {
            Token::Star => Some(BinaryOp::Mul),
            Token::Slash => Some(BinaryOp::Div),
            _ => None,
        }
    } else {
        None
    }
}

/// The operator of a prefix token.
pub open spec fn prefix_op(t: Token) -> Option<BinaryOp> {
    match t {
        Token::Plus => Some(BinaryOp::Add),
        Token::Minus => Some(BinaryOp::Sub),
        Token::Not => Some(BinaryOp::Not),
        _ => None,
    }
}

/// A tree parsed from `toks` and the position just after it.
pub type Parsed = Result<(Expr, int), ParseError>;

/// The expression of tier `level` that starts at `pos`, inside `depth`
/// parentheses.
pub open spec fn parse_tier(toks: Seq<Token>, pos: int, level: int, depth: int) -> Parsed
    decreases toks.len() - pos, 8 - level,
{
    if !(0 <= pos <= toks.len() && 0 <= level <= UNARY_TIER) {
        Err(ParseError::UnexpectedToken)
    } else if level == UNARY_TIER {
        if pos < toks.len() && prefix_op(toks[pos]) is Some {
            match parse_primary(toks, pos + 1, depth) {
                Ok((e, p)) => Ok(
                    (Expr::UnaryOp { op: prefix_op(toks[pos])->0, expr: Box::new(e) }, p),
                ),
                Err(x) => Err(x),
            }
        } else {
            parse_primary(toks, pos, depth)
        }
    } else {
        match parse_tier(toks, pos, level + 1, depth) {
            Ok((e, p)) => if pos < p <= toks.len() {
                fold_tier(toks, p, level, depth, e)
            } else {
                Err(ParseError::UnexpectedToken)
            },
            Err(x) => Err(x),
        }
    }
}

/// Having parsed `node` up to `pos`, folds in the further operands of tier
/// `level`, to the left.
pub open spec fn fold_tier(toks: Seq<Token>, pos: int, level: int, depth: int, node: Expr) -> Parsed
    decreases toks.len() - pos, 9int,
{
    if 0 <= pos < toks.len() && 0 <= level < UNARY_TIER && tier_op(level, toks[pos]) is Some {
        match parse_tier(toks, pos + 1, level + 1, depth) {
            Ok((rhs, p)) => if pos < p <= toks.len() {
                fold_tier(
                    toks,
                    p,
                    level,
                    depth,
                    Expr::BinaryOp {
                        left: Box::new(node),
                        op: tier_op(level, toks[pos])->0,
                        right: Box::new(rhs),
                    },
                )
            } else {
                Err(ParseError::UnexpectedToken)
            },
            Err(x) => Err(x),
        }
    } else {
        Ok((node, pos))
    }
}

/// A number, or a parenthesized expression.
pub open spec fn parse_primary(toks: Seq<Token>, pos: int, depth: int) -> Parsed
    decreases toks.len() - pos, 0int,
{
    if !(0 <= pos < toks.len()) {
        Err(ParseError::UnexpectedToken)
    } else {
        match toks[pos] {
            Token::Number(n) => Ok((Expr::Number(n), pos + 1)),
            Token::LParen => if depth >= MAX_DEPTH {
                Err(ParseError::TooDeep)
            } else {
                match parse_tier(toks, pos + 1, 0, depth + 1) {
                    Ok((e, p)) => if 0 <= p < toks.len() && toks[p] == Token::RParen {
                        Ok((e, p + 1))
                    } else {
                        Err(ParseError::UnmatchedParen)
                    },
                    Err(x) => Err(x),
                }
            },
            _ => Err(ParseError::UnexpectedToken),
        }
    }
}

/// The expression that `toks` holds from `pos` on, to the last token.
pub open spec fn parse_from(toks: Seq<Token>, pos: int) -> Result<Expr, ParseError> {
    match parse_tier(toks, pos, 0, 0) {
        Ok((e, p)) => if p == toks.len() {
            Ok(e)
        } else {
            Err(ParseError::TrailingTokens)
        },
        Err(x) => Err(x),
    }
}

/// The expression that all of `toks` holds.
pub open spec fn parse_spec(toks: Seq<Token>) -> Result<Expr, ParseError> {
    parse_from(toks, 0)
}

/// What a parse from `pos` yielded: `r` and the position `end` after it.
pub open spec fn yields(s: Parsed, r: Result<Expr, ParseError>, pos: int, end: int) -> bool {
    match s {
        Ok((e, p)) => r == Ok::<Expr, ParseError>(e) && end == p && pos < p,
        Err(x) => r == Err::<Expr, ParseError>(x),
    }
}

pub struct Parser {
    tokens: Vec<Token>,
    pos: usize,
}

impl Parser {
    pub closed spec fn spec_tokens(&self) -> Seq<Token> {
        self.tokens@
    }

    pub closed spec fn spec_pos(&self) -> int {
        self.pos as int
    }

    pub closed spec fn wf(&self) -> bool {
        self.pos <= self.tokens@.len()
    }

    pub fn new(tokens: Vec<Token>) -> (r: Parser)
        ensures
            r.wf(),
            r.spec_tokens() == tokens@,
            r.spec_pos() == 0,
    {
        Parser { tokens, pos: 0 }
    }

    fn current(&self) -> (r: Option<Token>)
        ensures
            r == (if self.pos < self.tokens@.len() {
                Some(self.tokens@[self.pos as int])
            } else {
                None
            }),
    {
        if self.pos < self.tokens.len() {
            Some(self.tokens[self.pos])
        } else {
            None
        }
    }

    /// The current token; the position moves past it.
    fn eat(&mut self) -> (r: Option<Token>)
        requires
            old(self).wf(),
        ensures
            final(self).wf(),
            final(self).tokens@ == old(self).tokens@,
            r == (if old(self).pos < old(self).tokens@.len() {
                Some(old(self).tokens@[old(self).pos as int])
            } else {
                None
            }),
            r is Some ==> final(self).pos == old(self).pos + 1,
            r is None ==> final(self).pos == old(self).pos,
    {
        let r = self.current();
        if self.pos < self.tokens.len() {
            self.pos = self.pos + 1;
        }
        r
    }

    fn parse_tier(&mut self, level: usize, depth: usize) -> (r: Result<Expr, ParseError>)
        requires
            old(self).wf(),
            level <= UNARY_TIER,
            depth <= MAX_DEPTH,
        ensures
            final(self).wf(),
            final(self).tokens@ == old(self).tokens@,
            yields(
                parse_tier(old(self).tokens@, old(self).pos as int, level as int, depth as int),
                r,
                old(self).pos as int,
                final(self).pos as int,
            ),
        decreases old(self).tokens@.len() - old(self).pos, 8 - level,
    {
        let ghost toks = self.tokens@;
        let ghost start = self.pos as int;
        if level == UNARY_TIER {
            let op = match self.current() {
                Some(Token::Plus) => Some(BinaryOp::Add),
                Some(Token::Minus) => Some(BinaryOp::Sub),
                Some(Token::Not) => Some(BinaryOp::Not),
                _ => None,
            };
            match op {
                Some(op) => {
                    self.eat();
                    let e = self.parse_primary(depth)?;
                    return Ok(Expr::UnaryOp { op, expr: Box::new(e) });
                },
                None => {
                    return self.parse_primary(depth);
                },
            }
        }
        let mut node = self.parse_tier(level + 1, depth)?;
        loop
            invariant
                self.wf(),
                self.tokens@ == toks,
                toks == old(self).tokens@,
                start == old(self).pos,
                start < self.pos,
                level < UNARY_TIER,
                depth <= MAX_DEPTH,
                parse_tier(toks, start, level as int, depth as int) == fold_tier(
                    toks,
                    self.pos as int,
                    level as int,
                    depth as int,
                    node,
                ),
            ensures
                self.wf(),
                self.tokens@ == toks,
                start < self.pos,
                parse_tier(toks, start, level as int, depth as int) == Ok::<(Expr, int), ParseError>((node, self.pos as int)),
            decreases toks.len() - self.pos,
        {
            let op = match self.current() {
                Some(t) => tier_operator(level, t),
                None => None,
            };
            match op {
                Some(op) => {
                    self.eat();
                    let rhs = match self.parse_tier(level + 1, depth) {
                        Ok(rhs) => rhs,
                        Err(x) => {
                            return Err(x);
                        },
                    };
                    node = Expr::BinaryOp { left: Box::new(node), op, right: Box::new(rhs) };
                },
                None => {
                    break;
                },
            }
        }
        Ok(node)
    }

    fn parse_primary(&mut self, depth: usize) -> (r: Result<Expr, ParseError>)
        requires
            old(self).wf(),
            depth <= MAX_DEPTH,
        ensures
            final(self).wf(),
            final(self).tokens@ == old(self).tokens@,
            yields(
                parse_primary(old(self).tokens@, old(self).pos as int, depth as int),
                r,
                old(self).pos as int,
                final(self).pos as int,
            ),
        decreases old(self).tokens@.len() - old(self).pos, 0int,
    {
        match self.eat() {
            Some(Token::Number(n)) => Ok(Expr::Number(n)),
            Some(Token::LParen) => {
                if depth >= MAX_DEPTH {
                    return Err(ParseError::TooDeep);
                }
                let e = self.parse_tier(0, depth + 1)?;
                match self.eat() {
                    Some(Token::RParen) => Ok(e),
                    _ => Err(ParseError::UnmatchedParen),
                }
            },
            _ => Err(ParseError::UnexpectedToken),
        }
    }

    /// Parses the tokens from the current position to the last one.
    pub fn parse_expr(&mut self) -> (r: Result<Expr, ParseError>)
        requires
            old(self).wf(),
        ensures
            final(self).wf(),
            final(self).spec_tokens() == old(self).spec_tokens(),
            r == parse_from(old(self).spec_tokens(), old(self).spec_pos()),
    {
        let e = self.parse_tier(0, 0)?;
        if self.pos < self.tokens.len() {
            Err(ParseError::TrailingTokens)
        } else {
            Ok(e)
        }
    }
}

/// The operator of `t` on tier `level`.
fn tier_operator(level: usize, t: Token) -> (r: Option<BinaryOp>)
    ensures
        r == tier_op(level as int, t),
{
    match (level, t) {
        (0, Token::Or) => Some(BinaryOp::Or),
        (1, Token::And) => Some(BinaryOp::And),
        (2, Token::Equal) => Some(BinaryOp::Eq),
        (2, Token::NotEqual) => Some(BinaryOp::Neq),
        (2, Token::Greater) => Some(BinaryOp::Gt),
        (2, Token::GreaterEqual) => Some(BinaryOp::Gte),
        (2, Token::Less) => Some(BinaryOp::Lt),
        (2, Token::LessEqual) => Some(BinaryOp::Lte),
        (3, Token::Plus) => Some(BinaryOp::Add),
        (3, Token::Minus) => Some(BinaryOp::Sub),
        (4, Token::Star) => Some(BinaryOp::Mul),
        (4, Token::Slash) => Some(BinaryOp::Div),
        _ => None,
    }
}

/// Parses a whole token sequence into one expression.
pub fn parse(tokens: Vec<Token>) -> (r: Result<Expr, ParseError>)
    ensures
        r == parse_spec(tokens@),
{
    let mut p = Parser::new(tokens);
    p.parse_expr()
}

} // verus!
