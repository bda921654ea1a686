//! The expression tree and the operator vocabulary shared by unary and
//! binary nodes.
use vstd::prelude::*;

use crate::lexer::Token;

verus! {

/// Every operator the language knows. Which positions an operator may take
/// (unary, binary) is decided by the evaluator, not by this type.
#[derive(Clone, Copy, Debug, PartialEq, Eq, Structural)]
pub enum BinaryOp {
    Add,
    Sub,
    Mul,
    Div,
    Eq,
    Neq,
    Gt,
    Gte,
    Lt,
    Lte,
    And,
    Or,
    Not,
}

/// An expression tree. A number is kept as the bit pattern of an IEEE-754
/// binary64 value, so that trees compare structurally.
#[derive(Debug, PartialEq)]
pub enum Expr {
    Number(u64),
    UnaryOp { op: BinaryOp, expr: Box<Expr> },
    BinaryOp { left: Box<Expr>, op: BinaryOp, right: Box<Expr> },
}

impl BinaryOp {
    /// The operator as it is written in source text.
    pub open spec fn spec_symbol(self) -> Seq<char> {
        match self {
            BinaryOp::Add => seq!['+'],
            BinaryOp::Sub => seq!['-'],
            BinaryOp::Mul => seq!['*'],
            BinaryOp::Div => seq!['/'],
            BinaryOp::Eq => seq!['=', '='],
            BinaryOp::Neq => seq!['!', '='],
            BinaryOp::Gt => seq!['>'],
            BinaryOp::Gte => seq!['>', '='],
            BinaryOp::Lt => seq!['<'],
            BinaryOp::Lte => seq!['<', '='],
            BinaryOp::And => seq!['&', '&'],
            BinaryOp::Or => seq!['|', '|'],
            BinaryOp::Not => seq!['!'],
        }
    }

    pub fn symbol(&self) -> (r: &'static str)
        ensures
            r@ == self.spec_symbol(),
    {
        match self {
            BinaryOp::Add => {
                proof { reveal_strlit("+"); }
                "+"
            },
            BinaryOp::Sub => {
                proof { reveal_strlit("-"); }
                "-"
            },
            BinaryOp::Mul => {
                proof { reveal_strlit("*"); }
                "*"
            },
            BinaryOp::Div => {
                proof { reveal_strlit("/"); }
                "/"
            },
            BinaryOp::Eq => {
                proof { reveal_strlit("=="); }
                "=="
            },
            BinaryOp::Neq => {
                proof { reveal_strlit("!="); }
                "!="
            },
            BinaryOp::Gt => {
                proof { reveal_strlit(">"); }
                ">"
            },
            BinaryOp::Gte => {
                proof { reveal_strlit(">="); }
                ">="
            },
            BinaryOp::Lt => {
                proof { reveal_strlit("<"); }
                "<"
            },
            BinaryOp::Lte => {
                proof { reveal_strlit("<="); }
                "<="
            },
            BinaryOp::And => {
                proof { reveal_strlit("&&"); }
                "&&"
            },
            BinaryOp::Or => {
                proof { reveal_strlit("||"); }
                "||"
            },
            BinaryOp::Not => {
                proof { reveal_strlit("!"); }
                "!"
            },
        }
    }

    /// The operator that an operator token stands for; `None` for the tokens
    /// that are no operator (numbers and parentheses).
    pub open spec fn spec_from_token(t: Token) -> Option<BinaryOp> {
        match t {
            Token::Plus => Some(BinaryOp::Add),
            Token::Minus => Some(BinaryOp::Sub),
            Token::Star => Some(BinaryOp::Mul),
            Token::Slash => Some(BinaryOp::Div),
            Token::Equal => Some(BinaryOp::Eq),
            Token::NotEqual => Some(BinaryOp::Neq),
            Token::Greater => Some(BinaryOp::Gt),
            Token::GreaterEqual => Some(BinaryOp::Gte),
            Token::Less => Some(BinaryOp::Lt),
            Token::LessEqual => Some(BinaryOp::Lte),
            Token::And => Some(BinaryOp::And),
            Token::Or => Some(BinaryOp::Or),
            Token::Not => Some(BinaryOp::Not),
            _ => None,
        }
    }

    pub fn from_token(t: &Token) -> (r: Option<BinaryOp>)
        ensures
            r == Self::spec_from_token(*t),
    {
        match t {
            Token::Plus => Some(BinaryOp::Add),
            Token::Minus => Some(BinaryOp::Sub),
            Token::Star => Some(BinaryOp::Mul),
            Token::Slash => Some(BinaryOp::Div),
            Token::Equal => Some(BinaryOp::Eq),
            Token::NotEqual => Some(BinaryOp::Neq),
            Token::Greater => Some(BinaryOp::Gt),
            Token::GreaterEqual => Some(BinaryOp::Gte),
            Token::Less => Some(BinaryOp::Lt),
            Token::LessEqual => Some(BinaryOp::Lte),
            Token::And => Some(BinaryOp::And),
            Token::Or => Some(BinaryOp::Or),
            Token::Not => Some(BinaryOp::Not),
            _ => None,
        }
    }

    /// The token that stands for the operator.
    pub open spec fn spec_token(self) -> Token {
        match self {
            BinaryOp::Add => Token::Plus,
            BinaryOp::Sub => Token::Minus,
            BinaryOp::Mul => Token::Star,
            BinaryOp::Div => Token::Slash,
            BinaryOp::Eq => Token::Equal,
            BinaryOp::Neq => Token::NotEqual,
            BinaryOp::Gt => Token::Greater,
            BinaryOp::Gte => Token::GreaterEqual,
            BinaryOp::Lt => Token::Less,
            BinaryOp::Lte => Token::LessEqual,
            BinaryOp::And => Token::And,
            BinaryOp::Or => Token::Or,
            BinaryOp::Not => Token::Not,
        }
    }

    pub fn to_token(&self) -> (r: Token)
        ensures
            r == self.spec_token(),
            Self::spec_from_token(r) == Some(*self),
    {
        match self {
            BinaryOp::Add => Token::Plus,
            BinaryOp::Sub => Token::Minus,
            BinaryOp::Mul => Token::Star,
            BinaryOp::Div => Token::Slash,
            BinaryOp::Eq => Token::Equal,
            BinaryOp::Neq => Token::NotEqual,
            BinaryOp::Gt => Token::Greater,
            BinaryOp::Gte => Token::GreaterEqual,
            BinaryOp::Lt => Token::Less,
            BinaryOp::Lte => Token::LessEqual,
            BinaryOp::And => Token::And,
            BinaryOp::Or => Token::Or,
            BinaryOp::Not => Token::Not,
        }
    }
}

/// The tree written out as tokens, every inner node in parentheses:
/// `(op operand)` and `(left op right)`.
pub open spec fn expr_tokens(e: Expr) -> Seq<Token>
    decreases e,
{
    match e {
        Expr::Number(n) => seq![Token::Number(n)],
        Expr::UnaryOp { op, expr } => seq![Token::LParen, op.spec_token()] + expr_tokens(*expr)
            + seq![Token::RParen],
        Expr::BinaryOp { left, op, right } => seq![Token::LParen] + expr_tokens(*left) + seq![
            op.spec_token(),
        ] + expr_tokens(*right) + seq![Token::RParen],
    }
}

impl Expr {
    /// Appends the tree's tokens to `out`.
    pub fn write_tokens(&self, out: &mut Vec<Token>)
        ensures
            final(out)@ == old(out)@ + expr_tokens(*self),
        decreases self,
    {
        match self {
            Expr::Number(n) => {
                out.push(Token::Number(*n));
                assert(final(out)@ =~= old(out)@ + expr_tokens(*self));
            },
            Expr::UnaryOp { op, expr } => {
                out.push(Token::LParen);
                out.push(op.to_token());
                expr.write_tokens(out);
                out.push(Token::RParen);
                assert(final(out)@ =~= old(out)@ + expr_tokens(*self));
            },
            Expr::BinaryOp { left, op, right } => {
                out.push(Token::LParen);
                left.write_tokens(out);
                out.push(op.to_token());
                right.write_tokens(out);
                out.push(Token::RParen);
                assert(final(out)@ =~= old(out)@ + expr_tokens(*self));
            },
        }
    }

    /// The tree as tokens, every inner node in parentheses.
    pub fn to_tokens(&self) -> (r: Vec<Token>)
        ensures
            r@ == expr_tokens(*self),
    {
        let mut out: Vec<Token> = Vec::new();
        self.write_tokens(&mut out);
        assert(out@ =~= expr_tokens(*self));
        out
    }
}

} // verus!
