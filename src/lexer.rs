//! Lexical analysis: text to an ordered sequence of tokens.
use vstd::prelude::*;

verus! {

/// A lexical unit. A numeric literal carries the bit pattern of the IEEE-754
/// binary64 value it denotes.
#[derive(Clone, Copy, Debug, PartialEq, Eq, Structural)]
pub enum Token {
    Number(u64),
    Plus,
    Minus,
    Star,
    Slash,
    LParen,
    RParen,
    Equal,
    NotEqual,
    Greater,
    GreaterEqual,
    Less,
    LessEqual,
    And,
    Or,
    Not,
}

#[derive(Clone, Copy, Debug, PartialEq, Eq, Structural)]
pub enum LexError {
    /// A character that starts no token.
    UnexpectedChar(char),
    /// A run of digits and dots that is no decimal number (`1.2.3`, `.`).
    InvalidNumber,
    /// A lone `&`, `|` or `=`.
    InvalidOperator,
}

/// A token as the scanner finds it: a numeric literal is still its text.
pub enum Lexeme {
    Literal(Seq<char>),
    Fixed(Token),
}

pub open spec fn is_digit(c: char) -> bool {
    '0' <= c && c <= '9'
}

pub open spec fn is_number_char(c: char) -> bool {
    is_digit(c) || c == '.'
}

pub open spec fn is_blank(c: char) -> bool {
    c == ' ' || c == '\t' || c == '\n'
}

pub open spec fn dot_count(t: Seq<char>) -> nat
    decreases t.len(),
{
    if t.len() == 0 {
        0
    } else {
        dot_count(t.drop_last()) + if t.last() == '.' { 1nat } else { 0nat }
    }
}

/// A run of digits and dots reads as a decimal number when it holds at most
/// one dot and at least one digit.
pub open spec fn literal_ok(t: Seq<char>) -> bool {
    dot_count(t) <= 1 && dot_count(t) < t.len()
}

/// The tokens that are one character long.
pub open spec fn single_token(c: char) -> Option<Token> {
    if c == '+' {
        Some(Token::Plus)
    } else if c == '-' {
        Some(Token::Minus)
    } else if c == '*' {
        Some(Token::Star)
    } else if c == '/' {
        Some(Token::Slash)
    } else if c == '(' {
        Some(Token::LParen)
    } else if c == ')' {
        Some(Token::RParen)
    } else {
        None
    }
}

pub open spec fn cons(x: Lexeme, rest: Result<Seq<Lexeme>, LexError>) -> Result<
    Seq<Lexeme>,
    LexError,
> {
    match rest {
        Ok(v) => Ok(seq![x] + v),
        Err(e) => Err(e),
    }
}

pub open spec fn glue(done: Seq<Lexeme>, rest: Result<Seq<Lexeme>, LexError>) -> Result<
    Seq<Lexeme>,
    LexError,
> {
    match rest {
        Ok(v) => Ok(done + v),
        Err(e) => Err(e),
    }
}

/// Whether the character after position `i` is `c`.
pub open spec fn next_is(s: Seq<char>, i: int, c: char) -> bool {
    i + 1 < s.len() && s[i + 1] == c
}

/// The lexemes of `s` from position `i` on, or the first error met there.
pub open spec fn lex_from(s: Seq<char>, i: int) -> Result<Seq<Lexeme>, LexError>
    decreases s.len() - i, 0int,
{
    if i < 0 || i >= s.len() {
        Ok(Seq::empty())
    } else {
        let c = s[i];
        if is_blank(c) {
            lex_from(s, i + 1)
        } else if is_number_char(c) {
            lex_number(s, i, i + 1)
        } else if single_token(c) is Some {
            cons(Lexeme::Fixed(single_token(c)->0), lex_from(s, i + 1))
        } else if c == '&' {
            if next_is(s, i, '&') {
                cons(Lexeme::Fixed(Token::And), lex_from(s, i + 2))
            } else {
                Err(LexError::InvalidOperator)
            }
        } else if c == '|' {
            if next_is(s, i, '|') {
                cons(Lexeme::Fixed(Token::Or), lex_from(s, i + 2))
            } else {
                Err(LexError::InvalidOperator)
            }
        } else if c == '=' {
            if next_is(s, i, '=') {
                cons(Lexeme::Fixed(Token::Equal), lex_from(s, i + 2))
            } else {
                Err(LexError::InvalidOperator)
            }
        } else if c == '!' {
            if next_is(s, i, '=') {
                cons(Lexeme::Fixed(Token::NotEqual), lex_from(s, i + 2))
            } else {
                cons(Lexeme::Fixed(Token::Not), lex_from(s, i + 1))
            }
        } else if c == '<' {
            if next_is(s, i, '=') {
                cons(Lexeme::Fixed(Token::LessEqual), lex_from(s, i + 2))
            } else {
                cons(Lexeme::Fixed(Token::Less), lex_from(s, i + 1))
            }
        } else if c == '>' {
            if next_is(s, i, '=') {
                cons(Lexeme::Fixed(Token::GreaterEqual), lex_from(s, i + 2))
            } else {
                cons(Lexeme::Fixed(Token::Greater), lex_from(s, i + 1))
            }
        } else {
            Err(LexError::UnexpectedChar(c))
        }
    }
}

/// A numeric literal that began at `start` and has been scanned up to `i`:
/// the scan is greedy over digits and dots.
pub open spec fn lex_number(s: Seq<char>, start: int, i: int) -> Result<Seq<Lexeme>, LexError>
    decreases s.len() - i, 1int,
{
    if 0 <= i < s.len() && is_number_char(s[i]) {
        lex_number(s, start, i + 1)
    } else if 0 <= start <= i <= s.len() && literal_ok(s.subrange(start, i)) {
        cons(Lexeme::Literal(s.subrange(start, i)), lex_from(s, i))
    } else {
        Err(LexError::InvalidNumber)
    }
}

pub open spec fn lex(s: Seq<char>) -> Result<Seq<Lexeme>, LexError> {
    lex_from(s, 0)
}

/// `b` is what `f` returned for a text that reads `t`.
pub open spec fn converts<F: Fn(&str) -> u64>(f: F, t: Seq<char>, b: u64) -> bool {
    exists|x: &str| x@ == t && #[trigger] f.ensures((x,), b)
}

pub open spec fn token_matches<F: Fn(&str) -> u64>(t: Token, l: Lexeme, f: F) -> bool {
    match l {
        Lexeme::Literal(text) => t is Number && converts(f, text, t->Number_0),
        Lexeme::Fixed(x) => t == x,
    }
}

/// `toks` are the lexemes `lx`, each literal converted by `f`.
pub open spec fn tokens_match<F: Fn(&str) -> u64>(toks: Seq<Token>, lx: Seq<Lexeme>, f: F) -> bool {
    toks.len() == lx.len() && forall|k: int|
        0 <= k < toks.len() ==> #[trigger] token_matches(toks[k], lx[k], f)
}

/// Splits `input` into tokens. Each numeric literal's text is handed to
/// `to_number`, which gives the bit pattern of the number it denotes.
pub fn tokenize<F: Fn(&str) -> u64>(input: &str, to_number: &F) -> (r: Result<Vec<Token>, LexError>)
    requires
        forall|t: &str| literal_ok(t@) ==> to_number.requires((t,)),
    ensures
        match lex(input@) {
            Ok(lx) => r is Ok && tokens_match(r->Ok_0@, lx, *to_number),
            Err(e) => r == Err::<Vec<Token>, LexError>(e),
        },
{
    let ghost s = input@;
    let n = input.unicode_len();
    let mut toks: Vec<Token> = Vec::new();
    let ghost mut done: Seq<Lexeme> = Seq::empty();
    let mut i: usize = 0;
    while i < n
        invariant
            s == input@,
            n == s.len(),
            i <= n,
            lex(s) == glue(done, lex_from(s, i as int)),
            tokens_match(toks@, done, *to_number),
            forall|t: &str| literal_ok(t@) ==> to_number.requires((t,)),
        decreases n - i,
    {
        let c = input.get_char(i);
        let has_next = i + 1 < n;
        let next = if has_next { input.get_char(i + 1) } else { ' ' };
        let mut fixed: Option<Token> = None;
        let mut width: usize = 1;
        if c == ' ' || c == '\t' || c == '\n' {
            i = i + 1;
            continue;
        } else if ('0' <= c && c <= '9') || c == '.' {
            let start = i;
            let mut dots: usize = 0;
            loop
                invariant
                    s == input@,
                    n == s.len(),
                    start < n,
                    start <= i <= n,
                    dots as nat == dot_count(s.subrange(start as int, i as int)),
                    dots <= i - start,
                    start < i ==> lex_from(s, start as int) == lex_number(s, start as int, i as int),
                    start == i ==> is_number_char(s[start as int]) && lex_from(s, start as int)
                        == lex_number(s, start as int, start + 1),
                ensures
                    start < i <= n,
                    i == n || !is_number_char(s[i as int]),
                    dots as nat == dot_count(s.subrange(start as int, i as int)),
                    lex_from(s, start as int) == lex_number(s, start as int, i as int),
                decreases n - i,
            {
                if i >= n {
                    break;
                }
                let d = input.get_char(i);
                if !(('0' <= d && d <= '9') || d == '.') {
                    break;
                }
                assert(s.subrange(start as int, i + 1).drop_last() =~= s.subrange(start as int, i as int));
                if d == '.' {
                    dots = dots + 1;
                }
                i = i + 1;
            }
            let len = i - start;
            if dots <= 1 && dots < len {
                let text = input.substring_char(start, i);
                let b = to_number(text);
                proof {
                    let t = s.subrange(start as int, i as int);
                    assert(converts(*to_number, t, b));
                    let x = Lexeme::Literal(t);
                    assert(lex_from(s, start as int) == cons(x, lex_from(s, i as int)));
                    assert(done + (seq![x] + lex_from(s, i as int)->Ok_0) =~= done.push(x) + lex_from(s, i as int)->Ok_0);
                    done = done.push(x);
                }
                toks.push(Token::Number(b));
                assert(token_matches(toks@[toks@.len() - 1], done[done.len() - 1], *to_number));
                continue;
            } else {
                return Err(LexError::InvalidNumber);
            }
        } else if c == '+' {
            fixed = Some(Token::Plus);
        } else if c == '-' {
            fixed = Some(Token::Minus);
        } else if c == '*' {
            fixed = Some(Token::Star);
        } else if c == '/' {
            fixed = Some(Token::Slash);
        } else if c == '(' {
            fixed = Some(Token::LParen);
        } else if c == ')' {
            fixed = Some(Token::RParen);
        } else if c == '&' {
            if has_next && next == '&' {
                fixed = Some(Token::And);
                width = 2;
            } else {
                return Err(LexError::InvalidOperator);
            }
        } else if c == '|' {
            if has_next && next == '|' {
                fixed = Some(Token::Or);
                width = 2;
            } else {
                return Err(LexError::InvalidOperator);
            }
        } else if c == '=' {
            if has_next && next == '=' {
                fixed = Some(Token::Equal);
                width = 2;
            } else {
                return Err(LexError::InvalidOperator);
            }
        } else if c == '!' {
            if has_next && next == '=' {
                fixed = Some(Token::NotEqual);
                width = 2;
            } else {
                fixed = Some(Token::Not);
            }
        } else if c == '<' {
            if has_next && next == '=' {
                fixed = Some(Token::LessEqual);
                width = 2;
            } else {
                fixed = Some(Token::Less);
            }
        } else if c == '>' {
            if has_next && next == '=' {
                fixed = Some(Token::GreaterEqual);
                width = 2;
            } else {
                fixed = Some(Token::Greater);
            }
        } else {
            return Err(LexError::UnexpectedChar(c));
        }
        let t = fixed.unwrap();
        proof {
            let x = Lexeme::Fixed(t);
            assert(lex_from(s, i as int) == cons(x, lex_from(s, i + width)));
            if lex_from(s, i + width) is Ok {
                assert(done + (seq![x] + lex_from(s, i + width)->Ok_0) =~= done.push(x) + lex_from(s, i + width)->Ok_0);
            }
            done = done.push(x);
        }
        toks.push(t);
        assert(token_matches(toks@[toks@.len() - 1], done[done.len() - 1], *to_number));
        i = i + width;
    }
    assert(done + Seq::<Lexeme>::empty() =~= done);
    Ok(toks)
}

} // verus!
