use expr_eval::lexer::{tokenize, LexError, Token};

fn to_number(s: &str) -> u64 {
    s.parse::<f64>().unwrap().to_bits()
}

fn num(x: f64) -> Token {
    Token::Number(x.to_bits())
}

#[test]
fn test_simple_operators() {
    let input = "+ - * / ( )";
    let tokens = tokenize(input, &to_number).unwrap();
    let expected = vec![
        Token::Plus,
        Token::Minus,
        Token::Star,
        Token::Slash,
        Token::LParen,
        Token::RParen,
    ];
    assert_eq!(tokens, expected);
}

#[test]
fn test_comparison_operators() {
    let input = "== != > >= < <=";
    let tokens = tokenize(input, &to_number).unwrap();
    let expected = vec![
        Token::Equal,
        Token::NotEqual,
        Token::Greater,
        Token::GreaterEqual,
        Token::Less,
        Token::LessEqual,
    ];
    assert_eq!(tokens, expected);
}

#[test]
fn test_number_parsing() {
    let input = "123 4.56";
    let tokens = tokenize(input, &to_number).unwrap();
    let expected = vec![num(123.0), num(4.56)];
    assert_eq!(tokens, expected);
}

#[test]
fn test_mixed_expression() {
    let input = "1 + 2 * (3 - 4) / 5 == 6";
    let tokens = tokenize(input, &to_number).unwrap();
    let expected = vec![
        num(1.0),
        Token::Plus,
        num(2.0),
        Token::Star,
        Token::LParen,
        num(3.0),
        Token::Minus,
        num(4.0),
        Token::RParen,
        Token::Slash,
        num(5.0),
        Token::Equal,
        num(6.0),
    ];
    assert_eq!(tokens, expected);
}

#[test]
fn test_invalid_character() {
    let input = "1 + $";
    let result = tokenize(input, &to_number);
    assert!(result.is_err());
    assert_eq!(result, Err(LexError::UnexpectedChar('$')));
}

#[test]
fn test_less_character() {
    let input = "1 < 2+1";
    let tokens = tokenize(input, &to_number);
    assert!(tokens.is_ok());
    let tokens = tokens.unwrap();
    assert_eq!(
        tokens,
        vec![num(1.0), Token::Less, num(2.0), Token::Plus, num(1.0)]
    );
}

#[test]
fn test_bool_not_character() {
    let input = "1+2!3+1";
    let tokens = tokenize(input, &to_number).unwrap();
    assert_eq!(
        tokens,
        vec![
            num(1.0),
            Token::Plus,
            num(2.0),
            Token::Not,
            num(3.0),
            Token::Plus,
            num(1.0)
        ]
    );
}

#[test]
fn test_bool_and_or_character() {
    let input = "&&!||!=!!=";
    let tokens = tokenize(input, &to_number).unwrap();
    assert_eq!(
        tokens,
        vec![
            Token::And,
            Token::Not,
            Token::Or,
            Token::NotEqual,
            Token::Not,
            Token::NotEqual,
        ]
    );
}

#[test]
fn malformed_literals_are_invalid_numbers() {
    assert_eq!(tokenize("1.2.3", &to_number), Err(LexError::InvalidNumber));
    assert_eq!(tokenize("1 + .", &to_number), Err(LexError::InvalidNumber));
    assert_eq!(tokenize("..", &to_number), Err(LexError::InvalidNumber));
}

#[test]
fn literals_with_a_bare_dot_side() {
    assert_eq!(tokenize(".5 7.", &to_number), Ok(vec![num(0.5), num(7.0)]));
}

#[test]
fn lone_operators_are_invalid() {
    assert_eq!(tokenize("1 & 2", &to_number), Err(LexError::InvalidOperator));
    assert_eq!(tokenize("1 |", &to_number), Err(LexError::InvalidOperator));
    assert_eq!(tokenize("1 = 2", &to_number), Err(LexError::InvalidOperator));
    assert_eq!(tokenize("=", &to_number), Err(LexError::InvalidOperator));
}

#[test]
fn first_error_wins() {
    assert_eq!(tokenize("1.1.1 $", &to_number), Err(LexError::InvalidNumber));
    assert_eq!(tokenize("$ 1.1.1", &to_number), Err(LexError::UnexpectedChar('$')));
}

#[test]
fn blanks_only_give_no_tokens() {
    assert_eq!(tokenize("", &to_number), Ok(vec![]));
    assert_eq!(tokenize(" \t\n", &to_number), Ok(vec![]));
    assert_eq!(tokenize("\r", &to_number), Err(LexError::UnexpectedChar('\r')));
}

#[test]
fn operators_at_end_of_input() {
    assert_eq!(
        tokenize("<>!", &to_number),
        Ok(vec![Token::Less, Token::Greater, Token::Not])
    );
}
