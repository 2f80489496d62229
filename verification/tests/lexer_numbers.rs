//! Number scanning in every supported radix and float form.

use rus::data::{LexicalError, Locatable, Token};
use rus::lex::Lexer;

fn lex_values(code: &str) -> Vec<Token> {
    let mut lexer = Lexer::new("test.rs", code);
    let tokens: Vec<Locatable<Result<Token, LexicalError>>> = lexer.lex_all();
    for token in &tokens {
        if let Err(e) = &token.data {
            panic!("Lexing error: {:?}", e);
        }
    }
    tokens.into_iter().map(|t| t.data.unwrap()).collect()
}

#[test]
fn test_integer_formats() {
    let token_values = lex_values("42 0xFF 0o77 0b1010");
    assert_eq!(token_values[0], Token::IntegerLiteral("42".to_string()));
    assert_eq!(token_values[1], Token::IntegerLiteral("0xFF".to_string()));
    assert_eq!(token_values[2], Token::IntegerLiteral("0o77".to_string()));
    assert_eq!(token_values[3], Token::IntegerLiteral("0b1010".to_string()));
}

#[test]
fn test_float_formats() {
    let token_values = lex_values("3.14 1.23e10 1.23E-5");
    assert_eq!(token_values[0], Token::FloatLiteral("3.14".to_string()));
    assert_eq!(token_values[1], Token::FloatLiteral("1.23e10".to_string()));
    assert_eq!(token_values[2], Token::FloatLiteral("1.23E-5".to_string()));
}
