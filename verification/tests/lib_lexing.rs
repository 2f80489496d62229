//! Lexer tests over small single-construct inputs.

use rus::data::{LexicalError, Locatable, Token};
use rus::lex::Lexer;

fn lex_values(code: &str) -> Vec<Token> {
    let mut lexer = Lexer::new("test.rs", code);
    let tokens: Vec<Locatable<Result<Token, LexicalError>>> = lexer.lex_all();
    for token in &tokens {
        if let Err(e) = &token.data {
            panic!("Lexing error: {:?}", e);
        }
    }
    tokens.into_iter().map(|t| t.data.unwrap()).collect()
}

#[test]
fn test_basic_lexing() {
    let token_values = lex_values("fn main() { let x = 42; }");
    assert_eq!(token_values[0], Token::Fn);
    assert_eq!(token_values[1], Token::Identifier("main".to_string()));
    assert_eq!(token_values[2], Token::LParen);
    assert_eq!(token_values[3], Token::RParen);
    assert_eq!(token_values[4], Token::LBrace);
    assert_eq!(token_values[5], Token::Let);
    assert_eq!(token_values[6], Token::Identifier("x".to_string()));
    assert_eq!(token_values[7], Token::Equal);
    assert_eq!(token_values[8], Token::IntegerLiteral("42".to_string()));
    assert_eq!(token_values[9], Token::Semicolon);
    assert_eq!(token_values[10], Token::RBrace);
}

#[test]
fn test_number_parsing() {
    let token_values = lex_values("42 3.14 0xFF 0o77 0b1010");
    assert_eq!(token_values[0], Token::IntegerLiteral("42".to_string()));
    assert_eq!(token_values[1], Token::FloatLiteral("3.14".to_string()));
    assert_eq!(token_values[2], Token::IntegerLiteral("0xFF".to_string()));
    assert_eq!(token_values[3], Token::IntegerLiteral("0o77".to_string()));
    assert_eq!(token_values[4], Token::IntegerLiteral("0b1010".to_string()));
}

#[test]
fn test_string_parsing() {
    let token_values = lex_values(r#""Hello, World!" '\n'"#);
    assert_eq!(
        token_values[0],
        Token::StringLiteral("Hello, World!".to_string())
    );
    assert_eq!(token_values[1], Token::CharLiteral('\n'));
}

#[test]
fn test_keyword_parsing() {
    let token_values = lex_values("let var fn with contract impl mut effect handle");
    assert_eq!(token_values[0], Token::Let);
    assert_eq!(token_values[1], Token::Var);
    assert_eq!(token_values[2], Token::Fn);
    assert_eq!(token_values[3], Token::With);
    assert_eq!(token_values[4], Token::Contract);
    assert_eq!(token_values[5], Token::Impl);
    assert_eq!(token_values[6], Token::Mut);
    assert_eq!(token_values[7], Token::Effect);
    assert_eq!(token_values[8], Token::Handle);
}

#[test]
fn test_operator_parsing() {
    let token_values = lex_values("+ - * / % & | ^ ! = < > . , ; : ? @ # $ _");
    assert_eq!(token_values[0], Token::Plus);
    assert_eq!(token_values[1], Token::Minus);
    assert_eq!(token_values[2], Token::Star);
    assert_eq!(token_values[3], Token::Slash);
    assert_eq!(token_values[4], Token::Percent);
    assert_eq!(token_values[5], Token::Ampersand);
    assert_eq!(token_values[6], Token::Pipe);
    assert_eq!(token_values[7], Token::Caret);
    assert_eq!(token_values[8], Token::Bang);
    assert_eq!(token_values[9], Token::Equal);
    assert_eq!(token_values[10], Token::Less);
    assert_eq!(token_values[11], Token::Greater);
    assert_eq!(token_values[12], Token::Dot);
    assert_eq!(token_values[13], Token::Comma);
    assert_eq!(token_values[14], Token::Semicolon);
    assert_eq!(token_values[15], Token::Colon);
    assert_eq!(token_values[16], Token::Question);
    assert_eq!(token_values[17], Token::At);
    assert_eq!(token_values[18], Token::Hash);
    assert_eq!(token_values[19], Token::Dollar);
    assert_eq!(token_values[20], Token::Identifier("_".to_string()));
}

#[test]
fn lib_test_error_handling() {
    let code = r"let x = '\z';";
    let mut lexer = Lexer::new("test.rs", code);
    let tokens: Vec<Locatable<Result<Token, LexicalError>>> = lexer.lex_all();
    let has_error = tokens.iter().any(|token| token.data.is_err());
    assert!(has_error);
}

#[test]
fn test_char_parsing() {
    let token_values = lex_values(r"'\n' '\'' '\\'");
    assert_eq!(token_values[0], Token::CharLiteral('\n'));
    assert_eq!(token_values[1], Token::CharLiteral('\''));
    assert_eq!(token_values[2], Token::CharLiteral('\\'));
}
