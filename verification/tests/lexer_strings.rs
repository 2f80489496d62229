//! String and character literal scanning, including error reporting.

use rus::data::{LexicalError, Locatable, Token};
use rus::lex::Lexer;

fn lex_values(code: &str) -> Vec<Token> {
    let mut lexer = Lexer::new("test.rs", code);
    let tokens: Vec<Locatable<Result<Token, LexicalError>>> = lexer.lex_all();
    for token in &tokens {
        if let Err(e) = &token.data {
            panic!("Lexing error: {:?}", e);
        }
    }
    tokens.into_iter().map(|t| t.data.unwrap()).collect()
}

#[test]
fn test_string_literals() {
    let token_values = lex_values(r#""hello" "world\n" "with \"quotes\"""#);
    assert_eq!(token_values[0], Token::StringLiteral("hello".to_string()));
    assert_eq!(token_values[1], Token::StringLiteral("world\n".to_string()));
    assert_eq!(
        token_values[2],
        Token::StringLiteral("with \"quotes\"".to_string())
    );
}

#[test]
fn test_char_literals() {
    let token_values = lex_values(r"'a' '\n' '\''");
    assert_eq!(token_values[0], Token::CharLiteral('a'));
    assert_eq!(token_values[1], Token::CharLiteral('\n'));
    assert_eq!(token_values[2], Token::CharLiteral('\''));
}

#[test]
fn string_parsing_test_error_handling() {
    let code = "let x = 42`;";
    let mut lexer = Lexer::new("test.rs", code);
    let tokens: Vec<Locatable<Result<Token, LexicalError>>> = lexer.lex_all();

    let mut error_found = false;
    for token in &tokens {
        if let Err(e) = &token.data {
            match e {
                LexicalError::UnknownCharacter(c) => {
                    assert_eq!(*c, '`');
                    error_found = true;
                    break;
                }
                _ => panic!("Expected UnknownCharacter error"),
            }
        }
    }

    assert!(error_found, "Expected an error token but none was found");
}
