//! Lexing a complete small program.

use rus::data::{LexicalError, Locatable, Token};
use rus::lex::Lexer;

#[test]
fn test_complete_program() {
    let code = r#"
        fn main() {
            let x = 42;
            let y = 0xFF;
            let z = 0o77;
            let s = "Hello, 世界!";
            let c = '\n';
            
            if x == 42 {
                println!("x is {}", x);
            }
        }
    "#;

    let mut lexer = Lexer::new("test.rs", code);
    let tokens: Vec<Locatable<Result<Token, LexicalError>>> = lexer.lex_all();

    for token in &tokens {
        if let Err(e) = &token.data {
            panic!("Lexing error: {:?}", e);
        }
    }

    let token_values: Vec<Token> = tokens.into_iter().map(|t| t.data.unwrap()).collect();

    assert_eq!(token_values[0], Token::Fn);
    assert_eq!(token_values[1], Token::Identifier("main".to_string()));
    assert_eq!(token_values[2], Token::LParen);
    assert_eq!(token_values[3], Token::RParen);
    assert_eq!(token_values[4], Token::LBrace);
    assert_eq!(token_values[5], Token::Let);
    assert_eq!(token_values[6], Token::Identifier("x".to_string()));
    assert_eq!(token_values[7], Token::Equal);
    assert_eq!(token_values[8], Token::IntegerLiteral("42".to_string()));
    assert_eq!(token_values[9], Token::Semicolon);
}
