//! Behavior the front end guarantees: determinism, greedy longest-match
//! scanning, lossless number texts, escape decoding, left associativity,
//! fail-fast parsing, and error isolation.

use rus::data::{Keyword, LexicalError, Locatable, Token};
use rus::lex::{lookup_keyword, Lexer};
use rus::parser::{BinaryOperator, Expr, Literal, ParseError, Parser, Stmt};

fn lex(code: &str) -> Vec<Locatable<Result<Token, LexicalError>>> {
    Lexer::new("test.rs", code).lex_all()
}

fn lex_values(code: &str) -> Vec<Token> {
    lex(code)
        .into_iter()
        .map(|t| t.data.expect("unexpected lexing error"))
        .collect()
}

fn parse_tokens(code: &str) -> Result<Vec<Stmt>, ParseError> {
    let tokens: Vec<Locatable<Token>> = lex(code)
        .into_iter()
        .map(|l| Locatable {
            location: l.location,
            data: l.data.unwrap(),
        })
        .collect();
    Parser::new(tokens).parse()
}

#[test]
fn lexing_twice_gives_identical_tokens() {
    let code = "fn f(a, b) { a + b * 2; } effect E { fn op(x: int) -> int; }";
    let first = lex(code);
    let second = lex(code);
    assert_eq!(first.len(), second.len());
    for (a, b) in first.iter().zip(second.iter()) {
        assert_eq!(a.data, b.data);
        assert_eq!(a.location.line, b.location.line);
        assert_eq!(a.location.column, b.location.column);
        assert_eq!(a.location.file, b.location.file);
    }
}

#[test]
fn parsing_twice_gives_identical_ast() {
    let code = "let x = 1 + 2 * 3; fn g() { x; }";
    let first = parse_tokens(code).expect("Failed to parse");
    let second = parse_tokens(code).expect("Failed to parse");
    assert_eq!(first, second);
}

#[test]
fn longest_match_shift_assign() {
    assert_eq!(lex_values("<<="), vec![Token::ShlEqual]);
    assert_eq!(lex_values(">>="), vec![Token::ShrEqual]);
    assert_eq!(lex_values("<< ="), vec![Token::Shl, Token::Equal]);
}

#[test]
fn longest_match_double_ampersand() {
    assert_eq!(lex_values("&&"), vec![Token::And]);
    assert_eq!(lex_values("& &"), vec![Token::Ampersand, Token::Ampersand]);
}

#[test]
fn longest_match_mut_ref() {
    assert_eq!(lex_values("&mut"), vec![Token::MutRef]);
    // A failed `&mut` match falls back to the shorter operator.
    assert_eq!(
        lex_values("&mu"),
        vec![Token::Ampersand, Token::Identifier("mu".to_string())]
    );
    assert_eq!(
        lex_values("&m"),
        vec![Token::Ampersand, Token::Identifier("m".to_string())]
    );
}

#[test]
fn number_text_round_trip() {
    assert_eq!(lex_values("0xFF"), vec![Token::IntegerLiteral("0xFF".to_string())]);
    assert_eq!(lex_values("0o77"), vec![Token::IntegerLiteral("0o77".to_string())]);
    assert_eq!(
        lex_values("0b1010"),
        vec![Token::IntegerLiteral("0b1010".to_string())]
    );
    assert_eq!(lex_values("42"), vec![Token::IntegerLiteral("42".to_string())]);
    assert_eq!(lex_values("3.14"), vec![Token::FloatLiteral("3.14".to_string())]);
    assert_eq!(lex_values("1e10"), vec![Token::FloatLiteral("1e10".to_string())]);
    assert_eq!(
        lex_values("2.5e-3"),
        vec![Token::FloatLiteral("2.5e-3".to_string())]
    );
}

#[test]
fn dot_without_digit_is_not_a_fraction() {
    assert_eq!(
        lex_values("1."),
        vec![Token::IntegerLiteral("1".to_string()), Token::Dot]
    );
}

#[test]
fn number_type_suffix_is_kept_with_separator() {
    assert_eq!(
        lex_values("42u32"),
        vec![Token::IntegerLiteral("42_u32".to_string())]
    );
    assert_eq!(
        lex_values("2.5f64"),
        vec![Token::FloatLiteral("2.5_f64".to_string())]
    );
}

#[test]
fn legacy_octal_keeps_leading_zero() {
    assert_eq!(
        lex_values("0077"),
        vec![Token::IntegerLiteral("0077".to_string())]
    );
}

#[test]
fn exponent_without_digits_is_an_error() {
    let tokens = lex("1e+");
    assert_eq!(tokens.len(), 1);
    assert_eq!(
        tokens[0].data,
        Err(LexicalError::InvalidNumberFormat)
    );
}

#[test]
fn string_escapes_decode() {
    assert_eq!(
        lex_values(r#""a\nb""#),
        vec![Token::StringLiteral("a\nb".to_string())]
    );
    assert_eq!(
        lex_values(r#""\t\r\0\\\"""#),
        vec![Token::StringLiteral("\t\r\0\\\"".to_string())]
    );
}

#[test]
fn char_escapes_decode() {
    assert_eq!(lex_values(r"'\''"), vec![Token::CharLiteral('\'')]);
    assert_eq!(lex_values(r"'\0'"), vec![Token::CharLiteral('\0')]);
}

#[test]
fn empty_char_literal_is_an_error() {
    let tokens = lex("''");
    assert_eq!(tokens.len(), 1);
    assert_eq!(tokens[0].data, Err(LexicalError::EmptyCharLiteral));
}

#[test]
fn multiple_characters_in_char_literal_is_an_error() {
    let tokens = lex("'ab'");
    assert!(tokens[0].data == Err(LexicalError::MultipleCharactersInCharLiteral));
}

#[test]
fn unterminated_string_is_an_error() {
    let tokens = lex("\"abc");
    assert_eq!(tokens[0].data, Err(LexicalError::UnterminatedString));
}

#[test]
fn unterminated_char_is_an_error() {
    let tokens = lex("'a");
    assert_eq!(tokens[0].data, Err(LexicalError::UnterminatedChar));
}

#[test]
fn eof_after_backslash_is_an_error() {
    let tokens = lex("\"ab\\");
    assert_eq!(tokens[0].data, Err(LexicalError::UnexpectedEofInLiteral));
}

#[test]
fn unknown_escape_is_an_error() {
    let tokens = lex(r#""a\qb""#);
    assert_eq!(tokens[0].data, Err(LexicalError::UnknownEscapeSequence('q')));
}

#[test]
fn unknown_character_is_isolated() {
    // The backtick is invalid, but every surrounding token still lexes.
    let tokens = lex("let x = 42`;");
    let data: Vec<Result<Token, LexicalError>> = tokens.into_iter().map(|t| t.data).collect();
    assert_eq!(data[0], Ok(Token::Let));
    assert_eq!(data[1], Ok(Token::Identifier("x".to_string())));
    assert_eq!(data[2], Ok(Token::Equal));
    assert_eq!(data[3], Ok(Token::IntegerLiteral("42".to_string())));
    assert_eq!(data[4], Err(LexicalError::UnknownCharacter('`')));
    assert_eq!(data[5], Ok(Token::Semicolon));
    assert_eq!(data.len(), 6);
}

#[test]
fn locations_advance_by_line_and_column() {
    let tokens = lex("let x\n  = 1;");
    assert_eq!(tokens[0].location.line, 1);
    assert_eq!(tokens[0].location.column, 1);
    assert_eq!(tokens[0].location.file, "test.rs");
    assert_eq!(tokens[1].location.line, 1);
    assert_eq!(tokens[1].location.column, 5);
    assert_eq!(tokens[2].location.line, 2);
    assert_eq!(tokens[2].location.column, 3);
}

#[test]
fn keyword_table_lookup() {
    assert_eq!(lookup_keyword(&"fn".to_string()), Some(Keyword::Fn));
    assert_eq!(
        lookup_keyword(&"handler_group".to_string()),
        Some(Keyword::HandlerGroup)
    );
    assert_eq!(lookup_keyword(&"fnord".to_string()), None);
}

#[test]
fn subtraction_is_left_associative() {
    let statements = parse_tokens("1 - 2 - 3;").expect("Failed to parse");
    assert_eq!(statements.len(), 1);
    match &statements[0] {
        Stmt::Expression { expression, .. } => match expression {
            Expr::Binary {
                left,
                operator,
                right,
                ..
            } => {
                assert_eq!(operator, &BinaryOperator::Subtract);
                match &**left {
                    Expr::Binary {
                        left,
                        operator,
                        right,
                        ..
                    } => {
                        assert_eq!(operator, &BinaryOperator::Subtract);
                        assert!(matches!(
                            &**left,
                            Expr::Literal {
                                value: Literal::Integer(v),
                                ..
                            } if v == "1"
                        ));
                        assert!(matches!(
                            &**right,
                            Expr::Literal {
                                value: Literal::Integer(v),
                                ..
                            } if v == "2"
                        ));
                    }
                    _ => panic!("Expected nested binary expression on the left"),
                }
                assert!(matches!(
                    &**right,
                    Expr::Literal {
                        value: Literal::Integer(v),
                        ..
                    } if v == "3"
                ));
            }
            _ => panic!("Expected binary expression"),
        },
        _ => panic!("Expected expression statement"),
    }
}

#[test]
fn missing_semicolon_fails_fast() {
    let result = parse_tokens("1 + 2 let x = 3;");
    match result {
        Err(ParseError::MissingToken(_)) => {}
        other => panic!("Expected a MissingToken error, got {:?}", other),
    }
}

#[test]
fn unexpected_token_error() {
    let result = parse_tokens("let 42;");
    match result {
        Err(ParseError::UnexpectedToken(_)) => {}
        other => panic!("Expected an UnexpectedToken error, got {:?}", other),
    }
}

#[test]
fn effect_call_requires_parenthesis() {
    // An identifier followed by `.` must be an operation call.
    let result = parse_tokens("Effect1.op;");
    match result {
        Err(ParseError::MissingToken(_)) => {}
        other => panic!("Expected a MissingToken error, got {:?}", other),
    }
}

#[test]
fn node_locations_point_at_first_token() {
    let statements = parse_tokens("let x = 42;").expect("Failed to parse");
    let loc = statements[0].location();
    assert_eq!(loc.line, 1);
    assert_eq!(loc.column, 1);
    assert_eq!(loc.file, "test.rs");
    match &statements[0] {
        Stmt::Let {
            initializer: Some(e),
            ..
        } => {
            let eloc = e.location();
            assert_eq!(eloc.line, 1);
            assert_eq!(eloc.column, 9);
        }
        _ => panic!("Expected let statement with initializer"),
    }
}

#[test]
fn boolean_and_char_literals_parse() {
    let statements = parse_tokens("true; 'c';").expect("Failed to parse");
    assert_eq!(statements.len(), 2);
    assert!(matches!(
        &statements[0],
        Stmt::Expression {
            expression: Expr::Literal {
                value: Literal::Boolean(true),
                ..
            },
            ..
        }
    ));
    assert!(matches!(
        &statements[1],
        Stmt::Expression {
            expression: Expr::Literal {
                value: Literal::Char('c'),
                ..
            },
            ..
        }
    ));
}

#[test]
fn empty_token_sequence_parses_to_nothing() {
    let statements = parse_tokens("").expect("Failed to parse");
    assert!(statements.is_empty());
}
