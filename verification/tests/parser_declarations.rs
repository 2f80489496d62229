//! Declaration parsing: let, var, functions and blocks.

use rus::data::{Locatable, Token};
use rus::lex::Lexer;
use rus::parser::{Expr, Literal, Parser, Stmt};

fn parse_code(code: &str) -> Vec<Stmt> {
    let mut lexer = Lexer::new("test.rs", code);
    let tokens: Vec<Locatable<Token>> = lexer
        .lex_all()
        .into_iter()
        .map(|locatable_result| Locatable {
            location: locatable_result.location,
            data: locatable_result.data.unwrap(),
        })
        .collect();
    let mut parser = Parser::new(tokens);
    parser.parse().expect("Failed to parse")
}

#[test]
fn test_let_declaration() {
    let statements = parse_code("let x = 42;");
    assert_eq!(statements.len(), 1);
    match &statements[0] {
        Stmt::Let {
            identifier,
            initializer,
            ..
        } => {
            assert_eq!(identifier, "x");
            if let Some(expr) = initializer {
                match expr {
                    Expr::Literal { value, .. } => match value {
                        Literal::Integer(val) => assert_eq!(val, "42"),
                        _ => panic!("Expected integer literal"),
                    },
                    _ => panic!("Expected literal expression"),
                }
            } else {
                panic!("Expected initializer");
            }
        }
        _ => panic!("Expected let statement"),
    }
}

#[test]
fn test_let_declaration_without_initializer() {
    let statements = parse_code("let x;");
    assert_eq!(statements.len(), 1);
    match &statements[0] {
        Stmt::Let {
            identifier,
            initializer,
            ..
        } => {
            assert_eq!(identifier, "x");
            assert!(initializer.is_none());
        }
        _ => panic!("Expected let statement"),
    }
}

#[test]
fn test_var_declaration() {
    let statements = parse_code("var x = 42;");
    assert_eq!(statements.len(), 1);
    match &statements[0] {
        Stmt::Var {
            identifier,
            initializer,
            ..
        } => {
            assert_eq!(identifier, "x");
            if let Some(expr) = initializer {
                match expr {
                    Expr::Literal { value, .. } => match value {
                        Literal::Integer(val) => assert_eq!(val, "42"),
                        _ => panic!("Expected integer literal"),
                    },
                    _ => panic!("Expected literal expression"),
                }
            } else {
                panic!("Expected initializer");
            }
        }
        _ => panic!("Expected var statement"),
    }
}

#[test]
fn test_function_declaration() {
    let statements = parse_code("fn foo() { let x = 42; }");
    assert_eq!(statements.len(), 1);
    match &statements[0] {
        Stmt::Function {
            name,
            parameters,
            body,
            ..
        } => {
            assert_eq!(name, "foo");
            assert!(parameters.is_empty());
            assert_eq!(body.len(), 1);
            match &body[0] {
                Stmt::Let {
                    identifier,
                    initializer,
                    ..
                } => {
                    assert_eq!(identifier, "x");
                    if let Some(expr) = initializer {
                        match expr {
                            Expr::Literal { value, .. } => match value {
                                Literal::Integer(val) => assert_eq!(val, "42"),
                                _ => panic!("Expected integer literal"),
                            },
                            _ => panic!("Expected literal expression"),
                        }
                    } else {
                        panic!("Expected initializer");
                    }
                }
                _ => panic!("Expected let statement in function body"),
            }
        }
        _ => panic!("Expected function statement"),
    }
}

#[test]
fn test_function_declaration_with_parameters() {
    let statements = parse_code("fn add(a, b) { }");
    assert_eq!(statements.len(), 1);
    match &statements[0] {
        Stmt::Function {
            name,
            parameters,
            body,
            ..
        } => {
            assert_eq!(name, "add");
            assert_eq!(parameters, &["a", "b"]);
            assert_eq!(body.len(), 0);
        }
        _ => panic!("Expected function statement"),
    }
}

#[test]
fn test_block_statement() {
    let statements = parse_code("{ let x = 1; let y = 2; }");
    assert_eq!(statements.len(), 1);
    match &statements[0] {
        Stmt::Block { statements, .. } => {
            assert_eq!(statements.len(), 2);
            match &statements[0] {
                Stmt::Let { identifier, .. } => {
                    assert_eq!(identifier, "x");
                }
                _ => panic!("Expected let statement"),
            }
            match &statements[1] {
                Stmt::Let { identifier, .. } => {
                    assert_eq!(identifier, "y");
                }
                _ => panic!("Expected let statement"),
            }
        }
        _ => panic!("Expected block statement"),
    }
}
