//! Expression parsing: literals, binary and unary operators, grouping.

use rus::data::{Locatable, Token};
use rus::lex::Lexer;
use rus::parser::{BinaryOperator, Expr, Literal, Parser, Stmt, UnaryOperator};

fn parse_code(code: &str) -> Vec<Stmt> {
    let mut lexer = Lexer::new("test.rs", code);
    let tokens: Vec<Locatable<Token>> = lexer
        .lex_all()
        .into_iter()
        .map(|locatable_result| Locatable {
            location: locatable_result.location,
            data: locatable_result.data.unwrap(),
        })
        .collect();
    let mut parser = Parser::new(tokens);
    parser.parse().expect("Failed to parse")
}

#[test]
fn test_basic_expressions() {
    let statements = parse_code("42;");
    assert_eq!(statements.len(), 1);
    match &statements[0] {
        Stmt::Expression { expression, .. } => match expression {
            Expr::Literal { value, .. } => match value {
                Literal::Integer(val) => assert_eq!(val, "42"),
                _ => panic!("Expected integer literal"),
            },
            _ => panic!("Expected literal expression"),
        },
        _ => panic!("Expected expression statement"),
    }
}

#[test]
fn test_binary_expressions() {
    let statements = parse_code("1 + 2;");
    assert_eq!(statements.len(), 1);
    match &statements[0] {
        Stmt::Expression { expression, .. } => match expression {
            Expr::Binary {
                left,
                operator,
                right,
                ..
            } => {
                match &**left {
                    Expr::Literal { value, .. } => match value {
                        Literal::Integer(val) => assert_eq!(val, "1"),
                        _ => panic!("Expected integer literal"),
                    },
                    _ => panic!("Expected literal expression"),
                }
                assert_eq!(operator, &BinaryOperator::Add);
                match &**right {
                    Expr::Literal { value, .. } => match value {
                        Literal::Integer(val) => assert_eq!(val, "2"),
                        _ => panic!("Expected integer literal"),
                    },
                    _ => panic!("Expected literal expression"),
                }
            }
            _ => panic!("Expected binary expression"),
        },
        _ => panic!("Expected expression statement"),
    }
}

#[test]
fn test_operator_precedence() {
    let statements = parse_code("1 + 2 * 3;");
    assert_eq!(statements.len(), 1);
    match &statements[0] {
        Stmt::Expression { expression, .. } => match expression {
            Expr::Binary {
                left,
                operator,
                right,
                ..
            } => {
                match &**left {
                    Expr::Literal { value, .. } => match value {
                        Literal::Integer(val) => assert_eq!(val, "1"),
                        _ => panic!("Expected integer literal"),
                    },
                    _ => panic!("Expected literal expression"),
                }
                assert_eq!(operator, &BinaryOperator::Add);
                match &**right {
                    Expr::Binary {
                        left,
                        operator,
                        right,
                        ..
                    } => {
                        assert_eq!(operator, &BinaryOperator::Multiply);
                        match &**left {
                            Expr::Literal { value, .. } => match value {
                                Literal::Integer(val) => assert_eq!(val, "2"),
                                _ => panic!("Expected integer literal"),
                            },
                            _ => panic!("Expected literal expression"),
                        }
                        match &**right {
                            Expr::Literal { value, .. } => match value {
                                Literal::Integer(val) => assert_eq!(val, "3"),
                                _ => panic!("Expected integer literal"),
                            },
                            _ => panic!("Expected literal expression"),
                        }
                    }
                    _ => panic!("Expected binary expression"),
                }
            }
            _ => panic!("Expected binary expression"),
        },
        _ => panic!("Expected expression statement"),
    }
}

#[test]
fn test_unary_expressions() {
    let statements = parse_code("-42;");
    assert_eq!(statements.len(), 1);
    match &statements[0] {
        Stmt::Expression { expression, .. } => match expression {
            Expr::Unary {
                operator, operand, ..
            } => {
                assert_eq!(operator, &UnaryOperator::Negate);
                match &**operand {
                    Expr::Literal { value, .. } => match value {
                        Literal::Integer(val) => assert_eq!(val, "42"),
                        _ => panic!("Expected integer literal"),
                    },
                    _ => panic!("Expected literal expression"),
                }
            }
            _ => panic!("Expected unary expression"),
        },
        _ => panic!("Expected expression statement"),
    }
}

#[test]
fn test_grouping_expressions() {
    let statements = parse_code("(1 + 2) * 3;");
    assert_eq!(statements.len(), 1);
    match &statements[0] {
        Stmt::Expression { expression, .. } => match expression {
            Expr::Binary {
                left,
                operator,
                right,
                ..
            } => {
                assert_eq!(operator, &BinaryOperator::Multiply);
                match &**left {
                    Expr::Grouping { expression, .. } => match &**expression {
                        Expr::Binary {
                            left,
                            operator,
                            right,
                            ..
                        } => {
                            assert_eq!(operator, &BinaryOperator::Add);
                            match &**left {
                                Expr::Literal { value, .. } => match value {
                                    Literal::Integer(val) => assert_eq!(val, "1"),
                                    _ => panic!("Expected integer literal"),
                                },
                                _ => panic!("Expected literal expression"),
                            }
                            match &**right {
                                Expr::Literal { value, .. } => match value {
                                    Literal::Integer(val) => assert_eq!(val, "2"),
                                    _ => panic!("Expected integer literal"),
                                },
                                _ => panic!("Expected literal expression"),
                            }
                        }
                        _ => panic!("Expected binary expression"),
                    },
                    _ => panic!("Expected grouping expression"),
                }
                match &**right {
                    Expr::Literal { value, .. } => match value {
                        Literal::Integer(val) => assert_eq!(val, "3"),
                        _ => panic!("Expected integer literal"),
                    },
                    _ => panic!("Expected literal expression"),
                }
            }
            _ => panic!("Expected binary expression"),
        },
        _ => panic!("Expected expression statement"),
    }
}
