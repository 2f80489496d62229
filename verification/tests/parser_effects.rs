//! Algebraic-effect syntax: effect declarations, handlers and operation
//! calls.

use rus::data::{Locatable, Token};
use rus::lex::Lexer;
use rus::parser::{Expr, Parser, Stmt};

fn parse_code(code: &str) -> Vec<Stmt> {
    let mut lexer = Lexer::new("test.rs", code);
    let tokens: Vec<Locatable<Token>> = lexer
        .lex_all()
        .into_iter()
        .map(|locatable_result| Locatable {
            location: locatable_result.location,
            data: locatable_result.data.unwrap(),
        })
        .collect();
    let mut parser = Parser::new(tokens);
    parser.parse().expect("Failed to parse")
}

#[test]
fn test_effect_declaration() {
    let code = r#"
        effect FileSystem {
            fn read_file(path: string) -> string;
            fn write_file(path: string, content: string) -> unit;
        }
    "#;
    let statements = parse_code(code);
    assert_eq!(statements.len(), 1);
    match &statements[0] {
        Stmt::Effect { declaration, .. } => {
            assert_eq!(declaration.name, "FileSystem");
            assert_eq!(declaration.operations.len(), 2);

            let read_op = &declaration.operations[0];
            assert_eq!(read_op.name, "read_file");
            assert_eq!(read_op.parameters.len(), 1);
            assert_eq!(read_op.parameters[0].0, "path");
            assert_eq!(read_op.parameters[0].1, "string");
            assert_eq!(read_op.return_type.as_ref().unwrap(), "string");

            let write_op = &declaration.operations[1];
            assert_eq!(write_op.name, "write_file");
            assert_eq!(write_op.parameters.len(), 2);
            assert_eq!(write_op.parameters[0].0, "path");
            assert_eq!(write_op.parameters[0].1, "string");
            assert_eq!(write_op.parameters[1].0, "content");
            assert_eq!(write_op.parameters[1].1, "string");
            assert_eq!(write_op.return_type.as_ref().unwrap(), "unit");
        }
        _ => panic!("Expected effect statement"),
    }
}

#[test]
fn test_handler_declaration() {
    let code = r#"
        handle FileSystem {
            read_file(path) {
                content;
            }
        }
    "#;
    let statements = parse_code(code);
    assert_eq!(statements.len(), 1);
    match &statements[0] {
        Stmt::Handler { declaration, .. } => {
            assert_eq!(declaration.effect, "FileSystem");
            assert_eq!(declaration.clauses.len(), 1);

            let read_clause = &declaration.clauses[0];
            assert_eq!(read_clause.operation, "read_file");
            assert_eq!(read_clause.parameters, vec!["path"]);
            assert_eq!(read_clause.body.len(), 1);
        }
        _ => panic!("Expected handler statement"),
    }
}

#[test]
fn test_complex_handler_declaration() {
    let code = r#"
        handle FileSystem {
            read_file(path) {
                let x = 42;
                x;
            }
        }
    "#;
    let statements = parse_code(code);
    assert_eq!(statements.len(), 1);
    match &statements[0] {
        Stmt::Handler { declaration, .. } => {
            assert_eq!(declaration.effect, "FileSystem");
            assert_eq!(declaration.clauses.len(), 1);

            let read_clause = &declaration.clauses[0];
            assert_eq!(read_clause.operation, "read_file");
            assert_eq!(read_clause.parameters, vec!["path"]);
            assert_eq!(read_clause.body.len(), 2);
        }
        _ => panic!("Expected handler statement"),
    }
}

#[test]
fn test_effect_operation_call() {
    let code = r#"FileSystem.read_file("test.txt");"#;
    let statements = parse_code(code);
    assert_eq!(statements.len(), 1);
    match &statements[0] {
        Stmt::Expression { expression, .. } => match expression {
            Expr::EffectOperation {
                effect,
                operation,
                arguments,
                ..
            } => {
                assert_eq!(effect, "FileSystem");
                assert_eq!(operation, "read_file");
                assert_eq!(arguments.len(), 1);
            }
            _ => panic!("Expected effect operation expression"),
        },
        _ => panic!("Expected expression statement"),
    }
}
