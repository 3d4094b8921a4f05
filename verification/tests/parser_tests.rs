//! Parser behaviour: program structure, statements, expressions, errors.

use pitusya::ast::parser::parse;
use pitusya::ast::{Ast, Proto};
use pitusya::input::CursoredFile;
use pitusya::lexer::tokens::{BinaryOperatorKind, ComparisionOpKind, LiteralKind};

fn file(text: &str) -> CursoredFile {
    CursoredFile::new(String::from("test.pit"), String::from(text))
}

fn num(text: &str) -> Ast {
    Ast::ValueNode(LiteralKind::Num(String::from(text)))
}

#[test]
fn test_let_expr() {
    let mut input = file(
        "fn main() {
            let pitusya = \"cool\";
        }",
    );
    assert!(parse(&mut input).is_ok());
}

#[test]
fn let_statement_shape() {
    // `let x = 1;` inside a function body becomes the expected node.
    let mut input = file("fn f() { let x = 1; }");
    let ast = parse(&mut input).unwrap();
    match &ast[0] {
        Ast::FunctionNode { proto: _, body } => {
            assert_eq!(
                body[0],
                Ast::LetNode {
                    assignee: String::from("x"),
                    value: Box::new(num("1")),
                }
            );
        }
        other => panic!("expected a function, got {:?}", other),
    }
}

#[test]
fn main_function_parses() {
    let mut input = file("fn main() { let a = 1; ret a; }");
    let ast = parse(&mut input).unwrap();
    assert_eq!(ast.len(), 1);
    match &ast[0] {
        Ast::FunctionNode { proto, body } => {
            assert_eq!(proto.name, "main");
            assert_eq!(proto.args.len(), 0);
            assert_eq!(body.len(), 2);
        }
        other => panic!("expected a function, got {:?}", other),
    }
}

#[test]
fn test_if_expression_parsing() {
    let mut input = file("fn f() { if 1 == 2 { let w = 1; } ret 0; }");
    let ast = parse(&mut input).unwrap();
    match &ast[0] {
        Ast::FunctionNode { proto: _, body } => match &body[0] {
            Ast::IfNode { condition, body: inner } => {
                assert_eq!(
                    **condition,
                    Ast::BinaryNode {
                        left: Box::new(num("1")),
                        right: Box::new(num("2")),
                        op: BinaryOperatorKind::Comparision(ComparisionOpKind::Equals),
                    }
                );
                assert_eq!(inner.len(), 1);
            }
            other => panic!("expected an if, got {:?}", other),
        },
        other => panic!("expected a function, got {:?}", other),
    }
}

#[test]
fn test_while_expression_parsing() {
    let mut input = file("fn f() { while 1 == 1 { let hello = 1; } ret 0; }");
    let ast = parse(&mut input).unwrap();
    match &ast[0] {
        Ast::FunctionNode { proto: _, body } => {
            assert!(matches!(body[0], Ast::WhileNode { .. }));
        }
        other => panic!("expected a function, got {:?}", other),
    }
}

#[test]
fn test_bad_input() {
    // a bare statement cannot stand at top level
    let mut bad = file("1 = 1;");
    let err = parse(&mut bad).unwrap_err();
    assert_eq!(err.help, "expected `extern` or `fn`");
}

#[test]
fn assignment_needs_an_identifier_target() {
    let mut input = file("fn f() { 1 = 1; ret 0; }");
    let err = parse(&mut input).unwrap_err();
    assert_eq!(err.help, "function parameters are immutable");
}

#[test]
fn parenthesized_assignment_target_is_rejected() {
    // unspecified in the grammar's lineage; this implementation takes the
    // stricter reading and rejects it at parse time
    let mut input = file("fn f() { (x) = 1; ret 0; }");
    assert!(parse(&mut input).is_err());
}

#[test]
fn expressions_associate_to_the_right() {
    let mut input = file("fn f() { ret 1 - 2 - 3; }");
    let ast = parse(&mut input).unwrap();
    match &ast[0] {
        Ast::FunctionNode { proto: _, body } => {
            assert_eq!(
                body[0],
                Ast::RetNode(Box::new(Ast::BinaryNode {
                    left: Box::new(num("1")),
                    right: Box::new(Ast::BinaryNode {
                        left: Box::new(num("2")),
                        right: Box::new(num("3")),
                        op: BinaryOperatorKind::Subtraction,
                    }),
                    op: BinaryOperatorKind::Subtraction,
                }))
            );
        }
        other => panic!("expected a function, got {:?}", other),
    }
}

#[test]
fn parenthesized_expressions_are_transparent_units() {
    let mut input = file("fn f() { ret (1 + 2) * 3; }");
    let ast = parse(&mut input).unwrap();
    match &ast[0] {
        Ast::FunctionNode { proto: _, body } => {
            assert_eq!(
                body[0],
                Ast::RetNode(Box::new(Ast::BinaryNode {
                    left: Box::new(Ast::UnitNode(Box::new(Ast::BinaryNode {
                        left: Box::new(num("1")),
                        right: Box::new(num("2")),
                        op: BinaryOperatorKind::Addition,
                    }))),
                    right: Box::new(num("3")),
                    op: BinaryOperatorKind::Multiplication,
                }))
            );
        }
        other => panic!("expected a function, got {:?}", other),
    }
}

#[test]
fn calls_take_expression_arguments() {
    let mut input = file("fn g(a, b) { ret a; } fn main() { ret g(1 + 2, 3); }");
    let ast = parse(&mut input).unwrap();
    assert_eq!(ast.len(), 2);
    match &ast[1] {
        Ast::FunctionNode { proto: _, body } => match &body[0] {
            Ast::RetNode(inner) => match &**inner {
                Ast::CallNode(Proto { name, args }) => {
                    assert_eq!(name, "g");
                    assert_eq!(args.len(), 2);
                }
                other => panic!("expected a call, got {:?}", other),
            },
            other => panic!("expected ret, got {:?}", other),
        },
        other => panic!("expected a function, got {:?}", other),
    }
}

#[test]
fn extern_declarations_parse() {
    let mut input = file("extern print(n); fn main() { ret print(1); }");
    let ast = parse(&mut input).unwrap();
    assert_eq!(ast.len(), 2);
    match &ast[0] {
        Ast::ExternNode(Proto { name, args }) => {
            assert_eq!(name, "print");
            assert_eq!(args.len(), 1);
        }
        other => panic!("expected an extern, got {:?}", other),
    }
}

#[test]
fn main_accepts_no_parameters() {
    let mut input = file("fn main(a) { ret a; }");
    let err = parse(&mut input).unwrap_err();
    assert_eq!(err.help, "main function accepts no parameters");
}

#[test]
fn missing_paren_is_reported() {
    let mut input = file("fn f { ret 1; }");
    let err = parse(&mut input).unwrap_err();
    assert_eq!(err.help, "expected `(`");
}

#[test]
fn empty_input_parses_to_nothing() {
    let mut input = file("   ");
    let ast = parse(&mut input).unwrap();
    assert!(ast.is_empty());
}

#[test]
fn a_semicolon_after_a_definition_prototype_is_swallowed() {
    let mut input = file("fn f(); { ret 1; }");
    assert!(parse(&mut input).is_ok());
}

#[test]
fn a_missing_function_name_is_reported() {
    let mut input = file("fn");
    let err = parse(&mut input).unwrap_err();
    assert_eq!(err.help, "expected function's name in it's definition");
}
