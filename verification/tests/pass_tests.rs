//! Control-flow validation: the return discipline and the dead-code rule.

use pitusya::ast::parser::parse;
use pitusya::input::CursoredFile;
use pitusya::pass::{pipeline, PassError};

fn parsed(text: &str) -> Vec<pitusya::ast::Ast> {
    let mut input = CursoredFile::new(String::from("test.pit"), String::from(text));
    parse(&mut input).unwrap()
}

#[test]
fn zero_returns_is_rejected() {
    let asts = parsed("fn f() { let a = 1; }");
    assert_eq!(
        pipeline(&asts),
        Err(PassError::WrongReturnCount(String::from("f")))
    );
}

#[test]
fn two_returns_is_rejected() {
    let asts = parsed("fn f() { ret 1; ret 2; }");
    assert_eq!(
        pipeline(&asts),
        Err(PassError::WrongReturnCount(String::from("f")))
    );
}

#[test]
fn one_return_plus_one_in_a_branch_is_accepted() {
    let asts = parsed("fn f(a) { if a { ret 2; } ret 1; }");
    assert_eq!(pipeline(&asts), Ok(()));
}

#[test]
fn two_returns_in_a_nested_block_is_rejected() {
    let asts = parsed("fn f(a) { if a { ret 1; ret 2; } ret 3; }");
    assert_eq!(
        pipeline(&asts),
        Err(PassError::NestedMultipleReturns(String::from("f")))
    );
}

#[test]
fn deeply_nested_extra_returns_are_found() {
    let asts = parsed("fn f(a) { if a { while a { ret 1; ret 2; } } ret 3; }");
    assert_eq!(
        pipeline(&asts),
        Err(PassError::NestedMultipleReturns(String::from("f")))
    );
}

#[test]
fn code_after_return_is_rejected() {
    let asts = parsed("fn f() { ret 1; let a = 2; }");
    // the top level returns twice? no — once; the statement after it is dead
    assert_eq!(
        pipeline(&asts),
        Err(PassError::UnreachableCode(String::from("f")))
    );
}

#[test]
fn dead_code_in_a_nested_block_is_rejected() {
    let asts = parsed("fn f(a) { if a { ret 1; let b = 2; } ret 3; }");
    assert_eq!(
        pipeline(&asts),
        Err(PassError::UnreachableCode(String::from("f")))
    );
}

#[test]
fn externs_are_not_validated() {
    let asts = parsed("extern print(n);");
    assert_eq!(pipeline(&asts), Ok(()));
}

#[test]
fn first_failing_function_is_reported() {
    let asts = parsed("fn ok() { ret 1; } fn bad() { let a = 1; } fn worse() { ret 1; ret 2; }");
    assert_eq!(
        pipeline(&asts),
        Err(PassError::WrongReturnCount(String::from("bad")))
    );
}
