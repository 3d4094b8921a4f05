//! Code generation: instruction streams, name resolution, arity checks,
//! the load-or-pass-through rule, and the entry-point check.

use pitusya::ast::parser::parse;
use pitusya::codegen::ir::{Inst, IrBinOp, Module, ValId};
use pitusya::codegen::{Cg, CgError};
use pitusya::input::CursoredFile;
use pitusya::lexer::tokens::ComparisionOpKind;
use pitusya::pass::pipeline;

fn compile(text: &str) -> Result<Module, CgError> {
    let mut input = CursoredFile::new(String::from("test.pit"), String::from(text));
    let asts = parse(&mut input).unwrap();
    pipeline(&asts).unwrap();
    let mut cg = Cg::default();
    for ast in asts {
        cg.codegen(ast)?;
    }
    cg.finish()
}

fn num(text: &str) -> Inst {
    Inst::ConstNum(String::from(text))
}

#[test]
fn parameters_pass_through_without_loads() {
    let module = compile("fn f(a) { ret a + 1; } fn main() { ret f(41); }").unwrap();
    let f = &module.functions[0];
    assert_eq!(f.name, "f");
    assert_eq!(f.arity, 1);
    assert!(!f.is_extern);
    assert_eq!(
        f.body,
        vec![
            num("1"),
            Inst::Bin { op: IrBinOp::Add, lhs: ValId::Param(0), rhs: ValId::Temp(0) },
            Inst::Ret { value: ValId::Temp(1) },
        ]
    );
    let main = &module.functions[1];
    assert_eq!(main.name, "main");
    assert_eq!(main.arity, 0);
    assert_eq!(
        main.body,
        vec![
            num("41"),
            Inst::Call { callee: 0, args: vec![ValId::Temp(0)] },
            Inst::Ret { value: ValId::Temp(1) },
        ]
    );
}

#[test]
fn locals_are_loaded_before_use() {
    let module = compile("fn main() { let a = 1; ret a; }").unwrap();
    let main = &module.functions[0];
    assert_eq!(
        main.body,
        vec![
            num("1"),
            Inst::Alloca { name: String::from("a"), init: ValId::Temp(0) },
            Inst::Load { slot: ValId::Temp(1) },
            Inst::Ret { value: ValId::Temp(2) },
        ]
    );
}

#[test]
fn assignment_stores_and_yields_the_value() {
    let module = compile("fn main() { let a = 1; a = 2; ret a; }").unwrap();
    let main = &module.functions[0];
    assert_eq!(
        main.body,
        vec![
            num("1"),
            Inst::Alloca { name: String::from("a"), init: ValId::Temp(0) },
            num("2"),
            Inst::Store { value: ValId::Temp(2), slot: ValId::Temp(1) },
            Inst::Load { slot: ValId::Temp(1) },
            Inst::Ret { value: ValId::Temp(4) },
        ]
    );
}

#[test]
fn conditionals_branch_and_merge() {
    let module = compile("fn main() { if 1 { ret 2; } ret 1; }").unwrap();
    let main = &module.functions[0];
    assert_eq!(
        main.body,
        vec![
            num("1"),
            Inst::EnterIf { cond: ValId::Temp(0) },
            num("2"),
            Inst::Ret { value: ValId::Temp(2) },
            Inst::ExitIf { body_returns: true },
            num("1"),
            Inst::Ret { value: ValId::Temp(5) },
        ]
    );
}

#[test]
fn loops_test_their_condition_after_the_body() {
    let module = compile("fn main() { let a = 1; while a < 5 { a = a + 1; } ret a; }").unwrap();
    let main = &module.functions[0];
    assert_eq!(
        main.body,
        vec![
            num("1"),
            Inst::Alloca { name: String::from("a"), init: ValId::Temp(0) },
            Inst::EnterLoop,
            Inst::Load { slot: ValId::Temp(1) },
            num("1"),
            Inst::Bin { op: IrBinOp::Add, lhs: ValId::Temp(3), rhs: ValId::Temp(4) },
            Inst::Store { value: ValId::Temp(5), slot: ValId::Temp(1) },
            Inst::Load { slot: ValId::Temp(1) },
            num("5"),
            Inst::Cmp { op: ComparisionOpKind::Less, lhs: ValId::Temp(7), rhs: ValId::Temp(8) },
            Inst::ExitLoop { cond: ValId::Temp(9), body_returns: false },
            Inst::Load { slot: ValId::Temp(1) },
            Inst::Ret { value: ValId::Temp(11) },
        ]
    );
}

#[test]
fn externs_declare_without_bodies() {
    let module = compile("extern print(n); fn main() { ret print(41); }").unwrap();
    assert_eq!(module.functions[0].name, "print");
    assert_eq!(module.functions[0].arity, 1);
    assert!(module.functions[0].is_extern);
    assert!(module.functions[0].body.is_empty());
    let main = &module.functions[1];
    assert_eq!(
        main.body,
        vec![
            num("41"),
            Inst::Call { callee: 0, args: vec![ValId::Temp(0)] },
            Inst::Ret { value: ValId::Temp(1) },
        ]
    );
}

#[test]
fn arity_mismatch_fails_before_the_call() {
    let err = compile("fn two(a, b) { ret a + b; } fn main() { ret two(1); }").unwrap_err();
    assert_eq!(
        err,
        CgError::ArityMismatch { name: String::from("two"), expected: 2, got: 1 }
    );
}

#[test]
fn unknown_variable_is_fatal() {
    let err = compile("fn main() { ret x; }").unwrap_err();
    assert_eq!(err, CgError::UnknownVariable(String::from("x")));
}

#[test]
fn unknown_function_is_fatal() {
    let err = compile("fn main() { ret g(); }").unwrap_err();
    assert_eq!(err, CgError::UnknownFunction(String::from("g")));
}

#[test]
fn redefinition_is_fatal() {
    let err = compile("fn f() { ret 1; } fn f() { ret 2; } fn main() { ret f(); }").unwrap_err();
    assert_eq!(err, CgError::Redefinition(String::from("f")));
}

#[test]
fn parameters_are_immutable() {
    let err = compile("fn f(a) { a = 1; ret a; } fn main() { ret f(1); }").unwrap_err();
    assert_eq!(err, CgError::AssignToParameter(String::from("a")));
}

#[test]
fn string_literals_are_not_lowered() {
    let err = compile("fn main() { let s = \"cool\"; ret 0; }").unwrap_err();
    assert_eq!(err, CgError::StringsUnsupported);
}

#[test]
fn a_program_without_main_is_fatal() {
    let err = compile("fn f() { ret 1; }").unwrap_err();
    assert_eq!(err, CgError::NoMain);
}

#[test]
fn recursion_resolves_through_the_symbol_table() {
    // the function's own name is visible inside its body
    let module = compile("fn f(a) { ret f(a); } fn main() { ret 0; }").unwrap();
    let f = &module.functions[0];
    assert_eq!(
        f.body,
        vec![
            Inst::Call { callee: 0, args: vec![ValId::Param(0)] },
            Inst::Ret { value: ValId::Temp(0) },
        ]
    );
}
