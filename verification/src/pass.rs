//! The control-flow validator.  After parsing and before code generation it
//! walks every function and rejects programs that return zero or several
//! times at the top level of a body, return more than once at the top level
//! of any nested `if`/`while` block (descending recursively), or hold a
//! statement after a `ret` in the same block (dead code).

use vstd::prelude::*;

use crate::ast::{lemma_view_asts, view_asts, Ast, AstV};

verus! {

/// How many `ret` statements stand directly in `body` (not inside nested
/// blocks).
pub open spec fn ret_count(body: Seq<AstV>) -> int
    decreases body.len(),
{
    if body.len() == 0 {
        0
    } else {
        ret_count(body.drop_last()) + if body.last() is RetNode {
            1int
        } else {
            0int
        }
    }
}

/// Every block nested in this statement (descending through `if` and
/// `while`) holds at most one direct `ret`.
pub open spec fn stmt_nested_ok(a: AstV) -> bool
    decreases a,
{
    match a {
        AstV::IfNode { condition: _, body } => ret_count(body) <= 1 && blocks_ok(body),
        AstV::WhileNode { condition: _, body } => ret_count(body) <= 1 && blocks_ok(body),
        _ => true,
    }
}

/// Every block nested in one of these statements holds at most one direct
/// `ret`.
pub open spec fn blocks_ok(body: Seq<AstV>) -> bool
    decreases body,
{
    forall|k: int| 0 <= k < body.len() ==> stmt_nested_ok(#[trigger] body[k])
}

/// No statement follows a direct `ret` in this block.
pub open spec fn no_stmt_after_ret(body: Seq<AstV>) -> bool {
    forall|k: int| 0 <= k < body.len() && (#[trigger] body[k]) is RetNode ==> k == body.len() - 1
}

/// No block nested in this statement holds dead code.
pub open spec fn stmt_dead_ok(a: AstV) -> bool
    decreases a,
{
    match a {
        AstV::IfNode { condition: _, body } => dead_ok(body),
        AstV::WhileNode { condition: _, body } => dead_ok(body),
        _ => true,
    }
}

/// This block and every block nested in it hold no statement after a `ret`.
pub open spec fn dead_ok(body: Seq<AstV>) -> bool
    decreases body,
{
    no_stmt_after_ret(body) && forall|k: int|
        0 <= k < body.len() ==> stmt_dead_ok(#[trigger] body[k])
}

/// A function body the validator accepts: exactly one top-level `ret`, at
/// most one direct `ret` in every nested block, and no dead code anywhere.
pub open spec fn function_ok(body: Seq<AstV>) -> bool {
    ret_count(body) == 1 && blocks_ok(body) && dead_ok(body)
}

/// A program the validator accepts: every function definition in it is
/// `function_ok`.
pub open spec fn program_ok(prog: Seq<AstV>) -> bool {
    forall|k: int| 0 <= k < prog.len() ==> match #[trigger] prog[k] {
        AstV::FunctionNode { proto: _, body } => function_ok(body),
        _ => true,
    }
}

/// A fatal control-flow error, carrying the offending function's name.
#[derive(Debug, PartialEq)]
pub enum PassError {
    /// The body's top level returns several times, or not at all.
    WrongReturnCount(String),
    /// Some nested block returns more than once.
    NestedMultipleReturns(String),
    /// A statement stands after a `ret` in the same block.
    UnreachableCode(String),
}

/// The mathematical image of a `PassError`.
pub enum PassErrorV {
    WrongReturnCount(Seq<char>),
    NestedMultipleReturns(Seq<char>),
    UnreachableCode(Seq<char>),
}

impl View for PassError {
    type V = PassErrorV;

    open spec fn view(&self) -> PassErrorV {
        match self {
            PassError::WrongReturnCount(n) => PassErrorV::WrongReturnCount(n@),
            PassError::NestedMultipleReturns(n) => PassErrorV::NestedMultipleReturns(n@),
            PassError::UnreachableCode(n) => PassErrorV::UnreachableCode(n@),
        }
    }
}

/// What the return-count checks say of one function.
pub open spec fn sp_terminated(name: Seq<char>, body: Seq<AstV>) -> Option<PassErrorV> {
    if ret_count(body) != 1 {
        Some(PassErrorV::WrongReturnCount(name))
    } else if !blocks_ok(body) {
        Some(PassErrorV::NestedMultipleReturns(name))
    } else {
        None
    }
}

/// What the dead-code check says of one function.
pub open spec fn sp_no_dead_code(name: Seq<char>, body: Seq<AstV>) -> Option<PassErrorV> {
    if !dead_ok(body) {
        Some(PassErrorV::UnreachableCode(name))
    } else {
        None
    }
}

/// What the whole validator says of one function.
pub open spec fn sp_validate_fn(name: Seq<char>, body: Seq<AstV>) -> Option<PassErrorV> {
    match sp_terminated(name, body) {
        Some(e) => Some(e),
        None => sp_no_dead_code(name, body),
    }
}

/// What the validator says of a program: the error of the first function
/// that fails, or nothing.
pub open spec fn sp_pipeline(prog: Seq<AstV>) -> Option<PassErrorV>
    decreases prog.len(),
{
    if prog.len() == 0 {
        None
    } else {
        match prog[0] {
            AstV::FunctionNode { proto, body } => match sp_validate_fn(proto.name, body) {
                Some(e) => Some(e),
                None => sp_pipeline(prog.drop_first()),
            },
            _ => sp_pipeline(prog.drop_first()),
        }
    }
}

/// The validator accepts a program exactly when every function in it is
/// `function_ok`.
pub proof fn lemma_pipeline_ok(prog: Seq<AstV>)
    ensures
        sp_pipeline(prog) is None <==> program_ok(prog),
    decreases prog.len(),
{
    if prog.len() > 0 {
        lemma_pipeline_ok(prog.drop_first());
        assert forall|k: int| 0 <= k < prog.len() && program_ok(prog.drop_first()) && (match prog[0] {
            AstV::FunctionNode { proto: _, body } => function_ok(body),
            _ => true,
        }) implies match #[trigger] prog[k] {
            AstV::FunctionNode { proto: _, body } => function_ok(body),
            _ => true,
        } by {
            if k > 0 {
                assert(prog[k] == prog.drop_first()[k - 1]);
            }
        }
        assert(program_ok(prog) ==> program_ok(prog.drop_first())) by {
            if program_ok(prog) {
                assert forall|k: int| 0 <= k < prog.drop_first().len() implies match #[trigger] prog.drop_first()[k] {
                    AstV::FunctionNode { proto: _, body } => function_ok(body),
                    _ => true,
                } by {
                    assert(prog.drop_first()[k] == prog[k + 1]);
                }
            }
        }
    }
}

/// A body with zero top-level returns, or with more than one, is always
/// rejected; a body with exactly one, whose nested blocks each return at
/// most once and which holds no dead code, is always accepted.
pub proof fn lemma_return_discipline(name: Seq<char>, body: Seq<AstV>)
    ensures
        ret_count(body) != 1 ==> sp_validate_fn(name, body) is Some,
        ret_count(body) == 1 && blocks_ok(body) && dead_ok(body) ==> sp_validate_fn(name, body)
            is None,
{
}

fn is_ret(a: &Ast) -> (r: bool)
    ensures
        r == (a.view() is RetNode),
{
    matches!(a, Ast::RetNode(_))
}

/// Counts the direct `ret` statements of a block.
fn count_returns(body: &Vec<Ast>) -> (r: usize)
    ensures
        r == ret_count(view_asts(body@)),
{
    proof {
        lemma_view_asts(body@);
    }
    let ghost view = view_asts(body@);
    let mut k: usize = 0;
    let mut count: usize = 0;
    while k < body.len()
        invariant
            k <= body@.len(),
            count <= k,
            view == view_asts(body@),
            view.len() == body@.len(),
            count == ret_count(view.take(k as int)),
        decreases body@.len() - k,
    {
        proof {
            lemma_view_asts(body@);
            assert(view.take(k + 1).drop_last() =~= view.take(k as int));
            assert(view.take(k + 1).last() == view[k as int]);
        }
        if is_ret(&body[k]) {
            count = count + 1;
        }
        k = k + 1;
    }
    proof {
        assert(view.take(body@.len() as int) =~= view);
    }
    count
}

/// Checks that every block nested in this statement returns at most once.
fn check_stmt_blocks(a: &Ast) -> (r: bool)
    ensures
        r == stmt_nested_ok(a.view()),
    decreases a,
{
    match a {
        Ast::IfNode { condition: _, body } => {
            let c = count_returns(body);
            c <= 1 && check_blocks(body)
        },
        Ast::WhileNode { condition: _, body } => {
            let c = count_returns(body);
            c <= 1 && check_blocks(body)
        },
        _ => true,
    }
}

/// Checks `blocks_ok` for a block.
fn check_blocks(body: &Vec<Ast>) -> (r: bool)
    ensures
        r == blocks_ok(view_asts(body@)),
    decreases body,
{
    proof {
        lemma_view_asts(body@);
    }
    let ghost view = view_asts(body@);
    let mut k: usize = 0;
    while k < body.len()
        invariant
            k <= body@.len(),
            view == view_asts(body@),
            view.len() == body@.len(),
            forall|j: int| 0 <= j < k ==> stmt_nested_ok(#[trigger] view[j]),
        decreases body@.len() - k,
    {
        proof {
            lemma_view_asts(body@);
        }
        if !check_stmt_blocks(&body[k]) {
            proof {
                assert(!stmt_nested_ok(view[k as int]));
                assert(!blocks_ok(view));
            }
            return false;
        }
        k = k + 1;
    }
    true
}

/// Checks `no_stmt_after_ret` for a block.
fn check_last_ret(body: &Vec<Ast>) -> (r: bool)
    ensures
        r == no_stmt_after_ret(view_asts(body@)),
{
    proof {
        lemma_view_asts(body@);
    }
    let ghost view = view_asts(body@);
    let mut k: usize = 0;
    while k < body.len()
        invariant
            k <= body@.len(),
            view == view_asts(body@),
            view.len() == body@.len(),
            forall|j: int| 0 <= j < k && (#[trigger] view[j]) is RetNode ==> j == view.len() - 1,
        decreases body@.len() - k,
    {
        proof {
            lemma_view_asts(body@);
        }
        if is_ret(&body[k]) && k + 1 < body.len() {
            proof {
                assert((view[k as int]) is RetNode && k as int != view.len() - 1);
                assert(!no_stmt_after_ret(view));
            }
            return false;
        }
        k = k + 1;
    }
    true
}

/// Checks `stmt_dead_ok` for a statement.
fn check_stmt_dead(a: &Ast) -> (r: bool)
    ensures
        r == stmt_dead_ok(a.view()),
    decreases a,
{
    match a {
        Ast::IfNode { condition: _, body } => check_dead(body),
        Ast::WhileNode { condition: _, body } => check_dead(body),
        _ => true,
    }
}

/// Checks `dead_ok` for a block.
fn check_dead(body: &Vec<Ast>) -> (r: bool)
    ensures
        r == dead_ok(view_asts(body@)),
    decreases body,
{
    proof {
        lemma_view_asts(body@);
    }
    let ghost view = view_asts(body@);
    if !check_last_ret(body) {
        return false;
    }
    let mut k: usize = 0;
    while k < body.len()
        invariant
            k <= body@.len(),
            view == view_asts(body@),
            view.len() == body@.len(),
            no_stmt_after_ret(view),
            forall|j: int| 0 <= j < k ==> stmt_dead_ok(#[trigger] view[j]),
        decreases body@.len() - k,
    {
        proof {
            lemma_view_asts(body@);
        }
        if !check_stmt_dead(&body[k]) {
            proof {
                assert(!stmt_dead_ok(view[k as int]));
                assert(!dead_ok(view));
            }
            return false;
        }
        k = k + 1;
    }
    true
}

/// The return-count checks of one function: exactly one top-level `ret`,
/// and at most one direct `ret` in every nested block.
pub fn terminated(name: &String, body: &Vec<Ast>) -> (r: Result<(), PassError>)
    ensures
        match r {
            Ok(_) => sp_terminated(name@, view_asts(body@)) is None,
            Err(e) => sp_terminated(name@, view_asts(body@)) == Some(e@),
        },
{
    let count = count_returns(body);
    if count != 1 {
        return Err(PassError::WrongReturnCount(name.clone()));
    }
    if !check_blocks(body) {
        return Err(PassError::NestedMultipleReturns(name.clone()));
    }
    Ok(())
}

/// The dead-code check of one function: within any block, no statement may
/// follow a `ret` in that same block.
pub fn no_dead_code(name: &String, body: &Vec<Ast>) -> (r: Result<(), PassError>)
    ensures
        match r {
            Ok(_) => sp_no_dead_code(name@, view_asts(body@)) is None,
            Err(e) => sp_no_dead_code(name@, view_asts(body@)) == Some(e@),
        },
{
    if !check_dead(body) {
        return Err(PassError::UnreachableCode(name.clone()));
    }
    Ok(())
}

/// Runs the validator over a parsed program: the error of the first function
/// that breaks the return or dead-code discipline, or `Ok`.
pub fn pipeline(asts: &Vec<Ast>) -> (r: Result<(), PassError>)
    ensures
        match r {
            Ok(_) => sp_pipeline(view_asts(asts@)) is None,
            Err(e) => sp_pipeline(view_asts(asts@)) == Some(e@),
        },
        r is Ok <==> program_ok(view_asts(asts@)),
{
    proof {
        lemma_view_asts(asts@);
        lemma_pipeline_ok(view_asts(asts@));
    }
    let ghost view = view_asts(asts@);
    proof {
        assert(view.skip(0) =~= view);
    }
    let mut k: usize = 0;
    while k < asts.len()
        invariant
            k <= asts@.len(),
            view == view_asts(asts@),
            view.len() == asts@.len(),
            forall|j: int| 0 <= j < view.len() ==> view[j] == asts@[j].view(),
            sp_pipeline(view) == sp_pipeline(view.skip(k as int)),
        decreases asts@.len() - k,
    {
        match &asts[k] {
            Ast::FunctionNode { proto, body } => {
                match terminated(&proto.name, body) {
                    Ok(_) => {
                    },
                    Err(e) => {
                        proof {
                            assert(view.skip(k as int)[0] == view[k as int]);
                            assert(asts@[k as int] == Ast::FunctionNode {
                                proto: *proto,
                                body: *body,
                            });
                            assert(view[k as int] == AstV::FunctionNode {
                                proto: proto.view(),
                                body: view_asts(body@),
                            });
                            assert(sp_pipeline(view.skip(k as int)) == Some(e@));
                        }
                        return Err(e);
                    },
                }
                match no_dead_code(&proto.name, body) {
                    Ok(_) => {
                    },
                    Err(e) => {
                        proof {
                            assert(view.skip(k as int)[0] == view[k as int]);
                            assert(asts@[k as int] == Ast::FunctionNode {
                                proto: *proto,
                                body: *body,
                            });
                            assert(view[k as int] == AstV::FunctionNode {
                                proto: proto.view(),
                                body: view_asts(body@),
                            });
                            assert(sp_pipeline(view.skip(k as int)) == Some(e@));
                        }
                        return Err(e);
                    },
                }
            },
            _ => {
            },
        }
        proof {
            assert(view.skip(k as int)[0] == view[k as int]);
            assert(view.skip(k as int).drop_first() =~= view.skip(k + 1));
        }
        k = k + 1;
    }
    proof {
        assert(view.skip(view.len() as int) =~= Seq::<AstV>::empty());
    }
    Ok(())
}

} // verus!
