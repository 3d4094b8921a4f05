//! The backend-neutral instruction stream the code generator emits.  The
//! external optimizing/JIT backend is a collaborator: this crate only decides
//! *which* instructions are emitted, in which order, and how values flow
//! between them, and that is what is modelled and verified here.  A value
//! handle is an opaque copyable identifier — a function parameter by
//! position, or the result of an earlier instruction by index — never a raw
//! foreign pointer.

use vstd::prelude::*;

use crate::lexer::tokens::ComparisionOpKind;

verus! {

/// A value handle inside one function: the `i`-th parameter, or the result
/// of the instruction at index `i` of the function's body.
#[derive(Clone, Copy, Debug, PartialEq, Eq, Structural)]
pub enum ValId {
    Param(usize),
    Temp(usize),
}

/// An arithmetic instruction kind, on the one numeric type.
#[derive(Clone, Copy, Debug, PartialEq, Eq, Structural)]
pub enum IrBinOp {
    Add,
    Sub,
    Mul,
    Div,
}

/// One emitted instruction.  The instruction at body index `k` yields the
/// value `ValId::Temp(k)` (meaningful for constants, loads, arithmetic,
/// comparisons, calls and allocations; block markers yield nothing usable).
#[derive(Debug, PartialEq)]
pub enum Inst {
    /// A floating constant, by its source spelling; the backend reads it as
    /// a double-precision number.
    ConstNum(String),
    /// A stack slot for the local `name`, initialised by storing `init`;
    /// yields the slot.
    Alloca { name: String, init: ValId },
    /// Stores `value` into `slot`.
    Store { value: ValId, slot: ValId },
    /// Loads the current value of `slot`.
    Load { slot: ValId },
    /// An arithmetic instruction on two operands.
    Bin { op: IrBinOp, lhs: ValId, rhs: ValId },
    /// A comparison; the one-bit result is converted back to the numeric
    /// type (true becomes 1.0, false 0.0).
    Cmp { op: ComparisionOpKind, lhs: ValId, rhs: ValId },
    /// A call of the function with index `callee` in the module, with
    /// positional arguments.
    Call { callee: usize, args: Vec<ValId> },
    /// Opens a conditional: branch on `cond` compared against zero
    /// (non-zero means true) into the "then" block that follows, or past the
    /// matching `ExitIf` into the "merge" block.
    EnterIf { cond: ValId },
    /// Closes a conditional: unless the body ended in a return, fall through
    /// to the "merge" block; emission continues there.
    ExitIf { body_returns: bool },
    /// Opens a loop: jump into the "loop" block that follows.
    EnterLoop,
    /// Closes a loop: unless the body ended in a return, branch on `cond`
    /// (non-zero means true) back to the matching `EnterLoop` or out to the
    /// "merge" block; emission continues there.
    ExitLoop { cond: ValId, body_returns: bool },
    /// Returns `value` from the function.
    Ret { value: ValId },
}

/// The mathematical image of an `Inst`.
pub enum InstV {
    ConstNum(Seq<char>),
    Alloca { name: Seq<char>, init: ValId },
    Store { value: ValId, slot: ValId },
    Load { slot: ValId },
    Bin { op: IrBinOp, lhs: ValId, rhs: ValId },
    Cmp { op: ComparisionOpKind, lhs: ValId, rhs: ValId },
    Call { callee: usize, args: Seq<ValId> },
    EnterIf { cond: ValId },
    ExitIf { body_returns: bool },
    EnterLoop,
    ExitLoop { cond: ValId, body_returns: bool },
    Ret { value: ValId },
}

impl View for Inst {
    type V = InstV;

    open spec fn view(&self) -> InstV {
        match self {
            Inst::ConstNum(t) => InstV::ConstNum(t@),
            Inst::Alloca { name, init } => InstV::Alloca { name: name@, init: *init },
            Inst::Store { value, slot } => InstV::Store { value: *value, slot: *slot },
            Inst::Load { slot } => InstV::Load { slot: *slot },
            Inst::Bin { op, lhs, rhs } => InstV::Bin { op: *op, lhs: *lhs, rhs: *rhs },
            Inst::Cmp { op, lhs, rhs } => InstV::Cmp { op: *op, lhs: *lhs, rhs: *rhs },
            Inst::Call { callee, args } => InstV::Call { callee: *callee, args: args@ },
            Inst::EnterIf { cond } => InstV::EnterIf { cond: *cond },
            Inst::ExitIf { body_returns } => InstV::ExitIf { body_returns: *body_returns },
            Inst::EnterLoop => InstV::EnterLoop,
            Inst::ExitLoop { cond, body_returns } => InstV::ExitLoop {
                cond: *cond,
                body_returns: *body_returns,
            },
            Inst::Ret { value } => InstV::Ret { value: *value },
        }
    }
}

/// One function of the module: a name, its arity (parameter count; every
/// parameter and the result have the one numeric type), and its body.  An
/// `extern` declaration has `is_extern` set and an empty body.
#[derive(Debug, PartialEq)]
pub struct IrFunction {
    pub name: String,
    pub arity: usize,
    pub body: Vec<Inst>,
    pub is_extern: bool,
}

/// The mathematical image of an `IrFunction`.
pub struct IrFunctionV {
    pub name: Seq<char>,
    pub arity: usize,
    pub body: Seq<InstV>,
    pub is_extern: bool,
}

impl View for IrFunction {
    type V = IrFunctionV;

    open spec fn view(&self) -> IrFunctionV {
        IrFunctionV {
            name: self.name@,
            arity: self.arity,
            body: view_insts(self.body@),
            is_extern: self.is_extern,
        }
    }
}

/// The whole emitted module: the functions in definition order; a function's
/// index in this sequence is its call handle.
#[derive(Debug, PartialEq)]
pub struct Module {
    pub functions: Vec<IrFunction>,
}

/// The mathematical image of a `Module`.
pub struct ModuleV {
    pub functions: Seq<IrFunctionV>,
}

impl View for Module {
    type V = ModuleV;

    open spec fn view(&self) -> ModuleV {
        ModuleV { functions: view_funcs(self.functions@) }
    }
}

/// The images of a sequence of instructions, element by element.
pub open spec fn view_insts(s: Seq<Inst>) -> Seq<InstV>
    decreases s.len(),
{
    if s.len() == 0 {
        Seq::empty()
    } else {
        view_insts(s.drop_last()).push(s.last()@)
    }
}

/// `view_insts` maps the sequence pointwise.
pub proof fn lemma_view_insts(s: Seq<Inst>)
    ensures
        view_insts(s).len() == s.len(),
        forall|i: int| 0 <= i < s.len() ==> view_insts(s)[i] == s[i]@,
    decreases s.len(),
{
    if s.len() > 0 {
        lemma_view_insts(s.drop_last());
    }
}

/// Appending one instruction appends its image.
pub proof fn lemma_view_insts_push(s: Seq<Inst>, inst: Inst)
    ensures
        view_insts(s.push(inst)) == view_insts(s).push(inst@),
{
    assert(s.push(inst).drop_last() =~= s);
    assert(s.push(inst).last() == inst);
}

/// The images of a sequence of functions, element by element.
pub open spec fn view_funcs(s: Seq<IrFunction>) -> Seq<IrFunctionV>
    decreases s.len(),
{
    if s.len() == 0 {
        Seq::empty()
    } else {
        view_funcs(s.drop_last()).push(s.last()@)
    }
}

/// `view_funcs` maps the sequence pointwise.
pub proof fn lemma_view_funcs(s: Seq<IrFunction>)
    ensures
        view_funcs(s).len() == s.len(),
        forall|i: int| 0 <= i < s.len() ==> view_funcs(s)[i] == s[i]@,
    decreases s.len(),
{
    if s.len() > 0 {
        lemma_view_funcs(s.drop_last());
    }
}

/// Appending one function appends its image.
pub proof fn lemma_view_funcs_push(s: Seq<IrFunction>, f: IrFunction)
    ensures
        view_funcs(s.push(f)) == view_funcs(s).push(f@),
{
    assert(s.push(f).drop_last() =~= s);
    assert(s.push(f).last() == f);
}

} // verus!
