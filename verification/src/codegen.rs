//! The code generator.  It walks the validated syntax tree once and emits
//! the backend-neutral instruction stream of `ir`: function definitions,
//! stack slots for locals, arithmetic, comparison and branch instructions,
//! and call sites.  A reference to a non-parameter local is loaded from its
//! stack slot immediately before every use; a parameter's handle is the live
//! value and is never loaded.  The whole translation is written out as
//! specification functions (`sp_*`), and the executable generator is proved
//! to emit exactly what they say.

pub mod ir;
pub mod table;
pub mod var;

use vstd::prelude::*;
use vstd::string::StringExecFns;

use crate::ast::{lemma_view_asts, view_asts, Ast, AstV, Proto, ProtoV};
use crate::lexer::tokens::{BinaryOperatorKind, LiteralKind, LiteralKindV};
use ir::{
    lemma_view_funcs, lemma_view_funcs_push, lemma_view_insts, lemma_view_insts_push, view_funcs,
    view_insts, Inst, InstV, IrBinOp, IrFunction, IrFunctionV, Module, ValId,
};
use table::SymTable;
use var::Variable;

verus! {

/// A symbol-table entry: the function's index in the module and its declared
/// arity.
#[derive(Clone, Copy, Debug, PartialEq, Eq, Structural)]
pub struct FuncInfo {
    pub id: usize,
    pub arity: usize,
}

/// A fatal code-generation error, carrying the offending name where there is
/// one.
#[derive(Debug, PartialEq)]
pub enum CgError {
    /// A function with this name was already generated or declared.
    Redefinition(String),
    /// An identifier names no known variable or parameter.
    UnknownVariable(String),
    /// A call names no known function.
    UnknownFunction(String),
    /// A call passes the wrong number of arguments.
    ArityMismatch { name: String, expected: usize, got: usize },
    /// An assignment targets an immutable function parameter.
    AssignToParameter(String),
    /// String literals are parsed but not lowered.
    StringsUnsupported,
    /// A node stands where the grammar cannot put it.
    UnexpectedNode,
    /// The program defines no `main` function.
    NoMain,
}

/// The mathematical image of a `CgError`.
pub enum CgErrorV {
    Redefinition(Seq<char>),
    UnknownVariable(Seq<char>),
    UnknownFunction(Seq<char>),
    ArityMismatch { name: Seq<char>, expected: usize, got: usize },
    AssignToParameter(Seq<char>),
    StringsUnsupported,
    UnexpectedNode,
    NoMain,
}

impl View for CgError {
    type V = CgErrorV;

    open spec fn view(&self) -> CgErrorV {
        match self {
            CgError::Redefinition(n) => CgErrorV::Redefinition(n@),
            CgError::UnknownVariable(n) => CgErrorV::UnknownVariable(n@),
            CgError::UnknownFunction(n) => CgErrorV::UnknownFunction(n@),
            CgError::ArityMismatch { name, expected, got } => CgErrorV::ArityMismatch {
                name: name@,
                expected: *expected,
                got: *got,
            },
            CgError::AssignToParameter(n) => CgErrorV::AssignToParameter(n@),
            CgError::StringsUnsupported => CgErrorV::StringsUnsupported,
            CgError::UnexpectedNode => CgErrorV::UnexpectedNode,
            CgError::NoMain => CgErrorV::NoMain,
        }
    }
}

/// What generating one expression yields: the grown body, the updated local
/// table, and the value handle (`None` for the statement forms `if` and
/// `while`) or the error.
pub struct GenRes {
    pub body: Seq<InstV>,
    pub locals: Map<Seq<char>, Variable>,
    pub res: Result<Option<ValId>, CgErrorV>,
}

/// What generating an argument list yields.
pub struct GenArgs {
    pub body: Seq<InstV>,
    pub locals: Map<Seq<char>, Variable>,
    pub res: Result<Seq<ValId>, CgErrorV>,
}

/// What generating a statement block yields.
pub struct GenBlock {
    pub body: Seq<InstV>,
    pub locals: Map<Seq<char>, Variable>,
    pub res: Option<CgErrorV>,
}

/// Whether a block holds a direct `ret` statement.
pub open spec fn sp_has_ret(stmts: Seq<AstV>) -> bool {
    exists|k: int| 0 <= k < stmts.len() && (#[trigger] stmts[k]) is RetNode
}

/// The instruction for a non-assignment binary operator.
pub open spec fn sp_bin_inst(op: BinaryOperatorKind, lhs: ValId, rhs: ValId) -> Option<InstV> {
    match op {
        BinaryOperatorKind::Addition => Some(InstV::Bin { op: IrBinOp::Add, lhs, rhs }),
        BinaryOperatorKind::Subtraction => Some(InstV::Bin { op: IrBinOp::Sub, lhs, rhs }),
        BinaryOperatorKind::Multiplication => Some(InstV::Bin { op: IrBinOp::Mul, lhs, rhs }),
        BinaryOperatorKind::Division => Some(InstV::Bin { op: IrBinOp::Div, lhs, rhs }),
        BinaryOperatorKind::Comparision(c) => Some(InstV::Cmp { op: c, lhs, rhs }),
        BinaryOperatorKind::Assigment => None,
    }
}

/// The translation of one expression or statement node, appending to `body`
/// with the locals `locals`, under the symbol table `vt`.
pub open spec fn sp_generate_ir(
    vt: Map<Seq<char>, FuncInfo>,
    body: Seq<InstV>,
    locals: Map<Seq<char>, Variable>,
    a: AstV,
) -> GenRes
    decreases a, 0int,
{
    match a {
        AstV::ValueNode(l) => match l {
            LiteralKindV::Num(text) => GenRes {
                body: body.push(InstV::ConstNum(text)),
                locals,
                res: Ok(Some(ValId::Temp(body.len() as usize))),
            },
            LiteralKindV::Str(_) => GenRes { body, locals, res: Err(CgErrorV::StringsUnsupported) },
        },
        AstV::IdentifierNode(name) => {
            if locals.contains_key(name) {
                GenRes { body, locals, res: Ok(Some(locals[name].value)) }
            } else {
                GenRes { body, locals, res: Err(CgErrorV::UnknownVariable(name)) }
            }
        },
        AstV::LetNode { assignee, value } => {
            let g = sp_generate_ir(vt, body, locals, *value);
            match g.res {
                Ok(opt) => match opt {
                    Some(v) => GenRes {
                        body: g.body.push(InstV::Alloca { name: assignee, init: v }),
                        locals: g.locals.insert(
                            assignee,
                            Variable {
                                value: ValId::Temp(g.body.len() as usize),
                                is_function_arg: false,
                            },
                        ),
                        res: Ok(Some(ValId::Temp(g.body.len() as usize))),
                    },
                    None => GenRes {
                        body: g.body,
                        locals: g.locals,
                        res: Err(CgErrorV::UnexpectedNode),
                    },
                },
                Err(e) => GenRes { body: g.body, locals: g.locals, res: Err(e) },
            }
        },
        AstV::CallNode(p) => {
            if !vt.contains_key(p.name) {
                GenRes { body, locals, res: Err(CgErrorV::UnknownFunction(p.name)) }
            } else {
                let info = vt[p.name];
                if info.arity != p.args.len() {
                    GenRes {
                        body,
                        locals,
                        res: Err(
                            CgErrorV::ArityMismatch {
                                name: p.name,
                                expected: info.arity,
                                got: p.args.len() as usize,
                            },
                        ),
                    }
                } else {
                    let g = sp_generate_args(vt, body, locals, p.args);
                    match g.res {
                        Ok(vals) => GenRes {
                            body: g.body.push(InstV::Call { callee: info.id, args: vals }),
                            locals: g.locals,
                            res: Ok(Some(ValId::Temp(g.body.len() as usize))),
                        },
                        Err(e) => GenRes { body: g.body, locals: g.locals, res: Err(e) },
                    }
                }
            }
        },
        AstV::BinaryNode { left, right, op } => {
            match op {
                BinaryOperatorKind::Assigment => match *left {
                    AstV::IdentifierNode(name) => {
                        if !locals.contains_key(name) {
                            GenRes { body, locals, res: Err(CgErrorV::UnknownVariable(name)) }
                        } else if locals[name].is_function_arg {
                            GenRes { body, locals, res: Err(CgErrorV::AssignToParameter(name)) }
                        } else {
                            let slot = locals[name].value;
                            let g = sp_generate_ir(vt, body, locals, *right);
                            match g.res {
                                Ok(opt) => match opt {
                                    Some(rv) => GenRes {
                                        body: g.body.push(InstV::Store { value: rv, slot }),
                                        locals: g.locals,
                                        res: Ok(Some(rv)),
                                    },
                                    None => GenRes {
                                        body: g.body,
                                        locals: g.locals,
                                        res: Err(CgErrorV::UnexpectedNode),
                                    },
                                },
                                Err(e) => GenRes { body: g.body, locals: g.locals, res: Err(e) },
                            }
                        }
                    },
                    _ => GenRes { body, locals, res: Err(CgErrorV::UnexpectedNode) },
                },
                _ => {
                    let gl = sp_deref_or_generate(vt, body, locals, *left);
                    match gl.res {
                        Ok(lopt) => match lopt {
                            Some(lv) => {
                                let gr = sp_deref_or_generate(vt, gl.body, gl.locals, *right);
                                match gr.res {
                                    Ok(ropt) => match ropt {
                                        Some(rv) => match sp_bin_inst(op, lv, rv) {
                                            Some(inst) => GenRes {
                                                body: gr.body.push(inst),
                                                locals: gr.locals,
                                                res: Ok(
                                                    Some(ValId::Temp(gr.body.len() as usize)),
                                                ),
                                            },
                                            None => GenRes {
                                                body: gr.body,
                                                locals: gr.locals,
                                                res: Err(CgErrorV::UnexpectedNode),
                                            },
                                        },
                                        None => GenRes {
                                            body: gr.body,
                                            locals: gr.locals,
                                            res: Err(CgErrorV::UnexpectedNode),
                                        },
                                    },
                                    Err(e) => GenRes {
                                        body: gr.body,
                                        locals: gr.locals,
                                        res: Err(e),
                                    },
                                }
                            },
                            None => GenRes {
                                body: gl.body,
                                locals: gl.locals,
                                res: Err(CgErrorV::UnexpectedNode),
                            },
                        },
                        Err(e) => GenRes { body: gl.body, locals: gl.locals, res: Err(e) },
                    }
                },
            }
        },
        AstV::RetNode(v) => {
            let g = sp_deref_or_generate(vt, body, locals, *v);
            match g.res {
                Ok(opt) => match opt {
                    Some(rv) => GenRes {
                        body: g.body.push(InstV::Ret { value: rv }),
                        locals: g.locals,
                        res: Ok(Some(ValId::Temp(g.body.len() as usize))),
                    },
                    None => GenRes {
                        body: g.body,
                        locals: g.locals,
                        res: Err(CgErrorV::UnexpectedNode),
                    },
                },
                Err(e) => GenRes { body: g.body, locals: g.locals, res: Err(e) },
            }
        },
        AstV::UnitNode(inner) => sp_generate_ir(vt, body, locals, *inner),
        AstV::IfNode { condition, body: blk } => {
            let gc = sp_generate_ir(vt, body, locals, *condition);
            match gc.res {
                Ok(opt) => match opt {
                    Some(cv) => {
                        let gb = sp_generate_block(
                            vt,
                            gc.body.push(InstV::EnterIf { cond: cv }),
                            gc.locals,
                            blk,
                        );
                        match gb.res {
                            None => GenRes {
                                body: gb.body.push(
                                    InstV::ExitIf { body_returns: sp_has_ret(blk) },
                                ),
                                locals: gb.locals,
                                res: Ok(None),
                            },
                            Some(e) => GenRes { body: gb.body, locals: gb.locals, res: Err(e) },
                        }
                    },
                    None => GenRes {
                        body: gc.body,
                        locals: gc.locals,
                        res: Err(CgErrorV::UnexpectedNode),
                    },
                },
                Err(e) => GenRes { body: gc.body, locals: gc.locals, res: Err(e) },
            }
        },
        AstV::WhileNode { condition, body: blk } => {
            let gb = sp_generate_block(vt, body.push(InstV::EnterLoop), locals, blk);
            match gb.res {
                None => {
                    let gc = sp_generate_ir(vt, gb.body, gb.locals, *condition);
                    match gc.res {
                        Ok(opt) => match opt {
                            Some(cv) => GenRes {
                                body: gc.body.push(
                                    InstV::ExitLoop { cond: cv, body_returns: sp_has_ret(blk) },
                                ),
                                locals: gc.locals,
                                res: Ok(None),
                            },
                            None => GenRes {
                                body: gc.body,
                                locals: gc.locals,
                                res: Err(CgErrorV::UnexpectedNode),
                            },
                        },
                        Err(e) => GenRes { body: gc.body, locals: gc.locals, res: Err(e) },
                    }
                },
                Some(e) => GenRes { body: gb.body, locals: gb.locals, res: Err(e) },
            }
        },
        _ => GenRes { body, locals, res: Err(CgErrorV::UnexpectedNode) },
    }
}

/// The translation of an operand: a reference to a non-parameter local is
/// loaded from its stack slot; anything else is generated as it stands.
pub open spec fn sp_deref_or_generate(
    vt: Map<Seq<char>, FuncInfo>,
    body: Seq<InstV>,
    locals: Map<Seq<char>, Variable>,
    a: AstV,
) -> GenRes
    decreases a, 1int,
{
    match a {
        AstV::IdentifierNode(name) => {
            if locals.contains_key(name) && !locals[name].is_function_arg {
                GenRes {
                    body: body.push(InstV::Load { slot: locals[name].value }),
                    locals,
                    res: Ok(Some(ValId::Temp(body.len() as usize))),
                }
            } else {
                sp_generate_ir(vt, body, locals, a)
            }
        },
        _ => sp_generate_ir(vt, body, locals, a),
    }
}

/// The translation of a call's argument list, left to right, each argument
/// through `sp_deref_or_generate`.
pub open spec fn sp_generate_args(
    vt: Map<Seq<char>, FuncInfo>,
    body: Seq<InstV>,
    locals: Map<Seq<char>, Variable>,
    args: Seq<AstV>,
) -> GenArgs
    decreases args, 0int,
{
    if args.len() == 0 {
        GenArgs { body, locals, res: Ok(Seq::empty()) }
    } else {
        let g = sp_deref_or_generate(vt, body, locals, args[0]);
        match g.res {
            Ok(opt) => match opt {
                Some(v) => {
                    let rest = sp_generate_args(vt, g.body, g.locals, args.drop_first());
                    match rest.res {
                        Ok(vs) => GenArgs {
                            body: rest.body,
                            locals: rest.locals,
                            res: Ok(seq![v] + vs),
                        },
                        Err(e) => GenArgs { body: rest.body, locals: rest.locals, res: Err(e) },
                    }
                },
                None => GenArgs { body: g.body, locals: g.locals, res: Err(
                    CgErrorV::UnexpectedNode,
                ) },
            },
            Err(e) => GenArgs { body: g.body, locals: g.locals, res: Err(e) },
        }
    }
}

/// The translation of a statement block, statement by statement; local
/// bindings made by a statement stay visible to the following ones.
pub open spec fn sp_generate_block(
    vt: Map<Seq<char>, FuncInfo>,
    body: Seq<InstV>,
    locals: Map<Seq<char>, Variable>,
    stmts: Seq<AstV>,
) -> GenBlock
    decreases stmts, 0int,
{
    if stmts.len() == 0 {
        GenBlock { body, locals, res: None }
    } else {
        let g = sp_generate_ir(vt, body, locals, stmts[0]);
        match g.res {
            Ok(_) => sp_generate_block(vt, g.body, g.locals, stmts.drop_first()),
            Err(e) => GenBlock { body: g.body, locals: g.locals, res: Some(e) },
        }
    }
}

/// The local table a parameter list produces: each parameter name bound to
/// its positional handle, marked immutable; a later name shadows an earlier
/// one.
pub open spec fn sp_bind_params(m: Map<Seq<char>, Variable>, args: Seq<AstV>) -> Map<
    Seq<char>,
    Variable,
>
    decreases args.len(),
{
    if args.len() == 0 {
        m
    } else {
        let m2 = sp_bind_params(m, args.drop_last());
        match args.last() {
            AstV::IdentifierNode(name) => m2.insert(
                name,
                Variable {
                    value: ValId::Param((args.len() - 1) as usize),
                    is_function_arg: true,
                },
            ),
            _ => m2,
        }
    }
}

/// The mathematical image of the generator's state.
pub struct CgV {
    pub functions: Seq<IrFunctionV>,
    pub vtable: Map<Seq<char>, FuncInfo>,
    pub contains_main: bool,
}

/// What one top-level generation step yields.
pub struct CgStep {
    pub st: CgV,
    pub res: Result<(), CgErrorV>,
}

/// The translation of one top-level node: a function definition is
/// generated in full (redefining a known name is fatal), an `extern` is
/// declared in the symbol table, the end-of-program sentinel does nothing,
/// and any other node cannot stand at top level.
pub open spec fn sp_codegen(st: CgV, a: AstV) -> CgStep {
    match a {
        AstV::FunctionNode { proto, body } => {
            let seen_main = st.contains_main || proto.name == "main"@;
            if st.vtable.contains_key(proto.name) {
                CgStep {
                    st: CgV {
                        functions: st.functions,
                        vtable: st.vtable,
                        contains_main: seen_main,
                    },
                    res: Err(CgErrorV::Redefinition(proto.name)),
                }
            } else {
                let fid = st.functions.len() as usize;
                let arity = proto.args.len() as usize;
                let vt2 = st.vtable.insert(proto.name, FuncInfo { id: fid, arity });
                let g = sp_generate_block(
                    vt2,
                    Seq::empty(),
                    sp_bind_params(Map::empty(), proto.args),
                    body,
                );
                match g.res {
                    None => CgStep {
                        st: CgV {
                            functions: st.functions.push(
                                IrFunctionV {
                                    name: proto.name,
                                    arity,
                                    body: g.body,
                                    is_extern: false,
                                },
                            ),
                            vtable: vt2,
                            contains_main: seen_main,
                        },
                        res: Ok(()),
                    },
                    Some(e) => CgStep {
                        st: CgV { functions: st.functions, vtable: vt2, contains_main: seen_main },
                        res: Err(e),
                    },
                }
            }
        },
        AstV::ExternNode(proto) => {
            let fid = st.functions.len() as usize;
            let arity = proto.args.len() as usize;
            CgStep {
                st: CgV {
                    functions: st.functions.push(
                        IrFunctionV {
                            name: proto.name,
                            arity,
                            body: Seq::empty(),
                            is_extern: true,
                        },
                    ),
                    vtable: st.vtable.insert(proto.name, FuncInfo { id: fid, arity }),
                    contains_main: st.contains_main,
                },
                res: Ok(()),
            }
        },
        AstV::EOF => CgStep { st, res: Ok(()) },
        _ => CgStep { st, res: Err(CgErrorV::UnexpectedNode) },
    }
}

/// Calling a known function with the wrong number of arguments fails with
/// the arity-mismatch error, and not one instruction for the call — not
/// even for its arguments — is emitted.
pub proof fn lemma_arity_mismatch(
    vt: Map<Seq<char>, FuncInfo>,
    body: Seq<InstV>,
    locals: Map<Seq<char>, Variable>,
    p: ProtoV,
)
    requires
        vt.contains_key(p.name),
        vt[p.name].arity != p.args.len(),
    ensures
        ({
            let g = sp_generate_ir(vt, body, locals, AstV::CallNode(p));
            g.body == body && g.locals == locals && g.res == Err::<Option<ValId>, CgErrorV>(
                CgErrorV::ArityMismatch {
                    name: p.name,
                    expected: vt[p.name].arity,
                    got: p.args.len() as usize,
                },
            )
        }),
{
}

/// The code generator: the module grown so far, the symbol table, and
/// whether a `main` definition was seen.
pub struct Cg {
    pub module: Module,
    pub vtable: SymTable<FuncInfo>,
    pub contains_main: bool,
}

impl View for Cg {
    type V = CgV;

    open spec fn view(&self) -> CgV {
        CgV {
            functions: view_funcs(self.module.functions@),
            vtable: self.vtable@,
            contains_main: self.contains_main,
        }
    }
}

impl Default for Cg {
    /// A fresh generator: no functions, an empty symbol table, no `main`
    /// seen yet.
    fn default() -> (r: Self)
        ensures
            r@.functions == Seq::<IrFunctionV>::empty(),
            r@.vtable == Map::<Seq<char>, FuncInfo>::empty(),
            !r@.contains_main,
    {
        let r = Cg {
            module: Module { functions: Vec::new() },
            vtable: SymTable::new(),
            contains_main: false,
        };
        proof {
            assert(r.module.functions@.len() == 0);
        }
        r
    }
}

/// Appends one instruction and hands back the value it yields.
fn emit(fbody: &mut Vec<Inst>, inst: Inst) -> (id: ValId)
    ensures
        view_insts(final(fbody)@) == view_insts(old(fbody)@).push(inst@),
        id == ValId::Temp(old(fbody)@.len() as usize),
        old(fbody)@.len() == view_insts(old(fbody)@).len(),
        final(fbody)@.len() == old(fbody)@.len() + 1,
{
    proof {
        lemma_view_insts_push(fbody@, inst);
        lemma_view_insts(fbody@);
    }
    let n = fbody.len();
    fbody.push(inst);
    ValId::Temp(n)
}

/// Whether a block holds a direct `ret` statement.
fn block_has_ret(stmts: &Vec<Ast>) -> (r: bool)
    ensures
        r == sp_has_ret(view_asts(stmts@)),
{
    let ghost view = view_asts(stmts@);
    proof {
        lemma_view_asts(stmts@);
    }
    let mut k: usize = 0;
    while k < stmts.len()
        invariant
            k <= stmts@.len(),
            view == view_asts(stmts@),
            view.len() == stmts@.len(),
            forall|j: int| 0 <= j < k ==> !((#[trigger] view[j]) is RetNode),
        decreases stmts@.len() - k,
    {
        proof {
            lemma_view_asts(stmts@);
        }
        if matches!(&stmts[k], Ast::RetNode(_)) {
            proof {
                assert((view[k as int]) is RetNode);
            }
            return true;
        }
        k = k + 1;
    }
    false
}

/// The executable counterpart of `sp_bin_inst`.
fn bin_inst(op: BinaryOperatorKind, lhs: ValId, rhs: ValId) -> (r: Option<Inst>)
    ensures
        match r {
            Some(i) => sp_bin_inst(op, lhs, rhs) == Some(i@),
            None => sp_bin_inst(op, lhs, rhs) is None,
        },
{
    match op {
        BinaryOperatorKind::Addition => Some(Inst::Bin { op: IrBinOp::Add, lhs, rhs }),
        BinaryOperatorKind::Subtraction => Some(Inst::Bin { op: IrBinOp::Sub, lhs, rhs }),
        BinaryOperatorKind::Multiplication => Some(Inst::Bin { op: IrBinOp::Mul, lhs, rhs }),
        BinaryOperatorKind::Division => Some(Inst::Bin { op: IrBinOp::Div, lhs, rhs }),
        BinaryOperatorKind::Comparision(c) => Some(Inst::Cmp { op: c, lhs, rhs }),
        BinaryOperatorKind::Assigment => None,
    }
}

impl Cg {
    /// Generates one expression or statement into `fbody`; see
    /// `sp_generate_ir`.
    fn generate_ir(
        &self,
        fbody: &mut Vec<Inst>,
        named_values: &mut SymTable<Variable>,
        ast: &Ast,
    ) -> (r: Result<Option<ValId>, CgError>)
        ensures
            ({
                let g = sp_generate_ir(
                    self.vtable@,
                    view_insts(old(fbody)@),
                    old(named_values)@,
                    ast.view(),
                );
                &&& view_insts(final(fbody)@) == g.body
                &&& final(named_values)@ == g.locals
                &&& match r {
                    Ok(v) => g.res == Ok::<Option<ValId>, CgErrorV>(v),
                    Err(e) => g.res == Err::<Option<ValId>, CgErrorV>(e@),
                }
            }),
        decreases ast, 0int,
    {
        match ast {
            Ast::ValueNode(l) => match l {
                LiteralKind::Num(text) => {
                    let id = emit(fbody, Inst::ConstNum(text.clone()));
                    Ok(Some(id))
                },
                LiteralKind::Str(_) => Err(CgError::StringsUnsupported),
            },
            Ast::IdentifierNode(name) => match named_values.get(name) {
                Some(var) => Ok(Some(var.value)),
                None => Err(CgError::UnknownVariable(name.clone())),
            },
            Ast::LetNode { assignee, value } => {
                let v = match self.generate_ir(fbody, named_values, &**value) {
                    Ok(Some(v)) => v,
                    Ok(None) => {
                        return Err(CgError::UnexpectedNode);
                    },
                    Err(e) => {
                        return Err(e);
                    },
                };
                let slot = emit(fbody, Inst::Alloca { name: assignee.clone(), init: v });
                named_values.insert(assignee.clone(), Variable::new(slot, false));
                Ok(Some(slot))
            },
            Ast::CallNode(p) => {
                proof {
                    lemma_view_asts(p.args@);
                    assert(ast.view() == AstV::CallNode(p.view()));
                }
                let info = match self.vtable.get(&p.name) {
                    Some(i) => i,
                    None => {
                        return Err(CgError::UnknownFunction(p.name.clone()));
                    },
                };
                if info.arity != p.args.len() {
                    return Err(
                        CgError::ArityMismatch {
                            name: p.name.clone(),
                            expected: info.arity,
                            got: p.args.len(),
                        },
                    );
                }
                let ghost vt = self.vtable@;
                let ghost body0 = view_insts(fbody@);
                let ghost locals0 = named_values@;
                let ghost argsv = view_asts(p.args@);
                proof {
                    lemma_view_asts(p.args@);
                    assert(argsv.skip(0) =~= argsv);
                }
                let mut vals: Vec<ValId> = Vec::new();
                let mut k: usize = 0;
                while k < p.args.len()
                    invariant
                        *ast == Ast::CallNode(*p),
                        vt == self.vtable@,
                        body0 == view_insts(old(fbody)@),
                        locals0 == old(named_values)@,
                        vt.contains_key(p.name@),
                        vt[p.name@] == info,
                        info.arity == p.args@.len(),
                        ast.view() == AstV::CallNode(
                            ProtoV { name: p.name@, args: view_asts(p.args@) },
                        ),
                        k <= p.args@.len(),
                        argsv == view_asts(p.args@),
                        argsv.len() == p.args@.len(),
                        forall|j: int| 0 <= j < argsv.len() ==> argsv[j] == p.args@[j].view(),
                        ({
                            let full = sp_generate_args(vt, body0, locals0, argsv);
                            let rest = sp_generate_args(
                                vt,
                                view_insts(fbody@),
                                named_values@,
                                argsv.skip(k as int),
                            );
                            &&& full.body == rest.body
                            &&& full.locals == rest.locals
                            &&& match rest.res {
                                Ok(vs) => full.res == Ok::<Seq<ValId>, CgErrorV>(vals@ + vs),
                                Err(e) => full.res == Err::<Seq<ValId>, CgErrorV>(e),
                            }
                        }),
                    decreases p.args@.len() - k,
                {
                    let ghost rest_pre = argsv.skip(k as int);
                    let ghost fb_pre = view_insts(fbody@);
                    let ghost lc_pre = named_values@;
                    proof {
                        assert(rest_pre[0] == argsv[k as int]);
                        assert(rest_pre.drop_first() =~= argsv.skip(k + 1));
                        assert(decreases_to!(*ast => ast->CallNode_0));
                        assert((*ast)->CallNode_0 == *p);
                        assert(decreases_to!(*p => p.args));
                        assert(decreases_to!(p.args => p.args@[k as int]));
                        assert(decreases_to!(*ast => p.args@[k as int]));
                    }
                    let v = match self.deref_or_generate(fbody, named_values, &p.args[k]) {
                        Ok(Some(v)) => v,
                        Ok(None) => {
                            proof {
                                let g1 = sp_deref_or_generate(vt, fb_pre, lc_pre, argsv[k as int]);
                                let rest = sp_generate_args(vt, fb_pre, lc_pre, rest_pre);
                                assert(rest.body == g1.body && rest.locals == g1.locals
                                    && rest.res == Err::<Seq<ValId>, CgErrorV>(
                                    CgErrorV::UnexpectedNode,
                                ));
                            }
                            return Err(CgError::UnexpectedNode);
                        },
                        Err(e) => {
                            proof {
                                let g1 = sp_deref_or_generate(vt, fb_pre, lc_pre, argsv[k as int]);
                                let rest = sp_generate_args(vt, fb_pre, lc_pre, rest_pre);
                                assert(rest.body == g1.body && rest.locals == g1.locals
                                    && rest.res == Err::<Seq<ValId>, CgErrorV>(e@));
                            }
                            return Err(e);
                        },
                    };
                    let ghost vals_pre = vals@;
                    vals.push(v);
                    proof {
                        assert(vals@ =~= vals_pre.push(v));
                        let rest2 = sp_generate_args(
                            vt,
                            view_insts(fbody@),
                            named_values@,
                            argsv.skip(k + 1),
                        );
                        match rest2.res {
                            Ok(vs) => {
                                assert(vals_pre + (seq![v] + vs) =~= vals@ + vs);
                            },
                            Err(_) => {
                            },
                        }
                    }
                    k = k + 1;
                }
                proof {
                    assert(argsv.skip(argsv.len() as int) =~= Seq::<AstV>::empty());
                    let rest = sp_generate_args(
                        vt,
                        view_insts(fbody@),
                        named_values@,
                        argsv.skip(argsv.len() as int),
                    );
                    assert(vals@ + Seq::<ValId>::empty() =~= vals@);
                }
                let id = emit(fbody, Inst::Call { callee: info.id, args: vals });
                Ok(Some(id))
            },
            Ast::BinaryNode { left, right, op } => match op {
                BinaryOperatorKind::Assigment => match &**left {
                    Ast::IdentifierNode(name) => {
                        proof {
                            assert((**left).view() == AstV::IdentifierNode(name@));
                            assert(ast.view() == AstV::BinaryNode {
                                left: Box::new((**left).view()),
                                right: Box::new((**right).view()),
                                op: *op,
                            });
                        }
                        let var = match named_values.get(name) {
                            Some(v) => v,
                            None => {
                                return Err(CgError::UnknownVariable(name.clone()));
                            },
                        };
                        if var.is_function_arg {
                            return Err(CgError::AssignToParameter(name.clone()));
                        }
                        let rv = match self.generate_ir(fbody, named_values, &**right) {
                            Ok(Some(v)) => v,
                            Ok(None) => {
                                return Err(CgError::UnexpectedNode);
                            },
                            Err(e) => {
                                return Err(e);
                            },
                        };
                        emit(fbody, Inst::Store { value: rv, slot: var.value });
                        Ok(Some(rv))
                    },
                    _ => Err(CgError::UnexpectedNode),
                },
                _ => {
                    let lv = match self.deref_or_generate(fbody, named_values, &**left) {
                        Ok(Some(v)) => v,
                        Ok(None) => {
                            return Err(CgError::UnexpectedNode);
                        },
                        Err(e) => {
                            return Err(e);
                        },
                    };
                    let rv = match self.deref_or_generate(fbody, named_values, &**right) {
                        Ok(Some(v)) => v,
                        Ok(None) => {
                            return Err(CgError::UnexpectedNode);
                        },
                        Err(e) => {
                            return Err(e);
                        },
                    };
                    match bin_inst(*op, lv, rv) {
                        Some(inst) => {
                            let id = emit(fbody, inst);
                            Ok(Some(id))
                        },
                        None => Err(CgError::UnexpectedNode),
                    }
                },
            },
            Ast::RetNode(v) => {
                let rv = match self.deref_or_generate(fbody, named_values, &**v) {
                    Ok(Some(v)) => v,
                    Ok(None) => {
                        return Err(CgError::UnexpectedNode);
                    },
                    Err(e) => {
                        return Err(e);
                    },
                };
                let id = emit(fbody, Inst::Ret { value: rv });
                Ok(Some(id))
            },
            Ast::UnitNode(inner) => self.generate_ir(fbody, named_values, &**inner),
            Ast::IfNode { condition, body } => {
                let cv = match self.generate_ir(fbody, named_values, &**condition) {
                    Ok(Some(v)) => v,
                    Ok(None) => {
                        return Err(CgError::UnexpectedNode);
                    },
                    Err(e) => {
                        return Err(e);
                    },
                };
                emit(fbody, Inst::EnterIf { cond: cv });
                let branch = block_has_ret(body);
                match self.generate_block(fbody, named_values, body) {
                    Ok(_) => {
                    },
                    Err(e) => {
                        return Err(e);
                    },
                }
                emit(fbody, Inst::ExitIf { body_returns: branch });
                Ok(None)
            },
            Ast::WhileNode { condition, body } => {
                emit(fbody, Inst::EnterLoop);
                let branch = block_has_ret(body);
                match self.generate_block(fbody, named_values, body) {
                    Ok(_) => {
                    },
                    Err(e) => {
                        return Err(e);
                    },
                }
                let cv = match self.generate_ir(fbody, named_values, &**condition) {
                    Ok(Some(v)) => v,
                    Ok(None) => {
                        return Err(CgError::UnexpectedNode);
                    },
                    Err(e) => {
                        return Err(e);
                    },
                };
                emit(fbody, Inst::ExitLoop { cond: cv, body_returns: branch });
                Ok(None)
            },
            _ => Err(CgError::UnexpectedNode),
        }
    }

    /// Generates an operand with the load-or-pass-through rule; see
    /// `sp_deref_or_generate`.
    fn deref_or_generate(
        &self,
        fbody: &mut Vec<Inst>,
        named_values: &mut SymTable<Variable>,
        ast: &Ast,
    ) -> (r: Result<Option<ValId>, CgError>)
        ensures
            ({
                let g = sp_deref_or_generate(
                    self.vtable@,
                    view_insts(old(fbody)@),
                    old(named_values)@,
                    ast.view(),
                );
                &&& view_insts(final(fbody)@) == g.body
                &&& final(named_values)@ == g.locals
                &&& match r {
                    Ok(v) => g.res == Ok::<Option<ValId>, CgErrorV>(v),
                    Err(e) => g.res == Err::<Option<ValId>, CgErrorV>(e@),
                }
            }),
        decreases ast, 1int,
    {
        if let Ast::IdentifierNode(name) = ast {
            if let Some(var) = named_values.get(name) {
                if !var.is_function_arg {
                    let id = emit(fbody, Inst::Load { slot: var.value });
                    return Ok(Some(id));
                }
            }
        }
        self.generate_ir(fbody, named_values, ast)
    }

    /// Generates a statement block; see `sp_generate_block`.
    fn generate_block(
        &self,
        fbody: &mut Vec<Inst>,
        named_values: &mut SymTable<Variable>,
        stmts: &Vec<Ast>,
    ) -> (r: Result<(), CgError>)
        ensures
            ({
                let g = sp_generate_block(
                    self.vtable@,
                    view_insts(old(fbody)@),
                    old(named_values)@,
                    view_asts(stmts@),
                );
                &&& view_insts(final(fbody)@) == g.body
                &&& final(named_values)@ == g.locals
                &&& match r {
                    Ok(_) => g.res is None,
                    Err(e) => g.res == Some(e@),
                }
            }),
        decreases stmts, 0int,
    {
        let ghost vt = self.vtable@;
        let ghost body0 = view_insts(fbody@);
        let ghost locals0 = named_values@;
        let ghost stmtsv = view_asts(stmts@);
        proof {
            lemma_view_asts(stmts@);
            assert(stmtsv.skip(0) =~= stmtsv);
        }
        let mut k: usize = 0;
        while k < stmts.len()
            invariant
                vt == self.vtable@,
                body0 == view_insts(old(fbody)@),
                locals0 == old(named_values)@,
                k <= stmts@.len(),
                stmtsv == view_asts(stmts@),
                stmtsv.len() == stmts@.len(),
                forall|j: int| 0 <= j < stmtsv.len() ==> stmtsv[j] == stmts@[j].view(),
                ({
                    let full = sp_generate_block(vt, body0, locals0, stmtsv);
                    let rest = sp_generate_block(
                        vt,
                        view_insts(fbody@),
                        named_values@,
                        stmtsv.skip(k as int),
                    );
                    full == rest
                }),
            decreases stmts@.len() - k,
        {
            let ghost fb_pre = view_insts(fbody@);
            let ghost lc_pre = named_values@;
            proof {
                assert(stmtsv.skip(k as int)[0] == stmtsv[k as int]);
                assert(stmtsv.skip(k as int).drop_first() =~= stmtsv.skip(k + 1));
            }
            match self.generate_ir(fbody, named_values, &stmts[k]) {
                Ok(_) => {
                },
                Err(e) => {
                    proof {
                        let g1 = sp_generate_ir(vt, fb_pre, lc_pre, stmtsv[k as int]);
                        let rest = sp_generate_block(vt, fb_pre, lc_pre, stmtsv.skip(k as int));
                        assert(rest.body == g1.body && rest.locals == g1.locals && rest.res
                            == Some(e@));
                    }
                    return Err(e);
                },
            }
            k = k + 1;
        }
        proof {
            assert(stmtsv.skip(stmtsv.len() as int) =~= Seq::<AstV>::empty());
        }
        Ok(())
    }

    /// Binds a definition's parameters into a fresh local table, in order;
    /// see `sp_bind_params`.
    fn set_arguments(named_values: &mut SymTable<Variable>, args: &Vec<Ast>)
        ensures
            final(named_values)@ == sp_bind_params(old(named_values)@, view_asts(args@)),
    {
        let ghost m0 = old(named_values)@;
        let ghost argsv = view_asts(args@);
        proof {
            lemma_view_asts(args@);
            assert(argsv.take(0) =~= Seq::<AstV>::empty());
        }
        let mut i: usize = 0;
        while i < args.len()
            invariant
                i <= args@.len(),
                argsv == view_asts(args@),
                argsv.len() == args@.len(),
                forall|j: int| 0 <= j < argsv.len() ==> argsv[j] == args@[j].view(),
                named_values@ == sp_bind_params(m0, argsv.take(i as int)),
            decreases args@.len() - i,
        {
            proof {
                assert(argsv.take(i + 1).drop_last() =~= argsv.take(i as int));
                assert(argsv.take(i + 1).last() == argsv[i as int]);
            }
            if let Ast::IdentifierNode(name) = &args[i] {
                named_values.insert(name.clone(), Variable::new(ValId::Param(i), true));
            }
            i = i + 1;
        }
        proof {
            assert(argsv.take(argsv.len() as int) =~= argsv);
        }
    }

    /// Creates one function: declares it, binds its parameters, enters it in
    /// the symbol table (so the body may call it recursively), generates the
    /// body, and appends the finished function to the module.
    fn create_function(&mut self, proto: Proto, body: Vec<Ast>) -> (r: Result<(), CgError>)
        ensures
            ({
                let st = old(self)@;
                let fid = st.functions.len() as usize;
                let arity = proto.args@.len() as usize;
                let vt2 = st.vtable.insert(proto.name@, FuncInfo { id: fid, arity });
                let g = sp_generate_block(
                    vt2,
                    Seq::empty(),
                    sp_bind_params(Map::empty(), view_asts(proto.args@)),
                    view_asts(body@),
                );
                &&& final(self)@.vtable == vt2
                &&& final(self)@.contains_main == st.contains_main
                &&& match r {
                    Ok(_) => g.res is None && final(self)@.functions == st.functions.push(
                        IrFunctionV {
                            name: proto.name@,
                            arity,
                            body: g.body,
                            is_extern: false,
                        },
                    ),
                    Err(e) => g.res == Some(e@) && final(self)@.functions == st.functions,
                }
            }),
    {
        let arity = proto.args.len();
        let fid = self.module.functions.len();
        proof {
            lemma_view_funcs(self.module.functions@);
        }
        let mut named_values: SymTable<Variable> = SymTable::new();
        Cg::set_arguments(&mut named_values, &proto.args);
        self.vtable.insert(proto.name.clone(), FuncInfo { id: fid, arity });
        let mut fbody: Vec<Inst> = Vec::new();
        proof {
            assert(fbody@.len() == 0);
            assert(view_insts(fbody@) =~= Seq::<InstV>::empty());
        }
        match self.generate_block(&mut fbody, &mut named_values, &body) {
            Ok(_) => {
                let f = IrFunction { name: proto.name, arity, body: fbody, is_extern: false };
                proof {
                    lemma_view_funcs_push(self.module.functions@, f);
                }
                self.module.functions.push(f);
                Ok(())
            },
            Err(e) => Err(e),
        }
    }

    /// Generates one top-level node; see `sp_codegen`.
    pub fn codegen(&mut self, ast: Ast) -> (r: Result<(), CgError>)
        ensures
            ({
                let step = sp_codegen(old(self)@, ast.view());
                &&& final(self)@ == step.st
                &&& match r {
                    Ok(_) => step.res is Ok,
                    Err(e) => step.res == Err::<(), CgErrorV>(e@),
                }
            }),
    {
        let ghost st0 = old(self)@;
        let ghost av = ast.view();
        match ast {
            Ast::FunctionNode { proto, body } => {
                let ghost pv = proto.view();
                let ghost bv = view_asts(body@);
                proof {
                    assert(av == AstV::FunctionNode { proto: pv, body: bv });
                    assert(pv.name == proto.name@);
                }
                if proto.name == String::from_str("main") {
                    self.contains_main = true;
                }
                proof {
                    assert(self@.contains_main == (st0.contains_main || pv.name == "main"@));
                    assert(self@.vtable == st0.vtable);
                    assert(self@.functions == st0.functions);
                }
                if self.vtable.contains(&proto.name) {
                    proof {
                        let step = sp_codegen(st0, av);
                        assert(step.res == Err::<(), CgErrorV>(CgErrorV::Redefinition(pv.name)));
                        assert(step.st.contains_main == self@.contains_main);
                    }
                    return Err(CgError::Redefinition(proto.name));
                }
                let ghost st1 = self@;
                proof {
                    lemma_view_asts(proto.args@);
                    assert(pv == ProtoV { name: proto.name@, args: view_asts(proto.args@) });
                    assert(pv.args.len() == proto.args@.len());
                }
                let r = self.create_function(proto, body);
                proof {
                    let step = sp_codegen(st0, av);
                    let fid = st0.functions.len() as usize;
                    let arity = pv.args.len() as usize;
                    let vt2 = st0.vtable.insert(pv.name, FuncInfo { id: fid, arity });
                    let g = sp_generate_block(
                        vt2,
                        Seq::empty(),
                        sp_bind_params(Map::empty(), pv.args),
                        bv,
                    );
                    assert(st1.functions == st0.functions);
                    assert(st1.vtable == st0.vtable);
                    assert(self@.vtable == vt2);
                    assert(self@.contains_main == step.st.contains_main);
                    match &r {
                        Ok(_) => {
                            assert(g.res is None);
                            assert(self@.functions == st0.functions.push(
                                IrFunctionV {
                                    name: pv.name,
                                    arity,
                                    body: g.body,
                                    is_extern: false,
                                },
                            ));
                            assert(self@ == step.st);
                        },
                        Err(e) => {
                            assert(g.res == Some(e@));
                            assert(self@.functions == st0.functions);
                            assert(self@ == step.st);
                        },
                    }
                }
                r
            },
            Ast::ExternNode(proto) => {
                let ghost pv = proto.view();
                proof {
                    lemma_view_asts(proto.args@);
                    assert(av == AstV::ExternNode(pv));
                    assert(pv == ProtoV { name: proto.name@, args: view_asts(proto.args@) });
                    assert(pv.args.len() == proto.args@.len());
                }
                let arity = proto.args.len();
                let fid = self.module.functions.len();
                proof {
                    lemma_view_funcs(self.module.functions@);
                }
                self.vtable.insert(proto.name.clone(), FuncInfo { id: fid, arity });
                let f = IrFunction { name: proto.name, arity, body: Vec::new(), is_extern: true };
                proof {
                    assert(f.body@.len() == 0);
                    assert(view_insts(f.body@) =~= Seq::<InstV>::empty());
                    lemma_view_funcs_push(self.module.functions@, f);
                }
                self.module.functions.push(f);
                proof {
                    let step = sp_codegen(st0, av);
                    assert(self@.functions == st0.functions.push(
                        IrFunctionV {
                            name: pv.name,
                            arity: pv.args.len() as usize,
                            body: Seq::empty(),
                            is_extern: true,
                        },
                    ));
                    assert(self@.vtable == st0.vtable.insert(
                        pv.name,
                        FuncInfo { id: st0.functions.len() as usize, arity: pv.args.len() as usize },
                    ));
                    assert(self@ == step.st);
                }
                Ok(())
            },
            Ast::EOF => Ok(()),
            _ => Err(CgError::UnexpectedNode),
        }
    }

    /// Ends generation: hands out the emitted module, or fails when no
    /// `main` function was generated.  The entry-point check comes after
    /// generation, not before it, so other errors surface first.
    pub fn finish(self) -> (r: Result<Module, CgError>)
        ensures
            match r {
                Ok(m) => self.contains_main && m == self.module,
                Err(e) => !self.contains_main && e == CgError::NoMain,
            },
    {
        if !self.contains_main {
            return Err(CgError::NoMain);
        }
        Ok(self.module)
    }
}

} // verus!
