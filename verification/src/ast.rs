//! The abstract syntax tree: a program is an ordered sequence of top-level
//! `FunctionNode`/`ExternNode` items; statements and expressions are the
//! remaining variants.  Each node owns its children outright.

pub mod parser;

use vstd::prelude::*;

use crate::lexer::tokens::{BinaryOperatorKind, LiteralKind, LiteralKindV};

verus! {

#[derive(Debug, PartialEq)]
pub enum Ast {
    EOF,
    ValueNode(LiteralKind),
    IdentifierNode(String),
    UnitNode(Box<Ast>),
    BinaryNode { left: Box<Ast>, right: Box<Ast>, op: BinaryOperatorKind },
    LetNode { assignee: String, value: Box<Ast> },
    IfNode { condition: Box<Ast>, body: Vec<Ast> },
    WhileNode { condition: Box<Ast>, body: Vec<Ast> },
    CallNode(Proto),
    ExternNode(Proto),
    FunctionNode { proto: Proto, body: Vec<Ast> },
    RetNode(Box<Ast>),
}

/// A function's name together with its arguments: the parameter names in a
/// definition or an `extern` declaration, full argument expressions at a call
/// site.
#[derive(Debug, PartialEq)]
pub struct Proto {
    pub name: String,
    pub args: Vec<Ast>,
}

/// The mathematical image of an `Ast` node: the same tree with character
/// sequences for names and sequences for child lists.
pub enum AstV {
    EOF,
    ValueNode(LiteralKindV),
    IdentifierNode(Seq<char>),
    UnitNode(Box<AstV>),
    BinaryNode { left: Box<AstV>, right: Box<AstV>, op: BinaryOperatorKind },
    LetNode { assignee: Seq<char>, value: Box<AstV> },
    IfNode { condition: Box<AstV>, body: Seq<AstV> },
    WhileNode { condition: Box<AstV>, body: Seq<AstV> },
    CallNode(ProtoV),
    ExternNode(ProtoV),
    FunctionNode { proto: ProtoV, body: Seq<AstV> },
    RetNode(Box<AstV>),
}

/// The mathematical image of a `Proto`.
pub struct ProtoV {
    pub name: Seq<char>,
    pub args: Seq<AstV>,
}

impl Ast {
    /// The node's mathematical image.
    pub open spec fn view(self) -> AstV
        decreases self,
    {
        match self {
            Ast::EOF => AstV::EOF,
            Ast::ValueNode(l) => AstV::ValueNode(l@),
            Ast::IdentifierNode(name) => AstV::IdentifierNode(name@),
            Ast::UnitNode(inner) => AstV::UnitNode(Box::new(inner.view())),
            Ast::BinaryNode { left, right, op } => AstV::BinaryNode {
                left: Box::new(left.view()),
                right: Box::new(right.view()),
                op,
            },
            Ast::LetNode { assignee, value } => AstV::LetNode {
                assignee: assignee@,
                value: Box::new(value.view()),
            },
            Ast::IfNode { condition, body } => AstV::IfNode {
                condition: Box::new(condition.view()),
                body: view_asts(body@),
            },
            Ast::WhileNode { condition, body } => AstV::WhileNode {
                condition: Box::new(condition.view()),
                body: view_asts(body@),
            },
            Ast::CallNode(p) => AstV::CallNode(p.view()),
            Ast::ExternNode(p) => AstV::ExternNode(p.view()),
            Ast::FunctionNode { proto, body } => AstV::FunctionNode {
                proto: proto.view(),
                body: view_asts(body@),
            },
            Ast::RetNode(inner) => AstV::RetNode(Box::new(inner.view())),
        }
    }
}

impl Proto {
    /// The prototype's mathematical image.
    pub open spec fn view(self) -> ProtoV
        decreases self,
    {
        ProtoV { name: self.name@, args: view_asts(self.args@) }
    }
}

/// The images of a sequence of nodes, element by element.
pub open spec fn view_asts(s: Seq<Ast>) -> Seq<AstV>
    decreases s,
{
    if s.len() == 0 {
        Seq::empty()
    } else {
        view_asts(s.drop_last()).push(s.last().view())
    }
}

/// `view_asts` maps the sequence pointwise.
pub proof fn lemma_view_asts(s: Seq<Ast>)
    ensures
        view_asts(s).len() == s.len(),
        forall|i: int| 0 <= i < s.len() ==> view_asts(s)[i] == s[i].view(),
    decreases s.len(),
{
    if s.len() > 0 {
        lemma_view_asts(s.drop_last());
    }
}

} // verus!
