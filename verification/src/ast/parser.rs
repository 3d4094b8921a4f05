//! The recursive-descent parser.  A program is a sequence of `fn` definitions
//! and `extern` declarations; blocks hold `if`, `while`, `let`, `ret` and
//! expression statements; expressions are parsed with one token of lookahead
//! and associate to the right by construction (there is no precedence table;
//! this is a language-design property and is preserved exactly).
//!
//! The grammar is written out below as specification functions over the
//! character sequence and a cursor position (`sp_*`), and each executable
//! parsing function is proved to return exactly what its specification
//! counterpart says, leaving the cursor exactly where the specification says.
//! Every failure carries the offending token and a short expectation message;
//! parsing is all-or-nothing.

use vstd::prelude::*;
use vstd::string::StringExecFns;

use crate::ast::{lemma_view_asts, view_asts, Ast, AstV, Proto, ProtoV};
use crate::input::CursoredFile;
use crate::lexer::tokens::{
    BinaryOperatorKind, KeywordKind, OperatorKind, Token, TokenKind, TokenKindV, TokenV,
};
use crate::lexer::{lemma_next_token_bounds, next_token, spec_cursor_after, spec_next_token};

verus! {

/// A fatal syntax error: the token that broke the grammar and what was
/// expected in its place.
#[derive(Debug, PartialEq)]
pub struct ParseError {
    pub token: Token,
    pub help: String,
}

/// The mathematical image of a `ParseError`.
pub struct ParseErrorV {
    pub token: TokenV,
    pub help: Seq<char>,
}

impl View for ParseError {
    type V = ParseErrorV;

    open spec fn view(&self) -> ParseErrorV {
        ParseErrorV { token: self.token@, help: self.help@ }
    }
}

/// What one specification-level parsing step yields: the parsed value or the
/// error, and the cursor position afterwards.
pub struct SpParsed<T> {
    pub res: Result<T, ParseErrorV>,
    pub pos: int,
}

/// An error step.
pub open spec fn sp_err<T>(t: TokenV, help: Seq<char>, pos: int) -> SpParsed<T> {
    SpParsed { res: Err(ParseErrorV { token: t, help }), pos }
}

/// Filler for branches the cursor bounds rule out: every token read moves the
/// cursor forward and stays inside the text (see `lemma_next_token_bounds`
/// and the cursor clauses in the parsing functions' `ensures`), so these
/// branches are never the meaning of any actual parse.  They only keep the
/// termination measure of the grammar functions self-contained.
pub open spec fn sp_stuck<T>(pos: int) -> SpParsed<T> {
    SpParsed {
        res: Err(
            ParseErrorV {
                token: TokenV { kind: TokenKindV::EOF, len: 0, start: 0 },
                help: Seq::empty(),
            },
        ),
        pos,
    }
}

/// Parses the left operand of an expression: an identifier or call, a
/// literal, or a parenthesized sub-expression.
pub open spec fn sp_fetch_lhs(s: Seq<char>, i: int) -> SpParsed<AstV>
    decreases s.len() - i, 3int,
{
    let t = spec_next_token(s, i);
    let c = spec_cursor_after(s, i);
    match t.kind {
        TokenKindV::Identifier(_) => {
            let back = c - t.len;
            if i <= back <= s.len() {
                sp_fetch_ident_or_call(s, back)
            } else {
                sp_stuck(back)
            }
        },
        TokenKindV::Literal(l) => SpParsed { res: Ok(AstV::ValueNode(l)), pos: c },
        TokenKindV::Operator(OperatorKind::LParen) => {
            if i < c <= s.len() {
                let inner = sp_parse_unit_expr(s, c);
                match inner.res {
                    Ok(a) => SpParsed { res: Ok(AstV::UnitNode(Box::new(a))), pos: inner.pos },
                    Err(e) => SpParsed { res: Err(e), pos: inner.pos },
                }
            } else {
                sp_stuck(c)
            }
        },
        _ => sp_err(t, "expected an identifier or literal"@, c),
    }
}

/// After an identifier, one token of lookahead decides between a plain
/// variable reference and a call (a `(` immediately after the name).
pub open spec fn sp_fetch_ident_or_call(s: Seq<char>, i: int) -> SpParsed<AstV>
    decreases s.len() - i, 2int,
{
    let name_t = spec_next_token(s, i);
    let c1 = spec_cursor_after(s, i);
    match name_t.kind {
        TokenKindV::Identifier(name) => {
            let paren = spec_next_token(s, c1);
            let c2 = spec_cursor_after(s, c1);
            match paren.kind {
                TokenKindV::Operator(OperatorKind::LParen) => {
                    let back = c2 - paren.len - name_t.len;
                    if i <= back <= s.len() {
                        let p = sp_parse_prototype(s, back, false);
                        match p.res {
                            Ok(proto) => SpParsed { res: Ok(AstV::CallNode(proto)), pos: p.pos },
                            Err(e) => SpParsed { res: Err(e), pos: p.pos },
                        }
                    } else {
                        sp_stuck(back)
                    }
                },
                _ => SpParsed { res: Ok(AstV::IdentifierNode(name)), pos: c2 - paren.len },
            }
        },
        _ => sp_err(name_t, "expected an identifier"@, c1),
    }
}

/// Parses a prototype: a name, `(`, a comma-separated argument list, `)`.
/// In a definition (`definition == true`) the arguments must be bare
/// identifiers and a trailing `;` is swallowed; at a call site they are full
/// expressions.  `main` accepts no named parameters.
pub open spec fn sp_parse_prototype(s: Seq<char>, i: int, definition: bool) -> SpParsed<ProtoV>
    decreases s.len() - i, 1int,
{
    let name_t = spec_next_token(s, i);
    let c1 = spec_cursor_after(s, i);
    match name_t.kind {
        TokenKindV::Identifier(name) => {
            let paren_t = spec_next_token(s, c1);
            let c2 = spec_cursor_after(s, c1);
            match paren_t.kind {
                TokenKindV::Operator(OperatorKind::LParen) => {
                    let t = spec_next_token(s, c2);
                    let c3 = spec_cursor_after(s, c2);
                    if i < t.start <= s.len() {
                        let args = sp_parse_args(s, t, c3, definition, name == "main"@);
                        match args.res {
                            Ok(list) => {
                                let semi = spec_next_token(s, args.pos);
                                let c4 = spec_cursor_after(s, args.pos);
                                let keep = match semi.kind {
                                    TokenKindV::Operator(OperatorKind::Semicol) => definition,
                                    _ => false,
                                };
                                SpParsed {
                                    res: Ok(ProtoV { name, args: list }),
                                    pos: if keep {
                                        c4
                                    } else {
                                        c4 - semi.len
                                    },
                                }
                            },
                            Err(e) => SpParsed { res: Err(e), pos: args.pos },
                        }
                    } else {
                        sp_stuck(c3)
                    }
                },
                _ => sp_err(paren_t, "expected `(`"@, c2),
            }
        },
        _ => sp_err(name_t, "expected function's name in it's definition"@, c1),
    }
}

/// Parses the rest of an argument list, `t` being the token just read and
/// `pos` the cursor after it: either `)` at once, or arguments separated by
/// commas until `)`.
pub open spec fn sp_parse_args(
    s: Seq<char>,
    t: TokenV,
    pos: int,
    definition: bool,
    is_main: bool,
) -> SpParsed<Seq<AstV>>
    decreases s.len() - t.start, 5int,
{
    match t.kind {
        TokenKindV::Operator(OperatorKind::RParen) => SpParsed { res: Ok(Seq::empty()), pos },
        _ => {
            let first: SpParsed<AstV> = match t.kind {
                TokenKindV::Identifier(name) => {
                    if is_main {
                        sp_err(t, "main function accepts no parameters"@, pos)
                    } else if definition {
                        SpParsed { res: Ok(AstV::IdentifierNode(name)), pos }
                    } else {
                        let back = pos - t.len;
                        if t.start <= back <= s.len() {
                            sp_parse_expression(s, back)
                        } else {
                            sp_stuck(back)
                        }
                    }
                },
                _ => {
                    if !definition {
                        let back = pos - t.len;
                        if t.start <= back <= s.len() {
                            sp_parse_expression(s, back)
                        } else {
                            sp_stuck(back)
                        }
                    } else {
                        sp_err(t, "expected an identifier"@, pos)
                    }
                },
            };
            match first.res {
                Err(e) => SpParsed { res: Err(e), pos: first.pos },
                Ok(a) => {
                    let sep = spec_next_token(s, first.pos);
                    let c2 = spec_cursor_after(s, first.pos);
                    match sep.kind {
                        TokenKindV::Operator(OperatorKind::Coma) => {
                            let t2 = spec_next_token(s, c2);
                            let c3 = spec_cursor_after(s, c2);
                            if t.start < t2.start <= s.len() {
                                let rest = sp_parse_args(s, t2, c3, definition, is_main);
                                match rest.res {
                                    Ok(list) => SpParsed {
                                        res: Ok(seq![a] + list),
                                        pos: rest.pos,
                                    },
                                    Err(e) => SpParsed { res: Err(e), pos: rest.pos },
                                }
                            } else {
                                sp_stuck(c3)
                            }
                        },
                        TokenKindV::Operator(OperatorKind::RParen) => SpParsed {
                            res: Ok(seq![a]),
                            pos: c2,
                        },
                        _ => sp_err(sep, "expected `,` or `)`"@, c2),
                    }
                },
            }
        },
    }
}

/// Parses an expression: a left operand, then either a binary operator and a
/// right-recursive rest (so chains associate to the right), a terminating
/// `;`, or any other token, which is pushed back.  A `=` whose left side is
/// not a plain identifier is rejected here, at parse time.
pub open spec fn sp_parse_expression(s: Seq<char>, i: int) -> SpParsed<AstV>
    decreases s.len() - i, 4int,
{
    let lhs = sp_fetch_lhs(s, i);
    match lhs.res {
        Err(e) => SpParsed { res: Err(e), pos: lhs.pos },
        Ok(a) => {
            let t = spec_next_token(s, lhs.pos);
            let c2 = spec_cursor_after(s, lhs.pos);
            match t.kind {
                TokenKindV::Operator(op) => match op {
                    OperatorKind::Binary(bop) => {
                        if (bop is Assigment) && !(a is IdentifierNode) {
                            sp_err(t, "function parameters are immutable"@, c2)
                        } else if i < c2 <= s.len() {
                            let rhs = sp_parse_expression(s, c2);
                            match rhs.res {
                                Ok(b) => SpParsed {
                                    res: Ok(
                                        AstV::BinaryNode {
                                            left: Box::new(a),
                                            right: Box::new(b),
                                            op: bop,
                                        },
                                    ),
                                    pos: rhs.pos,
                                },
                                Err(e) => SpParsed { res: Err(e), pos: rhs.pos },
                            }
                        } else {
                            sp_stuck(c2)
                        }
                    },
                    OperatorKind::Semicol => SpParsed { res: Ok(a), pos: c2 },
                    _ => SpParsed { res: Ok(a), pos: c2 - t.len },
                },
                _ => SpParsed { res: Ok(a), pos: c2 - t.len },
            }
        },
    }
}

/// Parses a parenthesized sub-expression after its `(`: operands chained by
/// binary operators until the closing `)`.  The assignment-target rule of
/// `sp_parse_expression` holds here as well.
pub open spec fn sp_parse_unit_expr(s: Seq<char>, i: int) -> SpParsed<AstV>
    decreases s.len() - i, 4int,
{
    let lhs = sp_fetch_lhs(s, i);
    match lhs.res {
        Err(e) => SpParsed { res: Err(e), pos: lhs.pos },
        Ok(a) => {
            let t = spec_next_token(s, lhs.pos);
            let c2 = spec_cursor_after(s, lhs.pos);
            match t.kind {
                TokenKindV::Operator(op) => match op {
                    OperatorKind::Binary(bop) => {
                        if (bop is Assigment) && !(a is IdentifierNode) {
                            sp_err(t, "function parameters are immutable"@, c2)
                        } else if i < c2 <= s.len() {
                            let rhs = sp_parse_unit_expr(s, c2);
                            match rhs.res {
                                Ok(b) => SpParsed {
                                    res: Ok(
                                        AstV::BinaryNode {
                                            left: Box::new(a),
                                            right: Box::new(b),
                                            op: bop,
                                        },
                                    ),
                                    pos: rhs.pos,
                                },
                                Err(e) => SpParsed { res: Err(e), pos: rhs.pos },
                            }
                        } else {
                            sp_stuck(c2)
                        }
                    },
                    OperatorKind::RParen => SpParsed { res: Ok(a), pos: c2 },
                    _ => sp_err(t, "expected a binary operator or `)`"@, c2),
                },
                _ => sp_err(t, "expected `)`"@, c2),
            }
        },
    }
}

/// Parses a `let name = expression` statement after its `let` keyword.
pub open spec fn sp_parse_let_expr(s: Seq<char>, i: int) -> SpParsed<AstV>
    decreases s.len() - i, 5int,
{
    let t = spec_next_token(s, i);
    let c1 = spec_cursor_after(s, i);
    match t.kind {
        TokenKindV::Identifier(name) => {
            let t2 = spec_next_token(s, c1);
            let c2 = spec_cursor_after(s, c1);
            match t2.kind {
                TokenKindV::Operator(
                    OperatorKind::Binary(BinaryOperatorKind::Assigment),
                ) => {
                    if i < c2 <= s.len() {
                        let v = sp_parse_expression(s, c2);
                        match v.res {
                            Ok(a) => SpParsed {
                                res: Ok(AstV::LetNode { assignee: name, value: Box::new(a) }),
                                pos: v.pos,
                            },
                            Err(e) => SpParsed { res: Err(e), pos: v.pos },
                        }
                    } else {
                        sp_stuck(c2)
                    }
                },
                _ => sp_err(t2, "expected `=`"@, c2),
            }
        },
        _ => sp_err(t, "expected an identifier"@, c1),
    }
}

/// Parses the statements of a block up to and including the closing `}`.
pub open spec fn sp_parse_block_rest(s: Seq<char>, i: int) -> SpParsed<Seq<AstV>>
    decreases s.len() - i, 6int,
{
    let t = spec_next_token(s, i);
    let c1 = spec_cursor_after(s, i);
    match t.kind {
        TokenKindV::Operator(OperatorKind::RCurly) => SpParsed { res: Ok(Seq::empty()), pos: c1 },
        _ => {
            let stmt: SpParsed<AstV> = match t.kind {
                TokenKindV::Keyword(KeywordKind::If) => {
                    if i < c1 <= s.len() {
                        let cond = sp_parse_expression(s, c1);
                        match cond.res {
                            Ok(c) => {
                                if i < cond.pos <= s.len() {
                                    let body = sp_parse_block(s, cond.pos);
                                    match body.res {
                                        Ok(b) => SpParsed {
                                            res: Ok(
                                                AstV::IfNode { condition: Box::new(c), body: b },
                                            ),
                                            pos: body.pos,
                                        },
                                        Err(e) => SpParsed { res: Err(e), pos: body.pos },
                                    }
                                } else {
                                    sp_stuck(cond.pos)
                                }
                            },
                            Err(e) => SpParsed { res: Err(e), pos: cond.pos },
                        }
                    } else {
                        sp_stuck(c1)
                    }
                },
                TokenKindV::Keyword(KeywordKind::While) => {
                    if i < c1 <= s.len() {
                        let cond = sp_parse_expression(s, c1);
                        match cond.res {
                            Ok(c) => {
                                if i < cond.pos <= s.len() {
                                    let body = sp_parse_block(s, cond.pos);
                                    match body.res {
                                        Ok(b) => SpParsed {
                                            res: Ok(
                                                AstV::WhileNode { condition: Box::new(c), body: b },
                                            ),
                                            pos: body.pos,
                                        },
                                        Err(e) => SpParsed { res: Err(e), pos: body.pos },
                                    }
                                } else {
                                    sp_stuck(cond.pos)
                                }
                            },
                            Err(e) => SpParsed { res: Err(e), pos: cond.pos },
                        }
                    } else {
                        sp_stuck(c1)
                    }
                },
                TokenKindV::Keyword(KeywordKind::Let) => {
                    if i < c1 <= s.len() {
                        sp_parse_let_expr(s, c1)
                    } else {
                        sp_stuck(c1)
                    }
                },
                TokenKindV::Keyword(KeywordKind::Ret) => {
                    if i < c1 <= s.len() {
                        let v = sp_parse_expression(s, c1);
                        match v.res {
                            Ok(a) => SpParsed {
                                res: Ok(AstV::RetNode(Box::new(a))),
                                pos: v.pos,
                            },
                            Err(e) => SpParsed { res: Err(e), pos: v.pos },
                        }
                    } else {
                        sp_stuck(c1)
                    }
                },
                TokenKindV::Identifier(_) | TokenKindV::Literal(_) | TokenKindV::Operator(
                    OperatorKind::LParen,
                ) => {
                    let back = c1 - t.len;
                    if i <= back <= s.len() {
                        sp_parse_expression(s, back)
                    } else {
                        sp_stuck(back)
                    }
                },
                _ => sp_err(t, "expected `}` or an expression"@, c1),
            };
            match stmt.res {
                Err(e) => SpParsed { res: Err(e), pos: stmt.pos },
                Ok(a) => {
                    if i < stmt.pos <= s.len() {
                        let rest = sp_parse_block_rest(s, stmt.pos);
                        match rest.res {
                            Ok(l) => SpParsed { res: Ok(seq![a] + l), pos: rest.pos },
                            Err(e) => SpParsed { res: Err(e), pos: rest.pos },
                        }
                    } else {
                        sp_stuck(stmt.pos)
                    }
                },
            }
        },
    }
}

/// Parses a block: `{`, statements, `}`.
pub open spec fn sp_parse_block(s: Seq<char>, i: int) -> SpParsed<Seq<AstV>>
    decreases s.len() - i, 7int,
{
    let t = spec_next_token(s, i);
    let c1 = spec_cursor_after(s, i);
    match t.kind {
        TokenKindV::Operator(OperatorKind::LCurly) => {
            if i < c1 <= s.len() {
                sp_parse_block_rest(s, c1)
            } else {
                sp_stuck(c1)
            }
        },
        _ => sp_err(t, "`{`"@, c1),
    }
}

/// Parses a whole program: `fn` definitions and `extern` declarations until
/// end-of-input; anything else at top level is a fatal syntax error.
pub open spec fn sp_parse_program(s: Seq<char>, i: int) -> SpParsed<Seq<AstV>>
    decreases s.len() - i, 8int,
{
    let t = spec_next_token(s, i);
    let c1 = spec_cursor_after(s, i);
    match t.kind {
        TokenKindV::EOF => SpParsed { res: Ok(Seq::empty()), pos: c1 },
        TokenKindV::Keyword(KeywordKind::Fn) => {
            if i < c1 <= s.len() {
                let proto = sp_parse_prototype(s, c1, true);
                match proto.res {
                    Ok(p) => {
                        if i < proto.pos <= s.len() {
                            let body = sp_parse_block(s, proto.pos);
                            match body.res {
                                Ok(b) => {
                                    if i < body.pos <= s.len() {
                                        let rest = sp_parse_program(s, body.pos);
                                        match rest.res {
                                            Ok(l) => SpParsed {
                                                res: Ok(
                                                    seq![
                                                        AstV::FunctionNode { proto: p, body: b },
                                                    ] + l,
                                                ),
                                                pos: rest.pos,
                                            },
                                            Err(e) => SpParsed { res: Err(e), pos: rest.pos },
                                        }
                                    } else {
                                        sp_stuck(body.pos)
                                    }
                                },
                                Err(e) => SpParsed { res: Err(e), pos: body.pos },
                            }
                        } else {
                            sp_stuck(proto.pos)
                        }
                    },
                    Err(e) => SpParsed { res: Err(e), pos: proto.pos },
                }
            } else {
                sp_stuck(c1)
            }
        },
        TokenKindV::Keyword(KeywordKind::Extern) => {
            if i < c1 <= s.len() {
                let proto = sp_parse_prototype(s, c1, true);
                match proto.res {
                    Ok(p) => {
                        if i < proto.pos <= s.len() {
                            let rest = sp_parse_program(s, proto.pos);
                            match rest.res {
                                Ok(l) => SpParsed {
                                    res: Ok(seq![AstV::ExternNode(p)] + l),
                                    pos: rest.pos,
                                },
                                Err(e) => SpParsed { res: Err(e), pos: rest.pos },
                            }
                        } else {
                            sp_stuck(proto.pos)
                        }
                    },
                    Err(e) => SpParsed { res: Err(e), pos: proto.pos },
                }
            } else {
                sp_stuck(c1)
            }
        },
        _ => sp_err(t, "expected `extern` or `fn`"@, c1),
    }
}

/// The parts of a source file that parsing never changes: the text, the name,
/// and well-formedness.
pub open spec fn same_file(a: CursoredFile, b: CursoredFile) -> bool {
    &&& b.chars() == a.chars()
    &&& b.name == a.name
    &&& b.file.content_str == a.file.content_str
    &&& b.wf()
}

/// The executable result and cursor agree with one specification step that
/// yields a node.
pub open spec fn step_ast(r: Result<Ast, ParseError>, sp: SpParsed<AstV>, c: CursoredFile) -> bool {
    &&& c.cur() == sp.pos
    &&& match r {
        Ok(a) => sp.res == Ok::<AstV, ParseErrorV>(a.view()),
        Err(e) => sp.res == Err::<AstV, ParseErrorV>(e@),
    }
}

/// The executable result and cursor agree with one specification step that
/// yields a node sequence.
pub open spec fn step_asts(
    r: Result<Vec<Ast>, ParseError>,
    sp: SpParsed<Seq<AstV>>,
    c: CursoredFile,
) -> bool {
    &&& c.cur() == sp.pos
    &&& match r {
        Ok(v) => sp.res == Ok::<Seq<AstV>, ParseErrorV>(view_asts(v@)),
        Err(e) => sp.res == Err::<Seq<AstV>, ParseErrorV>(e@),
    }
}

/// The executable result and cursor agree with one specification step that
/// yields a prototype.
pub open spec fn step_proto(
    r: Result<Proto, ParseError>,
    sp: SpParsed<ProtoV>,
    c: CursoredFile,
) -> bool {
    &&& c.cur() == sp.pos
    &&& match r {
        Ok(p) => sp.res == Ok::<ProtoV, ParseErrorV>(p.view()),
        Err(e) => sp.res == Err::<ProtoV, ParseErrorV>(e@),
    }
}

/// Builds the error value for an unexpected token.
fn perr(token: Token, help: &str) -> (e: ParseError)
    ensures
        e@ == (ParseErrorV { token: token@, help: help@ }),
{
    ParseError { token, help: String::from_str(help) }
}

proof fn lemma_view_asts_cons(s: Seq<Ast>, a: Ast)
    ensures
        view_asts(s.insert(0, a)) == seq![a.view()] + view_asts(s),
{
    lemma_view_asts(s);
    lemma_view_asts(s.insert(0, a));
    assert(view_asts(s.insert(0, a)) =~= seq![a.view()] + view_asts(s));
}

proof fn lemma_view_asts_one(s: Seq<Ast>, a: Ast)
    requires
        s.len() == 1,
        s[0] == a,
    ensures
        view_asts(s) == seq![a.view()],
{
    lemma_view_asts(s);
    assert(view_asts(s) =~= seq![a.view()]);
}

/// Parses a whole program.
#[verifier::rlimit(100)]
pub fn parse(input: &mut CursoredFile) -> (r: Result<Vec<Ast>, ParseError>)
    requires
        old(input).wf(),
    ensures
        same_file(*old(input), *final(input)),
        step_asts(r, sp_parse_program(old(input).chars(), old(input).cur()), *final(input)),
        old(input).cur() <= final(input).cur() <= old(input).chars().len(),
    decreases input.chars().len() - input.cur(), 8int,
{
    let ghost s = input.chars();
    let ghost i0 = input.cur();
    proof {
        lemma_next_token_bounds(s, i0);
    }
    let token = next_token(input);
    match token.kind {
        TokenKind::EOF => {
            let r: Vec<Ast> = Vec::new();
            proof {
                assert(view_asts(r@) =~= Seq::<AstV>::empty());
            }
            Ok(r)
        },
        TokenKind::Keyword(KeywordKind::Fn) => {
            let proto = match parse_prototype(input, true) {
                Ok(p) => p,
                Err(e) => {
                    return Err(e);
                },
            };
            let body = match parse_block(input) {
                Ok(b) => b,
                Err(e) => {
                    return Err(e);
                },
            };
            let mut rest = match parse(input) {
                Ok(l) => l,
                Err(e) => {
                    return Err(e);
                },
            };
            let item = Ast::FunctionNode { proto, body };
            proof {
                lemma_view_asts_cons(rest@, item);
            }
            rest.insert(0, item);
            Ok(rest)
        },
        TokenKind::Keyword(KeywordKind::Extern) => {
            let proto = match parse_prototype(input, true) {
                Ok(p) => p,
                Err(e) => {
                    return Err(e);
                },
            };
            let mut rest = match parse(input) {
                Ok(l) => l,
                Err(e) => {
                    return Err(e);
                },
            };
            let item = Ast::ExternNode(proto);
            proof {
                lemma_view_asts_cons(rest@, item);
            }
            rest.insert(0, item);
            Ok(rest)
        },
        _ => Err(perr(token, "expected `extern` or `fn`")),
    }
}

/// Parses a prototype; see `sp_parse_prototype`.
#[verifier::rlimit(100)]
pub fn parse_prototype(input: &mut CursoredFile, definition: bool) -> (r: Result<
    Proto,
    ParseError,
>)
    requires
        old(input).wf(),
    ensures
        same_file(*old(input), *final(input)),
        step_proto(
            r,
            sp_parse_prototype(old(input).chars(), old(input).cur(), definition),
            *final(input),
        ),
        old(input).cur() <= final(input).cur() <= old(input).chars().len(),
        r is Ok ==> old(input).cur() < final(input).cur(),
    decreases input.chars().len() - input.cur(), 1int,
{
    let ghost s = input.chars();
    let ghost i0 = input.cur();
    proof {
        lemma_next_token_bounds(s, i0);
    }
    let name_token = next_token(input);
    match name_token.kind {
        TokenKind::Identifier(name) => {
            let ghost c1 = input.cur();
            proof {
                lemma_next_token_bounds(s, c1);
            }
            let paren_token = next_token(input);
            match paren_token.kind {
                TokenKind::Operator(OperatorKind::LParen) => {
                    let ghost c2 = input.cur();
                    proof {
                        lemma_next_token_bounds(s, c2);
                    }
                    let t = next_token(input);
                    let is_main = name == String::from_str("main");
                    let args = match parse_args(input, t, definition, is_main) {
                        Ok(a) => a,
                        Err(e) => {
                            return Err(e);
                        },
                    };
                    let ghost c_args = input.cur();
                    proof {
                        lemma_next_token_bounds(s, c_args);
                    }
                    let semi = next_token(input);
                    let keep = matches!(&semi.kind, TokenKind::Operator(OperatorKind::Semicol))
                        && definition;
                    if !keep {
                        input.move_back_cursor(semi.len);
                    }
                    Ok(Proto { name, args })
                },
                _ => Err(perr(paren_token, "expected `(`")),
            }
        },
        _ => Err(perr(name_token, "expected function's name in it's definition")),
    }
}

/// Parses the rest of an argument list; see `sp_parse_args`.
#[verifier::rlimit(80)]
fn parse_args(input: &mut CursoredFile, t: Token, definition: bool, is_main: bool) -> (r: Result<
    Vec<Ast>,
    ParseError,
>)
    requires
        old(input).wf(),
        t@.start + t@.len <= old(input).cur() <= old(input).chars().len(),
        !(t@.kind is EOF) ==> t@.len >= 1,
    ensures
        same_file(*old(input), *final(input)),
        step_asts(
            r,
            sp_parse_args(old(input).chars(), t@, old(input).cur(), definition, is_main),
            *final(input),
        ),
        t@.start <= final(input).cur() <= old(input).chars().len(),
    decreases input.chars().len() - t@.start, 5int,
{
    let ghost s = input.chars();
    let ghost pos0 = input.cur();
    if matches!(&t.kind, TokenKind::Operator(OperatorKind::RParen)) {
        let r: Vec<Ast> = Vec::new();
        proof {
            assert(view_asts(r@) =~= Seq::<AstV>::empty());
        }
        return Ok(r);
    }
    let first: Ast = match t.kind {
        TokenKind::Identifier(name) => {
            if is_main {
                return Err(
                    perr(
                        Token { kind: TokenKind::Identifier(name), len: t.len, start: t.start },
                        "main function accepts no parameters",
                    ),
                );
            } else if definition {
                Ast::IdentifierNode(name)
            } else {
                input.move_back_cursor(t.len);
                match parse_expression(input) {
                    Ok(a) => a,
                    Err(e) => {
                        return Err(e);
                    },
                }
            }
        },
        _ => {
            if !definition {
                input.move_back_cursor(t.len);
                match parse_expression(input) {
                    Ok(a) => a,
                    Err(e) => {
                        return Err(e);
                    },
                }
            } else {
                return Err(perr(t, "expected an identifier"));
            }
        },
    };
    let ghost p1 = input.cur();
    proof {
        lemma_next_token_bounds(s, p1);
    }
    let sep = next_token(input);
    match sep.kind {
        TokenKind::Operator(OperatorKind::Coma) => {
            let ghost c2 = input.cur();
            proof {
                lemma_next_token_bounds(s, c2);
            }
            let t2 = next_token(input);
            let mut rest = match parse_args(input, t2, definition, is_main) {
                Ok(l) => l,
                Err(e) => {
                    return Err(e);
                },
            };
            proof {
                lemma_view_asts_cons(rest@, first);
            }
            rest.insert(0, first);
            Ok(rest)
        },
        TokenKind::Operator(OperatorKind::RParen) => {
            let mut v: Vec<Ast> = Vec::new();
            v.push(first);
            proof {
                lemma_view_asts_one(v@, first);
            }
            Ok(v)
        },
        _ => Err(perr(sep, "expected `,` or `)`")),
    }
}

/// Parses one expression; see `sp_parse_expression`.
pub fn parse_expression(input: &mut CursoredFile) -> (r: Result<Ast, ParseError>)
    requires
        old(input).wf(),
    ensures
        same_file(*old(input), *final(input)),
        step_ast(r, sp_parse_expression(old(input).chars(), old(input).cur()), *final(input)),
        old(input).cur() <= final(input).cur() <= old(input).chars().len(),
        r is Ok ==> old(input).cur() < final(input).cur(),
    decreases input.chars().len() - input.cur(), 4int,
{
    let ghost s = input.chars();
    let ghost i0 = input.cur();
    let ast = match fetch_lhs(input) {
        Ok(a) => a,
        Err(e) => {
            return Err(e);
        },
    };
    let ghost p1 = input.cur();
    proof {
        lemma_next_token_bounds(s, p1);
    }
    let token = next_token(input);
    match &token.kind {
        TokenKind::Operator(op) => {
            let op = *op;
            match op {
                OperatorKind::Binary(bop) => {
                    if matches!(bop, BinaryOperatorKind::Assigment) && !matches!(
                        &ast,
                        Ast::IdentifierNode(_),
                    ) {
                        Err(perr(token, "function parameters are immutable"))
                    } else {
                        let right = match parse_expression(input) {
                            Ok(b) => b,
                            Err(e) => {
                                return Err(e);
                            },
                        };
                        Ok(
                            Ast::BinaryNode {
                                left: Box::new(ast),
                                right: Box::new(right),
                                op: bop,
                            },
                        )
                    }
                },
                OperatorKind::Semicol => Ok(ast),
                _ => {
                    input.move_back_cursor(token.len);
                    Ok(ast)
                },
            }
        },
        _ => {
            input.move_back_cursor(token.len);
            Ok(ast)
        },
    }
}

/// Parses a parenthesized sub-expression; see `sp_parse_unit_expr`.
pub fn parse_unit_expr(input: &mut CursoredFile) -> (r: Result<Ast, ParseError>)
    requires
        old(input).wf(),
    ensures
        same_file(*old(input), *final(input)),
        step_ast(r, sp_parse_unit_expr(old(input).chars(), old(input).cur()), *final(input)),
        old(input).cur() <= final(input).cur() <= old(input).chars().len(),
        r is Ok ==> old(input).cur() < final(input).cur(),
    decreases input.chars().len() - input.cur(), 4int,
{
    let ghost s = input.chars();
    let ghost i0 = input.cur();
    let ast = match fetch_lhs(input) {
        Ok(a) => a,
        Err(e) => {
            return Err(e);
        },
    };
    let ghost p1 = input.cur();
    proof {
        lemma_next_token_bounds(s, p1);
    }
    let token = next_token(input);
    match &token.kind {
        TokenKind::Operator(op) => {
            let op = *op;
            match op {
                OperatorKind::Binary(bop) => {
                    if matches!(bop, BinaryOperatorKind::Assigment) && !matches!(
                        &ast,
                        Ast::IdentifierNode(_),
                    ) {
                        Err(perr(token, "function parameters are immutable"))
                    } else {
                        let right = match parse_unit_expr(input) {
                            Ok(b) => b,
                            Err(e) => {
                                return Err(e);
                            },
                        };
                        Ok(
                            Ast::BinaryNode {
                                left: Box::new(ast),
                                right: Box::new(right),
                                op: bop,
                            },
                        )
                    }
                },
                OperatorKind::RParen => Ok(ast),
                _ => Err(perr(token, "expected a binary operator or `)`")),
            }
        },
        _ => Err(perr(token, "expected `)`")),
    }
}

/// Parses the left operand of an expression; see `sp_fetch_lhs`.
pub fn fetch_lhs(input: &mut CursoredFile) -> (r: Result<Ast, ParseError>)
    requires
        old(input).wf(),
    ensures
        same_file(*old(input), *final(input)),
        step_ast(r, sp_fetch_lhs(old(input).chars(), old(input).cur()), *final(input)),
        old(input).cur() <= final(input).cur() <= old(input).chars().len(),
        r is Ok ==> old(input).cur() < final(input).cur(),
    decreases input.chars().len() - input.cur(), 3int,
{
    let ghost s = input.chars();
    let ghost i0 = input.cur();
    proof {
        lemma_next_token_bounds(s, i0);
    }
    let token = next_token(input);
    match token.kind {
        TokenKind::Identifier(_) => {
            input.move_back_cursor(token.len);
            fetch_ident_or_call(input)
        },
        TokenKind::Literal(l) => Ok(Ast::ValueNode(l)),
        TokenKind::Operator(OperatorKind::LParen) => {
            match parse_unit_expr(input) {
                Ok(a) => Ok(Ast::UnitNode(Box::new(a))),
                Err(e) => Err(e),
            }
        },
        _ => Err(perr(token, "expected an identifier or literal")),
    }
}

/// Decides between a variable reference and a call; see
/// `sp_fetch_ident_or_call`.
#[verifier::rlimit(80)]
pub fn fetch_ident_or_call(input: &mut CursoredFile) -> (r: Result<Ast, ParseError>)
    requires
        old(input).wf(),
    ensures
        same_file(*old(input), *final(input)),
        step_ast(r, sp_fetch_ident_or_call(old(input).chars(), old(input).cur()), *final(input)),
        old(input).cur() <= final(input).cur() <= old(input).chars().len(),
        r is Ok ==> old(input).cur() < final(input).cur(),
    decreases input.chars().len() - input.cur(), 2int,
{
    let ghost s = input.chars();
    let ghost i0 = input.cur();
    proof {
        lemma_next_token_bounds(s, i0);
    }
    let name_token = next_token(input);
    match name_token.kind {
        TokenKind::Identifier(name) => {
            let ghost c1 = input.cur();
            proof {
                lemma_next_token_bounds(s, c1);
            }
            let paren = next_token(input);
            input.move_back_cursor(paren.len);
            if !matches!(&paren.kind, TokenKind::Operator(OperatorKind::LParen)) {
                return Ok(Ast::IdentifierNode(name));
            }
            input.move_back_cursor(name_token.len);
            match parse_prototype(input, false) {
                Ok(p) => Ok(Ast::CallNode(p)),
                Err(e) => Err(e),
            }
        },
        _ => Err(perr(name_token, "expected an identifier")),
    }
}

/// Parses a `let` statement after its keyword; see `sp_parse_let_expr`.
pub fn parse_let_expr(input: &mut CursoredFile) -> (r: Result<Ast, ParseError>)
    requires
        old(input).wf(),
    ensures
        same_file(*old(input), *final(input)),
        step_ast(r, sp_parse_let_expr(old(input).chars(), old(input).cur()), *final(input)),
        old(input).cur() <= final(input).cur() <= old(input).chars().len(),
        r is Ok ==> old(input).cur() < final(input).cur(),
    decreases input.chars().len() - input.cur(), 5int,
{
    let ghost s = input.chars();
    let ghost i0 = input.cur();
    proof {
        lemma_next_token_bounds(s, i0);
    }
    let token = next_token(input);
    match token.kind {
        TokenKind::Identifier(assignee) => {
            let ghost c1 = input.cur();
            proof {
                lemma_next_token_bounds(s, c1);
            }
            let token2 = next_token(input);
            match token2.kind {
                TokenKind::Operator(OperatorKind::Binary(BinaryOperatorKind::Assigment)) => {
                    match parse_expression(input) {
                        Ok(v) => Ok(Ast::LetNode { assignee, value: Box::new(v) }),
                        Err(e) => Err(e),
                    }
                },
                _ => Err(perr(token2, "expected `=`")),
            }
        },
        _ => Err(perr(token, "expected an identifier")),
    }
}

/// Parses a block; see `sp_parse_block`.
pub fn parse_block(input: &mut CursoredFile) -> (r: Result<Vec<Ast>, ParseError>)
    requires
        old(input).wf(),
    ensures
        same_file(*old(input), *final(input)),
        step_asts(r, sp_parse_block(old(input).chars(), old(input).cur()), *final(input)),
        old(input).cur() <= final(input).cur() <= old(input).chars().len(),
        r is Ok ==> old(input).cur() < final(input).cur(),
    decreases input.chars().len() - input.cur(), 7int,
{
    let ghost s = input.chars();
    let ghost i0 = input.cur();
    proof {
        lemma_next_token_bounds(s, i0);
    }
    let curly = next_token(input);
    if !matches!(&curly.kind, TokenKind::Operator(OperatorKind::LCurly)) {
        return Err(perr(curly, "`{`"));
    }
    parse_block_rest(input)
}

/// Parses a block's statements up to `}`; see `sp_parse_block_rest`.
fn parse_block_rest(input: &mut CursoredFile) -> (r: Result<Vec<Ast>, ParseError>)
    requires
        old(input).wf(),
    ensures
        same_file(*old(input), *final(input)),
        step_asts(r, sp_parse_block_rest(old(input).chars(), old(input).cur()), *final(input)),
        old(input).cur() <= final(input).cur() <= old(input).chars().len(),
        r is Ok ==> old(input).cur() < final(input).cur(),
    decreases input.chars().len() - input.cur(), 6int,
{
    let ghost s = input.chars();
    let ghost i0 = input.cur();
    proof {
        lemma_next_token_bounds(s, i0);
    }
    let token = next_token(input);
    if matches!(&token.kind, TokenKind::Operator(OperatorKind::RCurly)) {
        let r: Vec<Ast> = Vec::new();
        proof {
            assert(view_asts(r@) =~= Seq::<AstV>::empty());
        }
        return Ok(r);
    }
    let stmt: Ast = match token.kind {
        TokenKind::Keyword(KeywordKind::If) => {
            let cond = match parse_expression(input) {
                Ok(c) => c,
                Err(e) => {
                    return Err(e);
                },
            };
            let body = match parse_block(input) {
                Ok(b) => b,
                Err(e) => {
                    return Err(e);
                },
            };
            Ast::IfNode { condition: Box::new(cond), body }
        },
        TokenKind::Keyword(KeywordKind::While) => {
            let cond = match parse_expression(input) {
                Ok(c) => c,
                Err(e) => {
                    return Err(e);
                },
            };
            let body = match parse_block(input) {
                Ok(b) => b,
                Err(e) => {
                    return Err(e);
                },
            };
            Ast::WhileNode { condition: Box::new(cond), body }
        },
        TokenKind::Keyword(KeywordKind::Let) => {
            match parse_let_expr(input) {
                Ok(a) => a,
                Err(e) => {
                    return Err(e);
                },
            }
        },
        TokenKind::Keyword(KeywordKind::Ret) => {
            let v = match parse_expression(input) {
                Ok(a) => a,
                Err(e) => {
                    return Err(e);
                },
            };
            Ast::RetNode(Box::new(v))
        },
        TokenKind::Identifier(_) | TokenKind::Literal(_) | TokenKind::Operator(
            OperatorKind::LParen,
        ) => {
            input.move_back_cursor(token.len);
            match parse_expression(input) {
                Ok(a) => a,
                Err(e) => {
                    return Err(e);
                },
            }
        },
        _ => {
            return Err(perr(token, "expected `}` or an expression"));
        },
    };
    let mut rest = match parse_block_rest(input) {
        Ok(l) => l,
        Err(e) => {
            return Err(e);
        },
    };
    proof {
        lemma_view_asts_cons(rest@, stmt);
    }
    rest.insert(0, stmt);
    Ok(rest)
}

} // verus!
