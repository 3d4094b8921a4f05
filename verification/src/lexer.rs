//! The tokenizer.  `next_token` reads the next token at the cursor of a
//! source file, trying an ordered list of lexical rules; the first rule that
//! matches exactly at the cursor wins.  The rules, in order: numeric literal,
//! quoted string literal, identifier-or-keyword, operators (longest pattern
//! first).  A character no rule matches is returned as a one-character
//! "undefined" token.  The whole lexical grammar is written out below as
//! specification functions, and `next_token` is proved to follow it.

pub mod tokens;

use vstd::prelude::*;

use crate::input::{is_space_char, lemma_skip_ws_bounds, push_char, spec_skip_ws, CursoredFile};
use tokens::{
    BinaryOperatorKind, ComparisionOpKind, KeywordKind, LiteralKind, LiteralKindV, OperatorKind,
    Token, TokenKind, TokenKindV, TokenV,
};

verus! {

/// An ASCII decimal digit.
pub open spec fn is_digit_char(c: char) -> bool {
    let u = c as u32;
    0x30 <= u && u <= 0x39
}

/// A character allowed inside a quoted string literal: an ASCII letter or the
/// digit zero.
pub open spec fn is_strbody_char(c: char) -> bool {
    let u = c as u32;
    (0x41 <= u && u <= 0x5A) || (0x61 <= u && u <= 0x7A) || u == 0x30
}

/// A character allowed in an identifier: an underscore, an ASCII letter or an
/// ASCII digit.
pub open spec fn is_ident_char(c: char) -> bool {
    let u = c as u32;
    (0x41 <= u && u <= 0x5A) || (0x61 <= u && u <= 0x7A) || (0x30 <= u && u <= 0x39) || u == 0x5F
}

/// How many consecutive decimal digits stand in `s` at position `i`.
pub open spec fn digit_run(s: Seq<char>, i: int) -> int
    decreases s.len() - i,
{
    if 0 <= i && i < s.len() && is_digit_char(s[i]) {
        1 + digit_run(s, i + 1)
    } else {
        0
    }
}

/// How many consecutive string-body characters stand in `s` at position `i`.
pub open spec fn strbody_run(s: Seq<char>, i: int) -> int
    decreases s.len() - i,
{
    if 0 <= i && i < s.len() && is_strbody_char(s[i]) {
        1 + strbody_run(s, i + 1)
    } else {
        0
    }
}

/// How many consecutive identifier characters stand in `s` at position `i`.
pub open spec fn ident_run(s: Seq<char>, i: int) -> int
    decreases s.len() - i,
{
    if 0 <= i && i < s.len() && is_ident_char(s[i]) {
        1 + ident_run(s, i + 1)
    } else {
        0
    }
}

/// The length matched by the numeric-literal rule at position `i`: a digit
/// run, optionally preceded in the match by a digit run and a decimal point
/// (so both `12`, `12.5` and `.5` match).  Zero when the rule does not match.
pub open spec fn num_len_at(s: Seq<char>, i: int) -> int {
    let d1 = digit_run(s, i);
    let frac = if i + d1 < s.len() && s[i + d1] == '.' {
        digit_run(s, i + d1 + 1)
    } else {
        0
    };
    if frac > 0 {
        d1 + 1 + frac
    } else {
        d1
    }
}

/// The length matched by the string-literal rule at position `i`: a double
/// quote, one or more string-body characters, and a closing double quote.
/// Zero when the rule does not match.
pub open spec fn str_len_at(s: Seq<char>, i: int) -> int {
    if 0 <= i && i < s.len() && s[i] == '"' {
        let r = strbody_run(s, i + 1);
        if r > 0 && i + 1 + r < s.len() && s[i + 1 + r] == '"' {
            r + 2
        } else {
            0
        }
    } else {
        0
    }
}

/// The keyword a word spells, if any.
pub open spec fn spec_keyword_of(w: Seq<char>) -> Option<KeywordKind> {
    if w.len() == 2 && w[0] == 'i' && w[1] == 'f' {
        Some(KeywordKind::If)
    } else if w.len() == 2 && w[0] == 'f' && w[1] == 'n' {
        Some(KeywordKind::Fn)
    } else if w.len() == 3 && w[0] == 'l' && w[1] == 'e' && w[2] == 't' {
        Some(KeywordKind::Let)
    } else if w.len() == 3 && w[0] == 'r' && w[1] == 'e' && w[2] == 't' {
        Some(KeywordKind::Ret)
    } else if w.len() == 5 && w[0] == 'w' && w[1] == 'h' && w[2] == 'i' && w[3] == 'l' && w[4]
        == 'e' {
        Some(KeywordKind::While)
    } else if w.len() == 6 && w[0] == 'e' && w[1] == 'x' && w[2] == 't' && w[3] == 'e' && w[4]
        == 'r' && w[5] == 'n' {
        Some(KeywordKind::Extern)
    } else {
        None
    }
}

/// The operator matched at position `i` and its length.  Two-character
/// operators are tried before one-character ones, so `==` is never split
/// into two `=`.
pub open spec fn spec_op_at(s: Seq<char>, i: int) -> Option<(OperatorKind, int)> {
    if 0 <= i && i + 2 <= s.len() && s[i] == '<' && s[i + 1] == '=' {
        Some(
            (
                OperatorKind::Binary(
                    BinaryOperatorKind::Comparision(ComparisionOpKind::LessOrEq),
                ),
                2,
            ),
        )
    } else if 0 <= i && i + 2 <= s.len() && s[i] == '>' && s[i + 1] == '=' {
        Some(
            (
                OperatorKind::Binary(
                    BinaryOperatorKind::Comparision(ComparisionOpKind::BiggerOrEq),
                ),
                2,
            ),
        )
    } else if 0 <= i && i + 2 <= s.len() && s[i] == '=' && s[i + 1] == '=' {
        Some(
            (OperatorKind::Binary(BinaryOperatorKind::Comparision(ComparisionOpKind::Equals)), 2),
        )
    } else if 0 <= i && i + 2 <= s.len() && s[i] == '!' && s[i + 1] == '=' {
        Some((OperatorKind::Binary(BinaryOperatorKind::Comparision(ComparisionOpKind::NeEq)), 2))
    } else if 0 <= i && i < s.len() {
        let c = s[i];
        if c == '=' {
            Some((OperatorKind::Binary(BinaryOperatorKind::Assigment), 1))
        } else if c == '+' {
            Some((OperatorKind::Binary(BinaryOperatorKind::Addition), 1))
        } else if c == '-' {
            Some((OperatorKind::Binary(BinaryOperatorKind::Subtraction), 1))
        } else if c == '*' {
            Some((OperatorKind::Binary(BinaryOperatorKind::Multiplication), 1))
        } else if c == '/' {
            Some((OperatorKind::Binary(BinaryOperatorKind::Division), 1))
        } else if c == '<' {
            Some((OperatorKind::Binary(BinaryOperatorKind::Comparision(ComparisionOpKind::Less)), 1))
        } else if c == '>' {
            Some(
                (OperatorKind::Binary(BinaryOperatorKind::Comparision(ComparisionOpKind::Bigger)), 1),
            )
        } else if c == ';' {
            Some((OperatorKind::Semicol, 1))
        } else if c == ',' {
            Some((OperatorKind::Coma, 1))
        } else if c == '(' {
            Some((OperatorKind::LParen, 1))
        } else if c == ')' {
            Some((OperatorKind::RParen, 1))
        } else if c == '{' {
            Some((OperatorKind::LCurly, 1))
        } else if c == '}' {
            Some((OperatorKind::RCurly, 1))
        } else {
            None
        }
    } else {
        None
    }
}

/// The token the lexical rules produce at position `j`, which must be a
/// non-whitespace position inside the text.
pub open spec fn spec_token_at(s: Seq<char>, j: int) -> TokenV {
    let nl = num_len_at(s, j);
    let sl = str_len_at(s, j);
    let il = ident_run(s, j);
    if nl > 0 {
        TokenV {
            kind: TokenKindV::Literal(LiteralKindV::Num(s.subrange(j, j + nl))),
            len: nl as nat,
            start: j as nat,
        }
    } else if sl > 0 {
        TokenV {
            kind: TokenKindV::Literal(LiteralKindV::Str(s.subrange(j, j + sl))),
            len: sl as nat,
            start: j as nat,
        }
    } else if il > 0 {
        let w = s.subrange(j, j + il);
        TokenV {
            kind: match spec_keyword_of(w) {
                Some(k) => TokenKindV::Keyword(k),
                None => TokenKindV::Identifier(w),
            },
            len: il as nat,
            start: j as nat,
        }
    } else {
        match spec_op_at(s, j) {
            Some(p) => TokenV { kind: TokenKindV::Operator(p.0), len: p.1 as nat, start: j as nat },
            None => TokenV { kind: TokenKindV::Undefined(s[j]), len: 1, start: j as nat },
        }
    }
}

/// What `next_token` returns when the cursor stands at position `i`:
/// whitespace is skipped, then the rules are tried; at the end of the text
/// the end-of-input token comes back.  Opaque: callers reason through
/// `next_token`'s contract and `lemma_next_token_bounds`.
#[verifier::opaque]
pub open spec fn spec_next_token(s: Seq<char>, i: int) -> TokenV {
    let j = spec_skip_ws(s, i);
    if j >= s.len() {
        TokenV {
            kind: TokenKindV::EOF,
            len: 0,
            start: if s.len() == 0 {
                0
            } else {
                (s.len() - 1) as nat
            },
        }
    } else {
        spec_token_at(s, j)
    }
}

/// Where the cursor stands after `next_token` from position `i`.  Opaque,
/// like `spec_next_token`.
#[verifier::opaque]
pub open spec fn spec_cursor_after(s: Seq<char>, i: int) -> int {
    let j = spec_skip_ws(s, i);
    if j >= s.len() {
        j
    } else {
        j + spec_token_at(s, j).len
    }
}

pub proof fn lemma_digit_run_bounds(s: Seq<char>, i: int)
    requires
        0 <= i <= s.len(),
    ensures
        0 <= digit_run(s, i),
        i + digit_run(s, i) <= s.len(),
    decreases s.len() - i,
{
    if i < s.len() && is_digit_char(s[i]) {
        lemma_digit_run_bounds(s, i + 1);
    }
}

pub proof fn lemma_strbody_run_bounds(s: Seq<char>, i: int)
    requires
        0 <= i <= s.len(),
    ensures
        0 <= strbody_run(s, i),
        i + strbody_run(s, i) <= s.len(),
    decreases s.len() - i,
{
    if i < s.len() && is_strbody_char(s[i]) {
        lemma_strbody_run_bounds(s, i + 1);
    }
}

pub proof fn lemma_ident_run_bounds(s: Seq<char>, i: int)
    requires
        0 <= i <= s.len(),
    ensures
        0 <= ident_run(s, i),
        i + ident_run(s, i) <= s.len(),
    decreases s.len() - i,
{
    if i < s.len() && is_ident_char(s[i]) {
        lemma_ident_run_bounds(s, i + 1);
    }
}

/// Every token the rules produce inside the text has a positive length and
/// ends inside the text, and it starts where it was matched.
pub proof fn lemma_token_at_bounds(s: Seq<char>, j: int)
    requires
        0 <= j < s.len(),
    ensures
        1 <= spec_token_at(s, j).len,
        j + spec_token_at(s, j).len <= s.len(),
        spec_token_at(s, j).start == j,
{
    lemma_digit_run_bounds(s, j);
    let d1 = digit_run(s, j);
    if j + d1 < s.len() && s[j + d1] == '.' {
        lemma_digit_run_bounds(s, j + d1 + 1);
    }
    if s[j] == '"' {
        lemma_strbody_run_bounds(s, j + 1);
    }
    lemma_ident_run_bounds(s, j);
}

/// `next_token` always moves the cursor forward within the text; it returns
/// the end-of-input token exactly when only whitespace is left, and any other
/// token spans at least one character starting at the first non-whitespace
/// position.
pub proof fn lemma_next_token_bounds(s: Seq<char>, i: int)
    requires
        0 <= i <= s.len(),
    ensures
        i <= spec_skip_ws(s, i) <= spec_cursor_after(s, i) <= s.len(),
        (spec_next_token(s, i).kind is EOF) <==> spec_skip_ws(s, i) == s.len(),
        !(spec_next_token(s, i).kind is EOF) ==> spec_next_token(s, i).start == spec_skip_ws(s, i)
            && 1 <= spec_next_token(s, i).len && spec_cursor_after(s, i) == spec_skip_ws(s, i)
            + spec_next_token(s, i).len,
        (spec_next_token(s, i).kind is EOF) ==> spec_cursor_after(s, i) == spec_skip_ws(s, i)
            && spec_next_token(s, i).len == 0,
        spec_next_token(s, i).len <= spec_cursor_after(s, i),
        spec_next_token(s, i).start + spec_next_token(s, i).len <= spec_cursor_after(s, i),
        spec_next_token(s, i).start <= s.len(),
        (spec_next_token(s, i).kind is EOF) ==> spec_next_token(s, i).start + 1 >= s.len(),
{
    reveal(spec_next_token);
    reveal(spec_cursor_after);
    lemma_skip_ws_bounds(s, i);
    let j = spec_skip_ws(s, i);
    if j < s.len() {
        lemma_token_at_bounds(s, j);
    }
}

/// Executable check for `is_digit_char`.
fn is_digit(c: char) -> (r: bool)
    ensures
        r == is_digit_char(c),
{
    let u = c as u32;
    0x30 <= u && u <= 0x39
}

/// Executable check for `is_strbody_char`.
fn is_strbody(c: char) -> (r: bool)
    ensures
        r == is_strbody_char(c),
{
    let u = c as u32;
    (0x41 <= u && u <= 0x5A) || (0x61 <= u && u <= 0x7A) || u == 0x30
}

/// Executable check for `is_ident_char`.
fn is_ident(c: char) -> (r: bool)
    ensures
        r == is_ident_char(c),
{
    let u = c as u32;
    (0x41 <= u && u <= 0x5A) || (0x61 <= u && u <= 0x7A) || (0x30 <= u && u <= 0x39) || u == 0x5F
}

fn digit_run_at(v: &Vec<char>, i: usize) -> (r: usize)
    requires
        i <= v@.len(),
    ensures
        r == digit_run(v@, i as int),
        i + r <= v@.len(),
{
    let mut k = i;
    while k < v.len() && is_digit(v[k])
        invariant
            i <= k <= v@.len(),
            digit_run(v@, i as int) == (k - i) + digit_run(v@, k as int),
        decreases v@.len() - k,
    {
        k = k + 1;
    }
    k - i
}

fn strbody_run_at(v: &Vec<char>, i: usize) -> (r: usize)
    requires
        i <= v@.len(),
    ensures
        r == strbody_run(v@, i as int),
        i + r <= v@.len(),
{
    let mut k = i;
    while k < v.len() && is_strbody(v[k])
        invariant
            i <= k <= v@.len(),
            strbody_run(v@, i as int) == (k - i) + strbody_run(v@, k as int),
        decreases v@.len() - k,
    {
        k = k + 1;
    }
    k - i
}

fn ident_run_at(v: &Vec<char>, i: usize) -> (r: usize)
    requires
        i <= v@.len(),
    ensures
        r == ident_run(v@, i as int),
        i + r <= v@.len(),
{
    let mut k = i;
    while k < v.len() && is_ident(v[k])
        invariant
            i <= k <= v@.len(),
            ident_run(v@, i as int) == (k - i) + ident_run(v@, k as int),
        decreases v@.len() - k,
    {
        k = k + 1;
    }
    k - i
}

/// Copies the characters `v[start..end]` into a fresh string.
pub(crate) fn extract(v: &Vec<char>, start: usize, end: usize) -> (r: String)
    requires
        start <= end <= v@.len(),
    ensures
        r@ == v@.subrange(start as int, end as int),
{
    let mut s = String::new();
    let mut k = start;
    while k < end
        invariant
            start <= k <= end <= v@.len(),
            s@ == v@.subrange(start as int, k as int),
        decreases end - k,
    {
        push_char(&mut s, v[k]);
        proof {
            assert(s@ =~= v@.subrange(start as int, k + 1));
        }
        k = k + 1;
    }
    s
}

/// Looks the word `v[i..i+l]` up in the keyword table.
fn keyword_at(v: &Vec<char>, i: usize, l: usize) -> (r: Option<KeywordKind>)
    requires
        i + l <= v@.len(),
    ensures
        r == spec_keyword_of(v@.subrange(i as int, (i + l) as int)),
{
    proof {
        vstd::std_specs::vec::axiom_spec_len(v);
    }
    let ghost w = v@.subrange(i as int, (i + l) as int);
    if l == 2 && v[i] == 'i' && v[i + 1] == 'f' {
        Some(KeywordKind::If)
    } else if l == 2 && v[i] == 'f' && v[i + 1] == 'n' {
        Some(KeywordKind::Fn)
    } else if l == 3 && v[i] == 'l' && v[i + 1] == 'e' && v[i + 2] == 't' {
        Some(KeywordKind::Let)
    } else if l == 3 && v[i] == 'r' && v[i + 1] == 'e' && v[i + 2] == 't' {
        Some(KeywordKind::Ret)
    } else if l == 5 && v[i] == 'w' && v[i + 1] == 'h' && v[i + 2] == 'i' && v[i + 3] == 'l' && v[i
        + 4] == 'e' {
        Some(KeywordKind::While)
    } else if l == 6 && v[i] == 'e' && v[i + 1] == 'x' && v[i + 2] == 't' && v[i + 3] == 'e' && v[i
        + 4] == 'r' && v[i + 5] == 'n' {
        Some(KeywordKind::Extern)
    } else {
        None
    }
}

/// Tries the operator rule at position `i`.
fn op_at(v: &Vec<char>, i: usize) -> (r: Option<(OperatorKind, usize)>)
    requires
        i < v@.len(),
    ensures
        match r {
            Some(p) => spec_op_at(v@, i as int) == Some((p.0, p.1 as int)),
            None => spec_op_at(v@, i as int) is None,
        },
{
    proof {
        vstd::std_specs::vec::axiom_spec_len(v);
    }
    let c = v[i];
    let len = v.len();
    if i + 1 < len {
        let c2 = v[i + 1];
        if c == '<' && c2 == '=' {
            return Some(
                (
                    OperatorKind::Binary(
                        BinaryOperatorKind::Comparision(ComparisionOpKind::LessOrEq),
                    ),
                    2,
                ),
            );
        }
        if c == '>' && c2 == '=' {
            return Some(
                (
                    OperatorKind::Binary(
                        BinaryOperatorKind::Comparision(ComparisionOpKind::BiggerOrEq),
                    ),
                    2,
                ),
            );
        }
        if c == '=' && c2 == '=' {
            return Some(
                (
                    OperatorKind::Binary(
                        BinaryOperatorKind::Comparision(ComparisionOpKind::Equals),
                    ),
                    2,
                ),
            );
        }
        if c == '!' && c2 == '=' {
            return Some(
                (OperatorKind::Binary(BinaryOperatorKind::Comparision(ComparisionOpKind::NeEq)), 2),
            );
        }
    }
    if c == '=' {
        Some((OperatorKind::Binary(BinaryOperatorKind::Assigment), 1))
    } else if c == '+' {
        Some((OperatorKind::Binary(BinaryOperatorKind::Addition), 1))
    } else if c == '-' {
        Some((OperatorKind::Binary(BinaryOperatorKind::Subtraction), 1))
    } else if c == '*' {
        Some((OperatorKind::Binary(BinaryOperatorKind::Multiplication), 1))
    } else if c == '/' {
        Some((OperatorKind::Binary(BinaryOperatorKind::Division), 1))
    } else if c == '<' {
        Some((OperatorKind::Binary(BinaryOperatorKind::Comparision(ComparisionOpKind::Less)), 1))
    } else if c == '>' {
        Some((OperatorKind::Binary(BinaryOperatorKind::Comparision(ComparisionOpKind::Bigger)), 1))
    } else if c == ';' {
        Some((OperatorKind::Semicol, 1))
    } else if c == ',' {
        Some((OperatorKind::Coma, 1))
    } else if c == '(' {
        Some((OperatorKind::LParen, 1))
    } else if c == ')' {
        Some((OperatorKind::RParen, 1))
    } else if c == '{' {
        Some((OperatorKind::LCurly, 1))
    } else if c == '}' {
        Some((OperatorKind::RCurly, 1))
    } else {
        None
    }
}

/// Reads the next token at the file's cursor and advances the cursor past it.
pub fn next_token(input: &mut CursoredFile) -> (t: Token)
    requires
        old(input).wf(),
    ensures
        final(input).wf(),
        final(input).chars() == old(input).chars(),
        final(input).name == old(input).name,
        final(input).file.content_str == old(input).file.content_str,
        t@ == spec_next_token(old(input).chars(), old(input).cur()),
        final(input).cur() == spec_cursor_after(old(input).chars(), old(input).cur()),
{
    let ghost s = old(input).chars();
    let ghost i0 = old(input).cur();
    proof {
        reveal(spec_next_token);
        reveal(spec_cursor_after);
        vstd::std_specs::vec::axiom_spec_len(&input.file.content);
        lemma_next_token_bounds(s, i0);
    }
    input.skip_spaces();
    let ghost j_spec = spec_skip_ws(s, i0);
    if input.out_of_bounds() {
        let n = input.file.content.len();
        let start = if n == 0 {
            0
        } else {
            n - 1
        };
        return Token::eof(start);
    }
    let j = input.get_cursor();
    // rule 1: numeric literal
    let d1 = digit_run_at(&input.file.content, j);
    let mut nl = d1;
    if j + d1 < input.file.content.len() && input.file.content[j + d1] == '.' {
        let d2 = digit_run_at(&input.file.content, j + d1 + 1);
        if d2 > 0 {
            nl = d1 + 1 + d2;
        }
    }
    proof {
        assert(nl == num_len_at(s, j as int));
    }
    if nl > 0 {
        let text = extract(&input.file.content, j, j + nl);
        input.move_cursor(nl);
        return Token { kind: TokenKind::Literal(LiteralKind::Num(text)), len: nl, start: j };
    }
    // rule 2: string literal
    let c0 = input.file.content[j];
    if c0 == '"' {
        let r = strbody_run_at(&input.file.content, j + 1);
        if r > 0 && j + 1 + r < input.file.content.len() && input.file.content[j + 1 + r] == '"' {
            let sl = r + 2;
            let text = extract(&input.file.content, j, j + sl);
            input.move_cursor(sl);
            return Token { kind: TokenKind::Literal(LiteralKind::Str(text)), len: sl, start: j };
        }
    }
    proof {
        assert(str_len_at(s, j as int) == 0);
    }
    // rule 3: identifier or keyword
    let il = ident_run_at(&input.file.content, j);
    if il > 0 {
        let kw = keyword_at(&input.file.content, j, il);
        match kw {
            Some(k) => {
                input.move_cursor(il);
                return Token { kind: TokenKind::Keyword(k), len: il, start: j };
            },
            None => {
                let text = extract(&input.file.content, j, j + il);
                input.move_cursor(il);
                return Token { kind: TokenKind::Identifier(text), len: il, start: j };
            },
        }
    }
    // rule 4: operators and punctuation
    let op = op_at(&input.file.content, j);
    match op {
        Some(p) => {
            input.move_cursor(p.1);
            return Token { kind: TokenKind::Operator(p.0), len: p.1, start: j };
        },
        None => {
        },
    }
    // no rule matched: one undefined character
    let c = input.current_char();
    input.move_cursor(1);
    Token::undefined(c, j)
}

} // verus!
