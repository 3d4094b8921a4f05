//! The Pitusya language front end: a tokenizer, a recursive-descent parser, a
//! control-flow validator and a code generator that lowers the syntax tree to
//! a backend-neutral instruction stream.  Every stage is specified and
//! verified; the JIT backend and all I/O live outside this crate.

use vstd::prelude::*;
use vstd::string::StringExecFns;

pub mod ast;
pub mod codegen;
pub mod input;
pub mod lexer;
pub mod pass;

use crate::input::{push_char, CursoredFile};
use crate::lexer::extract;
use crate::lexer::tokens::{Token, TokenV};

verus! {

/// The distinguished process exit status used when compilation fails.
pub const EXIT_CODE: i128 = 0x48_41_50_50_59_42_44_41_59;

/// The position right after the last line break before `pos` (the start of
/// `pos`'s line).
pub open spec fn spec_line_start(s: Seq<char>, pos: int) -> int
    decreases pos,
{
    if pos <= 0 {
        0
    } else if s[pos - 1] == '\n' {
        pos
    } else {
        spec_line_start(s, pos - 1)
    }
}

/// The position of the first line break at or after `pos` (the end of
/// `pos`'s line), or the end of the text.
pub open spec fn spec_line_end(s: Seq<char>, pos: int) -> int
    decreases s.len() - pos,
{
    if pos >= s.len() {
        s.len() as int
    } else if s[pos] == '\n' {
        pos
    } else {
        spec_line_end(s, pos + 1)
    }
}

/// How many line breaks stand before `pos`.
pub open spec fn spec_line_number(s: Seq<char>, pos: int) -> int
    decreases pos,
{
    if pos <= 0 {
        0
    } else {
        spec_line_number(s, pos - 1) + if s[pos - 1] == '\n' {
            1int
        } else {
            0int
        }
    }
}

/// The decimal digit character for `d`.
pub open spec fn spec_digit(d: int) -> char {
    ((0x30 + d) as u8) as char
}

/// The decimal spelling of a non-negative number.
pub open spec fn spec_decimal(n: int) -> Seq<char>
    decreases n,
{
    if n < 10 {
        seq![spec_digit(n)]
    } else {
        spec_decimal(n / 10).push(spec_digit(n % 10))
    }
}

/// `n` copies of `c`.
pub open spec fn repeat_char(c: char, n: int) -> Seq<char>
    decreases n,
{
    if n <= 0 {
        Seq::empty()
    } else {
        repeat_char(c, n - 1).push(c)
    }
}

/// The diagnostic text for a token: the file name, the line number, the
/// offending line, a caret run under the token's span, and the expectation.
/// Colour is a renderer's concern; the text holds all the information.
pub open spec fn spec_error_message(
    t: TokenV,
    name: Seq<char>,
    s: Seq<char>,
    help: Seq<char>,
) -> Seq<char> {
    let start = spec_line_start(s, t.start as int);
    let end = spec_line_end(s, t.start as int);
    let carets = if t.len == 0 {
        1int
    } else {
        t.len as int
    };
    "error in "@ + name + " on line "@ + spec_decimal(spec_line_number(s, t.start as int))
        + ":\n\t"@ + s.subrange(start, end) + "\n\t"@ + repeat_char(' ', t.start - start)
        + repeat_char('^', carets) + "\nnote: "@ + help
}

/// The decimal spelling of `n`, as a string.
fn usize_to_string(n: usize) -> (r: String)
    ensures
        r@ == spec_decimal(n as int),
    decreases n,
{
    if n < 10 {
        let d = (0x30 + (n as u8)) as char;
        let mut s = String::new();
        push_char(&mut s, d);
        proof {
            assert(s@ =~= seq![spec_digit(n as int)]);
        }
        s
    } else {
        let mut s = usize_to_string(n / 10);
        let d = (0x30 + ((n % 10) as u8)) as char;
        push_char(&mut s, d);
        s
    }
}

/// Builds the diagnostic text for an unexpected token: where it stands in
/// the file, the whole line it stands on, and what was expected instead.
pub fn construct_error_message(token: &Token, file: &CursoredFile, help: &str) -> (r: String)
    requires
        token@.start <= file.chars().len(),
    ensures
        r@ == spec_error_message(token@, file.name@, file.chars(), help@),
{
    let ghost s = file.chars();
    let chars = &file.file.content;
    proof {
        vstd::std_specs::vec::axiom_spec_len(chars);
    }
    let pos = token.start;
    // the token's line
    let mut start = pos;
    while start > 0 && chars[start - 1] != '\n'
        invariant
            start <= pos <= chars@.len(),
            chars@ == s,
            spec_line_start(s, pos as int) == spec_line_start(s, start as int),
        decreases start,
    {
        start = start - 1;
    }
    proof {
        assert(start == spec_line_start(s, pos as int));
    }
    let mut end = pos;
    while end < chars.len() && chars[end] != '\n'
        invariant
            pos <= end <= chars@.len(),
            chars@ == s,
            spec_line_end(s, pos as int) == spec_line_end(s, end as int),
        decreases chars@.len() - end,
    {
        end = end + 1;
    }
    proof {
        assert(end == spec_line_end(s, pos as int));
    }
    // the line number
    let mut ln: usize = 0;
    let mut k: usize = 0;
    while k < pos
        invariant
            k <= pos <= chars@.len(),
            chars@ == s,
            ln <= k,
            ln == spec_line_number(s, k as int),
        decreases pos - k,
    {
        if chars[k] == '\n' {
            ln = ln + 1;
        }
        k = k + 1;
    }
    // assemble the text
    let mut msg = String::from_str("error in ");
    msg.append(file.name.as_str());
    msg.append(" on line ");
    let num = usize_to_string(ln);
    msg.append(num.as_str());
    msg.append(":\n\t");
    let line = extract(chars, start, end);
    msg.append(line.as_str());
    msg.append("\n\t");
    let span_start = pos - start;
    let ghost before_pad = msg@;
    let mut i: usize = 0;
    while i < span_start
        invariant
            i <= span_start,
            msg@ == before_pad + repeat_char(' ', i as int),
        decreases span_start - i,
    {
        push_char(&mut msg, ' ');
        i = i + 1;
    }
    let carets = if token.len == 0 {
        1
    } else {
        token.len
    };
    let ghost before_carets = msg@;
    let mut j: usize = 0;
    while j < carets
        invariant
            j <= carets,
            msg@ == before_carets + repeat_char('^', j as int),
        decreases carets - j,
    {
        push_char(&mut msg, '^');
        j = j + 1;
    }
    msg.append("\nnote: ");
    msg.append(help);
    proof {
        assert(msg@ =~= spec_error_message(token@, file.name@, s, help@));
    }
    msg
}

} // verus!
