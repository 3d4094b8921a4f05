//! Diagnostic text: position, line extraction, caret placement.

use pitusya::ast::parser::parse;
use pitusya::construct_error_message;
use pitusya::input::CursoredFile;
use pitusya::lexer::tokens::{Token, TokenKind};

#[test]
fn the_offending_line_is_underlined() {
    let file = CursoredFile::new(
        String::from("main.pit"),
        String::from("let x = 1;\nbad"),
    );
    let token = Token { kind: TokenKind::Identifier(String::from("bad")), len: 3, start: 11 };
    let msg = construct_error_message(&token, &file, "expected `extern` or `fn`");
    assert_eq!(
        msg,
        "error in main.pit on line 1:\n\tbad\n\t^^^\nnote: expected `extern` or `fn`"
    );
}

#[test]
fn the_caret_sits_under_the_token() {
    let file = CursoredFile::new(String::from("f.pit"), String::from("let x = 1;"));
    let token = Token { kind: TokenKind::Identifier(String::from("x")), len: 1, start: 4 };
    let msg = construct_error_message(&token, &file, "h");
    assert_eq!(msg, "error in f.pit on line 0:\n\tlet x = 1;\n\t    ^\nnote: h");
}

#[test]
fn a_zero_length_token_still_gets_one_caret() {
    let file = CursoredFile::new(String::from("f.pit"), String::from("fn"));
    let token = Token { kind: TokenKind::EOF, len: 0, start: 1 };
    let msg = construct_error_message(&token, &file, "expected function's name in it's definition");
    assert_eq!(
        msg,
        "error in f.pit on line 0:\n\tfn\n\t ^\nnote: expected function's name in it's definition"
    );
}

#[test]
fn parse_errors_carry_the_token_for_the_renderer() {
    let mut input = CursoredFile::new(String::from("p.pit"), String::from("fn f { ret 1; }"));
    let err = parse(&mut input).unwrap_err();
    let msg = construct_error_message(&err.token, &input, err.help.as_str());
    assert_eq!(msg, "error in p.pit on line 0:\n\tfn f { ret 1; }\n\t     ^\nnote: expected `(`");
}
