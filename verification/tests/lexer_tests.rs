//! Tokenizer behaviour: rule order, first-match-wins, forward progress.

use pitusya::input::CursoredFile;
use pitusya::lexer::next_token;
use pitusya::lexer::tokens::{
    BinaryOperatorKind, ComparisionOpKind, KeywordKind, LiteralKind, OperatorKind, Token,
    TokenKind,
};

fn file(text: &str) -> CursoredFile {
    CursoredFile::new(String::from("test.pit"), String::from(text))
}

#[test]
fn test_lexer() {
    let mut tok_seq = file("==<=|");
    assert_eq!(
        next_token(&mut tok_seq).kind,
        TokenKind::Operator(OperatorKind::Binary(BinaryOperatorKind::Comparision(
            ComparisionOpKind::Equals
        )))
    );
    assert_eq!(
        next_token(&mut tok_seq).kind,
        TokenKind::Operator(OperatorKind::Binary(BinaryOperatorKind::Comparision(
            ComparisionOpKind::LessOrEq
        )))
    );
    assert_eq!(next_token(&mut tok_seq).kind, TokenKind::Undefined('|'));
}

#[test]
fn first_match_wins_and_moves_forward() {
    // `==` is matched before `=`, `<=` before `<`, and the unmatched `!`
    // comes back as a one-character undefined token.
    let mut input = file("==<=!");
    let t1 = next_token(&mut input);
    assert_eq!(
        t1.kind,
        TokenKind::Operator(OperatorKind::Binary(BinaryOperatorKind::Comparision(
            ComparisionOpKind::Equals
        )))
    );
    assert_eq!(t1.start, 0);
    assert_eq!(t1.len, 2);
    let t2 = next_token(&mut input);
    assert_eq!(
        t2.kind,
        TokenKind::Operator(OperatorKind::Binary(BinaryOperatorKind::Comparision(
            ComparisionOpKind::LessOrEq
        )))
    );
    assert_eq!(t2.start, 2);
    assert_eq!(t2.len, 2);
    let t3 = next_token(&mut input);
    assert_eq!(t3.kind, TokenKind::Undefined('!'));
    assert_eq!(t3.start, 4);
    assert_eq!(t3.len, 1);
    assert_eq!(next_token(&mut input).kind, TokenKind::EOF);
}

#[test]
fn numbers_keep_their_spelling() {
    let mut input = file("12 12.5 .5");
    assert_eq!(
        next_token(&mut input).kind,
        TokenKind::Literal(LiteralKind::Num(String::from("12")))
    );
    assert_eq!(
        next_token(&mut input).kind,
        TokenKind::Literal(LiteralKind::Num(String::from("12.5")))
    );
    assert_eq!(
        next_token(&mut input).kind,
        TokenKind::Literal(LiteralKind::Num(String::from(".5")))
    );
}

#[test]
fn number_rule_wins_over_identifier() {
    // first-match-wins: `1abc` is a number, then an identifier.
    let mut input = file("1abc");
    assert_eq!(
        next_token(&mut input).kind,
        TokenKind::Literal(LiteralKind::Num(String::from("1")))
    );
    assert_eq!(
        next_token(&mut input).kind,
        TokenKind::Identifier(String::from("abc"))
    );
}

#[test]
fn string_literal_keeps_quotes() {
    let mut input = file("\"cool\"");
    assert_eq!(
        next_token(&mut input).kind,
        TokenKind::Literal(LiteralKind::Str(String::from("\"cool\"")))
    );
}

#[test]
fn unterminated_string_is_undefined() {
    let mut input = file("\"oops");
    assert_eq!(next_token(&mut input).kind, TokenKind::Undefined('"'));
    assert_eq!(
        next_token(&mut input).kind,
        TokenKind::Identifier(String::from("oops"))
    );
}

#[test]
fn keywords_and_identifiers() {
    let mut input = file("if let while fn extern ret retx");
    assert_eq!(next_token(&mut input).kind, TokenKind::Keyword(KeywordKind::If));
    assert_eq!(next_token(&mut input).kind, TokenKind::Keyword(KeywordKind::Let));
    assert_eq!(next_token(&mut input).kind, TokenKind::Keyword(KeywordKind::While));
    assert_eq!(next_token(&mut input).kind, TokenKind::Keyword(KeywordKind::Fn));
    assert_eq!(next_token(&mut input).kind, TokenKind::Keyword(KeywordKind::Extern));
    assert_eq!(next_token(&mut input).kind, TokenKind::Keyword(KeywordKind::Ret));
    assert_eq!(
        next_token(&mut input).kind,
        TokenKind::Identifier(String::from("retx"))
    );
}

#[test]
fn whitespace_is_skipped_and_eof_has_zero_length() {
    let mut input = file("  \n\t x");
    let t = next_token(&mut input);
    assert_eq!(t.kind, TokenKind::Identifier(String::from("x")));
    assert_eq!(t.start, 5);
    let eof = next_token(&mut input);
    assert_eq!(eof.kind, TokenKind::EOF);
    assert_eq!(eof.len, 0);
    assert_eq!(eof.start, 5);
}

#[test]
fn eof_on_empty_input() {
    let mut input = file("");
    let eof = next_token(&mut input);
    assert_eq!(eof.kind, TokenKind::EOF);
    assert_eq!(eof.len, 0);
    assert_eq!(eof.start, 0);
}

#[test]
fn punctuation_tokens() {
    let mut input = file(";,(){}");
    assert_eq!(next_token(&mut input).kind, TokenKind::Operator(OperatorKind::Semicol));
    assert_eq!(next_token(&mut input).kind, TokenKind::Operator(OperatorKind::Coma));
    assert_eq!(next_token(&mut input).kind, TokenKind::Operator(OperatorKind::LParen));
    assert_eq!(next_token(&mut input).kind, TokenKind::Operator(OperatorKind::RParen));
    assert_eq!(next_token(&mut input).kind, TokenKind::Operator(OperatorKind::LCurly));
    assert_eq!(next_token(&mut input).kind, TokenKind::Operator(OperatorKind::RCurly));
}

#[test]
fn token_constructors() {
    let eof = Token::eof(7);
    assert_eq!(eof.kind, TokenKind::EOF);
    assert_eq!(eof.len, 0);
    assert_eq!(eof.start, 7);
    let und = Token::undefined('$', 3);
    assert_eq!(und.kind, TokenKind::Undefined('$'));
    assert_eq!(und.len, 1);
    assert_eq!(und.start, 3);
}

#[test]
fn brackets_match_no_rule() {
    let mut input = file("[]");
    assert_eq!(next_token(&mut input).kind, TokenKind::Undefined('['));
    assert_eq!(next_token(&mut input).kind, TokenKind::Undefined(']'));
}
