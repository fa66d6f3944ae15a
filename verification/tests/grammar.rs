use akaneclib::lexer::lex as lex_source;
use akaneclib::parser::{parse as parse_tokens, ParseErrorKind};
use akaneclib::token::{
    equal, ident as ident_token, int_token, l_paren, op_code as op_code_token, r_paren, semicolon,
    Token,
};

fn lex(input: &str) -> Vec<Token> {
    lex_source(input).unwrap().into_iter().map(|token| token.0).collect()
}

fn ident(s: &str) -> Token {
    ident_token(s.to_owned())
}

fn num(s: &str) -> Token {
    int_token(s.to_owned())
}

fn op_code(s: &str) -> Token {
    op_code_token(s.to_owned())
}

fn parse_error_kinds(s: &str) -> Vec<ParseErrorKind> {
    parse_tokens(lex_source(s).unwrap()).unwrap_err().iter().map(|e| e.kind).collect()
}

fn all_invalid(count: usize) -> Vec<ParseErrorKind> {
    vec![ParseErrorKind::InvalidTopDef; count]
}

#[test]
fn tests_lex_eof() {
    assert_eq!(lex(""), &[]);
}

#[test]
fn tests_lex_semicolon() {
    assert_eq!(lex(";"), &[semicolon()]);
}

#[test]
fn tests_lex_keyword_or_ident() {
    assert_eq!(lex("_"), &[ident("_"), semicolon()]);
    assert_eq!(lex("a"), &[ident("a"), semicolon()]);
    assert_eq!(lex("A"), &[ident("A"), semicolon()]);
    let errs = lex_source("あ").unwrap_err();
    assert_eq!(errs.len(), 1);
    assert_eq!(errs[0].found, 'あ');
    assert_eq!(lex("AbcDef_123"), &[ident("AbcDef_123"), semicolon()]);
}

#[test]
fn lex_num() {
    assert_eq!(lex("0"), &[num("0"), semicolon()]);
    assert_eq!(lex("1234567890"), &[num("1234567890"), semicolon()]);
}

#[test]
fn lex_float() {
    assert_eq!(lex("0.0"), &[num("0"), op_code("."), num("0"), semicolon()]);
    assert_eq!(
        lex("1234567890.0987654321"),
        &[num("1234567890"), op_code("."), num("0987654321"), semicolon()]
    );
}

#[test]
fn tests_lex_paren() {
    assert_eq!(lex("("), &[l_paren(), semicolon()]);
    assert_eq!(lex(")"), &[r_paren(), semicolon()]);
}

#[test]
fn tests_lex_symbol_or_op_code() {
    assert_eq!(lex("="), &[equal(), semicolon()]);
    assert_eq!(lex("=="), &[op_code("=="), semicolon()]);
    assert_eq!(lex("+"), &[op_code("+"), semicolon()]);
    assert_eq!(lex(">>="), &[op_code(">>="), semicolon()]);
}

#[test]
fn tests_lex_statement() {
    assert_eq!(
        lex("f a b c = a >>= (b >>= c)"),
        &[
            ident("f"),
            ident("a"),
            ident("b"),
            ident("c"),
            equal(),
            ident("a"),
            op_code(">>="),
            l_paren(),
            ident("b"),
            op_code(">>="),
            ident("c"),
            r_paren(),
            semicolon(),
        ]
    );
}

#[test]
fn tests_parse_empty() {
    assert_eq!(parse_tokens(lex_source("").unwrap()).unwrap(), &[]);
}

#[test]
fn tests_parse_arg() {
    assert_eq!(parse_error_kinds("f a = 0"), all_invalid(5));
    assert_eq!(parse_error_kinds("f a b = a + b"), all_invalid(8));
}

#[test]
fn tests_parse_ident() {
    assert_eq!(parse_error_kinds("f = a"), all_invalid(4));
    assert_eq!(parse_error_kinds("f = f"), all_invalid(4));
}

#[test]
fn tests_parse_num() {
    assert_eq!(parse_error_kinds("f = 0"), all_invalid(4));
    assert_eq!(parse_error_kinds("f = 123"), all_invalid(4));
}

#[test]
fn tests_parse_fn() {
    assert_eq!(parse_error_kinds("f = g a"), all_invalid(5));
    assert_eq!(parse_error_kinds("f = g a b"), all_invalid(6));
}

#[test]
fn tests_parse_infix_op() {
    assert_eq!(parse_error_kinds("f = a + 1"), all_invalid(6));
    assert_eq!(parse_error_kinds("f = g a + g b + c"), all_invalid(10));
}

#[test]
fn tests_parse_paren() {
    assert_eq!(parse_error_kinds("f = (a + b) + c"), all_invalid(10));
    assert_eq!(parse_error_kinds("f = a + (b + c)"), all_invalid(10));
}

#[test]
fn tests_parse_prefix_op() {
    assert_eq!(parse_error_kinds("f = -1"), all_invalid(5));
    assert_eq!(parse_error_kinds("f = -a + 1"), all_invalid(7));
}
