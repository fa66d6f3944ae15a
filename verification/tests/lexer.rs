use akaneclib::lexer::{lex as lex_source, LexError};
use akaneclib::token::{
    arrow, equal, fn_keyword, ident as ident_token, int_token, l_paren, op_code as op_code_token,
    r_paren, semicolon, ty_keyword, Token, TokenInfo,
};

fn lex(input: &str) -> Vec<Token> {
    lex_source(input).unwrap().into_iter().map(|token| token.0).collect()
}

fn lex_infos(input: &str) -> Vec<TokenInfo> {
    lex_source(input).unwrap()
}

fn lex_errs(input: &str) -> Vec<LexError> {
    lex_source(input).unwrap_err()
}

fn ident(s: &str) -> Token {
    ident_token(s.to_owned())
}

fn int_of(s: &str) -> Token {
    int_token(s.to_owned())
}

fn op_code(s: &str) -> Token {
    op_code_token(s.to_owned())
}

#[test]
fn lex_eof() {
    assert_eq!(lex(""), &[]);
}

#[test]
fn lex_semicolon() {
    assert_eq!(lex(";"), &[semicolon()]);
}

#[test]
fn lex_keyword_or_ident() {
    assert_eq!(lex("ty"), &[ty_keyword(), semicolon()]);
    assert_eq!(lex("fn"), &[fn_keyword(), semicolon()]);
    assert_eq!(lex("_"), &[ident("_"), semicolon()]);
    assert_eq!(lex("a"), &[ident("a"), semicolon()]);
    assert_eq!(lex("A"), &[ident("A"), semicolon()]);
    assert_eq!(lex("AbcDef_123"), &[ident("AbcDef_123"), semicolon()]);
}

#[test]
fn lex_int() {
    assert_eq!(lex("0"), &[int_of("0"), semicolon()]);
    assert_eq!(lex("1234567890"), &[int_of("1234567890"), semicolon()]);
}

#[test]
fn lex_paren() {
    assert_eq!(lex("("), &[l_paren(), semicolon()]);
    assert_eq!(lex(")"), &[r_paren(), semicolon()]);
}

#[test]
fn lex_symbol_or_op_code() {
    assert_eq!(lex("->"), &[arrow(), semicolon()]);
    assert_eq!(lex("="), &[equal(), semicolon()]);
    assert_eq!(lex("=="), &[op_code("=="), semicolon()]);
    assert_eq!(lex("+"), &[op_code("+"), semicolon()]);
    assert_eq!(lex(">>="), &[op_code(">>="), semicolon()]);
}

#[test]
fn lex_statement() {
    assert_eq!(
        lex("fn f a b c = a >>= (b >>= c)"),
        &[
            fn_keyword(),
            ident("f"),
            ident("a"),
            ident("b"),
            ident("c"),
            equal(),
            ident("a"),
            op_code(">>="),
            l_paren(),
            ident("b"),
            op_code(">>="),
            ident("c"),
            r_paren(),
            semicolon(),
        ]
    );
}

#[test]
fn lex_spans_follow_lines_and_columns() {
    let tokens = lex_infos("fn f =\n  12;");
    let infos: Vec<(usize, usize, usize, usize, usize, usize)> = tokens
        .iter()
        .map(|t| (t.1.line, t.1.column, t.1.start, t.1.end, t.1.line_start, t.1.line_end))
        .collect();
    assert_eq!(
        infos,
        vec![
            (1, 1, 0, 2, 0, 6),
            (1, 4, 3, 4, 0, 6),
            (1, 6, 5, 6, 0, 6),
            (2, 3, 9, 11, 7, 12),
            (2, 5, 11, 12, 7, 12),
        ]
    );
}

#[test]
fn lex_invalid_characters_are_all_reported() {
    let errs = lex_errs("a ` b\n'");
    assert_eq!(errs.len(), 2);
    assert_eq!(errs[0].found, '`');
    assert_eq!((errs[0].info.line, errs[0].info.column), (1, 3));
    assert_eq!(errs[1].found, '\'');
    assert_eq!((errs[1].info.line, errs[1].info.column), (2, 1));
}

#[test]
fn lex_closing_semicolon_takes_the_span_of_the_last_token() {
    let tokens = lex_infos("fn f = abc");
    let last = &tokens[tokens.len() - 1];
    let before = &tokens[tokens.len() - 2];
    assert_eq!(last.0, semicolon());
    assert_eq!(last.1, before.1);
    assert_eq!((before.1.start, before.1.end), (7, 10));
}

#[test]
fn lex_whitespace_only_gives_no_tokens() {
    assert_eq!(lex(" \t\r\n"), &[]);
}
