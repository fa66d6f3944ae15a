//! The lexer: from source text to tokens with spans.
//!
//! `lex_tokens` and `lex_errors` say, as functions of the characters alone, which
//! tokens and which diagnostics a source has; `lex` computes them.

use vstd::prelude::*;
use vstd::string::*;
use crate::str_info::{char_info, span_info, StrInfo, StrInfoIter};
use crate::text::is_digit;
use crate::token::{Token, TokenInfo, TokenInfoView, TokenView};

verus! {

/// A character that begins no token and is no white space.
#[derive(Clone, Copy, Debug, PartialEq, Eq, Structural)]
pub struct LexError {
    /// The span of the offending character.
    pub info: StrInfo,
    /// The character itself.
    pub found: char,
}

pub open spec fn is_whitespace_char(c: char) -> bool {
    c == ' ' || c == '\t' || c == '\n' || c == '\x0C' || c == '\r'
}

pub open spec fn is_alphabetic_char(c: char) -> bool {
    ('a' <= c && c <= 'z') || ('A' <= c && c <= 'Z')
}

pub open spec fn is_ident_head_char(c: char) -> bool {
    c == '_' || is_alphabetic_char(c)
}

pub open spec fn is_ident_tail_char(c: char) -> bool {
    is_ident_head_char(c) || is_digit(c)
}

pub open spec fn is_op_code_char(c: char) -> bool {
    c == '!' || c == '#' || c == '$' || c == '%' || c == '&' || c == '*' || c == '+' || c == '.'
        || c == '/' || c == '<' || c == '=' || c == '>' || c == '?' || c == '@' || c == '\\' || c
        == '^' || c == '|' || c == '-' || c == '~'
}

/// The classes of characters of which a token can hold a whole run.
#[derive(Clone, Copy, Debug, PartialEq, Eq, Structural)]
pub enum CharClass {
    IdentTail,
    Digit,
    OpCode,
}

pub open spec fn in_class(class: CharClass, c: char) -> bool {
    match class {
        CharClass::IdentTail => is_ident_tail_char(c),
        CharClass::Digit => is_digit(c),
        CharClass::OpCode => is_op_code_char(c),
    }
}

/// The end of the longest run of characters of `class` that begins at `i`.
pub open spec fn run_end(cs: Seq<char>, i: int, class: CharClass) -> int
    decreases cs.len() - i,
{
    if 0 <= i < cs.len() && in_class(class, cs[i]) {
        run_end(cs, i + 1, class)
    } else {
        i
    }
}

pub proof fn lemma_run_end_bounds(cs: Seq<char>, i: int, class: CharClass)
    requires
        0 <= i <= cs.len(),
    ensures
        i <= run_end(cs, i, class) <= cs.len(),
    decreases cs.len() - i,
{
    if i < cs.len() && in_class(class, cs[i]) {
        lemma_run_end_bounds(cs, i + 1, class);
    }
}

pub open spec fn keyword_or_ident(text: Seq<char>) -> TokenView {
    if text == seq!['t', 'y'] {
        TokenView::Ty
    } else if text == seq!['f', 'n'] {
        TokenView::Fn
    } else {
        TokenView::Ident(text)
    }
}

pub open spec fn symbol_or_op_code(text: Seq<char>) -> TokenView {
    if text == seq!['-', '>'] {
        TokenView::Arrow
    } else if text == seq!['='] {
        TokenView::Equal
    } else {
        TokenView::OpCode(text)
    }
}

/// The token that begins at `i` and the offset at which it ends, or `None` where the
/// character at `i` begins no token.
pub open spec fn token_at(cs: Seq<char>, i: int) -> Option<(TokenView, int)> {
    let c = cs[i];
    if c == ';' {
        Some((TokenView::Semicolon, i + 1))
    } else if is_ident_head_char(c) {
        let e = run_end(cs, i + 1, CharClass::IdentTail);
        Some((keyword_or_ident(cs.subrange(i, e)), e))
    } else if is_digit(c) {
        let e = run_end(cs, i + 1, CharClass::Digit);
        Some((TokenView::Int(cs.subrange(i, e)), e))
    } else if c == '(' {
        Some((TokenView::LParen, i + 1))
    } else if c == ')' {
        Some((TokenView::RParen, i + 1))
    } else if is_op_code_char(c) {
        let e = run_end(cs, i + 1, CharClass::OpCode);
        Some((symbol_or_op_code(cs.subrange(i, e)), e))
    } else {
        None
    }
}

/// The tokens of `cs[i..]`, in source order, before the closing semicolon is added.
pub open spec fn tokens_from(cs: Seq<char>, i: int) -> Seq<TokenInfoView>
    decreases cs.len() - i,
{
    if i < 0 || i >= cs.len() {
        Seq::empty()
    } else if is_whitespace_char(cs[i]) {
        tokens_from(cs, i + 1)
    } else {
        match token_at(cs, i) {
            Some((token, e)) => if i < e <= cs.len() {
                seq![TokenInfoView(token, span_info(cs, i, e))] + tokens_from(cs, e)
            } else {
                Seq::empty()
            },
            None => tokens_from(cs, i + 1),
        }
    }
}

/// The diagnostic for the character at `i`, which begins no token.
pub open spec fn invalid_char(cs: Seq<char>, i: int) -> LexError {
    LexError { info: char_info(cs, i), found: cs[i] }
}

/// The diagnostics of `cs[i..]`: one for each character that begins no token. Lexing
/// goes on behind such a character.
pub open spec fn errors_from(cs: Seq<char>, i: int) -> Seq<LexError>
    decreases cs.len() - i,
{
    if i < 0 || i >= cs.len() {
        Seq::empty()
    } else if is_whitespace_char(cs[i]) {
        errors_from(cs, i + 1)
    } else if token_at(cs, i) is None {
        seq![invalid_char(cs, i)] + errors_from(cs, i + 1)
    } else {
        let e = token_at(cs, i).unwrap().1;
        if i < e <= cs.len() {
            errors_from(cs, e)
        } else {
            Seq::empty()
        }
    }
}

/// A token list that does not end in a semicolon gets one, with the span of its last
/// token.
pub open spec fn with_closing_semicolon(tokens: Seq<TokenInfoView>) -> Seq<TokenInfoView> {
    if tokens.len() > 0 && !(tokens.last().0 is Semicolon) {
        tokens.push(TokenInfoView(TokenView::Semicolon, tokens.last().1))
    } else {
        tokens
    }
}

/// The tokens of a source.
pub open spec fn lex_tokens(cs: Seq<char>) -> Seq<TokenInfoView> {
    with_closing_semicolon(tokens_from(cs, 0))
}

/// The diagnostics of a source.
pub open spec fn lex_errors(cs: Seq<char>) -> Seq<LexError> {
    errors_from(cs, 0)
}

/// Whatever the source, a token list that is not empty ends in a semicolon.
pub proof fn lemma_lex_ends_in_semicolon(cs: Seq<char>)
    ensures
        lex_tokens(cs).len() > 0 ==> lex_tokens(cs).last().0 is Semicolon,
{
}

/// The tokens stand in the order of the source: each covers a piece of the source
/// that is not empty, and none begins or ends before one that stands before it.
pub open spec fn in_source_order(tokens: Seq<TokenInfoView>, len: nat) -> bool {
    &&& forall|i: int|
        0 <= i < tokens.len() ==> (#[trigger] tokens[i]).1.start < tokens[i].1.end <= len
    &&& forall|i: int, j: int|
        0 <= i <= j < tokens.len() ==> (#[trigger] tokens[i]).1.start <= (
        #[trigger] tokens[j]).1.start && tokens[i].1.end <= tokens[j].1.end
}

/// The tokens of a source stand in the order of the source.
pub proof fn lemma_tokens_in_source_order(cs: Seq<char>)
    requires
        cs.len() < usize::MAX,
    ensures
        in_source_order(lex_tokens(cs), cs.len()),
{
    lemma_tokens_from_order(cs, 0);
    let tokens = tokens_from(cs, 0);
    let closed = lex_tokens(cs);
    assert forall|i: int, j: int| 0 <= i <= j < closed.len() implies (#[trigger] closed[i]).1.start
        <= (#[trigger] closed[j]).1.start && closed[i].1.end <= closed[j].1.end by {
        if j < tokens.len() {
            assert(closed[i] == tokens[i] && closed[j] == tokens[j]);
        } else if i < tokens.len() {
            assert(closed[i] == tokens[i]);
            assert(closed[j].1 == tokens[tokens.len() - 1].1);
        }
    }
    assert forall|i: int| 0 <= i < closed.len() implies (#[trigger] closed[i]).1.start
        < closed[i].1.end <= cs.len() by {
        if i < tokens.len() {
            assert(closed[i] == tokens[i]);
        } else {
            assert(closed[i].1 == tokens[tokens.len() - 1].1);
        }
    }
}

/// The tokens from `pos` on lie behind `pos`, in the order of the source.
#[verifier::rlimit(50)]
pub proof fn lemma_tokens_from_order(cs: Seq<char>, pos: int)
    requires
        0 <= pos <= cs.len() < usize::MAX,
    ensures
        in_source_order(tokens_from(cs, pos), cs.len()),
        forall|i: int|
            0 <= i < tokens_from(cs, pos).len() ==> pos <= (#[trigger] tokens_from(cs, pos)[i]).1.start,
    decreases cs.len() - pos,
{
    if pos < cs.len() {
        if is_whitespace_char(cs[pos]) {
            lemma_tokens_from_order(cs, pos + 1);
        } else {
            lemma_token_at_bounds(cs, pos);
            match token_at(cs, pos) {
                Some((token, e)) => {
                    lemma_tokens_from_order(cs, e);
                    let rest = tokens_from(cs, e);
                    let all = tokens_from(cs, pos);
                    let first = TokenInfoView(token, span_info(cs, pos, e));
                    assert(all == seq![first] + rest);
                    assert forall|i: int| 0 <= i < all.len() implies (#[trigger] all[i]).1.start
                        < all[i].1.end <= cs.len() && pos <= all[i].1.start by {
                        if i > 0 {
                            assert(all[i] == rest[i - 1]);
                        }
                    }
                    assert forall|i: int, j: int| 0 <= i <= j < all.len() implies (
                    #[trigger] all[i]).1.start <= (#[trigger] all[j]).1.start && all[i].1.end
                        <= all[j].1.end by {
                        if i > 0 {
                            assert(all[i] == rest[i - 1]);
                            assert(all[j] == rest[j - 1]);
                        } else if j > 0 {
                            assert(all[j] == rest[j - 1]);
                        }
                    }
                },
                None => {
                    lemma_tokens_from_order(cs, pos + 1);
                },
            }
        }
    }
}

pub proof fn lemma_token_at_bounds(cs: Seq<char>, i: int)
    requires
        0 <= i < cs.len(),
    ensures
        token_at(cs, i) matches Some((token, e)) ==> i < e <= cs.len(),
{
    lemma_run_end_bounds(cs, i + 1, CharClass::IdentTail);
    lemma_run_end_bounds(cs, i + 1, CharClass::Digit);
    lemma_run_end_bounds(cs, i + 1, CharClass::OpCode);
}

fn is_whitespace(c: Option<char>) -> (b: bool)
    ensures
        b == (c matches Some(ch) && is_whitespace_char(ch)),
{
    match c {
        Some(ch) => ch == ' ' || ch == '\t' || ch == '\n' || ch == '\x0C' || ch == '\r',
        None => false,
    }
}

fn is_semicolon(c: Option<char>) -> (b: bool)
    ensures
        b == (c == Some(';')),
{
    match c {
        Some(ch) => ch == ';',
        None => false,
    }
}

fn is_ident_head(c: Option<char>) -> (b: bool)
    ensures
        b == (c matches Some(ch) && is_ident_head_char(ch)),
{
    match c {
        Some(ch) => ch == '_' || (ch >= 'a' && ch <= 'z') || (ch >= 'A' && ch <= 'Z'),
        None => false,
    }
}

fn is_ident_tail(c: Option<char>) -> (b: bool)
    ensures
        b == (c matches Some(ch) && is_ident_tail_char(ch)),
{
    is_ident_head(c) || is_num(c)
}

fn is_num(c: Option<char>) -> (b: bool)
    ensures
        b == (c matches Some(ch) && is_digit(ch)),
{
    match c {
        Some(ch) => ch >= '0' && ch <= '9',
        None => false,
    }
}

fn is_op_code(c: Option<char>) -> (b: bool)
    ensures
        b == (c matches Some(ch) && is_op_code_char(ch)),
{
    match c {
        Some(ch) => ch == '!' || ch == '#' || ch == '$' || ch == '%' || ch == '&' || ch == '*'
            || ch == '+' || ch == '.' || ch == '/' || ch == '<' || ch == '=' || ch == '>' || ch
            == '?' || ch == '@' || ch == '\\' || ch == '^' || ch == '|' || ch == '-' || ch == '~',
        None => false,
    }
}

fn is_l_paren(c: Option<char>) -> (b: bool)
    ensures
        b == (c == Some('(')),
{
    match c {
        Some(ch) => ch == '(',
        None => false,
    }
}

fn is_r_paren(c: Option<char>) -> (b: bool)
    ensures
        b == (c == Some(')')),
{
    match c {
        Some(ch) => ch == ')',
        None => false,
    }
}

fn in_char_class(class: CharClass, c: Option<char>) -> (b: bool)
    ensures
        b == (c matches Some(ch) && in_class(class, ch)),
{
    match class {
        CharClass::IdentTail => is_ident_tail(c),
        CharClass::Digit => is_num(c),
        CharClass::OpCode => is_op_code(c),
    }
}

fn is_ty(s: &String) -> (b: bool)
    ensures
        b == (s@ == seq!['t', 'y']),
{
    proof {
        reveal_strlit("ty");
    }
    let keyword = String::from_str("ty");
    assert(keyword@ =~= seq!['t', 'y']);
    *s == keyword
}

fn is_fn(s: &String) -> (b: bool)
    ensures
        b == (s@ == seq!['f', 'n']),
{
    proof {
        reveal_strlit("fn");
    }
    let keyword = String::from_str("fn");
    assert(keyword@ =~= seq!['f', 'n']);
    *s == keyword
}

fn is_arrow(s: &String) -> (b: bool)
    ensures
        b == (s@ == seq!['-', '>']),
{
    proof {
        reveal_strlit("->");
    }
    let symbol = String::from_str("->");
    assert(symbol@ =~= seq!['-', '>']);
    *s == symbol
}

fn is_equal(s: &String) -> (b: bool)
    ensures
        b == (s@ == seq!['=']),
{
    proof {
        reveal_strlit("=");
    }
    let symbol = String::from_str("=");
    assert(symbol@ =~= seq!['=']);
    *s == symbol
}

/// Reads the character under the cursor and the whole run of `class` behind it.
#[verifier::rlimit(50)]
fn take_run(str_iter: &mut StrInfoIter, class: CharClass) -> (r: (String, StrInfo))
    requires
        old(str_iter).wf(),
        old(str_iter).pos < old(str_iter).chars@.len(),
    ensures
        final(str_iter).wf(),
        final(str_iter).chars == old(str_iter).chars,
        final(str_iter).pos == run_end(old(str_iter).chars@, old(str_iter).pos + 1, class),
        old(str_iter).pos < final(str_iter).pos <= old(str_iter).chars@.len(),
        r.0@ == old(str_iter).chars@.subrange(old(str_iter).pos as int, final(str_iter).pos as int),
        r.1 == span_info(old(str_iter).chars@, old(str_iter).pos as int, final(str_iter).pos as int),
{
    let ghost cs = str_iter.chars@;
    let ghost start = str_iter.pos as int;
    let (info_head, c) = str_iter.next().unwrap();
    let mut token = String::new();
    token.push(c);
    let mut info_tail = info_head;
    assert(token@ =~= cs.subrange(start, start + 1));
    while in_char_class(class, str_iter.peek())
        invariant
            str_iter.wf(),
            str_iter.chars@ == cs,
            str_iter.chars == old(str_iter).chars,
            0 <= start < str_iter.pos <= cs.len(),
            run_end(cs, start + 1, class) == run_end(cs, str_iter.pos as int, class),
            token@ == cs.subrange(start, str_iter.pos as int),
            info_head == char_info(cs, start),
            info_tail.end == str_iter.pos,
        decreases cs.len() - str_iter.pos,
    {
        let (info, c) = str_iter.next().unwrap();
        token.push(c);
        info_tail = info;
        assert(token@ =~= cs.subrange(start, str_iter.pos as int));
    }
    let info = info_head.extend(&info_tail);
    (token, info)
}

fn assume_eof(str_iter: &StrInfoIter) -> (r: Option<()>)
    requires
        str_iter.wf(),
    ensures
        r is Some <==> str_iter.pos == str_iter.chars@.len(),
{
    if str_iter.peek().is_none() {
        Some(())
    } else {
        None
    }
}

#[verifier::rlimit(50)]
fn assume_whitespace(str_iter: &mut StrInfoIter) -> (r: Option<()>)
    requires
        old(str_iter).wf(),
    ensures
        final(str_iter).wf(),
        final(str_iter).chars == old(str_iter).chars,
        old(str_iter).pos <= final(str_iter).pos <= old(str_iter).chars@.len(),
        r is Some <==> old(str_iter).pos < final(str_iter).pos,
        tokens_from(old(str_iter).chars@, old(str_iter).pos as int) == tokens_from(
            old(str_iter).chars@,
            final(str_iter).pos as int,
        ),
        errors_from(old(str_iter).chars@, old(str_iter).pos as int) == errors_from(
            old(str_iter).chars@,
            final(str_iter).pos as int,
        ),
        final(str_iter).pos < old(str_iter).chars@.len() ==> !is_whitespace_char(
            old(str_iter).chars@[final(str_iter).pos as int],
        ),
{
    let mut consumed = false;
    while is_whitespace(str_iter.peek())
        invariant
            str_iter.wf(),
            str_iter.chars == old(str_iter).chars,
            old(str_iter).pos <= str_iter.pos <= old(str_iter).chars@.len(),
            consumed <==> old(str_iter).pos < str_iter.pos,
            tokens_from(old(str_iter).chars@, old(str_iter).pos as int) == tokens_from(
                old(str_iter).chars@,
                str_iter.pos as int,
            ),
            errors_from(old(str_iter).chars@, old(str_iter).pos as int) == errors_from(
                old(str_iter).chars@,
                str_iter.pos as int,
            ),
        decreases str_iter.chars@.len() - str_iter.pos,
    {
        str_iter.next();
        consumed = true;
    }
    if consumed {
        Some(())
    } else {
        None
    }
}

fn assume_semicolon(str_iter: &mut StrInfoIter) -> (r: Option<TokenInfo>)
    requires
        old(str_iter).wf(),
        old(str_iter).pos < old(str_iter).chars@.len(),
    ensures
        final(str_iter).wf(),
        final(str_iter).chars == old(str_iter).chars,
        match r {
            Some(token) => {
                &&& old(str_iter).chars@[old(str_iter).pos as int] == ';'
                &&& final(str_iter).pos == old(str_iter).pos + 1
                &&& token.deep_view() == TokenInfoView(
                    TokenView::Semicolon,
                    char_info(old(str_iter).chars@, old(str_iter).pos as int),
                )
            },
            None => {
                &&& old(str_iter).chars@[old(str_iter).pos as int] != ';'
                &&& final(str_iter).pos == old(str_iter).pos
            },
        },
{
    if is_semicolon(str_iter.peek()) {
        let (info, _) = str_iter.next().unwrap();
        Some(TokenInfo::new(crate::token::semicolon(), info))
    } else {
        None
    }
}

#[verifier::rlimit(50)]
fn assume_keyword_or_ident(str_iter: &mut StrInfoIter) -> (r: Option<TokenInfo>)
    requires
        old(str_iter).wf(),
        old(str_iter).pos < old(str_iter).chars@.len(),
    ensures
        final(str_iter).wf(),
        final(str_iter).chars == old(str_iter).chars,
        match r {
            Some(token) => {
                &&& is_ident_head_char(old(str_iter).chars@[old(str_iter).pos as int])
                &&& final(str_iter).pos == run_end(
                    old(str_iter).chars@,
                    old(str_iter).pos + 1,
                    CharClass::IdentTail,
                )
                &&& token.deep_view() == TokenInfoView(
                    keyword_or_ident(
                        old(str_iter).chars@.subrange(
                            old(str_iter).pos as int,
                            final(str_iter).pos as int,
                        ),
                    ),
                    span_info(
                        old(str_iter).chars@,
                        old(str_iter).pos as int,
                        final(str_iter).pos as int,
                    ),
                )
            },
            None => {
                &&& !is_ident_head_char(old(str_iter).chars@[old(str_iter).pos as int])
                &&& final(str_iter).pos == old(str_iter).pos
            },
        },
{
    if is_ident_head(str_iter.peek()) {
        let (token, info) = take_run(str_iter, CharClass::IdentTail);
        if is_ty(&token) {
            Some(TokenInfo::new(crate::token::ty_keyword(), info))
        } else if is_fn(&token) {
            Some(TokenInfo::new(crate::token::fn_keyword(), info))
        } else {
            Some(TokenInfo::new(crate::token::ident(token), info))
        }
    } else {
        None
    }
}

#[verifier::rlimit(50)]
fn assume_int(str_iter: &mut StrInfoIter) -> (r: Option<TokenInfo>)
    requires
        old(str_iter).wf(),
        old(str_iter).pos < old(str_iter).chars@.len(),
    ensures
        final(str_iter).wf(),
        final(str_iter).chars == old(str_iter).chars,
        match r {
            Some(token) => {
                &&& is_digit(old(str_iter).chars@[old(str_iter).pos as int])
                &&& final(str_iter).pos == run_end(
                    old(str_iter).chars@,
                    old(str_iter).pos + 1,
                    CharClass::Digit,
                )
                &&& token.deep_view() == TokenInfoView(
                    TokenView::Int(
                        old(str_iter).chars@.subrange(
                            old(str_iter).pos as int,
                            final(str_iter).pos as int,
                        ),
                    ),
                    span_info(
                        old(str_iter).chars@,
                        old(str_iter).pos as int,
                        final(str_iter).pos as int,
                    ),
                )
            },
            None => {
                &&& !is_digit(old(str_iter).chars@[old(str_iter).pos as int])
                &&& final(str_iter).pos == old(str_iter).pos
            },
        },
{
    if is_num(str_iter.peek()) {
        let (token, info) = take_run(str_iter, CharClass::Digit);
        Some(TokenInfo::new(crate::token::int_token(token), info))
    } else {
        None
    }
}

#[verifier::rlimit(50)]
fn assume_paren(str_iter: &mut StrInfoIter) -> (r: Option<TokenInfo>)
    requires
        old(str_iter).wf(),
        old(str_iter).pos < old(str_iter).chars@.len(),
    ensures
        final(str_iter).wf(),
        final(str_iter).chars == old(str_iter).chars,
        match r {
            Some(token) => {
                let c = old(str_iter).chars@[old(str_iter).pos as int];
                &&& c == '(' || c == ')'
                &&& final(str_iter).pos == old(str_iter).pos + 1
                &&& token.deep_view() == TokenInfoView(
                    if c == '(' {
                        TokenView::LParen
                    } else {
                        TokenView::RParen
                    },
                    char_info(old(str_iter).chars@, old(str_iter).pos as int),
                )
            },
            None => {
                let c = old(str_iter).chars@[old(str_iter).pos as int];
                &&& c != '(' && c != ')'
                &&& final(str_iter).pos == old(str_iter).pos
            },
        },
{
    let s = str_iter.peek();
    if is_l_paren(s) {
        let (info, _) = str_iter.next().unwrap();
        Some(TokenInfo::new(crate::token::l_paren(), info))
    } else if is_r_paren(s) {
        let (info, _) = str_iter.next().unwrap();
        Some(TokenInfo::new(crate::token::r_paren(), info))
    } else {
        None
    }
}

#[verifier::rlimit(50)]
fn assume_symbol_or_op_code(str_iter: &mut StrInfoIter) -> (r: Option<TokenInfo>)
    requires
        old(str_iter).wf(),
        old(str_iter).pos < old(str_iter).chars@.len(),
    ensures
        final(str_iter).wf(),
        final(str_iter).chars == old(str_iter).chars,
        match r {
            Some(token) => {
                &&& is_op_code_char(old(str_iter).chars@[old(str_iter).pos as int])
                &&& final(str_iter).pos == run_end(
                    old(str_iter).chars@,
                    old(str_iter).pos + 1,
                    CharClass::OpCode,
                )
                &&& token.deep_view() == TokenInfoView(
                    symbol_or_op_code(
                        old(str_iter).chars@.subrange(
                            old(str_iter).pos as int,
                            final(str_iter).pos as int,
                        ),
                    ),
                    span_info(
                        old(str_iter).chars@,
                        old(str_iter).pos as int,
                        final(str_iter).pos as int,
                    ),
                )
            },
            None => {
                &&& !is_op_code_char(old(str_iter).chars@[old(str_iter).pos as int])
                &&& final(str_iter).pos == old(str_iter).pos
            },
        },
{
    if is_op_code(str_iter.peek()) {
        let (token, info) = take_run(str_iter, CharClass::OpCode);
        if is_arrow(&token) {
            Some(TokenInfo::new(crate::token::arrow(), info))
        } else if is_equal(&token) {
            Some(TokenInfo::new(crate::token::equal(), info))
        } else {
            Some(TokenInfo::new(crate::token::op_code(token), info))
        }
    } else {
        None
    }
}

/// Reads the token that begins under the cursor, if one does.
#[verifier::rlimit(50)]
fn assume_token(str_iter: &mut StrInfoIter) -> (r: Option<TokenInfo>)
    requires
        old(str_iter).wf(),
        old(str_iter).pos < old(str_iter).chars@.len(),
    ensures
        final(str_iter).wf(),
        final(str_iter).chars == old(str_iter).chars,
        match r {
            Some(token) => {
                &&& token_at(old(str_iter).chars@, old(str_iter).pos as int) matches Some((view, e))
                &&& final(str_iter).pos == e
                &&& old(str_iter).pos < e <= old(str_iter).chars@.len()
                &&& token.deep_view() == TokenInfoView(
                    view,
                    span_info(old(str_iter).chars@, old(str_iter).pos as int, e),
                )
            },
            None => {
                &&& token_at(old(str_iter).chars@, old(str_iter).pos as int) is None
                &&& final(str_iter).pos == old(str_iter).pos
            },
        },
{
    proof {
        lemma_token_at_bounds(str_iter.chars@, str_iter.pos as int);
    }
    if let Some(token) = assume_semicolon(str_iter) {
        Some(token)
    } else if let Some(token) = assume_keyword_or_ident(str_iter) {
        Some(token)
    } else if let Some(token) = assume_int(str_iter) {
        Some(token)
    } else if let Some(token) = assume_paren(str_iter) {
        Some(token)
    } else if let Some(token) = assume_symbol_or_op_code(str_iter) {
        Some(token)
    } else {
        None
    }
}

/// What one step of the lexer found under the cursor.
pub enum Lexed {
    /// The source is used up.
    Eof,
    /// White space was stepped over.
    Blank,
    /// A token was read.
    Token(TokenInfo),
}

/// One step of the lexer: the end of the source, a run of white space, a token, or
/// the diagnostic for the character under the cursor, which is then left there.
#[verifier::rlimit(50)]
fn assume_next(str_iter: &mut StrInfoIter) -> (r: Result<Lexed, LexError>)
    requires
        old(str_iter).wf(),
    ensures
        final(str_iter).wf(),
        final(str_iter).chars == old(str_iter).chars,
        old(str_iter).pos <= final(str_iter).pos <= old(str_iter).chars@.len(),
        match r {
            Ok(Lexed::Eof) => {
                &&& final(str_iter).pos == old(str_iter).chars@.len()
                &&& final(str_iter).pos == old(str_iter).pos
            },
            Ok(Lexed::Blank) => {
                &&& old(str_iter).pos < final(str_iter).pos
                &&& tokens_from(old(str_iter).chars@, old(str_iter).pos as int) == tokens_from(
                    old(str_iter).chars@,
                    final(str_iter).pos as int,
                )
                &&& errors_from(old(str_iter).chars@, old(str_iter).pos as int) == errors_from(
                    old(str_iter).chars@,
                    final(str_iter).pos as int,
                )
            },
            Ok(Lexed::Token(token)) => {
                &&& old(str_iter).pos < final(str_iter).pos
                &&& tokens_from(old(str_iter).chars@, old(str_iter).pos as int) == seq![
                    token.deep_view(),
                ] + tokens_from(old(str_iter).chars@, final(str_iter).pos as int)
                &&& errors_from(old(str_iter).chars@, old(str_iter).pos as int) == errors_from(
                    old(str_iter).chars@,
                    final(str_iter).pos as int,
                )
            },
            Err(e) => {
                &&& final(str_iter).pos == old(str_iter).pos
                &&& old(str_iter).pos < old(str_iter).chars@.len()
                &&& tokens_from(old(str_iter).chars@, old(str_iter).pos as int) == tokens_from(
                    old(str_iter).chars@,
                    old(str_iter).pos + 1,
                )
                &&& errors_from(old(str_iter).chars@, old(str_iter).pos as int) == seq![e]
                    + errors_from(old(str_iter).chars@, old(str_iter).pos + 1)
            },
        },
{
    if let Some(_) = assume_eof(str_iter) {
        Ok(Lexed::Eof)
    } else if let Some(_) = assume_whitespace(str_iter) {
        Ok(Lexed::Blank)
    } else if let Some(token) = assume_token(str_iter) {
        Ok(Lexed::Token(token))
    } else {
        let c: char = str_iter.chars[str_iter.pos];
        let info = peek_info(str_iter);
        Err(LexError { info, found: c })
    }
}

/// The span of the character under the cursor.
#[verifier::rlimit(50)]
fn peek_info(str_iter: &StrInfoIter) -> (info: StrInfo)
    requires
        str_iter.wf(),
        str_iter.pos < str_iter.chars@.len(),
    ensures
        info == char_info(str_iter.chars@, str_iter.pos as int),
{
    let i: usize = str_iter.pos;
    let c: char = str_iter.chars[i];
    proof {
        crate::str_info::lemma_line_column_bounds(str_iter.chars@, i as int - 1);
        crate::str_info::lemma_line_column_bounds(str_iter.chars@, i as int);
        crate::str_info::lemma_line_feed_bounds(str_iter.chars@, i as int);
    }
    let feed: usize = str_iter.line_feed;
    let text_end: usize = if str_iter.line_start < feed && feed < str_iter.chars.len()
        && str_iter.chars[feed - 1] == '\r' {
        feed - 1
    } else {
        feed
    };
    StrInfo {
        line: if c == '\n' {
            str_iter.line + 1
        } else {
            str_iter.line
        },
        column: if c == '\n' {
            0
        } else {
            str_iter.column + 1
        },
        start: i,
        end: i + 1,
        line_start: str_iter.line_start,
        line_end: text_end,
    }
}

/// Splits a source into tokens. The result is the token list of the source where it
/// has no diagnostics, and all its diagnostics otherwise.
#[verifier::rlimit(50)]
pub fn lex(input: &str) -> (r: Result<Vec<TokenInfo>, Vec<LexError>>)
    requires
        input@.len() < usize::MAX,
    ensures
        match r {
            Ok(tokens) => {
                &&& lex_errors(input@).len() == 0
                &&& tokens.deep_view() == lex_tokens(input@)
                &&& tokens.len() > 0 ==> tokens@.last().0.deep_view() is Semicolon
            },
            Err(errs) => {
                &&& errs.len() > 0
                &&& errs@ == lex_errors(input@)
            },
        },
{
    let mut tokens: Vec<TokenInfo> = Vec::new();
    let mut errs: Vec<LexError> = Vec::new();
    let mut str_iter = StrInfoIter::new(input);
    let ghost cs = input@;
    assert(tokens.deep_view() =~= Seq::<TokenInfoView>::empty());
    loop
        invariant_except_break
            str_iter.wf(),
            str_iter.chars@ == cs,
            tokens_from(cs, 0) == tokens.deep_view() + tokens_from(cs, str_iter.pos as int),
            errors_from(cs, 0) == errs@ + errors_from(cs, str_iter.pos as int),
        ensures
            tokens.deep_view() == tokens_from(cs, 0),
            errs@ == errors_from(cs, 0),
        decreases cs.len() - str_iter.pos,
    {
        let ghost before = tokens.deep_view();
        let ghost pos = str_iter.pos as int;
        match assume_next(&mut str_iter) {
            Ok(Lexed::Token(token)) => {
                let ghost view = token.deep_view();
                tokens.push(token);
                assert(tokens.deep_view() =~= before.push(view));
                assert(tokens.deep_view() + tokens_from(cs, str_iter.pos as int) =~= before + (
                seq![view] + tokens_from(cs, str_iter.pos as int)));
            },
            Ok(Lexed::Blank) => (),
            Ok(Lexed::Eof) => {
                assert(tokens.deep_view() + tokens_from(cs, str_iter.pos as int)
                    =~= tokens.deep_view());
                assert(errs@ + errors_from(cs, str_iter.pos as int) =~= errs@);
                break ;
            },
            Err(e) => {
                let ghost errs_before = errs@;
                errs.push(e);
                str_iter.next();
                assert(errs@ + errors_from(cs, str_iter.pos as int) =~= errs_before + (seq![e]
                    + errors_from(cs, str_iter.pos as int)));
            },
        }
    }
    if tokens.len() > 0 {
        let last: usize = tokens.len() - 1;
        if !tokens[last].0.is_semicolon() {
            let info = tokens[last].1;
            let ghost before = tokens.deep_view();
            tokens.push(TokenInfo::new(crate::token::semicolon(), info));
            assert(tokens.deep_view() =~= before.push(
                TokenInfoView(TokenView::Semicolon, before.last().1),
            ));
        }
    }
    if errs.len() == 0 {
        Ok(tokens)
    } else {
        Err(errs)
    }
}

} // verus!
