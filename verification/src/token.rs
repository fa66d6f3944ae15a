//! Tokens, each paired with the span it was read from.

use vstd::prelude::*;
use crate::str_info::StrInfo;

verus! {

/// One lexical unit of the language.
#[derive(Clone, Debug, PartialEq)]
pub enum Token {
    Semicolon,
    Ident(String),
    Int(String),
    OpCode(String),
    Ty,
    Fn,
    Arrow,
    Equal,
    LParen,
    RParen,
}

/// The mathematical value of a `Token`: its kind and, where it has one, its text.
pub enum TokenView {
    Semicolon,
    Ident(Seq<char>),
    Int(Seq<char>),
    OpCode(Seq<char>),
    Ty,
    Fn,
    Arrow,
    Equal,
    LParen,
    RParen,
}

impl DeepView for Token {
    type V = TokenView;

    open spec fn deep_view(&self) -> TokenView {
        match self {
            Token::Semicolon => TokenView::Semicolon,
            Token::Ident(s) => TokenView::Ident(s@),
            Token::Int(s) => TokenView::Int(s@),
            Token::OpCode(s) => TokenView::OpCode(s@),
            Token::Ty => TokenView::Ty,
            Token::Fn => TokenView::Fn,
            Token::Arrow => TokenView::Arrow,
            Token::Equal => TokenView::Equal,
            Token::LParen => TokenView::LParen,
            Token::RParen => TokenView::RParen,
        }
    }
}

impl Token {
    /// Whether two tokens have the same kind and the same text.
    pub fn same(&self, other: &Token) -> (b: bool)
        ensures
            b == (self.deep_view() == other.deep_view()),
    {
        match (self, other) {
            (Token::Semicolon, Token::Semicolon) => true,
            (Token::Ident(a), Token::Ident(b)) => *a == *b,
            (Token::Int(a), Token::Int(b)) => *a == *b,
            (Token::OpCode(a), Token::OpCode(b)) => *a == *b,
            (Token::Ty, Token::Ty) => true,
            (Token::Fn, Token::Fn) => true,
            (Token::Arrow, Token::Arrow) => true,
            (Token::Equal, Token::Equal) => true,
            (Token::LParen, Token::LParen) => true,
            (Token::RParen, Token::RParen) => true,
            _ => false,
        }
    }

    pub fn is_semicolon(&self) -> (b: bool)
        ensures
            b == (self.deep_view() is Semicolon),
    {
        match self {
            Token::Semicolon => true,
            _ => false,
        }
    }
}

/// A token and the span of the source it covers.
#[derive(Clone, Debug, PartialEq)]
pub struct TokenInfo(pub Token, pub StrInfo);

pub struct TokenInfoView(pub TokenView, pub StrInfo);

impl DeepView for TokenInfo {
    type V = TokenInfoView;

    open spec fn deep_view(&self) -> TokenInfoView {
        TokenInfoView(self.0.deep_view(), self.1)
    }
}

impl TokenInfo {
    pub fn new(token: Token, info: StrInfo) -> (t: Self)
        ensures
            t.0 == token,
            t.1 == info,
    {
        TokenInfo(token, info)
    }
}

pub fn semicolon() -> (t: Token)
    ensures
        t == Token::Semicolon,
{
    Token::Semicolon
}

pub fn ident(s: String) -> (t: Token)
    ensures
        t == Token::Ident(s),
{
    Token::Ident(s)
}

pub fn int_token(s: String) -> (t: Token)
    ensures
        t == Token::Int(s),
{
    Token::Int(s)
}

pub fn op_code(s: String) -> (t: Token)
    ensures
        t == Token::OpCode(s),
{
    Token::OpCode(s)
}

pub fn ty_keyword() -> (t: Token)
    ensures
        t == Token::Ty,
{
    Token::Ty
}

pub fn fn_keyword() -> (t: Token)
    ensures
        t == Token::Fn,
{
    Token::Fn
}

pub fn arrow() -> (t: Token)
    ensures
        t == Token::Arrow,
{
    Token::Arrow
}

pub fn equal() -> (t: Token)
    ensures
        t == Token::Equal,
{
    Token::Equal
}

pub fn l_paren() -> (t: Token)
    ensures
        t == Token::LParen,
{
    Token::LParen
}

pub fn r_paren() -> (t: Token)
    ensures
        t == Token::RParen,
{
    Token::RParen
}

} // verus!
