//! The parser: recursive descent over the token list, one token of lookahead.
//!
//! The grammar is written down twice. The `spec_*` functions say, as functions of the
//! token list and a position, what each rule of the grammar matches, which tree it
//! builds and where it fails; the `assume_*` functions compute the same.

use vstd::prelude::*;
use vstd::string::*;
use crate::ast::{
    fn_ast,
    fn_def_ast,
    fn_expr_ast,
    ident_ast,
    ident_expr_ast,
    infix_op_ast,
    left_fn_def_ast,
    prefix_op_ast,
    top_fn_def_ast,
    ty_arrow_ast,
    ty_arrow_expr_ast,
    ty_ident_ast,
    ty_ident_expr_ast,
    ExprAst,
    ExprAstView,
    FnDefAst,
    FnDefAstView,
    IdentAst,
    IdentAstView,
    LeftFnDefAst,
    LeftFnDefAstView,
    TopDefEnum,
    TopDefEnumView,
    TyExprAst,
    TyExprAstView,
    TyIdentAst,
    TyIdentAstView,
};
use crate::str_info::StrInfo;
use crate::text::text_is;
use crate::token::{Token, TokenInfo, TokenInfoView, TokenView};

verus! {

/// What the parser missed or could not accept.
#[derive(Clone, Copy, Debug, PartialEq, Eq, Structural)]
pub enum ParseErrorKind {
    /// Neither `ty` nor `fn` opens the definition.
    InvalidTopDef,
    /// A definition does not end in `;`.
    SemicolonRequired,
    /// An expression is missing behind `=` or `(`.
    ExprRequired,
    /// `=` is missing behind the left-hand side.
    EqualRequired,
    /// No name follows `fn`.
    LeftFnDefRequired,
    /// No type follows `->`.
    TypeTermRequired,
    /// `)` is missing.
    RParenRequired,
    /// No operand follows an operator.
    TermRequired,
    /// The operator before the expression is none that the language has.
    InvalidPrefixOp,
    /// The operator between two operands is none that the language has.
    InvalidInfixOp,
}

/// A syntax error: what is wrong, and the token at which it was found.
#[derive(Clone, Copy, Debug, PartialEq, Eq, Structural)]
pub struct ParseError {
    pub kind: ParseErrorKind,
    /// The span of the token at `pos`, or of the last token where the list ended.
    pub info: StrInfo,
    /// The index of the token at which the parser stood.
    pub pos: usize,
}

/// What a rule of the grammar does at a position of the token list.
pub enum Parsed<T> {
    /// The rule matched: the tree it built and the position behind the match.
    Match(T, int),
    /// The rule does not begin here; no token was used.
    NoMatch,
    /// The rule began and then failed.
    Fail(ParseError),
}

/// The result of an `assume_*` function as the rule's outcome.
pub open spec fn parsed<T: DeepView>(r: Result<Option<(T, usize)>, ParseError>) -> Parsed<T::V> {
    match r {
        Ok(Some((value, next))) => Parsed::Match(value.deep_view(), next as int),
        Ok(None) => Parsed::NoMatch,
        Err(e) => Parsed::Fail(e),
    }
}

/// A span for diagnostics on an empty token list.
pub open spec fn no_info() -> StrInfo {
    StrInfo { line: 0, column: 0, start: 0, end: 0, line_start: 0, line_end: 0 }
}

/// The kind of the token at `pos`, if there is one.
pub open spec fn token_at(toks: Seq<TokenInfoView>, pos: int) -> Option<TokenView> {
    if 0 <= pos < toks.len() {
        Some(toks[pos].0)
    } else {
        None
    }
}

/// The diagnostic of kind `kind` for the position `pos`.
pub open spec fn error_at(toks: Seq<TokenInfoView>, pos: int, kind: ParseErrorKind) -> ParseError {
    ParseError {
        kind,
        info: if 0 <= pos < toks.len() {
            toks[pos].1
        } else if toks.len() > 0 {
            toks.last().1
        } else {
            no_info()
        },
        pos: pos as usize,
    }
}

/// An infix operator: the function it stands for, how tightly it binds, and to which
/// side it groups.
pub struct InfixOp {
    pub name: Seq<char>,
    pub precedence: nat,
    pub right_assoc: bool,
}

/// The table of infix operators.
pub open spec fn infix_op(op_code: Seq<char>) -> Option<InfixOp> {
    if op_code == "*"@ {
        Some(InfixOp { name: "mul"@, precedence: 6, right_assoc: false })
    } else if op_code == "/"@ {
        Some(InfixOp { name: "div"@, precedence: 6, right_assoc: false })
    } else if op_code == "+"@ {
        Some(InfixOp { name: "add"@, precedence: 5, right_assoc: false })
    } else if op_code == "-"@ {
        Some(InfixOp { name: "sub"@, precedence: 5, right_assoc: false })
    } else if op_code == "<|"@ {
        Some(InfixOp { name: "pipelineL"@, precedence: 1, right_assoc: true })
    } else {
        None
    }
}

/// The function that a prefix operator stands for.
pub open spec fn prefix_op(op_code: Seq<char>) -> Option<Seq<char>> {
    if op_code == "-"@ {
        Some("negate"@)
    } else {
        None
    }
}

pub open spec fn spec_ident(toks: Seq<TokenInfoView>, pos: int) -> Option<IdentAstView> {
    match token_at(toks, pos) {
        Some(TokenView::Ident(name)) => Some(IdentAstView { name, str_info: toks[pos].1 }),
        _ => None,
    }
}

pub open spec fn spec_num(toks: Seq<TokenInfoView>, pos: int) -> Option<IdentAstView> {
    match token_at(toks, pos) {
        Some(TokenView::Int(value)) => Some(IdentAstView { name: value, str_info: toks[pos].1 }),
        _ => None,
    }
}

pub open spec fn spec_ty_ident(toks: Seq<TokenInfoView>, pos: int) -> Option<TyIdentAstView> {
    match token_at(toks, pos) {
        Some(TokenView::Ident(name)) => Some(TyIdentAstView { name, str_info: toks[pos].1 }),
        _ => None,
    }
}

/// The text of the operator at `pos`, if an operator stands there.
pub open spec fn op_code_at(toks: Seq<TokenInfoView>, pos: int) -> Option<Seq<char>> {
    match token_at(toks, pos) {
        Some(TokenView::OpCode(op_code)) => Some(op_code),
        _ => None,
    }
}

pub open spec fn ident_expr(ident: IdentAstView) -> ExprAstView {
    ExprAstView::ident(ident.name, ident.str_info)
}

pub open spec fn ty_ident_expr(ident: TyIdentAstView) -> TyExprAstView {
    TyExprAstView::ident(ident.name, ident.str_info)
}

/// `ty-expr := ty-term ('->' ty-expr)?`
pub open spec fn spec_ty_expr(toks: Seq<TokenInfoView>, pos: int) -> Parsed<TyExprAstView>
    decreases toks.len() - pos, 4nat,
{
    match spec_ty_term(toks, pos) {
        Parsed::Match(lhs, p) => if pos < p <= toks.len() {
            match spec_ty_rhs(toks, p) {
                Parsed::Match(rhs, q) => Parsed::Match(ty_arrow_expr(lhs, rhs), q),
                Parsed::NoMatch => Parsed::Match(lhs, p),
                Parsed::Fail(e) => Parsed::Fail(e),
            }
        } else {
            Parsed::NoMatch
        },
        Parsed::NoMatch => Parsed::NoMatch,
        Parsed::Fail(e) => Parsed::Fail(e),
    }
}

pub open spec fn ty_arrow_expr(lhs: TyExprAstView, rhs: TyExprAstView) -> TyExprAstView {
    TyExprAstView::arrow(lhs, rhs, lhs.str_info.spec_extend(rhs.str_info))
}

/// `'->' ty-expr`: what stands to the right of a type.
pub open spec fn spec_ty_rhs(toks: Seq<TokenInfoView>, pos: int) -> Parsed<TyExprAstView>
    decreases toks.len() - pos, 0nat,
{
    if token_at(toks, pos) == Some(TokenView::Arrow) {
        match spec_ty_expr(toks, pos + 1) {
            Parsed::Match(rhs, q) => Parsed::Match(rhs, q),
            Parsed::NoMatch => Parsed::Fail(error_at(toks, pos + 1, ParseErrorKind::TypeTermRequired)),
            Parsed::Fail(e) => Parsed::Fail(e),
        }
    } else {
        Parsed::NoMatch
    }
}

/// `ty-term := '(' ty-expr ')' | IDENT`
pub open spec fn spec_ty_term(toks: Seq<TokenInfoView>, pos: int) -> Parsed<TyExprAstView>
    decreases toks.len() - pos, 3nat,
{
    spec_ty_factor(toks, pos)
}

pub open spec fn spec_ty_factor(toks: Seq<TokenInfoView>, pos: int) -> Parsed<TyExprAstView>
    decreases toks.len() - pos, 2nat,
{
    match spec_ty_paren(toks, pos) {
        Parsed::Match(expr, p) => Parsed::Match(expr, p),
        Parsed::Fail(e) => Parsed::Fail(e),
        Parsed::NoMatch => match spec_ty_ident(toks, pos) {
            Some(ident) => Parsed::Match(ty_ident_expr(ident), pos + 1),
            None => Parsed::NoMatch,
        },
    }
}

pub open spec fn spec_ty_paren(toks: Seq<TokenInfoView>, pos: int) -> Parsed<TyExprAstView>
    decreases toks.len() - pos, 1nat,
{
    if token_at(toks, pos) == Some(TokenView::LParen) {
        match spec_ty_expr(toks, pos + 1) {
            Parsed::Match(expr, p) => if token_at(toks, p) == Some(TokenView::RParen) {
                Parsed::Match(expr, p + 1)
            } else {
                Parsed::Fail(error_at(toks, p, ParseErrorKind::RParenRequired))
            },
            Parsed::NoMatch => Parsed::Fail(error_at(toks, pos + 1, ParseErrorKind::ExprRequired)),
            Parsed::Fail(e) => Parsed::Fail(e),
        }
    } else {
        Parsed::NoMatch
    }
}

/// The end of the run of names that begins at `pos`.
pub open spec fn ident_run_end(toks: Seq<TokenInfoView>, pos: int) -> int
    decreases toks.len() - pos,
{
    if spec_ident(toks, pos) is Some {
        ident_run_end(toks, pos + 1)
    } else {
        pos
    }
}

/// The names that the tokens `toks[from..to]` hold.
pub open spec fn ident_names(toks: Seq<TokenInfoView>, from: int, to: int) -> Seq<Seq<char>> {
    Seq::new((to - from) as nat, |i: int| spec_ident(toks, from + i).unwrap().name)
}

/// `left-fn-def := IDENT IDENT*`
pub open spec fn spec_left_fn_def(toks: Seq<TokenInfoView>, pos: int) -> Parsed<LeftFnDefAstView> {
    match spec_ident(toks, pos) {
        Some(ident) => {
            let end = ident_run_end(toks, pos + 1);
            Parsed::Match(
                LeftFnDefAstView {
                    name: ident.name,
                    args: ident_names(toks, pos + 1, end),
                    str_info: ident.str_info.spec_extend(toks[end - 1].1),
                },
                end,
            )
        },
        None => Parsed::NoMatch,
    }
}

/// `factor := '(' expr ')' | IDENT | INT`
pub open spec fn spec_factor(toks: Seq<TokenInfoView>, pos: int) -> Parsed<ExprAstView>
    decreases toks.len() - pos, 2nat,
{
    match spec_paren(toks, pos) {
        Parsed::Match(expr, p) => Parsed::Match(expr, p),
        Parsed::Fail(e) => Parsed::Fail(e),
        Parsed::NoMatch => match spec_ident(toks, pos) {
            Some(ident) => Parsed::Match(ident_expr(ident), pos + 1),
            None => match spec_num(toks, pos) {
                Some(num) => Parsed::Match(ident_expr(num), pos + 1),
                None => Parsed::NoMatch,
            },
        },
    }
}

pub open spec fn spec_paren(toks: Seq<TokenInfoView>, pos: int) -> Parsed<ExprAstView>
    decreases toks.len() - pos, 1nat,
{
    if token_at(toks, pos) == Some(TokenView::LParen) {
        match spec_expr(toks, pos + 1) {
            Parsed::Match(expr, p) => if token_at(toks, p) == Some(TokenView::RParen) {
                Parsed::Match(expr, p + 1)
            } else {
                Parsed::Fail(error_at(toks, p, ParseErrorKind::RParenRequired))
            },
            Parsed::NoMatch => Parsed::Fail(error_at(toks, pos + 1, ParseErrorKind::ExprRequired)),
            Parsed::Fail(e) => Parsed::Fail(e),
        }
    } else {
        Parsed::NoMatch
    }
}

/// The application of `term` to `factor`; its span begins where the first factor of
/// the term begins.
pub open spec fn apply_expr(term: ExprAstView, factor: ExprAstView, first: StrInfo) -> ExprAstView {
    ExprAstView::apply(term, factor, first.spec_extend(factor.str_info))
}

/// The factors behind the first one: each is an argument to what stands before it.
pub open spec fn spec_term_rest(
    toks: Seq<TokenInfoView>,
    pos: int,
    term: ExprAstView,
    first: StrInfo,
) -> Parsed<ExprAstView>
    decreases toks.len() - pos, 3nat,
{
    match spec_factor(toks, pos) {
        Parsed::Match(f, p) => if pos < p <= toks.len() {
            spec_term_rest(toks, p, apply_expr(term, f, first), first)
        } else {
            Parsed::NoMatch
        },
        Parsed::NoMatch => Parsed::Match(term, pos),
        Parsed::Fail(e) => Parsed::Fail(e),
    }
}

/// `term := factor factor*`
pub open spec fn spec_term(toks: Seq<TokenInfoView>, pos: int) -> Parsed<ExprAstView>
    decreases toks.len() - pos, 4nat,
{
    match spec_factor(toks, pos) {
        Parsed::Match(factor, p) => if pos < p <= toks.len() {
            spec_term_rest(toks, p, factor, factor.str_info)
        } else {
            Parsed::NoMatch
        },
        Parsed::NoMatch => Parsed::NoMatch,
        Parsed::Fail(e) => Parsed::Fail(e),
    }
}

pub open spec fn prefix_expr(name: Seq<char>, term: ExprAstView, op_info: StrInfo) -> ExprAstView {
    ExprAstView::prefix_op(name, term, op_info.spec_extend(term.str_info), op_info)
}

/// `prefix? term`: the first operand of an expression. Whatever operator stands before
/// the term is read first and judged afterwards.
pub open spec fn spec_prefix_op_lhs(toks: Seq<TokenInfoView>, pos: int) -> Parsed<ExprAstView>
    decreases toks.len() - pos, 5nat,
{
    match op_code_at(toks, pos) {
        Some(op_code) => match spec_term(toks, pos + 1) {
            Parsed::Match(term, p) => match prefix_op(op_code) {
                Some(name) => Parsed::Match(prefix_expr(name, term, toks[pos].1), p),
                None => Parsed::Fail(error_at(toks, p, ParseErrorKind::InvalidPrefixOp)),
            },
            Parsed::NoMatch => Parsed::Fail(error_at(toks, pos + 1, ParseErrorKind::TermRequired)),
            Parsed::Fail(e) => Parsed::Fail(e),
        },
        None => spec_term(toks, pos),
    }
}

pub open spec fn infix_expr(
    name: Seq<char>,
    lhs: ExprAstView,
    rhs: ExprAstView,
    op_info: StrInfo,
) -> ExprAstView {
    ExprAstView::infix_op(
        name,
        lhs,
        rhs,
        lhs.str_info.spec_extend(rhs.str_info),
        op_info,
        lhs.str_info,
    )
}

/// The least precedence that an operator may have to become part of the right
/// operand of `op`.
pub open spec fn rhs_min_precedence(op: InfixOp) -> nat {
    if op.right_assoc {
        op.precedence
    } else {
        op.precedence + 1
    }
}

/// `(infix-op term)*` behind the operand `lhs`, for operators that bind at least as
/// tightly as `min_precedence`. An operator of the table takes as its right operand
/// the term behind it and all that binds tighter; an operator that the table lacks is
/// read with its term and then refused.
pub open spec fn spec_infix_ops(
    toks: Seq<TokenInfoView>,
    pos: int,
    lhs: ExprAstView,
    min_precedence: nat,
) -> Parsed<ExprAstView>
    decreases toks.len() - pos, 0nat,
{
    match op_code_at(toks, pos) {
        None => Parsed::Match(lhs, pos),
        Some(op_code) => match infix_op(op_code) {
            Some(op) => if op.precedence < min_precedence {
                Parsed::Match(lhs, pos)
            } else {
                match spec_term(toks, pos + 1) {
                    Parsed::Match(term, p) => if pos < p <= toks.len() {
                        match spec_infix_ops(toks, p, term, rhs_min_precedence(op)) {
                            Parsed::Match(rhs, q) => if p <= q <= toks.len() {
                                spec_infix_ops(
                                    toks,
                                    q,
                                    infix_expr(op.name, lhs, rhs, toks[pos].1),
                                    min_precedence,
                                )
                            } else {
                                Parsed::NoMatch
                            },
                            Parsed::NoMatch => Parsed::NoMatch,
                            Parsed::Fail(e) => Parsed::Fail(e),
                        }
                    } else {
                        Parsed::NoMatch
                    },
                    Parsed::NoMatch => Parsed::Fail(
                        error_at(toks, pos + 1, ParseErrorKind::TermRequired),
                    ),
                    Parsed::Fail(e) => Parsed::Fail(e),
                }
            },
            None => match spec_term(toks, pos + 1) {
                Parsed::Match(term, p) => Parsed::Fail(
                    error_at(toks, p, ParseErrorKind::InvalidInfixOp),
                ),
                Parsed::NoMatch => Parsed::Fail(error_at(toks, pos + 1, ParseErrorKind::TermRequired)),
                Parsed::Fail(e) => Parsed::Fail(e),
            },
        },
    }
}

/// `node` is the application of the function `name` to `lhs`, applied to `rhs`.
pub open spec fn is_infix_application(
    node: ExprAstView,
    name: Seq<char>,
    lhs: ExprAstView,
    rhs: ExprAstView,
) -> bool {
    &&& node.expr_enum matches crate::ast::ExprEnumView::Fn(outer)
    &&& *outer.arg_expr == rhs
    &&& outer.fn_expr.expr_enum matches crate::ast::ExprEnumView::Fn(inner)
    &&& *inner.arg_expr == lhs
    &&& inner.fn_expr.expr_enum matches crate::ast::ExprEnumView::Ident(ident)
    &&& ident.name == name
}

/// `name` is one of the functions that the infix operators stand for.
pub open spec fn is_infix_function(name: Seq<char>) -> bool {
    name == "mul"@ || name == "div"@ || name == "add"@ || name == "sub"@ || name == "pipelineL"@
}

/// An infix operator of the table between two operands becomes two nested
/// applications: the function of the operator is applied to the left operand, and the
/// result to the right operand. The expression goes on behind the right operand with
/// that node as its left operand.
pub proof fn lemma_infix_op_desugars(
    toks: Seq<TokenInfoView>,
    pos: int,
    lhs: ExprAstView,
    min_precedence: nat,
    op: InfixOp,
    term: ExprAstView,
    p: int,
    rhs: ExprAstView,
    q: int,
)
    requires
        op_code_at(toks, pos) matches Some(op_code) && infix_op(op_code) == Some(op),
        op.precedence >= min_precedence,
        spec_term(toks, pos + 1) == Parsed::Match(term, p),
        pos < p <= toks.len(),
        spec_infix_ops(toks, p, term, rhs_min_precedence(op)) == Parsed::Match(rhs, q),
        p <= q <= toks.len(),
    ensures
        spec_infix_ops(toks, pos, lhs, min_precedence) == spec_infix_ops(
            toks,
            q,
            infix_expr(op.name, lhs, rhs, toks[pos].1),
            min_precedence,
        ),
        is_infix_application(infix_expr(op.name, lhs, rhs, toks[pos].1), op.name, lhs, rhs),
        is_infix_function(op.name),
{
}

/// `expr := prefix? term (infix-op term)*`
pub open spec fn spec_expr(toks: Seq<TokenInfoView>, pos: int) -> Parsed<ExprAstView>
    decreases toks.len() - pos, 6nat,
{
    match spec_prefix_op_lhs(toks, pos) {
        Parsed::Match(lhs, p) => if pos < p <= toks.len() {
            spec_infix_ops(toks, p, lhs, 0)
        } else {
            Parsed::NoMatch
        },
        Parsed::NoMatch => Parsed::NoMatch,
        Parsed::Fail(e) => Parsed::Fail(e),
    }
}

/// The part of a definition from `fn` on. `first` is the span of the token with which
/// the definition began.
pub open spec fn spec_fn_def_body(
    toks: Seq<TokenInfoView>,
    pos: int,
    ty_annot: Option<TyExprAstView>,
    first: StrInfo,
) -> Parsed<FnDefAstView> {
    match spec_left_fn_def(toks, pos + 1) {
        Parsed::Match(left_fn_def, p) => if token_at(toks, p) == Some(TokenView::Equal) {
            match spec_expr(toks, p + 1) {
                Parsed::Match(expr, q) => Parsed::Match(
                    FnDefAstView::new(ty_annot, left_fn_def, expr, first.spec_extend(expr.str_info)),
                    q,
                ),
                Parsed::NoMatch => Parsed::Fail(error_at(toks, p + 1, ParseErrorKind::ExprRequired)),
                Parsed::Fail(e) => Parsed::Fail(e),
            }
        } else {
            Parsed::Fail(error_at(toks, p, ParseErrorKind::EqualRequired))
        },
        Parsed::NoMatch => Parsed::Fail(error_at(toks, pos + 1, ParseErrorKind::LeftFnDefRequired)),
        Parsed::Fail(e) => Parsed::Fail(e),
    }
}

/// `fn-def := ('ty' ty-expr)? 'fn' left-fn-def '=' expr`. Where `ty` stands without a
/// type behind it the definition has no annotation; where no `fn` follows what `ty`
/// began, the definition is refused at that place.
pub open spec fn spec_fn_def(toks: Seq<TokenInfoView>, pos: int) -> Parsed<FnDefAstView> {
    if token_at(toks, pos) == Some(TokenView::Ty) {
        match spec_ty_expr(toks, pos + 1) {
            Parsed::Match(ty_expr, p) => if token_at(toks, p) == Some(TokenView::Fn) {
                spec_fn_def_body(toks, p, Some(ty_expr), toks[pos].1)
            } else {
                Parsed::Fail(error_at(toks, p, ParseErrorKind::InvalidTopDef))
            },
            Parsed::NoMatch => if token_at(toks, pos + 1) == Some(TokenView::Fn) {
                spec_fn_def_body(toks, pos + 1, None, toks[pos].1)
            } else {
                Parsed::Fail(error_at(toks, pos + 1, ParseErrorKind::InvalidTopDef))
            },
            Parsed::Fail(e) => Parsed::Fail(e),
        }
    } else if token_at(toks, pos) == Some(TokenView::Fn) {
        spec_fn_def_body(toks, pos, None, toks[pos].1)
    } else {
        Parsed::NoMatch
    }
}

/// `top-def := fn-def ';'`
pub open spec fn spec_top_def(toks: Seq<TokenInfoView>, pos: int) -> Parsed<TopDefEnumView> {
    match spec_fn_def(toks, pos) {
        Parsed::Match(fn_def, p) => if token_at(toks, p) == Some(TokenView::Semicolon) {
            Parsed::Match(TopDefEnumView::Fn(fn_def), p + 1)
        } else {
            Parsed::Fail(error_at(toks, p, ParseErrorKind::SemicolonRequired))
        },
        Parsed::NoMatch => Parsed::NoMatch,
        Parsed::Fail(e) => Parsed::Fail(e),
    }
}

/// One step of the parser at a position before the end of the list: a definition, or
/// the diagnostic for what stands there.
#[verifier::opaque]
pub open spec fn spec_next(toks: Seq<TokenInfoView>, pos: int) -> Parsed<TopDefEnumView> {
    match spec_top_def(toks, pos) {
        Parsed::Match(ast, p) => Parsed::Match(ast, p),
        Parsed::NoMatch => Parsed::Fail(error_at(toks, pos, ParseErrorKind::InvalidTopDef)),
        Parsed::Fail(e) => Parsed::Fail(e),
    }
}

/// Where parsing goes on after the step at `pos`: behind the definition, or one token
/// behind the place of the error.
pub open spec fn resume_at(toks: Seq<TokenInfoView>, pos: int) -> int {
    match spec_next(toks, pos) {
        Parsed::Match(ast, p) => p,
        Parsed::NoMatch => pos + 1,
        Parsed::Fail(e) => if e.pos < toks.len() {
            e.pos + 1
        } else {
            toks.len() as int
        },
    }
}

/// The definition that the step at `pos` gives, if it gives one.
pub open spec fn def_at(toks: Seq<TokenInfoView>, pos: int) -> Seq<TopDefEnumView> {
    match spec_next(toks, pos) {
        Parsed::Match(ast, p) => seq![ast],
        _ => Seq::empty(),
    }
}

/// The syntax error that the step at `pos` gives, if it gives one.
pub open spec fn error_of(toks: Seq<TokenInfoView>, pos: int) -> Seq<ParseError> {
    match spec_next(toks, pos) {
        Parsed::Fail(e) => seq![e],
        _ => Seq::empty(),
    }
}

/// The definitions that the tokens from `pos` on hold.
pub open spec fn defs_from(toks: Seq<TokenInfoView>, pos: int) -> Seq<TopDefEnumView>
    decreases toks.len() - pos,
{
    let next = resume_at(toks, pos);
    if 0 <= pos < next <= toks.len() {
        def_at(toks, pos) + defs_from(toks, next)
    } else {
        Seq::empty()
    }
}

/// The syntax errors of the tokens from `pos` on.
pub open spec fn syntax_errors_from(toks: Seq<TokenInfoView>, pos: int) -> Seq<ParseError>
    decreases toks.len() - pos,
{
    let next = resume_at(toks, pos);
    if 0 <= pos < next <= toks.len() {
        error_of(toks, pos) + syntax_errors_from(toks, next)
    } else {
        Seq::empty()
    }
}

/// The definitions of a token list.
pub open spec fn parse_defs(toks: Seq<TokenInfoView>) -> Seq<TopDefEnumView> {
    defs_from(toks, 0)
}

/// The syntax errors of a token list.
pub open spec fn parse_errors(toks: Seq<TokenInfoView>) -> Seq<ParseError> {
    syntax_errors_from(toks, 0)
}

/// The diagnostic of kind `kind` for the position `pos`.
fn make_error(tokens: &Vec<TokenInfo>, pos: usize, kind: ParseErrorKind) -> (e: ParseError)
    ensures
        e == error_at(tokens.deep_view(), pos as int, kind),
{
    let info = if pos < tokens.len() {
        tokens[pos].1
    } else if tokens.len() > 0 {
        tokens[tokens.len() - 1].1
    } else {
        StrInfo { line: 0, column: 0, start: 0, end: 0, line_start: 0, line_end: 0 }
    };
    ParseError { kind, info, pos }
}

/// The name of the function that the prefix operator `op_code` stands for.
fn prefix_op_name(op_code: &String) -> (r: Option<String>)
    ensures
        r.deep_view() == prefix_op(op_code@),
{
    if text_is(op_code, "-") {
        Some(String::from_str("negate"))
    } else {
        None
    }
}

/// The entry of the operator table for `op_code`: name, precedence, and whether the
/// operator groups to the right.
fn infix_op_name(op_code: &String) -> (r: Option<(String, u8, bool)>)
    ensures
        match r {
            Some((name, precedence, right_assoc)) => infix_op(op_code@) == Some(
                InfixOp { name: name@, precedence: precedence as nat, right_assoc },
            ),
            None => infix_op(op_code@) is None,
        },
        r matches Some((_, precedence, _)) ==> precedence < 255,
{
    if text_is(op_code, "*") {
        Some((String::from_str("mul"), 6, false))
    } else if text_is(op_code, "/") {
        Some((String::from_str("div"), 6, false))
    } else if text_is(op_code, "+") {
        Some((String::from_str("add"), 5, false))
    } else if text_is(op_code, "-") {
        Some((String::from_str("sub"), 5, false))
    } else if text_is(op_code, "<|") {
        Some((String::from_str("pipelineL"), 1, true))
    } else {
        None
    }
}

fn assume_eof(tokens: &Vec<TokenInfo>, pos: usize) -> (r: Option<()>)
    ensures
        r is Some <==> pos >= tokens.len(),
{
    if pos < tokens.len() {
        None
    } else {
        Some(())
    }
}

/// Whether the token at `pos` is `assumed`; if so, its span.
fn assume_simple_token(tokens: &Vec<TokenInfo>, pos: usize, assumed: Token) -> (r: Option<StrInfo>)
    ensures
        match r {
            Some(info) => token_at(tokens.deep_view(), pos as int) == Some(assumed.deep_view())
                && info == tokens.deep_view()[pos as int].1,
            None => token_at(tokens.deep_view(), pos as int) != Some(assumed.deep_view()),
        },
{
    if pos < tokens.len() {
        if tokens[pos].0.same(&assumed) {
            Some(tokens[pos].1)
        } else {
            None
        }
    } else {
        None
    }
}

fn assume_ident(tokens: &Vec<TokenInfo>, pos: usize) -> (r: Option<IdentAst>)
    ensures
        r.deep_view() == spec_ident(tokens.deep_view(), pos as int),
{
    if pos < tokens.len() {
        match &tokens[pos].0 {
            Token::Ident(name) => Some(ident_ast(name.clone(), tokens[pos].1)),
            _ => None,
        }
    } else {
        None
    }
}

fn assume_num(tokens: &Vec<TokenInfo>, pos: usize) -> (r: Option<IdentAst>)
    ensures
        r.deep_view() == spec_num(tokens.deep_view(), pos as int),
{
    if pos < tokens.len() {
        match &tokens[pos].0 {
            Token::Int(value) => Some(ident_ast(value.clone(), tokens[pos].1)),
            _ => None,
        }
    } else {
        None
    }
}

fn assume_ty_ident(tokens: &Vec<TokenInfo>, pos: usize) -> (r: Option<TyIdentAst>)
    ensures
        r.deep_view() == spec_ty_ident(tokens.deep_view(), pos as int),
{
    if pos < tokens.len() {
        match &tokens[pos].0 {
            Token::Ident(name) => Some(ty_ident_ast(name.clone(), tokens[pos].1)),
            _ => None,
        }
    } else {
        None
    }
}

/// The operator at `pos`, if one stands there, and its span.
fn assume_op_code(tokens: &Vec<TokenInfo>, pos: usize) -> (r: Option<(String, StrInfo)>)
    ensures
        match r {
            Some((op_code, info)) => op_code_at(tokens.deep_view(), pos as int) == Some(op_code@)
                && pos < tokens.len() && info == tokens.deep_view()[pos as int].1,
            None => op_code_at(tokens.deep_view(), pos as int) is None,
        },
{
    if pos < tokens.len() {
        match &tokens[pos].0 {
            Token::OpCode(op_code) => Some((op_code.clone(), tokens[pos].1)),
            _ => None,
        }
    } else {
        None
    }
}

#[verifier::rlimit(60)]
fn assume_ty_expr(tokens: &Vec<TokenInfo>, pos: usize) -> (r: Result<
    Option<(TyExprAst, usize)>,
    ParseError,
>)
    requires
        pos <= tokens.len(),
    ensures
        parsed(r) == spec_ty_expr(tokens.deep_view(), pos as int),
        r matches Ok(Some((_, next))) ==> pos < next <= tokens.len(),
        r matches Err(e) ==> pos <= e.pos <= tokens.len(),
    decreases tokens.len() - pos, 4nat,
{
    if let Some((lhs, p)) = assume_ty_lhs(tokens, pos)? {
        if let Some((rhs, q)) = assume_ty_rhs(tokens, p)? {
            let extended = lhs.str_info.extend(&rhs.str_info);
            Ok(Some((ty_arrow_expr_ast(ty_arrow_ast(lhs, rhs, extended), extended), q)))
        } else {
            Ok(Some((lhs, p)))
        }
    } else {
        Ok(None)
    }
}

fn assume_ty_lhs(tokens: &Vec<TokenInfo>, pos: usize) -> (r: Result<
    Option<(TyExprAst, usize)>,
    ParseError,
>)
    requires
        pos <= tokens.len(),
    ensures
        parsed(r) == spec_ty_term(tokens.deep_view(), pos as int),
        r matches Ok(Some((_, next))) ==> pos < next <= tokens.len(),
        r matches Err(e) ==> pos <= e.pos <= tokens.len(),
    decreases tokens.len() - pos, 3nat, 1nat,
{
    assume_ty_term(tokens, pos)
}

fn assume_ty_rhs(tokens: &Vec<TokenInfo>, pos: usize) -> (r: Result<
    Option<(TyExprAst, usize)>,
    ParseError,
>)
    requires
        pos <= tokens.len(),
    ensures
        parsed(r) == spec_ty_rhs(tokens.deep_view(), pos as int),
        r matches Ok(Some((_, next))) ==> pos < next <= tokens.len(),
        r matches Err(e) ==> pos <= e.pos <= tokens.len(),
    decreases tokens.len() - pos, 0nat,
{
    if let Some(_) = assume_simple_token(tokens, pos, crate::token::arrow()) {
        if let Some((term, q)) = assume_ty_expr(tokens, pos + 1)? {
            return Ok(Some((term, q)));
        }
        Err(make_error(tokens, pos + 1, ParseErrorKind::TypeTermRequired))
    } else {
        Ok(None)
    }
}

fn assume_ty_term(tokens: &Vec<TokenInfo>, pos: usize) -> (r: Result<
    Option<(TyExprAst, usize)>,
    ParseError,
>)
    requires
        pos <= tokens.len(),
    ensures
        parsed(r) == spec_ty_term(tokens.deep_view(), pos as int),
        r matches Ok(Some((_, next))) ==> pos < next <= tokens.len(),
        r matches Err(e) ==> pos <= e.pos <= tokens.len(),
    decreases tokens.len() - pos, 3nat, 0nat,
{
    assume_ty_factor(tokens, pos)
}

fn assume_ty_factor(tokens: &Vec<TokenInfo>, pos: usize) -> (r: Result<
    Option<(TyExprAst, usize)>,
    ParseError,
>)
    requires
        pos <= tokens.len(),
    ensures
        parsed(r) == spec_ty_factor(tokens.deep_view(), pos as int),
        r matches Ok(Some((_, next))) ==> pos < next <= tokens.len(),
        r matches Err(e) ==> pos <= e.pos <= tokens.len(),
    decreases tokens.len() - pos, 2nat,
{
    if let Some((expr, p)) = assume_ty_paren(tokens, pos)? {
        Ok(Some((expr, p)))
    } else if let Some(ident) = assume_ty_ident(tokens, pos) {
        let info = ident.str_info;
        Ok(Some((ty_ident_expr_ast(ident, info), pos + 1)))
    } else {
        Ok(None)
    }
}

#[verifier::rlimit(60)]
fn assume_ty_paren(tokens: &Vec<TokenInfo>, pos: usize) -> (r: Result<
    Option<(TyExprAst, usize)>,
    ParseError,
>)
    requires
        pos <= tokens.len(),
    ensures
        parsed(r) == spec_ty_paren(tokens.deep_view(), pos as int),
        r matches Ok(Some((_, next))) ==> pos < next <= tokens.len(),
        r matches Err(e) ==> pos <= e.pos <= tokens.len(),
    decreases tokens.len() - pos, 1nat,
{
    if let Some(_) = assume_simple_token(tokens, pos, crate::token::l_paren()) {
        if let Some((expr, p)) = assume_ty_expr(tokens, pos + 1)? {
            if let Some(_) = assume_simple_token(tokens, p, crate::token::r_paren()) {
                return Ok(Some((expr, p + 1)));
            }
            return Err(make_error(tokens, p, ParseErrorKind::RParenRequired));
        }
        Err(make_error(tokens, pos + 1, ParseErrorKind::ExprRequired))
    } else {
        Ok(None)
    }
}

#[verifier::rlimit(60)]
fn assume_left_fn_def(tokens: &Vec<TokenInfo>, pos: usize) -> (r: Result<
    Option<(LeftFnDefAst, usize)>,
    ParseError,
>)
    requires
        pos <= tokens.len(),
    ensures
        parsed(r) == spec_left_fn_def(tokens.deep_view(), pos as int),
        r matches Ok(Some((_, next))) ==> pos < next <= tokens.len(),
        r matches Err(e) ==> pos <= e.pos <= tokens.len(),
{
    if let Some(ident) = assume_ident(tokens, pos) {
        let ghost toks = tokens.deep_view();
        let mut args: Vec<String> = Vec::new();
        let mut last_info = ident.str_info;
        let mut i: usize = pos + 1;
        assert(args.deep_view() =~= ident_names(toks, pos + 1, i as int));
        loop
            invariant_except_break
                pos < i <= tokens.len(),
                toks == tokens.deep_view(),
                ident_run_end(toks, pos + 1) == ident_run_end(toks, i as int),
                args.deep_view() == ident_names(toks, pos + 1, i as int),
                last_info == toks[i - 1].1,
            ensures
                pos < i <= tokens.len(),
                i == ident_run_end(toks, pos + 1),
                args.deep_view() == ident_names(toks, pos + 1, i as int),
                last_info == toks[i - 1].1,
            decreases tokens.len() - i,
        {
            if let Some(arg) = assume_ident(tokens, i) {
                let ghost before = args.deep_view();
                let ghost name = arg.name@;
                assert(spec_ident(toks, i as int) == Some(arg.deep_view()));
                last_info = arg.str_info;
                args.push(arg.name);
                i += 1;
                assert(args.deep_view() =~= before.push(name));
                assert(before.push(name) =~= ident_names(toks, pos + 1, i as int));
                continue ;
            }
            break ;
        }
        let extended = ident.str_info.extend(&last_info);
        Ok(Some((left_fn_def_ast(ident.name, args, extended), i)))
    } else {
        Ok(None)
    }
}

#[verifier::rlimit(60)]
fn assume_factor(tokens: &Vec<TokenInfo>, pos: usize) -> (r: Result<
    Option<(ExprAst, usize)>,
    ParseError,
>)
    requires
        pos <= tokens.len(),
    ensures
        parsed(r) == spec_factor(tokens.deep_view(), pos as int),
        r matches Ok(Some((_, next))) ==> pos < next <= tokens.len(),
        r matches Err(e) ==> pos <= e.pos <= tokens.len(),
    decreases tokens.len() - pos, 2nat,
{
    if let Some((expr, p)) = assume_paren(tokens, pos)? {
        Ok(Some((expr, p)))
    } else if let Some(ident) = assume_ident(tokens, pos) {
        let info = ident.str_info;
        Ok(Some((ident_expr_ast(ident, info), pos + 1)))
    } else if let Some(num) = assume_num(tokens, pos) {
        let info = num.str_info;
        Ok(Some((ident_expr_ast(num, info), pos + 1)))
    } else {
        Ok(None)
    }
}

#[verifier::rlimit(60)]
fn assume_paren(tokens: &Vec<TokenInfo>, pos: usize) -> (r: Result<
    Option<(ExprAst, usize)>,
    ParseError,
>)
    requires
        pos <= tokens.len(),
    ensures
        parsed(r) == spec_paren(tokens.deep_view(), pos as int),
        r matches Ok(Some((_, next))) ==> pos < next <= tokens.len(),
        r matches Err(e) ==> pos <= e.pos <= tokens.len(),
    decreases tokens.len() - pos, 1nat,
{
    if let Some(_) = assume_simple_token(tokens, pos, crate::token::l_paren()) {
        if let Some((expr, p)) = assume_expr(tokens, pos + 1)? {
            if let Some(_) = assume_simple_token(tokens, p, crate::token::r_paren()) {
                return Ok(Some((expr, p + 1)));
            }
            return Err(make_error(tokens, p, ParseErrorKind::RParenRequired));
        }
        Err(make_error(tokens, pos + 1, ParseErrorKind::ExprRequired))
    } else {
        Ok(None)
    }
}

#[verifier::rlimit(60)]
fn assume_term(tokens: &Vec<TokenInfo>, pos: usize) -> (r: Result<
    Option<(ExprAst, usize)>,
    ParseError,
>)
    requires
        pos <= tokens.len(),
    ensures
        parsed(r) == spec_term(tokens.deep_view(), pos as int),
        r matches Ok(Some((_, next))) ==> pos < next <= tokens.len(),
        r matches Err(e) ==> pos <= e.pos <= tokens.len(),
    decreases tokens.len() - pos, 4nat,
{
    if let Some((factor, p)) = assume_factor(tokens, pos)? {
        let ghost toks = tokens.deep_view();
        let first = factor.str_info;
        let mut term = factor;
        let mut i: usize = p;
        loop
            invariant_except_break
                pos < i <= tokens.len(),
                toks == tokens.deep_view(),
                spec_term(toks, pos as int) == spec_term_rest(toks, i as int, term.deep_view(), first),
            ensures
                pos < i <= tokens.len(),
                spec_term(toks, pos as int) == Parsed::Match(term.deep_view(), i as int),
            decreases tokens.len() - i,
        {
            match assume_factor(tokens, i) {
                Ok(Some((f, q))) => {
                    let extended = first.extend(&f.str_info);
                    term = fn_expr_ast(fn_ast(term, f, extended), extended);
                    i = q;
                },
                Ok(None) => {
                    break ;
                },
                Err(e) => {
                    return Err(e);
                },
            }
        }
        Ok(Some((term, i)))
    } else {
        Ok(None)
    }
}

#[verifier::rlimit(60)]
fn assume_prefix_op_lhs(tokens: &Vec<TokenInfo>, pos: usize) -> (r: Result<
    Option<(ExprAst, usize)>,
    ParseError,
>)
    requires
        pos <= tokens.len(),
    ensures
        parsed(r) == spec_prefix_op_lhs(tokens.deep_view(), pos as int),
        r matches Ok(Some((_, next))) ==> pos < next <= tokens.len(),
        r matches Err(e) ==> pos <= e.pos <= tokens.len(),
    decreases tokens.len() - pos, 5nat,
{
    if let Some((op_code, info)) = assume_op_code(tokens, pos) {
        if let Some((term, p)) = assume_term(tokens, pos + 1)? {
            return match prefix_op_name(&op_code) {
                Some(name) => {
                    let extended = info.extend(&term.str_info);
                    Ok(Some((fn_expr_ast(prefix_op_ast(name, term, extended, info), extended), p)))
                },
                None => Err(make_error(tokens, p, ParseErrorKind::InvalidPrefixOp)),
            };
        }
        Err(make_error(tokens, pos + 1, ParseErrorKind::TermRequired))
    } else {
        assume_term(tokens, pos)
    }
}

/// Reads the operators that follow the operand `lhs` and their operands, as far as
/// they bind at least as tightly as `min_precedence`.
#[verifier::rlimit(60)]
fn assume_infix_op_rhs(tokens: &Vec<TokenInfo>, pos: usize, lhs: ExprAst, min_precedence: u8) -> (r:
    Result<Option<(ExprAst, usize)>, ParseError>)
    requires
        pos <= tokens.len(),
    ensures
        parsed(r) == spec_infix_ops(
            tokens.deep_view(),
            pos as int,
            lhs.deep_view(),
            min_precedence as nat,
        ),
        r matches Ok(Some((_, next))) ==> pos <= next <= tokens.len(),
        r matches Err(e) ==> pos <= e.pos <= tokens.len(),
        r matches Ok(None) ==> false,
    decreases tokens.len() - pos, 0nat,
{
    if let Some((op_code, info)) = assume_op_code(tokens, pos) {
        match infix_op_name(&op_code) {
            Some((name, precedence, right_assoc)) => {
                if precedence < min_precedence {
                    return Ok(Some((lhs, pos)));
                }
                if let Some((term, p)) = assume_term(tokens, pos + 1)? {
                    let rhs_min: u8 = if right_assoc {
                        precedence
                    } else {
                        precedence + 1
                    };
                    match assume_infix_op_rhs(tokens, p, term, rhs_min)? {
                        Some((rhs, q)) => {
                            let extended = lhs.str_info.extend(&rhs.str_info);
                            let lhs_info = lhs.str_info;
                            let expr = fn_expr_ast(
                                infix_op_ast(name, lhs, rhs, extended, info, lhs_info),
                                extended,
                            );
                            assume_infix_op_rhs(tokens, q, expr, min_precedence)
                        },
                        None => Ok(None),
                    }
                } else {
                    Err(make_error(tokens, pos + 1, ParseErrorKind::TermRequired))
                }
            },
            None => {
                if let Some((_, p)) = assume_term(tokens, pos + 1)? {
                    Err(make_error(tokens, p, ParseErrorKind::InvalidInfixOp))
                } else {
                    Err(make_error(tokens, pos + 1, ParseErrorKind::TermRequired))
                }
            },
        }
    } else {
        Ok(Some((lhs, pos)))
    }
}

#[verifier::rlimit(60)]
fn assume_expr(tokens: &Vec<TokenInfo>, pos: usize) -> (r: Result<
    Option<(ExprAst, usize)>,
    ParseError,
>)
    requires
        pos <= tokens.len(),
    ensures
        parsed(r) == spec_expr(tokens.deep_view(), pos as int),
        r matches Ok(Some((_, next))) ==> pos < next <= tokens.len(),
        r matches Err(e) ==> pos <= e.pos <= tokens.len(),
    decreases tokens.len() - pos, 6nat,
{
    if let Some((lhs, p)) = assume_prefix_op_lhs(tokens, pos)? {
        assume_infix_op_rhs(tokens, p, lhs, 0)
    } else {
        Ok(None)
    }
}

/// The part of a definition from `fn` on, which stands at `pos`.
#[verifier::rlimit(60)]
fn assume_fn_def_body(
    tokens: &Vec<TokenInfo>,
    pos: usize,
    ty_annot: Option<TyExprAst>,
    first: StrInfo,
) -> (r: Result<Option<(FnDefAst, usize)>, ParseError>)
    requires
        pos < tokens.len(),
    ensures
        parsed(r) == spec_fn_def_body(tokens.deep_view(), pos as int, ty_annot.deep_view(), first),
        r matches Ok(Some((_, next))) ==> pos < next <= tokens.len(),
        r matches Err(e) ==> pos <= e.pos <= tokens.len(),
{
    if let Some((left_fn_def, p)) = assume_left_fn_def(tokens, pos + 1)? {
        if let Some(_) = assume_simple_token(tokens, p, crate::token::equal()) {
            if let Some((expr, q)) = assume_expr(tokens, p + 1)? {
                let extended = first.extend(&expr.str_info);
                return Ok(Some((fn_def_ast(ty_annot, left_fn_def, expr, extended), q)));
            }
            return Err(make_error(tokens, p + 1, ParseErrorKind::ExprRequired));
        }
        return Err(make_error(tokens, p, ParseErrorKind::EqualRequired));
    }
    Err(make_error(tokens, pos + 1, ParseErrorKind::LeftFnDefRequired))
}

#[verifier::rlimit(60)]
fn assume_fn_def(tokens: &Vec<TokenInfo>, pos: usize) -> (r: Result<
    Option<(FnDefAst, usize)>,
    ParseError,
>)
    requires
        pos <= tokens.len(),
    ensures
        parsed(r) == spec_fn_def(tokens.deep_view(), pos as int),
        r matches Ok(Some((_, next))) ==> pos < next <= tokens.len(),
        r matches Err(e) ==> pos <= e.pos <= tokens.len(),
{
    if let Some(ty_info) = assume_simple_token(tokens, pos, crate::token::ty_keyword()) {
        let mut ty_annot: Option<TyExprAst> = None;
        let mut p: usize = pos + 1;
        if let Some((ty_expr, q)) = assume_ty_expr(tokens, pos + 1)? {
            ty_annot = Some(ty_expr);
            p = q;
        }
        if let Some(_) = assume_simple_token(tokens, p, crate::token::fn_keyword()) {
            assume_fn_def_body(tokens, p, ty_annot, ty_info)
        } else {
            Err(make_error(tokens, p, ParseErrorKind::InvalidTopDef))
        }
    } else if let Some(fn_info) = assume_simple_token(tokens, pos, crate::token::fn_keyword()) {
        assume_fn_def_body(tokens, pos, None, fn_info)
    } else {
        Ok(None)
    }
}

#[verifier::rlimit(60)]
fn assume_top_def(tokens: &Vec<TokenInfo>, pos: usize) -> (r: Result<
    Option<(TopDefEnum, usize)>,
    ParseError,
>)
    requires
        pos <= tokens.len(),
    ensures
        parsed(r) == spec_top_def(tokens.deep_view(), pos as int),
        r matches Ok(Some((_, next))) ==> pos < next <= tokens.len(),
        r matches Err(e) ==> pos <= e.pos <= tokens.len(),
{
    if let Some((ast, p)) = assume_fn_def(tokens, pos)? {
        if let Some(_) = assume_simple_token(tokens, p, crate::token::semicolon()) {
            return Ok(Some((top_fn_def_ast(ast), p + 1)));
        }
        Err(make_error(tokens, p, ParseErrorKind::SemicolonRequired))
    } else {
        Ok(None)
    }
}

/// One step of the parser: nothing at the end of the list, else a definition or the
/// diagnostic for what stands at `pos`.
#[verifier::rlimit(60)]
fn assume_next(tokens: &Vec<TokenInfo>, pos: usize) -> (r: Result<
    Option<(TopDefEnum, usize)>,
    ParseError,
>)
    requires
        pos <= tokens.len(),
    ensures
        pos < tokens.len() ==> parsed(r) == spec_next(tokens.deep_view(), pos as int),
        r is Ok && r->Ok_0 is None <==> pos == tokens.len(),
        r matches Ok(Some((_, next))) ==> pos < next <= tokens.len(),
        r matches Err(e) ==> pos <= e.pos <= tokens.len(),
{
    proof {
        reveal(spec_next);
    }
    if let Some(_) = assume_eof(tokens, pos) {
        Ok(None)
    } else if let Some((ast, p)) = assume_top_def(tokens, pos)? {
        Ok(Some((ast, p)))
    } else {
        Err(make_error(tokens, pos, ParseErrorKind::InvalidTopDef))
    }
}

/// Parses a token list into definitions. The result is the definitions of the list
/// where it has no syntax errors, and all its syntax errors otherwise: after an
/// error the parser steps over one token and goes on.
#[verifier::rlimit(60)]
pub fn parse(input: Vec<TokenInfo>) -> (r: Result<Vec<TopDefEnum>, Vec<ParseError>>)
    ensures
        match r {
            Ok(asts) => {
                &&& parse_errors(input.deep_view()).len() == 0
                &&& asts.deep_view() == parse_defs(input.deep_view())
            },
            Err(errs) => {
                &&& errs.len() > 0
                &&& errs@ == parse_errors(input.deep_view())
            },
        },
{
    let mut asts: Vec<TopDefEnum> = Vec::new();
    let mut errs: Vec<ParseError> = Vec::new();
    let mut pos: usize = 0;
    let ghost toks = input.deep_view();
    assert(asts.deep_view() =~= Seq::<TopDefEnumView>::empty());
    loop
        invariant_except_break
            pos <= input.len(),
            toks == input.deep_view(),
            defs_from(toks, 0) == asts.deep_view() + defs_from(toks, pos as int),
            syntax_errors_from(toks, 0) == errs@ + syntax_errors_from(toks, pos as int),
        ensures
            asts.deep_view() == defs_from(toks, 0),
            errs@ == syntax_errors_from(toks, 0),
        decreases input.len() - pos,
    {
        let ghost before = asts.deep_view();
        let ghost errs_before = errs@;
        match assume_next(&input, pos) {
            Ok(Some((ast, p))) => {
                let ghost view = ast.deep_view();
                asts.push(ast);
                assert(asts.deep_view() =~= before.push(view));
                assert(asts.deep_view() + defs_from(toks, p as int) =~= before + (seq![view]
                    + defs_from(toks, p as int)));
                assert(errs@ + (Seq::<ParseError>::empty() + syntax_errors_from(toks, p as int))
                    =~= errs@ + syntax_errors_from(toks, p as int));
                pos = p;
            },
            Ok(None) => {
                assert(asts.deep_view() + defs_from(toks, pos as int) =~= asts.deep_view());
                assert(errs@ + syntax_errors_from(toks, pos as int) =~= errs@);
                break ;
            },
            Err(e) => {
                errs.push(e);
                let next: usize = if e.pos < input.len() {
                    e.pos + 1
                } else {
                    input.len()
                };
                assert(errs@ + syntax_errors_from(toks, next as int) =~= errs_before + (seq![e]
                    + syntax_errors_from(toks, next as int)));
                assert(asts.deep_view() + (Seq::<TopDefEnumView>::empty() + defs_from(
                    toks,
                    next as int,
                )) =~= asts.deep_view() + defs_from(toks, next as int));
                pos = next;
            },
        }
    }
    if errs.len() == 0 {
        Ok(asts)
    } else {
        Err(errs)
    }
}

} // verus!
