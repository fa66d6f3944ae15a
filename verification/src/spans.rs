//! What holds of the spans in a parsed tree: every node covers a run of tokens.

use vstd::prelude::*;
use crate::ast::{
    ExprAstView,
    ExprEnumView,
    FnDefAstView,
    TopDefEnumView,
    TyExprAstView,
    TyExprEnumView,
};
use crate::parser::{
    apply_expr,
    defs_from,
    def_at,
    ident_run_end,
    infix_expr,
    infix_op,
    op_code_at,
    parse_defs,
    prefix_expr,
    prefix_op,
    resume_at,
    rhs_min_precedence,
    spec_expr,
    spec_factor,
    spec_fn_def,
    spec_fn_def_body,
    spec_ident,
    spec_infix_ops,
    spec_left_fn_def,
    spec_next,
    spec_num,
    spec_paren,
    spec_prefix_op_lhs,
    spec_term,
    spec_term_rest,
    spec_top_def,
    spec_ty_expr,
    spec_ty_factor,
    spec_ty_ident,
    spec_ty_paren,
    spec_ty_rhs,
    spec_ty_term,
    token_at,
    Parsed,
};
use crate::lexer::{in_source_order, lemma_tokens_in_source_order, lex_tokens};
use crate::str_info::StrInfo;
use crate::token::{TokenInfoView, TokenView};

verus! {

/// The span from where the token `i` begins to where the token `j` ends.
pub open spec fn span_between(toks: Seq<TokenInfoView>, i: int, j: int) -> StrInfo {
    toks[i].1.spec_extend(toks[j].1)
}

/// `info` is the span of a run of tokens among `toks[lo..hi]`.
pub open spec fn covers(toks: Seq<TokenInfoView>, info: StrInfo, lo: int, hi: int) -> bool {
    exists|i: int, j: int| lo <= i <= j < hi && info == #[trigger] span_between(toks, i, j)
}

/// Every node of the expression has the span of a run of tokens among `toks[lo..hi]`.
pub open spec fn expr_spans(toks: Seq<TokenInfoView>, e: ExprAstView, lo: int, hi: int) -> bool
    decreases e,
{
    &&& covers(toks, e.str_info, lo, hi)
    &&& match e.expr_enum {
        ExprEnumView::Ident(ident) => covers(toks, ident.str_info, lo, hi),
        ExprEnumView::Fn(f) => {
            &&& covers(toks, f.str_info, lo, hi)
            &&& expr_spans(toks, *f.fn_expr, lo, hi)
            &&& expr_spans(toks, *f.arg_expr, lo, hi)
        },
    }
}

/// Every node of the type expression has the span of a run of tokens among
/// `toks[lo..hi]`.
pub open spec fn ty_expr_spans(toks: Seq<TokenInfoView>, e: TyExprAstView, lo: int, hi: int) -> bool
    decreases e,
{
    &&& covers(toks, e.str_info, lo, hi)
    &&& match e.expr_enum {
        TyExprEnumView::Ident(ident) => covers(toks, ident.str_info, lo, hi),
        TyExprEnumView::Arrow(arrow) => {
            &&& covers(toks, arrow.str_info, lo, hi)
            &&& ty_expr_spans(toks, *arrow.lhs, lo, hi)
            &&& ty_expr_spans(toks, *arrow.rhs, lo, hi)
        },
    }
}

/// Every node of the definition has the span of a run of tokens among `toks[lo..hi]`.
pub open spec fn fn_def_spans(toks: Seq<TokenInfoView>, d: FnDefAstView, lo: int, hi: int) -> bool {
    &&& covers(toks, d.str_info, lo, hi)
    &&& covers(toks, d.left_fn_def.str_info, lo, hi)
    &&& expr_spans(toks, d.expr, lo, hi)
    &&& d.ty_annot matches Some(annot) ==> ty_expr_spans(toks, annot, lo, hi)
}

pub open spec fn top_def_spans(toks: Seq<TokenInfoView>, d: TopDefEnumView, lo: int, hi: int) -> bool {
    match d {
        TopDefEnumView::Fn(fn_def) => fn_def_spans(toks, fn_def, lo, hi),
    }
}

/// The span of one token covers that token.
pub proof fn lemma_covers_token(toks: Seq<TokenInfoView>, k: int, lo: int, hi: int)
    requires
        lo <= k < hi,
    ensures
        covers(toks, toks[k].1, lo, hi),
{
    assert(toks[k].1 == span_between(toks, k, k));
}

/// What covers tokens of a range covers tokens of every wider range.
pub proof fn lemma_covers_widen(
    toks: Seq<TokenInfoView>,
    info: StrInfo,
    lo: int,
    hi: int,
    lo2: int,
    hi2: int,
)
    requires
        covers(toks, info, lo, hi),
        lo2 <= lo,
        hi <= hi2,
    ensures
        covers(toks, info, lo2, hi2),
{
    let (i, j) = choose|i: int, j: int| lo <= i <= j < hi && info == #[trigger] span_between(toks, i, j);
    assert(lo2 <= i <= j < hi2 && info == span_between(toks, i, j));
}

/// The span from the beginning of one run of tokens to the end of a later one covers
/// the tokens from the one to the other.
pub proof fn lemma_covers_extend(
    toks: Seq<TokenInfoView>,
    a: StrInfo,
    b: StrInfo,
    lo: int,
    mid: int,
    hi: int,
)
    requires
        covers(toks, a, lo, mid),
        covers(toks, b, lo, hi),
        covers(toks, b, mid, hi) || b == a,
        mid <= hi,
    ensures
        covers(toks, a.spec_extend(b), lo, hi),
{
    let (i1, j1) = choose|i: int, j: int|
        lo <= i <= j < mid && a == #[trigger] span_between(toks, i, j);
    if covers(toks, b, mid, hi) {
        let (i2, j2) = choose|i: int, j: int|
            mid <= i <= j < hi && b == #[trigger] span_between(toks, i, j);
        assert(a.spec_extend(b) == span_between(toks, i1, j2));
    } else {
        assert(a.spec_extend(b) == span_between(toks, i1, j1));
    }
}

pub proof fn lemma_expr_spans_widen(
    toks: Seq<TokenInfoView>,
    e: ExprAstView,
    lo: int,
    hi: int,
    lo2: int,
    hi2: int,
)
    requires
        expr_spans(toks, e, lo, hi),
        lo2 <= lo,
        hi <= hi2,
    ensures
        expr_spans(toks, e, lo2, hi2),
    decreases e,
{
    lemma_covers_widen(toks, e.str_info, lo, hi, lo2, hi2);
    match e.expr_enum {
        ExprEnumView::Ident(ident) => {
            lemma_covers_widen(toks, ident.str_info, lo, hi, lo2, hi2);
        },
        ExprEnumView::Fn(f) => {
            lemma_covers_widen(toks, f.str_info, lo, hi, lo2, hi2);
            lemma_expr_spans_widen(toks, *f.fn_expr, lo, hi, lo2, hi2);
            lemma_expr_spans_widen(toks, *f.arg_expr, lo, hi, lo2, hi2);
        },
    }
}

pub proof fn lemma_ty_expr_spans_widen(
    toks: Seq<TokenInfoView>,
    e: TyExprAstView,
    lo: int,
    hi: int,
    lo2: int,
    hi2: int,
)
    requires
        ty_expr_spans(toks, e, lo, hi),
        lo2 <= lo,
        hi <= hi2,
    ensures
        ty_expr_spans(toks, e, lo2, hi2),
    decreases e,
{
    lemma_covers_widen(toks, e.str_info, lo, hi, lo2, hi2);
    match e.expr_enum {
        TyExprEnumView::Ident(ident) => {
            lemma_covers_widen(toks, ident.str_info, lo, hi, lo2, hi2);
        },
        TyExprEnumView::Arrow(arrow) => {
            lemma_covers_widen(toks, arrow.str_info, lo, hi, lo2, hi2);
            lemma_ty_expr_spans_widen(toks, *arrow.lhs, lo, hi, lo2, hi2);
            lemma_ty_expr_spans_widen(toks, *arrow.rhs, lo, hi, lo2, hi2);
        },
    }
}

/// What a rule matched lies behind where it began, and every node that it built
/// covers tokens of the match.
pub open spec fn expr_match_spans(toks: Seq<TokenInfoView>, r: Parsed<ExprAstView>, pos: int) -> bool {
    r matches Parsed::Match(e, p) ==> pos < p <= toks.len() && expr_spans(toks, e, pos, p)
}

pub open spec fn ty_match_spans(toks: Seq<TokenInfoView>, r: Parsed<TyExprAstView>, pos: int) -> bool {
    r matches Parsed::Match(e, p) ==> pos < p <= toks.len() && ty_expr_spans(toks, e, pos, p)
}

pub proof fn lemma_ty_expr_spans(toks: Seq<TokenInfoView>, pos: int)
    requires
        0 <= pos <= toks.len(),
    ensures
        ty_match_spans(toks, spec_ty_expr(toks, pos), pos),
    decreases toks.len() - pos, 4nat,
{
    lemma_ty_factor_spans(toks, pos);
    if let Parsed::Match(lhs, p) = spec_ty_term(toks, pos) {
        lemma_ty_rhs_spans(toks, p);
        if let Parsed::Match(rhs, q) = spec_ty_rhs(toks, p) {
            lemma_ty_expr_spans_widen(toks, lhs, pos, p, pos, q);
            lemma_ty_expr_spans_widen(toks, rhs, p, q, pos, q);
            lemma_covers_widen(toks, rhs.str_info, p, q, pos, q);
            lemma_covers_extend(toks, lhs.str_info, rhs.str_info, pos, p, q);
        }
    }
}

pub proof fn lemma_ty_rhs_spans(toks: Seq<TokenInfoView>, pos: int)
    requires
        0 <= pos <= toks.len(),
    ensures
        ty_match_spans(toks, spec_ty_rhs(toks, pos), pos),
    decreases toks.len() - pos, 0nat,
{
    if token_at(toks, pos) == Some(TokenView::Arrow) {
        lemma_ty_expr_spans(toks, pos + 1);
        if let Parsed::Match(rhs, q) = spec_ty_expr(toks, pos + 1) {
            lemma_ty_expr_spans_widen(toks, rhs, pos + 1, q, pos, q);
        }
    }
}

pub proof fn lemma_ty_factor_spans(toks: Seq<TokenInfoView>, pos: int)
    requires
        0 <= pos <= toks.len(),
    ensures
        ty_match_spans(toks, spec_ty_factor(toks, pos), pos),
        ty_match_spans(toks, spec_ty_term(toks, pos), pos),
    decreases toks.len() - pos, 2nat,
{
    lemma_ty_paren_spans(toks, pos);
    if spec_ty_paren(toks, pos) is NoMatch && spec_ty_ident(toks, pos) is Some {
        lemma_covers_token(toks, pos, pos, pos + 1);
    }
}

pub proof fn lemma_ty_paren_spans(toks: Seq<TokenInfoView>, pos: int)
    requires
        0 <= pos <= toks.len(),
    ensures
        ty_match_spans(toks, spec_ty_paren(toks, pos), pos),
    decreases toks.len() - pos, 1nat,
{
    if token_at(toks, pos) == Some(TokenView::LParen) {
        lemma_ty_expr_spans(toks, pos + 1);
        if let Parsed::Match(e, p) = spec_ty_expr(toks, pos + 1) {
            if token_at(toks, p) == Some(TokenView::RParen) {
                lemma_ty_expr_spans_widen(toks, e, pos + 1, p, pos, p + 1);
            }
        }
    }
}

pub proof fn lemma_factor_spans(toks: Seq<TokenInfoView>, pos: int)
    requires
        0 <= pos <= toks.len(),
    ensures
        expr_match_spans(toks, spec_factor(toks, pos), pos),
    decreases toks.len() - pos, 2nat,
{
    lemma_paren_spans(toks, pos);
    if spec_paren(toks, pos) is NoMatch && (spec_ident(toks, pos) is Some || spec_num(toks, pos) is Some) {
        lemma_covers_token(toks, pos, pos, pos + 1);
    }
}

pub proof fn lemma_paren_spans(toks: Seq<TokenInfoView>, pos: int)
    requires
        0 <= pos <= toks.len(),
    ensures
        expr_match_spans(toks, spec_paren(toks, pos), pos),
    decreases toks.len() - pos, 1nat,
{
    if token_at(toks, pos) == Some(TokenView::LParen) {
        lemma_expr_spans(toks, pos + 1);
        if let Parsed::Match(e, p) = spec_expr(toks, pos + 1) {
            if token_at(toks, p) == Some(TokenView::RParen) {
                lemma_expr_spans_widen(toks, e, pos + 1, p, pos, p + 1);
            }
        }
    }
}

pub proof fn lemma_term_rest_spans(
    toks: Seq<TokenInfoView>,
    pos: int,
    term: ExprAstView,
    first: StrInfo,
    lo: int,
    mid: int,
)
    requires
        0 <= lo < mid <= pos <= toks.len(),
        expr_spans(toks, term, lo, pos),
        covers(toks, first, lo, mid),
    ensures
        spec_term_rest(toks, pos, term, first) matches Parsed::Match(e, p) ==> pos <= p
            <= toks.len() && expr_spans(toks, e, lo, p),
    decreases toks.len() - pos, 3nat,
{
    lemma_factor_spans(toks, pos);
    if let Parsed::Match(f, p) = spec_factor(toks, pos) {
        let applied = apply_expr(term, f, first);
        lemma_expr_spans_widen(toks, term, lo, pos, lo, p);
        lemma_expr_spans_widen(toks, f, pos, p, lo, p);
        lemma_covers_widen(toks, f.str_info, pos, p, mid, p);
        lemma_covers_widen(toks, f.str_info, pos, p, lo, p);
        lemma_covers_extend(toks, first, f.str_info, lo, mid, p);
        lemma_term_rest_spans(toks, p, applied, first, lo, mid);
    }
}

pub proof fn lemma_term_spans(toks: Seq<TokenInfoView>, pos: int)
    requires
        0 <= pos <= toks.len(),
    ensures
        expr_match_spans(toks, spec_term(toks, pos), pos),
    decreases toks.len() - pos, 4nat,
{
    lemma_factor_spans(toks, pos);
    if let Parsed::Match(factor, p) = spec_factor(toks, pos) {
        lemma_term_rest_spans(toks, p, factor, factor.str_info, pos, p);
    }
}

pub proof fn lemma_prefix_op_lhs_spans(toks: Seq<TokenInfoView>, pos: int)
    requires
        0 <= pos <= toks.len(),
    ensures
        expr_match_spans(toks, spec_prefix_op_lhs(toks, pos), pos),
    decreases toks.len() - pos, 5nat,
{
    match op_code_at(toks, pos) {
        Some(op_code) => {
            lemma_term_spans(toks, pos + 1);
            if let Parsed::Match(term, p) = spec_term(toks, pos + 1) {
                if let Some(name) = prefix_op(op_code) {
                    lemma_covers_token(toks, pos, pos, pos + 1);
                    lemma_covers_widen(toks, toks[pos].1, pos, pos + 1, pos, p);
                    lemma_covers_widen(toks, term.str_info, pos + 1, p, pos, p);
                    lemma_covers_extend(toks, toks[pos].1, term.str_info, pos, pos + 1, p);
                    lemma_expr_spans_widen(toks, term, pos + 1, p, pos, p);
                    assert(expr_spans(toks, ExprAstView::ident(name, toks[pos].1), pos, p));
                    assert(expr_spans(toks, prefix_expr(name, term, toks[pos].1), pos, p));
                }
            }
        },
        None => {
            lemma_term_spans(toks, pos);
        },
    }
}

#[verifier::rlimit(50)]
pub proof fn lemma_infix_ops_spans(
    toks: Seq<TokenInfoView>,
    pos: int,
    lhs: ExprAstView,
    min_precedence: nat,
    lo: int,
)
    requires
        0 <= lo < pos <= toks.len(),
        expr_spans(toks, lhs, lo, pos),
    ensures
        spec_infix_ops(toks, pos, lhs, min_precedence) matches Parsed::Match(e, p) ==> pos <= p
            <= toks.len() && expr_spans(toks, e, lo, p),
    decreases toks.len() - pos, 0nat,
{
    if let Some(op_code) = op_code_at(toks, pos) {
        if let Some(op) = infix_op(op_code) {
            if op.precedence >= min_precedence {
                lemma_term_spans(toks, pos + 1);
                if let Parsed::Match(term, p) = spec_term(toks, pos + 1) {
                    lemma_infix_ops_spans(toks, p, term, rhs_min_precedence(op), pos + 1);
                    if let Parsed::Match(rhs, q) = spec_infix_ops(
                        toks,
                        p,
                        term,
                        rhs_min_precedence(op),
                    ) {
                        let node = infix_expr(op.name, lhs, rhs, toks[pos].1);
                        lemma_covers_token(toks, pos, lo, q);
                        lemma_expr_spans_widen(toks, lhs, lo, pos, lo, q);
                        lemma_expr_spans_widen(toks, rhs, pos + 1, q, lo, q);
                        lemma_covers_widen(toks, rhs.str_info, pos + 1, q, pos, q);
                        lemma_covers_extend(toks, lhs.str_info, rhs.str_info, lo, pos, q);
                        lemma_covers_widen(toks, lhs.str_info, lo, pos, lo, q);
                        let op_ident = ExprAstView::ident(op.name, toks[pos].1);
                        assert(expr_spans(toks, op_ident, lo, q));
                        assert(expr_spans(
                            toks,
                            ExprAstView::apply(op_ident, lhs, lhs.str_info),
                            lo,
                            q,
                        ));
                        assert(expr_spans(toks, node, lo, q));
                        if q > pos {
                            lemma_infix_ops_spans(toks, q, node, min_precedence, lo);
                        }
                    }
                }
            }
        }
    }
}

pub proof fn lemma_expr_spans(toks: Seq<TokenInfoView>, pos: int)
    requires
        0 <= pos <= toks.len(),
    ensures
        expr_match_spans(toks, spec_expr(toks, pos), pos),
    decreases toks.len() - pos, 6nat,
{
    lemma_prefix_op_lhs_spans(toks, pos);
    if let Parsed::Match(lhs, p) = spec_prefix_op_lhs(toks, pos) {
        lemma_infix_ops_spans(toks, p, lhs, 0, pos);
    }
}

/// The run of names that begins at `pos` ends in the list.
pub proof fn lemma_ident_run_end(toks: Seq<TokenInfoView>, pos: int)
    requires
        0 <= pos <= toks.len(),
    ensures
        pos <= ident_run_end(toks, pos) <= toks.len(),
    decreases toks.len() - pos,
{
    if spec_ident(toks, pos) is Some {
        lemma_ident_run_end(toks, pos + 1);
    }
}

#[verifier::rlimit(50)]
pub proof fn lemma_fn_def_body_spans(
    toks: Seq<TokenInfoView>,
    pos: int,
    ty_annot: Option<TyExprAstView>,
    first: StrInfo,
    lo: int,
)
    requires
        0 <= lo <= pos < toks.len(),
        covers(toks, first, lo, pos + 1),
        ty_annot matches Some(annot) ==> ty_expr_spans(toks, annot, lo, pos),
    ensures
        spec_fn_def_body(toks, pos, ty_annot, first) matches Parsed::Match(d, p) ==> pos < p
            <= toks.len() && fn_def_spans(toks, d, lo, p),
{
    if let Parsed::Match(left, p) = spec_left_fn_def(toks, pos + 1) {
        lemma_ident_run_end(toks, pos + 2);
        if token_at(toks, p) == Some(TokenView::Equal) {
            lemma_expr_spans(toks, p + 1);
            if let Parsed::Match(expr, q) = spec_expr(toks, p + 1) {
                lemma_covers_token(toks, pos + 1, pos + 1, pos + 2);
                lemma_covers_token(toks, p - 1, pos + 1, q);
                lemma_covers_widen(toks, toks[pos + 1].1, pos + 1, pos + 2, lo, q);
                if p - 1 == pos + 1 {
                    lemma_covers_extend(toks, toks[pos + 1].1, toks[p - 1].1, lo, q, q);
                } else {
                    lemma_covers_token(toks, p - 1, pos + 2, q);
                    lemma_covers_widen(toks, toks[pos + 1].1, pos + 1, pos + 2, lo, pos + 2);
                    lemma_covers_widen(toks, toks[p - 1].1, pos + 2, q, lo, q);
                    lemma_covers_extend(toks, toks[pos + 1].1, toks[p - 1].1, lo, pos + 2, q);
                }
                lemma_expr_spans_widen(toks, expr, p + 1, q, lo, q);
                lemma_covers_widen(toks, expr.str_info, p + 1, q, pos + 1, q);
                lemma_covers_widen(toks, expr.str_info, p + 1, q, lo, q);
                lemma_covers_extend(toks, first, expr.str_info, lo, pos + 1, q);
                if let Some(annot) = ty_annot {
                    lemma_ty_expr_spans_widen(toks, annot, lo, pos, lo, q);
                }
            }
        }
    }
}

#[verifier::rlimit(50)]
pub proof fn lemma_fn_def_spans(toks: Seq<TokenInfoView>, pos: int)
    requires
        0 <= pos <= toks.len(),
    ensures
        spec_fn_def(toks, pos) matches Parsed::Match(d, p) ==> pos < p <= toks.len()
            && fn_def_spans(toks, d, pos, p),
{
    if token_at(toks, pos) == Some(TokenView::Ty) {
        lemma_covers_token(toks, pos, pos, pos + 1);
        lemma_ty_expr_spans(toks, pos + 1);
        match spec_ty_expr(toks, pos + 1) {
            Parsed::Match(ty_expr, p) => {
                if token_at(toks, p) == Some(TokenView::Fn) {
                    lemma_covers_widen(toks, toks[pos].1, pos, pos + 1, pos, p + 1);
                    lemma_ty_expr_spans_widen(toks, ty_expr, pos + 1, p, pos, p);
                    lemma_fn_def_body_spans(toks, p, Some(ty_expr), toks[pos].1, pos);
                }
            },
            Parsed::NoMatch => {
                if token_at(toks, pos + 1) == Some(TokenView::Fn) {
                    lemma_covers_widen(toks, toks[pos].1, pos, pos + 1, pos, pos + 2);
                    lemma_fn_def_body_spans(toks, pos + 1, None, toks[pos].1, pos);
                }
            },
            Parsed::Fail(e) => {},
        }
    } else if token_at(toks, pos) == Some(TokenView::Fn) {
        lemma_covers_token(toks, pos, pos, pos + 1);
        lemma_fn_def_body_spans(toks, pos, None, toks[pos].1, pos);
    }
}

/// Every node of every definition that the parser builds has the span of a run of
/// tokens of the list: it begins where a token begins and ends where that token or a
/// later one ends.
pub proof fn lemma_parse_spans(toks: Seq<TokenInfoView>, k: int)
    requires
        0 <= k < parse_defs(toks).len(),
    ensures
        top_def_spans(toks, parse_defs(toks)[k], 0, toks.len() as int),
{
    lemma_defs_from_spans(toks, 0, k);
}

pub proof fn lemma_defs_from_spans(toks: Seq<TokenInfoView>, pos: int, k: int)
    requires
        0 <= pos,
        0 <= k < defs_from(toks, pos).len(),
    ensures
        top_def_spans(toks, defs_from(toks, pos)[k], 0, toks.len() as int),
    decreases toks.len() - pos,
{
    reveal(spec_next);
    let next = resume_at(toks, pos);
    if 0 <= pos < next <= toks.len() {
        lemma_fn_def_spans(toks, pos);
        let here = def_at(toks, pos);
        if k < here.len() {
            let d = here[k]->Fn_0;
            let p = spec_fn_def(toks, pos)->Match_1;
            assert(fn_def_spans(toks, d, pos, p));
            lemma_fn_def_spans_widen(toks, d, pos, p, 0, toks.len() as int);
        } else {
            lemma_defs_from_spans(toks, next, k - here.len());
        }
    }
}

pub proof fn lemma_fn_def_spans_widen(
    toks: Seq<TokenInfoView>,
    d: FnDefAstView,
    lo: int,
    hi: int,
    lo2: int,
    hi2: int,
)
    requires
        fn_def_spans(toks, d, lo, hi),
        lo2 <= lo,
        hi <= hi2,
    ensures
        fn_def_spans(toks, d, lo2, hi2),
{
    lemma_covers_widen(toks, d.str_info, lo, hi, lo2, hi2);
    lemma_covers_widen(toks, d.left_fn_def.str_info, lo, hi, lo2, hi2);
    lemma_expr_spans_widen(toks, d.expr, lo, hi, lo2, hi2);
    if let Some(annot) = d.ty_annot {
        lemma_ty_expr_spans_widen(toks, annot, lo, hi, lo2, hi2);
    }
}

/// A span that covers a run of tokens which stand in the order of a source names a
/// piece of the source that is not empty, and that piece reaches from the beginning
/// of a token to the end of that token or of a later one.
pub proof fn lemma_covered_is_substring(
    cs: Seq<char>,
    toks: Seq<TokenInfoView>,
    info: StrInfo,
)
    requires
        in_source_order(toks, cs.len()),
        covers(toks, info, 0, toks.len() as int),
    ensures
        info.start < info.end <= cs.len(),
        info.spec_slice(cs) == cs.subrange(info.start as int, info.end as int),
        exists|i: int, j: int|
            0 <= i <= j < toks.len() && info.start == (#[trigger] toks[i]).1.start && info.end == (
            #[trigger] toks[j]).1.end,
{
    let (i, j) = choose|i: int, j: int|
        0 <= i <= j < toks.len() && info == #[trigger] span_between(toks, i, j);
    assert(info.start == toks[i].1.start && info.end == toks[j].1.end);
    assert(toks[i].1.start <= toks[j].1.start);
}

/// The spans of a parsed source: every node of every definition names a piece of the
/// source that reaches from the beginning of one of its tokens to the end of that
/// token or of a later one.
pub proof fn lemma_source_spans(cs: Seq<char>, k: int)
    requires
        cs.len() < usize::MAX,
        0 <= k < parse_defs(lex_tokens(cs)).len(),
    ensures
        in_source_order(lex_tokens(cs), cs.len()),
        top_def_spans(
            lex_tokens(cs),
            parse_defs(lex_tokens(cs))[k],
            0,
            lex_tokens(cs).len() as int,
        ),
{
    lemma_tokens_in_source_order(cs);
    lemma_parse_spans(lex_tokens(cs), k);
}

} // verus!
