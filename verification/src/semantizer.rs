//! The semantic pass: it resolves names, interns types and families, and fills the
//! slots of the syntax tree.
//!
//! The `sem_*` functions say what the pass makes of a tree in a context: the context
//! afterwards and either the tree with its slots filled or the diagnostics. The
//! `visit_*` functions compute the same.

use vstd::prelude::*;
use vstd::string::*;
use crate::ast::{
    expr_typed,
    fn_def_typed,
    top_def_typed,
    ExprAst,
    ExprAstView,
    ExprEnum,
    ExprEnumView,
    FnAst,
    FnAstView,
    FnDefAst,
    FnDefAstView,
    IdentAst,
    IdentAstView,
    LeftFnDefAst,
    TopDefEnum,
    TopDefEnumView,
    TyArrowAst,
    TyArrowAstView,
    TyExprAst,
    TyExprAstView,
    TyExprEnum,
    TyExprEnumView,
    TyIdentAst,
    TyIdentAstView,
};
use crate::context::{family_ok, member_ok, SemContext, SemContextView};
use crate::families::new_family;
use crate::fn_sem::{FnKey, FnSem, FnSemView};
use crate::qual_sem::{NameKeyView, QualKey, QualKeyView, QualSem, QualSemView, ScopeSem, ScopeSemView};
use crate::scopes::top_key;
use crate::sem::{KeyEq, Replica, Sem, SemVal};
use crate::store::{StoreError, StoreErrorView};
use crate::str_info::StrInfo;
use crate::text::{is_nat_literal, parse_nat_literal};
use crate::ty_sem::{TySem, TySemView};

verus! {

/// What the semantic pass found wrong.
#[derive(Clone, Debug, PartialEq, Eq)]
pub enum SemErrorKind {
    /// No open qualifier knows a type of this name.
    UnknownType(String),
    /// No open qualifier knows a function of this name.
    UnknownFunction(String),
    /// The function of this name is defined twice under one qualifier.
    DuplicateFunction(String),
    /// The type of the function of this name takes another number of arguments than
    /// its definition names.
    ArgCountMismatch(String),
    /// The body of the function of this name has another type than its type says.
    BodyTypeMismatch(String),
    /// Something that is no function is applied to an argument.
    NotAFunction,
    /// A function type would have more arguments than a machine number counts.
    TypeTooLarge,
    /// A store refused a request.
    Store(StoreError),
}

pub enum SemErrorKindView {
    UnknownType(Seq<char>),
    UnknownFunction(Seq<char>),
    DuplicateFunction(Seq<char>),
    ArgCountMismatch(Seq<char>),
    BodyTypeMismatch(Seq<char>),
    NotAFunction,
    TypeTooLarge,
    Store(StoreErrorView),
}

/// A semantic error and the span of the node at which it was found.
#[derive(Clone, Debug, PartialEq, Eq)]
pub struct SemError {
    pub kind: SemErrorKind,
    pub info: StrInfo,
}

pub struct SemErrorView {
    pub kind: SemErrorKindView,
    pub info: StrInfo,
}

impl DeepView for SemErrorKind {
    type V = SemErrorKindView;

    open spec fn deep_view(&self) -> SemErrorKindView {
        match self {
            SemErrorKind::UnknownType(name) => SemErrorKindView::UnknownType(name@),
            SemErrorKind::UnknownFunction(name) => SemErrorKindView::UnknownFunction(name@),
            SemErrorKind::DuplicateFunction(name) => SemErrorKindView::DuplicateFunction(name@),
            SemErrorKind::ArgCountMismatch(name) => SemErrorKindView::ArgCountMismatch(name@),
            SemErrorKind::BodyTypeMismatch(name) => SemErrorKindView::BodyTypeMismatch(name@),
            SemErrorKind::NotAFunction => SemErrorKindView::NotAFunction,
            SemErrorKind::TypeTooLarge => SemErrorKindView::TypeTooLarge,
            SemErrorKind::Store(e) => SemErrorKindView::Store(e.deep_view()),
        }
    }
}

impl DeepView for SemError {
    type V = SemErrorView;

    open spec fn deep_view(&self) -> SemErrorView {
        SemErrorView { kind: self.kind.deep_view(), info: self.info }
    }
}

/// What the pass makes of a piece of the tree: the context afterwards, and the piece
/// with its slots filled or the diagnostics.
pub struct Pass<T> {
    pub ctx: SemContextView,
    pub result: Result<T, Seq<SemErrorView>>,
}

/// The result of a `visit_*` function as the outcome of the pass.
pub open spec fn outcome<T: DeepView>(r: Result<T, Vec<SemError>>) -> Result<T::V, Seq<SemErrorView>> {
    match r {
        Ok(value) => Ok(value.deep_view()),
        Err(errs) => Err(errs.deep_view()),
    }
}

pub open spec fn failed<T>(ctx: SemContextView, kind: SemErrorKindView, info: StrInfo) -> Pass<T> {
    Pass { ctx, result: Err(seq![SemErrorView { kind, info }]) }
}

pub open spec fn done<T>(ctx: SemContextView, value: T) -> Pass<T> {
    Pass { ctx, result: Ok(value) }
}

/// The diagnostics of a result; none where it is a value.
pub open spec fn errors_of<T>(result: Result<T, Seq<SemErrorView>>) -> Seq<SemErrorView> {
    match result {
        Ok(_) => Seq::empty(),
        Err(errs) => errs,
    }
}

/// The qualifier that is open innermost, as it is interned.
pub open spec fn current_qual(ctx: SemContextView) -> QualSemView {
    ctx.qual_store.value(ctx.qual_stack.last())
}

pub open spec fn typed_ty_expr(info: StrInfo, expr_enum: TyExprEnumView, ty: TySemView) -> TyExprAstView {
    TyExprAstView { expr_enum, ty_sem: Some(ty), str_info: info }
}

pub open spec fn ty_arrow_node(arrow_info: StrInfo, lhs: TyExprAstView, rhs: TyExprAstView) -> TyExprEnumView {
    TyExprEnumView::Arrow(
        TyArrowAstView { lhs: Box::new(lhs), rhs: Box::new(rhs), str_info: arrow_info },
    )
}

/// A type expression: a name denotes the type that the innermost qualifier knows
/// under it; an arrow denotes the function type between its two sides, which is
/// interned under the innermost qualifier.
pub open spec fn sem_ty_expr(ctx: SemContextView, e: TyExprAstView) -> Pass<TyExprAstView>
    decreases e,
{
    match e.expr_enum {
        TyExprEnumView::Ident(ident) => sem_ty_ident(ctx, ident, e.str_info),
        TyExprEnumView::Arrow(arrow) => {
            let lhs = sem_ty_expr(ctx, *arrow.lhs);
            let rhs = sem_ty_expr(lhs.ctx, *arrow.rhs);
            sem_ty_arrow(rhs.ctx, e.str_info, arrow.str_info, lhs.result, rhs.result)
        },
    }
}

/// A name in a type expression.
pub open spec fn sem_ty_ident(ctx: SemContextView, ident: TyIdentAstView, info: StrInfo) -> Pass<
    TyExprAstView,
> {
    match ctx.ty_named(ident.name) {
        Some(ty) => done(ctx, typed_ty_expr(info, TyExprEnumView::Ident(ident), ty)),
        None => failed(ctx, SemErrorKindView::UnknownType(ident.name), ident.str_info),
    }
}

/// An arrow once both its sides are done. `info` is the span of the type expression
/// and `arrow_info` that of the arrow in it.
pub open spec fn sem_ty_arrow(
    ctx: SemContextView,
    info: StrInfo,
    arrow_info: StrInfo,
    lhs: Result<TyExprAstView, Seq<SemErrorView>>,
    rhs: Result<TyExprAstView, Seq<SemErrorView>>,
) -> Pass<TyExprAstView> {
    if lhs is Err || rhs is Err {
        Pass { ctx, result: Err(errors_of(lhs) + errors_of(rhs)) }
    } else {
        let in_ty = lhs->Ok_0.ty_sem->Some_0;
        let out_ty = rhs->Ok_0.ty_sem->Some_0;
        if out_ty.arity() == usize::MAX {
            failed(ctx, SemErrorKindView::TypeTooLarge, arrow_info)
        } else {
            done(
                ctx.with_ty2(current_qual(ctx), in_ty, out_ty),
                typed_ty_expr(
                    info,
                    ty_arrow_node(arrow_info, lhs->Ok_0, rhs->Ok_0),
                    ctx.ty2(current_qual(ctx), in_ty, out_ty),
                ),
            )
        }
    }
}

pub open spec fn typed_expr(
    info: StrInfo,
    expr_enum: ExprEnumView,
    ty: TySemView,
    f: FnSemView,
) -> ExprAstView {
    ExprAstView { expr_enum, ty_sem: Some(ty), fn_sem: Some(f), str_info: info }
}

pub open spec fn fn_node(fn_info: StrInfo, fn_expr: ExprAstView, arg_expr: ExprAstView) -> ExprEnumView {
    ExprEnumView::Fn(
        FnAstView { fn_expr: Box::new(fn_expr), arg_expr: Box::new(arg_expr), str_info: fn_info },
    )
}

/// A name in an expression. An integer literal denotes the function of that name
/// under the top qualifier, of the type `i64`, which is interned where it was not. Any
/// other name denotes the first member of the nearest family of that name.
pub open spec fn sem_ident(ctx: SemContextView, ident: IdentAstView, info: StrInfo) -> Pass<ExprAstView> {
    if is_nat_literal(ident.name) {
        let c1 = ctx.with_qual_path(QualKeyView::top());
        let top = c1.qual_store.value(QualKeyView::top());
        if !c1.ty_store.contains(top_key("i64"@)) {
            failed(
                c1,
                SemErrorKindView::Store(StoreErrorView::NotFound(top_key("i64"@).description())),
                ident.str_info,
            )
        } else {
            let i64_ty = c1.ty_store.value(top_key("i64"@));
            let key = NameKeyView { qual: top.to_key(), name: ident.name };
            let c2 = c1.with_family_or_same(
                key,
                new_family(c1.fn_store.next_id(), top, ident.name, i64_ty),
            );
            done(
                c2,
                typed_expr(
                    info,
                    ExprEnumView::Ident(ident),
                    i64_ty,
                    c2.ranked_fn_store[key].last(),
                ),
            )
        }
    } else {
        match ctx.fn_named(ident.name) {
            Some(f) => done(ctx, typed_expr(info, ExprEnumView::Ident(ident), f.ty, f)),
            None => failed(ctx, SemErrorKindView::UnknownFunction(ident.name), ident.str_info),
        }
    }
}

/// The application `e` once the function and the argument are done: its type is the
/// result type of the function, and it denotes the member that follows the one that
/// the function denotes.
pub open spec fn sem_apply(
    ctx: SemContextView,
    info: StrInfo,
    fn_info: StrInfo,
    fn_expr: Result<ExprAstView, Seq<SemErrorView>>,
    arg_expr: Result<ExprAstView, Seq<SemErrorView>>,
) -> Pass<ExprAstView> {
    if fn_expr is Err || arg_expr is Err {
        Pass { ctx, result: Err(errors_of(fn_expr) + errors_of(arg_expr)) }
    } else {
        let prev_ty = fn_expr->Ok_0.ty_sem->Some_0;
        let prev_f = fn_expr->Ok_0.fn_sem->Some_0;
        match prev_ty {
            TySemView::Ty1(_) => failed(ctx, SemErrorKindView::NotAFunction, fn_info),
            TySemView::Ty2(ty2) => if !ctx.next_fn_store.contains_key(prev_f.to_key()) {
                failed(
                    ctx,
                    SemErrorKindView::Store(StoreErrorView::NotFound(prev_f.to_key().description())),
                    fn_info,
                )
            } else {
                done(
                    ctx,
                    typed_expr(
                        info,
                        fn_node(fn_info, fn_expr->Ok_0, arg_expr->Ok_0),
                        *ty2.out_ty,
                        ctx.next_fn_store[prev_f.to_key()],
                    ),
                )
            },
        }
    }
}

/// An expression: a name, or an application whose two sides are done first, the
/// function before the argument.
pub open spec fn sem_expr(ctx: SemContextView, e: ExprAstView) -> Pass<ExprAstView>
    decreases e,
{
    match e.expr_enum {
        ExprEnumView::Ident(ident) => sem_ident(ctx, ident, e.str_info),
        ExprEnumView::Fn(f) => {
            let fn_expr = sem_expr(ctx, *f.fn_expr);
            let arg_expr = sem_expr(fn_expr.ctx, *f.arg_expr);
            sem_apply(arg_expr.ctx, e.str_info, f.str_info, fn_expr.result, arg_expr.result)
        },
    }
}

/// The arguments from the `i`-th on: each becomes a function of its own under the
/// qualifier of the body, of the type that the function's type gives it. `done` holds
/// the arguments before the `i`-th.
pub open spec fn sem_args(
    ctx: SemContextView,
    qual: QualSemView,
    names: Seq<Seq<char>>,
    tys: Seq<TySemView>,
    info: StrInfo,
    i: nat,
    args: Seq<FnSemView>,
) -> Pass<Seq<FnSemView>>
    decreases names.len() - i,
{
    if i >= names.len() {
        done(ctx, args)
    } else {
        let key = NameKeyView { qual: qual.to_key(), name: names[i as int] };
        if ctx.has_family(key) {
            failed(
                ctx,
                SemErrorKindView::Store(
                    StoreErrorView::Duplicated(crate::fn_sem::ranked_key(key, 0).description()),
                ),
                info,
            )
        } else {
            let family = new_family(ctx.fn_store.next_id(), qual, names[i as int], tys[i as int]);
            sem_args(ctx.with_family(key, family), qual, names, tys, info, i + 1, args.push(family[0]))
        }
    }
}

/// The type of a definition without an annotation: a function of as many arguments
/// as the definition names, all of the type `i64`, to `i64`.
pub open spec fn sem_default_ty(ctx: SemContextView, arg_count: nat, info: StrInfo) -> Pass<TySemView> {
    if !ctx.ty_store.contains(top_key("i64"@)) {
        failed(
            ctx,
            SemErrorKindView::Store(StoreErrorView::NotFound(top_key("i64"@).description())),
            info,
        )
    } else {
        let i64_ty = ctx.ty_store.value(top_key("i64"@));
        let in_tys = Seq::new(arg_count, |i: int| i64_ty);
        if !ctx.fn_ty_fits(current_qual(ctx), in_tys, i64_ty) {
            failed(
                ctx.with_fn_ty_while_fits(current_qual(ctx), in_tys, i64_ty),
                SemErrorKindView::TypeTooLarge,
                info,
            )
        } else {
            done(
                ctx.with_fn_ty(current_qual(ctx), in_tys, i64_ty),
                ctx.fn_ty(current_qual(ctx), in_tys, i64_ty),
            )
        }
    }
}

/// The type of a definition: what its annotation denotes, or the default type where
/// it has none. The annotation comes back with its slots filled.
pub open spec fn sem_fn_ty(
    ctx: SemContextView,
    ty_annot: Option<TyExprAstView>,
    arg_count: nat,
    info: StrInfo,
) -> Pass<(Option<TyExprAstView>, TySemView)> {
    match ty_annot {
        Some(annot) => {
            let typed = sem_ty_expr(ctx, annot);
            match typed.result {
                Ok(e) => done(typed.ctx, (Some(e), e.ty_sem->Some_0)),
                Err(errs) => Pass { ctx: typed.ctx, result: Err(errs) },
            }
        },
        None => {
            let typed = sem_default_ty(ctx, arg_count, info);
            match typed.result {
                Ok(ty) => done(typed.ctx, (None, ty)),
                Err(errs) => Pass { ctx: typed.ctx, result: Err(errs) },
            }
        },
    }
}

/// The context in which the scope of the function `name` is open.
pub open spec fn scope_opened(ctx: SemContextView, name: Seq<char>) -> SemContextView {
    let key = ctx.qual_stack.last().pushed(ScopeSemView::Fn(name));
    SemContextView { qual_stack: ctx.qual_stack.push(key), ..ctx.with_qual_path(key) }
}

/// The context in which the innermost scope is closed again.
pub open spec fn scope_closed(ctx: SemContextView) -> SemContextView {
    SemContextView { qual_stack: ctx.qual_stack.drop_last(), ..ctx }
}

pub open spec fn typed_fn_def(
    ty_annot: Option<TyExprAstView>,
    left_fn_def: crate::ast::LeftFnDefAstView,
    expr: ExprAstView,
    fn_key: NameKeyView,
    arg_sems: Seq<FnSemView>,
    str_info: StrInfo,
) -> FnDefAstView {
    FnDefAstView {
        ty_annot,
        left_fn_def,
        expr,
        fn_key: Some(fn_key),
        arg_sems: Some(arg_sems),
        str_info,
    }
}

/// What stands inside the scope of a definition: the arguments become functions of
/// the scope, as many as the type has arguments, and the body is done among them; its
/// type must be the result type of the function.
pub open spec fn sem_fn_body(
    ctx: SemContextView,
    ty_annot: Option<TyExprAstView>,
    left_fn_def: crate::ast::LeftFnDefAstView,
    expr: ExprAstView,
    str_info: StrInfo,
    fn_ty: TySemView,
    fn_key: NameKeyView,
) -> Pass<FnDefAstView> {
    let info = left_fn_def.str_info;
    if fn_ty.arg_tys().len() != left_fn_def.args.len() {
        failed(ctx, SemErrorKindView::ArgCountMismatch(left_fn_def.name), info)
    } else {
        let args = sem_args(
            ctx,
            current_qual(ctx),
            left_fn_def.args,
            fn_ty.arg_tys(),
            info,
            0,
            Seq::empty(),
        );
        match args.result {
            Err(errs) => Pass { ctx: args.ctx, result: Err(errs) },
            Ok(arg_sems) => {
                let body = sem_expr(args.ctx, expr);
                match body.result {
                    Err(errs) => Pass { ctx: body.ctx, result: Err(errs) },
                    Ok(typed) => if !fn_ty.ret_ty().same_ty(typed.ty_sem->Some_0) {
                        failed(body.ctx, SemErrorKindView::BodyTypeMismatch(left_fn_def.name), info)
                    } else {
                        done(
                            body.ctx,
                            typed_fn_def(ty_annot, left_fn_def, typed, fn_key, arg_sems, str_info),
                        )
                    },
                }
            },
        }
    }
}

/// The key of the family that the definition `d` declares in the context `ctx`.
pub open spec fn declared_key(ctx: SemContextView, d: FnDefAstView) -> NameKeyView {
    NameKeyView { qual: current_qual(ctx).to_key(), name: d.left_fn_def.name }
}

/// A definition: its type is found, its family is interned under the innermost
/// qualifier, and its arguments and body are done in a scope of its own, which is
/// closed again whether or not they were in order.
pub open spec fn sem_fn_def(ctx: SemContextView, d: FnDefAstView) -> Pass<FnDefAstView> {
    let qual = current_qual(ctx);
    let info = d.left_fn_def.str_info;
    let typed = sem_fn_ty(ctx, d.ty_annot, d.left_fn_def.args.len(), info);
    match typed.result {
        Err(errs) => Pass { ctx: typed.ctx, result: Err(errs) },
        Ok((ty_annot, fn_ty)) => {
            let key = declared_key(ctx, d);
            if typed.ctx.has_family(key) {
                failed(
                    typed.ctx,
                    SemErrorKindView::DuplicateFunction(d.left_fn_def.name),
                    info,
                )
            } else {
                let family = new_family(
                    typed.ctx.fn_store.next_id(),
                    qual,
                    d.left_fn_def.name,
                    fn_ty,
                );
                let body = sem_fn_body(
                    scope_opened(typed.ctx.with_family(key, family), d.left_fn_def.name),
                    ty_annot,
                    d.left_fn_def,
                    d.expr,
                    d.str_info,
                    fn_ty,
                    family[0].to_key(),
                );
                Pass { ctx: scope_closed(body.ctx), result: body.result }
            }
        },
    }
}

pub open spec fn sem_top_def(ctx: SemContextView, d: TopDefEnumView) -> Pass<TopDefEnumView> {
    match d {
        TopDefEnumView::Fn(fn_def) => {
            let typed = sem_fn_def(ctx, fn_def);
            match typed.result {
                Ok(fn_def) => done(typed.ctx, TopDefEnumView::Fn(fn_def)),
                Err(errs) => Pass { ctx: typed.ctx, result: Err(errs) },
            }
        },
    }
}

/// The context in which the `n`-th definition of `defs` is done: the one that the
/// definitions before it left.
pub open spec fn ctx_before(ctx: SemContextView, defs: Seq<TopDefEnumView>, n: nat) -> SemContextView
    decreases n,
{
    if n == 0 {
        ctx
    } else {
        sem_top_def(ctx_before(ctx, defs, (n - 1) as nat), defs[n - 1]).ctx
    }
}

/// What the pass makes of the `i`-th definition of `defs`.
pub open spec fn sem_nth_def(ctx: SemContextView, defs: Seq<TopDefEnumView>, i: nat) -> Pass<
    TopDefEnumView,
> {
    sem_top_def(ctx_before(ctx, defs, i), defs[i as int])
}

/// The diagnostics of the first `n` definitions, in the order of the definitions.
pub open spec fn sem_errors(ctx: SemContextView, defs: Seq<TopDefEnumView>, n: nat) -> Seq<
    SemErrorView,
>
    decreases n,
{
    if n == 0 {
        Seq::empty()
    } else {
        sem_errors(ctx, defs, (n - 1) as nat) + errors_of(
            sem_nth_def(ctx, defs, (n - 1) as nat).result,
        )
    }
}

/// Those of the first `n` definitions that are in order, with their slots filled.
pub open spec fn sem_typed_defs(ctx: SemContextView, defs: Seq<TopDefEnumView>, n: nat) -> Seq<
    TopDefEnumView,
>
    decreases n,
{
    if n == 0 {
        Seq::empty()
    } else {
        match sem_nth_def(ctx, defs, (n - 1) as nat).result {
            Ok(d) => sem_typed_defs(ctx, defs, (n - 1) as nat).push(d),
            Err(_) => sem_typed_defs(ctx, defs, (n - 1) as nat),
        }
    }
}

/// Every family of `before` is a family of `after`, with the same members.
#[verifier::opaque]
pub open spec fn keeps_families(before: SemContextView, after: SemContextView) -> bool {
    forall|key: NameKeyView| #[trigger]
        before.ranked_fn_store.contains_key(key) ==> after.ranked_fn_store.contains_key(key)
            && after.ranked_fn_store[key] == before.ranked_fn_store[key]
}

/// What keeps the families twice keeps them.
pub proof fn lemma_keeps_families_trans(a: SemContextView, b: SemContextView, c: SemContextView)
    requires
        keeps_families(a, b),
        keeps_families(b, c),
    ensures
        keeps_families(a, c),
{
    reveal(keeps_families);
}

/// A context with the same families keeps the families.
pub proof fn lemma_keeps_families_same(a: SemContextView, b: SemContextView)
    requires
        b.ranked_fn_store == a.ranked_fn_store,
    ensures
        keeps_families(a, b),
{
    reveal(keeps_families);
}

/// A context with one family more keeps the families.
pub proof fn lemma_keeps_families_added(
    a: SemContextView,
    b: SemContextView,
    key: NameKeyView,
    family: Seq<FnSemView>,
)
    requires
        !a.has_family(key),
        b.ranked_fn_store == a.ranked_fn_store.insert(key, family),
    ensures
        keeps_families(a, b),
{
    reveal(keeps_families);
}

/// A family that is known stays known where the families are kept.
pub proof fn lemma_keeps_family(a: SemContextView, b: SemContextView, key: NameKeyView)
    requires
        keeps_families(a, b),
        a.has_family(key),
    ensures
        b.has_family(key),
        b.ranked_fn_store[key] == a.ranked_fn_store[key],
{
    reveal(keeps_families);
}

/// Where all definitions but the `j`-th are in order and the `j`-th has one
/// diagnostic, the pass reports that diagnostic and no other.
pub proof fn lemma_one_error(ctx: SemContextView, defs: Seq<TopDefEnumView>, j: nat)
    requires
        j < defs.len(),
        forall|i: nat| i < defs.len() && i != j ==> (#[trigger] sem_nth_def(ctx, defs, i)).result is Ok,
        errors_of(sem_nth_def(ctx, defs, j).result).len() == 1,
    ensures
        sem_errors(ctx, defs, defs.len()) == errors_of(sem_nth_def(ctx, defs, j).result),
        sem_errors(ctx, defs, defs.len()).len() == 1,
{
    lemma_errors_up_to(ctx, defs, j, defs.len());
}

proof fn lemma_errors_up_to(ctx: SemContextView, defs: Seq<TopDefEnumView>, j: nat, n: nat)
    requires
        j < defs.len(),
        n <= defs.len(),
        forall|i: nat| i < defs.len() && i != j ==> (#[trigger] sem_nth_def(ctx, defs, i)).result is Ok,
    ensures
        sem_errors(ctx, defs, n) == if j < n {
            errors_of(sem_nth_def(ctx, defs, j).result)
        } else {
            Seq::empty()
        },
    decreases n,
{
    if n > 0 {
        lemma_errors_up_to(ctx, defs, j, (n - 1) as nat);
        let before = sem_errors(ctx, defs, (n - 1) as nat);
        let step = errors_of(sem_nth_def(ctx, defs, (n - 1) as nat).result);
        if n - 1 == j {
            assert(before + step =~= step);
        } else {
            assert(sem_nth_def(ctx, defs, (n - 1) as nat).result is Ok);
            assert(before + step =~= before);
        }
    }
}

/// One diagnostic as a list.
fn one_error(kind: SemErrorKind, info: StrInfo) -> (errs: Vec<SemError>)
    ensures
        errs.deep_view() == seq![SemErrorView { kind: kind.deep_view(), info }],
        errs.len() == 1,
{
    let mut errs: Vec<SemError> = Vec::new();
    errs.push(SemError { kind, info });
    assert(errs.deep_view() =~= seq![SemErrorView { kind: kind.deep_view(), info }]);
    errs
}

/// The diagnostics of two results, those of the first before those of the second.
fn errors_of_both<T: DeepView>(first: Result<T, Vec<SemError>>, second: Result<T, Vec<SemError>>) -> (errs:
    Vec<SemError>)
    ensures
        errs.deep_view() == errors_of(outcome(first)) + errors_of(outcome(second)),
        errs.len() == errors_of(outcome(first)).len() + errors_of(outcome(second)).len(),
{
    let mut errs: Vec<SemError> = Vec::new();
    assert(errs.deep_view() =~= Seq::<SemErrorView>::empty());
    if let Err(mut es) = first {
        let ghost before = errs.deep_view();
        let ghost added = es.deep_view();
        errs.append(&mut es);
        assert(errs.deep_view() =~= before + added);
    }
    if let Err(mut es) = second {
        let ghost before = errs.deep_view();
        let ghost added = es.deep_view();
        errs.append(&mut es);
        assert(errs.deep_view() =~= before + added);
    }
    assert(errs.deep_view() =~= errors_of(outcome(first)) + errors_of(outcome(second)));
    errs
}

/// The qualifier that is open innermost.
fn current_qual_of(ctx: &SemContext) -> (qual: QualSem)
    requires
        ctx.wf(),
    ensures
        qual.deep_view() == current_qual(ctx.deep_view()),
        qual.deep_view().to_key() == ctx.deep_view().qual_stack.last(),
{
    let key = ctx.qual_stack.peek();
    assert(ctx.deep_view().qual_store.contains(
        ctx.deep_view().qual_stack[ctx.deep_view().qual_stack.len() - 1],
    ));
    ctx.qual_store.get(&key).unwrap()
}

#[verifier::rlimit(60)]
fn visit_ty_ident(ctx: &SemContext, ty_ident_ast: TyIdentAst, str_info: StrInfo) -> (r: Result<
    TyExprAst,
    Vec<SemError>,
>)
    requires
        ctx.wf(),
    ensures
        outcome(r) == sem_ty_ident(ctx.deep_view(), ty_ident_ast.deep_view(), str_info).result,
        r matches Ok(e) ==> e.ty_sem matches Some(ty) && ty.deep_view().wf(),
        r matches Err(errs) ==> errs.len() > 0,
{
    match ctx.find_ty(&ty_ident_ast.name) {
        Some(ty) => Ok(
            TyExprAst { expr_enum: TyExprEnum::Ident(ty_ident_ast), ty_sem: Some(ty), str_info },
        ),
        None => {
            let info = ty_ident_ast.str_info;
            Err(one_error(SemErrorKind::UnknownType(ty_ident_ast.name), info))
        },
    }
}

#[verifier::rlimit(60)]
fn visit_ty_arrow(ctx: &mut SemContext, ty_arrow_ast: TyArrowAst, str_info: StrInfo) -> (r: Result<
    TyExprAst,
    Vec<SemError>,
>)
    requires
        old(ctx).wf(),
    ensures
        final(ctx).wf(),
        ({
            let lhs = sem_ty_expr(old(ctx).deep_view(), *ty_arrow_ast.deep_view().lhs);
            let rhs = sem_ty_expr(lhs.ctx, *ty_arrow_ast.deep_view().rhs);
            let pass = sem_ty_arrow(rhs.ctx, str_info, ty_arrow_ast.str_info, lhs.result, rhs.result);
            &&& final(ctx).deep_view() == pass.ctx
            &&& outcome(r) == pass.result
        }),
        final(ctx).deep_view().qual_stack == old(ctx).deep_view().qual_stack,
        final(ctx).deep_view().qual_store == old(ctx).deep_view().qual_store,
        final(ctx).deep_view().ranked_fn_store == old(ctx).deep_view().ranked_fn_store,
        r matches Ok(e) ==> e.ty_sem matches Some(ty) && ty.deep_view().wf(),
        r matches Err(errs) ==> errs.len() > 0,
    decreases ty_arrow_ast,
{
    let TyArrowAst { lhs, rhs, str_info: arrow_info } = ty_arrow_ast;
    let lhs_result = visit_ty_expr(ctx, *lhs);
    let rhs_result = visit_ty_expr(ctx, *rhs);
    match (lhs_result, rhs_result) {
        (Ok(lhs), Ok(rhs)) => {
            let qual = current_qual_of(ctx);
            let in_ty = lhs.ty_sem.as_ref().unwrap().replica();
            let out_ty = rhs.ty_sem.as_ref().unwrap().replica();
            if out_ty.arity() == usize::MAX {
                return Err(one_error(SemErrorKind::TypeTooLarge, arrow_info));
            }
            let ty = TySem::new_or_get_ty2(ctx, qual, in_ty, out_ty);
            Ok(
                TyExprAst {
                    expr_enum: TyExprEnum::Arrow(
                        TyArrowAst { lhs: Box::new(lhs), rhs: Box::new(rhs), str_info: arrow_info },
                    ),
                    ty_sem: Some(ty),
                    str_info,
                },
            )
        },
        (lhs_result, rhs_result) => Err(errors_of_both(lhs_result, rhs_result)),
    }
}

#[verifier::rlimit(60)]
fn visit_ty_expr(ctx: &mut SemContext, ty_expr_ast: TyExprAst) -> (r: Result<TyExprAst, Vec<SemError>>)
    requires
        old(ctx).wf(),
    ensures
        final(ctx).wf(),
        final(ctx).deep_view() == sem_ty_expr(old(ctx).deep_view(), ty_expr_ast.deep_view()).ctx,
        outcome(r) == sem_ty_expr(old(ctx).deep_view(), ty_expr_ast.deep_view()).result,
        final(ctx).deep_view().qual_stack == old(ctx).deep_view().qual_stack,
        final(ctx).deep_view().qual_store == old(ctx).deep_view().qual_store,
        final(ctx).deep_view().ranked_fn_store == old(ctx).deep_view().ranked_fn_store,
        r matches Ok(e) ==> e.ty_sem matches Some(ty) && ty.deep_view().wf(),
        r matches Err(errs) ==> errs.len() > 0,
    decreases ty_expr_ast,
{
    let TyExprAst { expr_enum, ty_sem: _, str_info } = ty_expr_ast;
    match expr_enum {
        TyExprEnum::Arrow(ty_arrow) => visit_ty_arrow(ctx, ty_arrow, str_info),
        TyExprEnum::Ident(ty_ident) => visit_ty_ident(ctx, ty_ident, str_info),
    }
}

#[verifier::rlimit(60)]
fn visit_ident(ctx: &mut SemContext, ident_ast: IdentAst, str_info: StrInfo) -> (r: Result<
    ExprAst,
    Vec<SemError>,
>)
    requires
        old(ctx).wf(),
    ensures
        final(ctx).wf(),
        final(ctx).deep_view() == sem_ident(old(ctx).deep_view(), ident_ast.deep_view(), str_info).ctx,
        outcome(r) == sem_ident(old(ctx).deep_view(), ident_ast.deep_view(), str_info).result,
        final(ctx).deep_view().qual_stack == old(ctx).deep_view().qual_stack,
        keeps_families(old(ctx).deep_view(), final(ctx).deep_view()),
        r matches Ok(e) ==> expr_typed(e.deep_view()),
        r matches Err(errs) ==> errs.len() > 0,
{
    if parse_nat_literal(ident_ast.name.as_str()).is_some() {
        let top = QualSem::top(ctx);
        let ghost with_top = ctx.deep_view();
        proof {
            lemma_keeps_families_same(old(ctx).deep_view(), with_top);
        }
        let i64_ty = match TySem::get_from_name(ctx, "i64") {
            Ok(ty) => ty,
            Err(e) => {
                return Err(one_error(SemErrorKind::Store(e), ident_ast.str_info));
            },
        };
        let fs = FnSem::new_or_get(ctx, top, ident_ast.name.clone(), i64_ty.replica());
        proof {
            let key = NameKeyView { qual: top.deep_view().to_key(), name: ident_ast.name@ };
            if with_top.has_family(key) {
                lemma_keeps_families_same(with_top, ctx.deep_view());
            } else {
                lemma_keeps_families_added(
                    with_top,
                    ctx.deep_view(),
                    key,
                    new_family(
                        with_top.fn_store.next_id(),
                        top.deep_view(),
                        ident_ast.name@,
                        i64_ty.deep_view(),
                    ),
                );
            }
            lemma_keeps_families_trans(old(ctx).deep_view(), with_top, ctx.deep_view());
        }
        let f = fs[fs.len() - 1].replica();
        Ok(
            ExprAst {
                expr_enum: ExprEnum::Ident(ident_ast),
                ty_sem: Some(i64_ty),
                fn_sem: Some(f),
                str_info,
            },
        )
    } else {
        proof {
            lemma_keeps_families_same(old(ctx).deep_view(), ctx.deep_view());
        }
        match ctx.find_fn(&ident_ast.name) {
            Some(f) => {
                let ty = f.ty.replica();
                Ok(
                    ExprAst {
                        expr_enum: ExprEnum::Ident(ident_ast),
                        ty_sem: Some(ty),
                        fn_sem: Some(f),
                        str_info,
                    },
                )
            },
            None => {
                let info = ident_ast.str_info;
                Err(one_error(SemErrorKind::UnknownFunction(ident_ast.name), info))
            },
        }
    }
}

#[verifier::rlimit(60)]
fn visit_fn(ctx: &mut SemContext, fn_ast: FnAst, str_info: StrInfo) -> (r: Result<
    ExprAst,
    Vec<SemError>,
>)
    requires
        old(ctx).wf(),
    ensures
        final(ctx).wf(),
        ({
            let fn_expr = sem_expr(old(ctx).deep_view(), *fn_ast.deep_view().fn_expr);
            let arg_expr = sem_expr(fn_expr.ctx, *fn_ast.deep_view().arg_expr);
            let pass = sem_apply(
                arg_expr.ctx,
                str_info,
                fn_ast.str_info,
                fn_expr.result,
                arg_expr.result,
            );
            &&& final(ctx).deep_view() == pass.ctx
            &&& outcome(r) == pass.result
        }),
        final(ctx).deep_view().qual_stack == old(ctx).deep_view().qual_stack,
        keeps_families(old(ctx).deep_view(), final(ctx).deep_view()),
        r matches Ok(e) ==> expr_typed(e.deep_view()),
        r matches Err(errs) ==> errs.len() > 0,
    decreases fn_ast,
{
    let FnAst { fn_expr, arg_expr, str_info: fn_info } = fn_ast;
    let fn_result = visit_expr(ctx, *fn_expr);
    let ghost with_fn = ctx.deep_view();
    let arg_result = visit_expr(ctx, *arg_expr);
    proof {
        lemma_keeps_families_trans(old(ctx).deep_view(), with_fn, ctx.deep_view());
    }
    match (fn_result, arg_result) {
        (Ok(fn_expr), Ok(arg_expr)) => {
            let ty = match fn_expr.ty_sem.as_ref().unwrap().to_out_ty() {
                Some(ty) => ty,
                None => {
                    return Err(one_error(SemErrorKind::NotAFunction, fn_info));
                },
            };
            let prev_f = fn_expr.fn_sem.as_ref().unwrap();
            let f = match ctx.next_fn_store.get(&prev_f.to_key()) {
                Ok(next_f) => next_f,
                Err(e) => {
                    return Err(one_error(SemErrorKind::Store(e), fn_info));
                },
            };
            Ok(
                ExprAst {
                    expr_enum: ExprEnum::Fn(
                        FnAst {
                            fn_expr: Box::new(fn_expr),
                            arg_expr: Box::new(arg_expr),
                            str_info: fn_info,
                        },
                    ),
                    ty_sem: Some(ty),
                    fn_sem: Some(f),
                    str_info,
                },
            )
        },
        (fn_result, arg_result) => Err(errors_of_both(fn_result, arg_result)),
    }
}

#[verifier::rlimit(60)]
fn visit_expr(ctx: &mut SemContext, expr_ast: ExprAst) -> (r: Result<ExprAst, Vec<SemError>>)
    requires
        old(ctx).wf(),
    ensures
        final(ctx).wf(),
        final(ctx).deep_view() == sem_expr(old(ctx).deep_view(), expr_ast.deep_view()).ctx,
        outcome(r) == sem_expr(old(ctx).deep_view(), expr_ast.deep_view()).result,
        final(ctx).deep_view().qual_stack == old(ctx).deep_view().qual_stack,
        keeps_families(old(ctx).deep_view(), final(ctx).deep_view()),
        r matches Ok(e) ==> expr_typed(e.deep_view()),
        r matches Err(errs) ==> errs.len() > 0,
    decreases expr_ast,
{
    let ExprAst { expr_enum, ty_sem: _, fn_sem: _, str_info } = expr_ast;
    match expr_enum {
        ExprEnum::Fn(fn_ast) => visit_fn(ctx, fn_ast, str_info),
        ExprEnum::Ident(ident_ast) => visit_ident(ctx, ident_ast, str_info),
    }
}

/// Interns the type of a definition that has no annotation.
#[verifier::rlimit(60)]
fn default_ty(ctx: &mut SemContext, arg_count: usize, info: StrInfo) -> (r: Result<
    TySem,
    Vec<SemError>,
>)
    requires
        old(ctx).wf(),
    ensures
        final(ctx).wf(),
        final(ctx).deep_view() == sem_default_ty(old(ctx).deep_view(), arg_count as nat, info).ctx,
        outcome(r) == sem_default_ty(old(ctx).deep_view(), arg_count as nat, info).result,
        final(ctx).deep_view().qual_stack == old(ctx).deep_view().qual_stack,
        final(ctx).deep_view().qual_store == old(ctx).deep_view().qual_store,
        final(ctx).deep_view().ranked_fn_store == old(ctx).deep_view().ranked_fn_store,
        r matches Ok(ty) ==> ty.deep_view().wf(),
        r matches Err(errs) ==> errs.len() > 0,
{
    let qual = current_qual_of(ctx);
    let i64_ty = match TySem::get_from_name(ctx, "i64") {
        Ok(ty) => ty,
        Err(e) => {
            return Err(one_error(SemErrorKind::Store(e), info));
        },
    };
    let mut in_tys: Vec<TySem> = Vec::new();
    let mut i: usize = 0;
    while i < arg_count
        invariant
            i <= arg_count,
            in_tys.len() == i,
            i64_ty.deep_view().wf(),
            forall|j: int| 0 <= j < i ==> (#[trigger] in_tys@[j]).deep_view() == i64_ty.deep_view(),
        decreases arg_count - i,
    {
        in_tys.push(i64_ty.replica());
        i += 1;
    }
    assert(in_tys.deep_view() =~= Seq::new(arg_count as nat, |i: int| i64_ty.deep_view()));
    match TySem::new_or_get_fn_ty(ctx, qual, in_tys, i64_ty) {
        Some(ty) => {
            proof {
                crate::interning::lemma_while_fits_all(
                    old(ctx).deep_view(),
                    current_qual(old(ctx).deep_view()),
                    Seq::new(arg_count as nat, |i: int| i64_ty.deep_view()),
                    i64_ty.deep_view(),
                );
            }
            Ok(ty)
        },
        None => Err(one_error(SemErrorKind::TypeTooLarge, info)),
    }
}

/// Interns one function for each argument of a definition, under the qualifier of
/// its body.
#[verifier::rlimit(60)]
fn visit_args(
    ctx: &mut SemContext,
    qual: &QualSem,
    names: &Vec<String>,
    tys: &Vec<TySem>,
    info: StrInfo,
) -> (r: Result<Vec<FnSem>, Vec<SemError>>)
    requires
        old(ctx).wf(),
        names.len() == tys.len(),
        forall|i: int| 0 <= i < tys.len() ==> (#[trigger] tys@[i]).deep_view().wf(),
    ensures
        final(ctx).wf(),
        ({
            let pass = sem_args(
                old(ctx).deep_view(),
                qual.deep_view(),
                names.deep_view(),
                tys.deep_view(),
                info,
                0,
                Seq::empty(),
            );
            &&& final(ctx).deep_view() == pass.ctx
            &&& outcome(r) == pass.result
        }),
        final(ctx).deep_view().qual_stack == old(ctx).deep_view().qual_stack,
        keeps_families(old(ctx).deep_view(), final(ctx).deep_view()),
        r matches Err(errs) ==> errs.len() > 0,
{
    let ghost start = old(ctx).deep_view();
    let ghost q = qual.deep_view();
    let ghost ns = names.deep_view();
    let ghost ts = tys.deep_view();
    let mut args: Vec<FnSem> = Vec::new();
    let mut i: usize = 0;
    assert(args.deep_view() =~= Seq::<FnSemView>::empty());
    proof {
        lemma_keeps_families_same(start, ctx.deep_view());
        reveal(families_declared);
    }
    while i < names.len()
        invariant
            i <= names.len(),
            names.len() == tys.len(),
            ns == names.deep_view(),
            ts == tys.deep_view(),
            q == qual.deep_view(),
            start == old(ctx).deep_view(),
            ctx.wf(),
            forall|j: int| 0 <= j < tys.len() ==> (#[trigger] tys@[j]).deep_view().wf(),
            sem_args(start, q, ns, ts, info, 0, Seq::empty()) == sem_args(
                ctx.deep_view(),
                q,
                ns,
                ts,
                info,
                i as nat,
                args.deep_view(),
            ),
            ctx.deep_view().qual_stack == start.qual_stack,
            keeps_families(start, ctx.deep_view()),
        decreases names.len() - i,
    {
        let ghost before = args.deep_view();
        let ghost ctx_before_arg = ctx.deep_view();
        match FnSem::new(ctx, qual.replica(), names[i].clone(), tys[i].replica()) {
            Ok(fs) => {
                let ghost head = fs.deep_view()[0];
                args.push(fs[0].replica());
                assert(args.deep_view() =~= before.push(head));
                proof {
                    lemma_keeps_families_added(
                        ctx_before_arg,
                        ctx.deep_view(),
                        NameKeyView { qual: q.to_key(), name: ns[i as int] },
                        fs.deep_view(),
                    );
                    lemma_keeps_families_trans(start, ctx_before_arg, ctx.deep_view());
                }
            },
            Err(e) => {
                return Err(one_error(SemErrorKind::Store(e), info));
            },
        }
        i += 1;
    }
    Ok(args)
}

/// Does what stands inside the scope of a definition, which is open.
#[verifier::rlimit(60)]
fn visit_fn_body(
    ctx: &mut SemContext,
    ty_annot: Option<TyExprAst>,
    left_fn_def: LeftFnDefAst,
    expr: ExprAst,
    str_info: StrInfo,
    fn_ty: TySem,
    fn_key: FnKey,
) -> (r: Result<FnDefAst, Vec<SemError>>)
    requires
        old(ctx).wf(),
        fn_ty.deep_view().wf(),
    ensures
        final(ctx).wf(),
        ({
            let pass = sem_fn_body(
                old(ctx).deep_view(),
                ty_annot.deep_view(),
                left_fn_def.deep_view(),
                expr.deep_view(),
                str_info,
                fn_ty.deep_view(),
                fn_key.deep_view(),
            );
            &&& final(ctx).deep_view() == pass.ctx
            &&& outcome(r) == pass.result
        }),
        final(ctx).deep_view().qual_stack == old(ctx).deep_view().qual_stack,
        keeps_families(old(ctx).deep_view(), final(ctx).deep_view()),
        r matches Ok(d) ==> fn_def_typed(d.deep_view()),
        r matches Err(errs) ==> errs.len() > 0,
{
    let info = left_fn_def.str_info;
    let qual = current_qual_of(ctx);
    proof {
        lemma_arg_tys_wf(fn_ty.deep_view());
    }
    let (arg_tys, ret_ty) = fn_ty.to_arg_and_ret_tys();
    proof {
        lemma_keeps_families_same(old(ctx).deep_view(), ctx.deep_view());
        assert forall|i: int| 0 <= i < arg_tys.len() implies (#[trigger] arg_tys@[i]).deep_view().wf() by {
            assert(arg_tys.deep_view()[i] == arg_tys@[i].deep_view());
        }
    }
    if arg_tys.len() != left_fn_def.args.len() {
        return Err(one_error(SemErrorKind::ArgCountMismatch(left_fn_def.name), info));
    }
    let arg_sems = match visit_args(ctx, &qual, &left_fn_def.args, &arg_tys, info) {
        Ok(arg_sems) => arg_sems,
        Err(errs) => {
            return Err(errs);
        },
    };
    let ghost with_args = ctx.deep_view();
    let typed = match visit_expr(ctx, expr) {
        Ok(typed) => typed,
        Err(errs) => {
            proof {
                lemma_keeps_families_trans(old(ctx).deep_view(), with_args, ctx.deep_view());
            }
            return Err(errs);
        },
    };
    proof {
        lemma_keeps_families_trans(old(ctx).deep_view(), with_args, ctx.deep_view());
    }
    if !ret_ty.same_ty(typed.ty_sem.as_ref().unwrap()) {
        return Err(one_error(SemErrorKind::BodyTypeMismatch(left_fn_def.name), info));
    }
    Ok(
        FnDefAst {
            ty_annot,
            left_fn_def,
            expr: typed,
            fn_key: Some(fn_key),
            arg_sems: Some(arg_sems),
            str_info,
        },
    )
}

/// The argument types of a well-formed type are well-formed.
pub proof fn lemma_arg_tys_wf(ty: TySemView)
    requires
        ty.wf(),
    ensures
        forall|i: int| 0 <= i < ty.arg_tys().len() ==> (#[trigger] ty.arg_tys()[i]).wf(),
    decreases ty,
{
    match ty {
        TySemView::Ty2(ty2) => {
            lemma_arg_tys_wf(*ty2.out_ty);
            let rest = ty2.out_ty.arg_tys();
            assert forall|i: int| 0 <= i < ty.arg_tys().len() implies (
            #[trigger] ty.arg_tys()[i]).wf() by {
                if i > 0 {
                    assert(ty.arg_tys()[i] == rest[i - 1]);
                }
            }
        },
        TySemView::Ty1(_) => {},
    }
}

#[verifier::rlimit(60)]
fn visit_fn_def(ctx: &mut SemContext, fn_def_ast: FnDefAst) -> (r: Result<FnDefAst, Vec<SemError>>)
    requires
        old(ctx).wf(),
    ensures
        final(ctx).wf(),
        final(ctx).deep_view() == sem_fn_def(old(ctx).deep_view(), fn_def_ast.deep_view()).ctx,
        outcome(r) == sem_fn_def(old(ctx).deep_view(), fn_def_ast.deep_view()).result,
        final(ctx).deep_view().qual_stack == old(ctx).deep_view().qual_stack,
        keeps_families(old(ctx).deep_view(), final(ctx).deep_view()),
        r is Ok ==> final(ctx).deep_view().has_family(
            declared_key(old(ctx).deep_view(), fn_def_ast.deep_view()),
        ),
        r matches Ok(d) ==> fn_def_typed(d.deep_view()),
        r matches Err(errs) ==> errs.len() > 0,
{
    let FnDefAst { ty_annot, left_fn_def, expr, fn_key: _, arg_sems: _, str_info } = fn_def_ast;
    let info = left_fn_def.str_info;
    let qual = current_qual_of(ctx);
    let (ty_annot, fn_ty) = match ty_annot {
        Some(annot) => {
            let typed = match visit_ty_expr(ctx, annot) {
                Ok(typed) => typed,
                Err(errs) => {
                    proof {
                        lemma_keeps_families_same(old(ctx).deep_view(), ctx.deep_view());
                    }
                    return Err(errs);
                },
            };
            let ty = typed.ty_sem.as_ref().unwrap().replica();
            (Some(typed), ty)
        },
        None => {
            let ty = match default_ty(ctx, left_fn_def.args.len(), info) {
                Ok(ty) => ty,
                Err(errs) => {
                    proof {
                        lemma_keeps_families_same(old(ctx).deep_view(), ctx.deep_view());
                    }
                    return Err(errs);
                },
            };
            (None, ty)
        },
    };
    let ghost typed_ctx = ctx.deep_view();
    let ghost key = declared_key(old(ctx).deep_view(), fn_def_ast.deep_view());
    proof {
        lemma_keeps_families_same(old(ctx).deep_view(), typed_ctx);
    }
    let fs = match FnSem::new(ctx, qual.replica(), left_fn_def.name.clone(), fn_ty.replica()) {
        Ok(fs) => fs,
        Err(_) => {
            return Err(one_error(SemErrorKind::DuplicateFunction(left_fn_def.name), info));
        },
    };
    let fn_key = fs[0].to_key();
    let ghost declared = ctx.deep_view();
    ctx.push_scope_into_qual_stack(ScopeSem::Fn(left_fn_def.name.clone()));
    let ghost opened = ctx.deep_view();
    proof {
        crate::interning::lemma_with_qual_path(
            declared,
            declared.qual_stack.last().pushed(ScopeSemView::Fn(left_fn_def.name@)),
        );
        lemma_keeps_families_added(typed_ctx, declared, key, fs.deep_view());
        lemma_keeps_families_same(declared, opened);
        lemma_keeps_families_trans(old(ctx).deep_view(), typed_ctx, declared);
        lemma_keeps_families_trans(old(ctx).deep_view(), declared, opened);
    }
    let r = visit_fn_body(ctx, ty_annot, left_fn_def, expr, str_info, fn_ty, fn_key);
    let ghost inside = ctx.deep_view();
    assert(inside.qual_stack.last().scopes.len() > 0);
    assert(inside.qual_stack.drop_last() =~= old(ctx).deep_view().qual_stack);
    let closed = ctx.pop_scope();
    assert(closed is Ok);
    proof {
        lemma_keeps_families_trans(old(ctx).deep_view(), opened, inside);
        lemma_keeps_families_same(inside, ctx.deep_view());
        lemma_keeps_families_trans(old(ctx).deep_view(), inside, ctx.deep_view());
        lemma_keeps_family(declared, opened, key);
        lemma_keeps_family(opened, inside, key);
        lemma_keeps_family(inside, ctx.deep_view(), key);
    }
    r
}

#[verifier::rlimit(60)]
fn visit_top_def(ctx: &mut SemContext, top_def_enum: TopDefEnum) -> (r: Result<
    TopDefEnum,
    Vec<SemError>,
>)
    requires
        old(ctx).wf(),
    ensures
        final(ctx).wf(),
        final(ctx).deep_view() == sem_top_def(old(ctx).deep_view(), top_def_enum.deep_view()).ctx,
        outcome(r) == sem_top_def(old(ctx).deep_view(), top_def_enum.deep_view()).result,
        final(ctx).deep_view().qual_stack == old(ctx).deep_view().qual_stack,
        keeps_families(old(ctx).deep_view(), final(ctx).deep_view()),
        r is Ok ==> final(ctx).deep_view().has_family(
            declared_key(old(ctx).deep_view(), top_def_enum.deep_view()->Fn_0),
        ),
        r matches Ok(d) ==> top_def_typed(d.deep_view()),
        r matches Err(errs) ==> errs.len() > 0,
{
    match top_def_enum {
        TopDefEnum::Fn(fn_def_ast) => {
            let typed = visit_fn_def(ctx, fn_def_ast)?;
            Ok(TopDefEnum::Fn(typed))
        },
    }
}

/// The context `after` knows the family of each of the first `n` definitions that
/// was in order.
#[verifier::opaque]
pub open spec fn families_declared(
    ctx: SemContextView,
    defs: Seq<TopDefEnumView>,
    n: nat,
    after: SemContextView,
) -> bool {
    forall|i: nat|
        i < n && (#[trigger] sem_nth_def(ctx, defs, i)).result is Ok ==> after.has_family(
            declared_key(ctx_before(ctx, defs, i), defs[i as int]->Fn_0),
        )
}

/// One more definition is done: the families that were declared stay declared, and
/// the family of the new definition is declared where the definition was in order.
proof fn lemma_families_declared_step(
    ctx: SemContextView,
    defs: Seq<TopDefEnumView>,
    n: nat,
    before: SemContextView,
    after: SemContextView,
)
    requires
        n < defs.len(),
        families_declared(ctx, defs, n, before),
        keeps_families(before, after),
        sem_nth_def(ctx, defs, n).result is Ok ==> after.has_family(
            declared_key(ctx_before(ctx, defs, n), defs[n as int]->Fn_0),
        ),
    ensures
        families_declared(ctx, defs, n + 1, after),
{
    reveal(families_declared);
    reveal(keeps_families);
}

/// The elements of `v` in the opposite order.
fn reversed<T>(v: Vec<T>) -> (r: Vec<T>)
    ensures
        r.len() == v.len(),
        forall|j: int| 0 <= j < r.len() ==> (#[trigger] r@[j]) == v@[v.len() - 1 - j],
{
    let mut v = v;
    let ghost whole = v@;
    let mut r: Vec<T> = Vec::new();
    while v.len() > 0
        invariant
            v.len() + r.len() == whole.len(),
            v@ == whole.subrange(0, v.len() as int),
            forall|j: int| 0 <= j < r.len() ==> (#[trigger] r@[j]) == whole[whole.len() - 1 - j],
        decreases v.len(),
    {
        let x = v.pop().unwrap();
        r.push(x);
    }
    r
}

/// Does the semantic pass over the definitions, in their order. The result is the
/// definitions with their slots filled where none of them has a diagnostic, and all
/// diagnostics otherwise. In either case the context knows, afterwards, the family
/// of every definition that was in order by itself, and what it knew before.
#[verifier::rlimit(60)]
pub fn semantize(ctx: &mut SemContext, top_def_enums: Vec<TopDefEnum>) -> (r: Result<
    Vec<TopDefEnum>,
    Vec<SemError>,
>)
    requires
        old(ctx).wf(),
    ensures
        final(ctx).wf(),
        final(ctx).deep_view() == ctx_before(
            old(ctx).deep_view(),
            top_def_enums.deep_view(),
            top_def_enums.deep_view().len(),
        ),
        final(ctx).deep_view().qual_stack == old(ctx).deep_view().qual_stack,
        keeps_families(old(ctx).deep_view(), final(ctx).deep_view()),
        match r {
            Ok(typed) => {
                &&& sem_errors(
                    old(ctx).deep_view(),
                    top_def_enums.deep_view(),
                    top_def_enums.deep_view().len(),
                ).len() == 0
                &&& typed.deep_view() == sem_typed_defs(
                    old(ctx).deep_view(),
                    top_def_enums.deep_view(),
                    top_def_enums.deep_view().len(),
                )
                &&& typed.len() == top_def_enums.len()
                &&& forall|i: int|
                    0 <= i < typed.len() ==> top_def_typed(#[trigger] typed.deep_view()[i])
            },
            Err(errs) => {
                &&& errs.len() > 0
                &&& errs.deep_view() == sem_errors(
                    old(ctx).deep_view(),
                    top_def_enums.deep_view(),
                    top_def_enums.deep_view().len(),
                )
            },
        },
        forall|i: nat|
            i < top_def_enums.deep_view().len() && (#[trigger] sem_nth_def(
                old(ctx).deep_view(),
                top_def_enums.deep_view(),
                i,
            )).result is Ok ==> final(ctx).deep_view().has_family(
                declared_key(
                    ctx_before(old(ctx).deep_view(), top_def_enums.deep_view(), i),
                    top_def_enums.deep_view()[i as int]->Fn_0,
                ),
            ),
{
    let ghost start = old(ctx).deep_view();
    let ghost defs = top_def_enums.deep_view();
    let n: usize = top_def_enums.len();
    let mut typed: Vec<TopDefEnum> = Vec::new();
    let mut errs: Vec<SemError> = Vec::new();
    let mut rest = reversed(top_def_enums);
    let mut i: usize = 0;
    assert(typed.deep_view() =~= Seq::<TopDefEnumView>::empty());
    assert(errs.deep_view() =~= Seq::<SemErrorView>::empty());
    proof {
        lemma_keeps_families_same(start, ctx.deep_view());
        reveal(families_declared);
    }
    while i < n
        invariant
            i <= n,
            n == defs.len(),
            rest.len() == n - i,
            forall|j: int| 0 <= j < rest.len() ==> (#[trigger] rest@[j]).deep_view() == defs[n - 1 - j],
            ctx.wf(),
            ctx.deep_view() == ctx_before(start, defs, i as nat),
            ctx.deep_view().qual_stack == start.qual_stack,
            keeps_families(start, ctx.deep_view()),
            typed.deep_view() == sem_typed_defs(start, defs, i as nat),
            errs.deep_view() == sem_errors(start, defs, i as nat),
            errs.len() == 0 ==> typed.len() == i,
            forall|j: int| 0 <= j < typed.len() ==> top_def_typed(#[trigger] typed.deep_view()[j]),
            families_declared(start, defs, i as nat, ctx.deep_view()),
        decreases n - i,
    {
        let top_def_enum = rest.pop().unwrap();
        let ghost before_typed = typed.deep_view();
        let ghost before_errs = errs.deep_view();
        let ghost before_ctx = ctx.deep_view();
        assert(top_def_enum.deep_view() == defs[i as int]);
        match visit_top_def(ctx, top_def_enum) {
            Ok(d) => {
                let ghost view = d.deep_view();
                typed.push(d);
                assert(typed.deep_view() =~= before_typed.push(view));
                assert(before_errs + Seq::<SemErrorView>::empty() =~= before_errs);
            },
            Err(mut es) => {
                let ghost added = es.deep_view();
                errs.append(&mut es);
                assert(errs.deep_view() =~= before_errs + added);
            },
        }
        proof {
            lemma_keeps_families_trans(start, before_ctx, ctx.deep_view());
            lemma_families_declared_step(start, defs, i as nat, before_ctx, ctx.deep_view());
        }
        i += 1;
    }
    proof {
        reveal(families_declared);
    }
    if errs.len() == 0 {
        Ok(typed)
    } else {
        Err(errs)
    }
}

} // verus!
