//! The syntax tree: top-level function definitions, type expressions and expressions.
//!
//! Every node carries its span. Expressions, type expressions and definitions also
//! carry slots for what the semantic pass finds out about them; the parser leaves
//! the slots empty.

use vstd::prelude::*;
use crate::fn_sem::{FnKey, FnSem, FnSemView};
use crate::qual_sem::NameKeyView;
use crate::str_info::StrInfo;
use crate::ty_sem::{TySem, TySemView};

verus! {

/// A top-level definition.
#[derive(Debug, PartialEq)]
pub enum TopDefEnum {
    Fn(FnDefAst),
}

/// A function definition: `ty <type> fn <name> <args> = <body>`, the type being
/// optional.
#[derive(Debug, PartialEq)]
pub struct FnDefAst {
    pub ty_annot: Option<TyExprAst>,
    pub left_fn_def: LeftFnDefAst,
    pub expr: ExprAst,
    /// The key of the head of the family that the definition declares.
    pub fn_key: Option<FnKey>,
    /// One function symbol per argument, in the scope of the body.
    pub arg_sems: Option<Vec<FnSem>>,
    pub str_info: StrInfo,
}

/// A type expression and the type it denotes.
#[derive(Debug, PartialEq)]
pub struct TyExprAst {
    pub expr_enum: TyExprEnum,
    pub ty_sem: Option<TySem>,
    pub str_info: StrInfo,
}

#[derive(Debug, PartialEq)]
pub enum TyExprEnum {
    Arrow(TyArrowAst),
    Ident(TyIdentAst),
}

/// `lhs -> rhs`.
#[derive(Debug, PartialEq)]
pub struct TyArrowAst {
    pub lhs: Box<TyExprAst>,
    pub rhs: Box<TyExprAst>,
    pub str_info: StrInfo,
}

#[derive(Clone, Debug, PartialEq)]
pub struct TyIdentAst {
    pub name: String,
    pub str_info: StrInfo,
}

/// The left-hand side of a definition: the name of the function and of its arguments.
#[derive(Clone, Debug, PartialEq)]
pub struct LeftFnDefAst {
    pub name: String,
    pub args: Vec<String>,
    pub str_info: StrInfo,
}

/// An expression, its type and the function symbol it denotes.
#[derive(Debug, PartialEq)]
pub struct ExprAst {
    pub expr_enum: ExprEnum,
    pub ty_sem: Option<TySem>,
    pub fn_sem: Option<FnSem>,
    pub str_info: StrInfo,
}

#[derive(Debug, PartialEq)]
pub enum ExprEnum {
    /// The application of a function to one argument.
    Fn(FnAst),
    /// A name or an integer literal.
    Ident(IdentAst),
}

#[derive(Debug, PartialEq)]
pub struct FnAst {
    pub fn_expr: Box<ExprAst>,
    pub arg_expr: Box<ExprAst>,
    pub str_info: StrInfo,
}

#[derive(Clone, Debug, PartialEq)]
pub struct IdentAst {
    pub name: String,
    pub str_info: StrInfo,
}

pub enum TopDefEnumView {
    Fn(FnDefAstView),
}

pub struct FnDefAstView {
    pub ty_annot: Option<TyExprAstView>,
    pub left_fn_def: LeftFnDefAstView,
    pub expr: ExprAstView,
    pub fn_key: Option<NameKeyView>,
    pub arg_sems: Option<Seq<FnSemView>>,
    pub str_info: StrInfo,
}

pub struct TyExprAstView {
    pub expr_enum: TyExprEnumView,
    pub ty_sem: Option<TySemView>,
    pub str_info: StrInfo,
}

pub enum TyExprEnumView {
    Arrow(TyArrowAstView),
    Ident(TyIdentAstView),
}

pub struct TyArrowAstView {
    pub lhs: Box<TyExprAstView>,
    pub rhs: Box<TyExprAstView>,
    pub str_info: StrInfo,
}

pub struct TyIdentAstView {
    pub name: Seq<char>,
    pub str_info: StrInfo,
}

pub struct LeftFnDefAstView {
    pub name: Seq<char>,
    pub args: Seq<Seq<char>>,
    pub str_info: StrInfo,
}

pub struct ExprAstView {
    pub expr_enum: ExprEnumView,
    pub ty_sem: Option<TySemView>,
    pub fn_sem: Option<FnSemView>,
    pub str_info: StrInfo,
}

pub enum ExprEnumView {
    Fn(FnAstView),
    Ident(IdentAstView),
}

pub struct FnAstView {
    pub fn_expr: Box<ExprAstView>,
    pub arg_expr: Box<ExprAstView>,
    pub str_info: StrInfo,
}

pub struct IdentAstView {
    pub name: Seq<char>,
    pub str_info: StrInfo,
}

pub open spec fn ty_expr_view(e: TyExprAst) -> TyExprAstView
    decreases e,
{
    TyExprAstView {
        expr_enum: match e.expr_enum {
            TyExprEnum::Arrow(arrow) => TyExprEnumView::Arrow(
                TyArrowAstView {
                    lhs: Box::new(ty_expr_view(*arrow.lhs)),
                    rhs: Box::new(ty_expr_view(*arrow.rhs)),
                    str_info: arrow.str_info,
                },
            ),
            TyExprEnum::Ident(ident) => TyExprEnumView::Ident(
                TyIdentAstView { name: ident.name@, str_info: ident.str_info },
            ),
        },
        ty_sem: e.ty_sem.deep_view(),
        str_info: e.str_info,
    }
}

pub open spec fn expr_view(e: ExprAst) -> ExprAstView
    decreases e,
{
    ExprAstView {
        expr_enum: match e.expr_enum {
            ExprEnum::Fn(f) => ExprEnumView::Fn(
                FnAstView {
                    fn_expr: Box::new(expr_view(*f.fn_expr)),
                    arg_expr: Box::new(expr_view(*f.arg_expr)),
                    str_info: f.str_info,
                },
            ),
            ExprEnum::Ident(ident) => ExprEnumView::Ident(
                IdentAstView { name: ident.name@, str_info: ident.str_info },
            ),
        },
        ty_sem: e.ty_sem.deep_view(),
        fn_sem: e.fn_sem.deep_view(),
        str_info: e.str_info,
    }
}

impl DeepView for TyIdentAst {
    type V = TyIdentAstView;

    open spec fn deep_view(&self) -> TyIdentAstView {
        TyIdentAstView { name: self.name@, str_info: self.str_info }
    }
}

impl DeepView for TyArrowAst {
    type V = TyArrowAstView;

    open spec fn deep_view(&self) -> TyArrowAstView {
        TyArrowAstView {
            lhs: Box::new(ty_expr_view(*self.lhs)),
            rhs: Box::new(ty_expr_view(*self.rhs)),
            str_info: self.str_info,
        }
    }
}

impl DeepView for TyExprEnum {
    type V = TyExprEnumView;

    open spec fn deep_view(&self) -> TyExprEnumView {
        match self {
            TyExprEnum::Arrow(arrow) => TyExprEnumView::Arrow(arrow.deep_view()),
            TyExprEnum::Ident(ident) => TyExprEnumView::Ident(ident.deep_view()),
        }
    }
}

impl DeepView for TyExprAst {
    type V = TyExprAstView;

    open spec fn deep_view(&self) -> TyExprAstView {
        ty_expr_view(*self)
    }
}

impl DeepView for IdentAst {
    type V = IdentAstView;

    open spec fn deep_view(&self) -> IdentAstView {
        IdentAstView { name: self.name@, str_info: self.str_info }
    }
}

impl DeepView for FnAst {
    type V = FnAstView;

    open spec fn deep_view(&self) -> FnAstView {
        FnAstView {
            fn_expr: Box::new(expr_view(*self.fn_expr)),
            arg_expr: Box::new(expr_view(*self.arg_expr)),
            str_info: self.str_info,
        }
    }
}

impl DeepView for ExprEnum {
    type V = ExprEnumView;

    open spec fn deep_view(&self) -> ExprEnumView {
        match self {
            ExprEnum::Fn(f) => ExprEnumView::Fn(f.deep_view()),
            ExprEnum::Ident(ident) => ExprEnumView::Ident(ident.deep_view()),
        }
    }
}

impl DeepView for ExprAst {
    type V = ExprAstView;

    open spec fn deep_view(&self) -> ExprAstView {
        expr_view(*self)
    }
}

impl DeepView for LeftFnDefAst {
    type V = LeftFnDefAstView;

    open spec fn deep_view(&self) -> LeftFnDefAstView {
        LeftFnDefAstView {
            name: self.name@,
            args: self.args.deep_view(),
            str_info: self.str_info,
        }
    }
}

impl DeepView for FnDefAst {
    type V = FnDefAstView;

    open spec fn deep_view(&self) -> FnDefAstView {
        FnDefAstView {
            ty_annot: self.ty_annot.deep_view(),
            left_fn_def: self.left_fn_def.deep_view(),
            expr: self.expr.deep_view(),
            fn_key: self.fn_key.deep_view(),
            arg_sems: self.arg_sems.deep_view(),
            str_info: self.str_info,
        }
    }
}

impl DeepView for TopDefEnum {
    type V = TopDefEnumView;

    open spec fn deep_view(&self) -> TopDefEnumView {
        match self {
            TopDefEnum::Fn(fn_def) => TopDefEnumView::Fn(fn_def.deep_view()),
        }
    }
}

impl TyExprAstView {
    /// The type expression that is the name `name`.
    pub open spec fn ident(name: Seq<char>, str_info: StrInfo) -> TyExprAstView {
        TyExprAstView {
            expr_enum: TyExprEnumView::Ident(TyIdentAstView { name, str_info }),
            ty_sem: None,
            str_info,
        }
    }

    /// The type expression `lhs -> rhs`.
    pub open spec fn arrow(lhs: TyExprAstView, rhs: TyExprAstView, str_info: StrInfo) -> TyExprAstView {
        TyExprAstView {
            expr_enum: TyExprEnumView::Arrow(
                TyArrowAstView { lhs: Box::new(lhs), rhs: Box::new(rhs), str_info },
            ),
            ty_sem: None,
            str_info,
        }
    }
}

impl ExprAstView {
    /// The expression that is the name or literal `name`.
    pub open spec fn ident(name: Seq<char>, str_info: StrInfo) -> ExprAstView {
        ExprAstView {
            expr_enum: ExprEnumView::Ident(IdentAstView { name, str_info }),
            ty_sem: None,
            fn_sem: None,
            str_info,
        }
    }

    /// The application of `fn_expr` to `arg_expr`.
    pub open spec fn apply(fn_expr: ExprAstView, arg_expr: ExprAstView, str_info: StrInfo) -> ExprAstView {
        ExprAstView {
            expr_enum: ExprEnumView::Fn(
                FnAstView { fn_expr: Box::new(fn_expr), arg_expr: Box::new(arg_expr), str_info },
            ),
            ty_sem: None,
            fn_sem: None,
            str_info,
        }
    }

    /// A prefix operator applied to `rhs`: the application of the function `op_name`.
    pub open spec fn prefix_op(
        op_name: Seq<char>,
        rhs: ExprAstView,
        str_info: StrInfo,
        op_code_info: StrInfo,
    ) -> ExprAstView {
        Self::apply(Self::ident(op_name, op_code_info), rhs, str_info)
    }

    /// An infix operator between `lhs` and `rhs`: the function `op_name` applied to
    /// `lhs`, and the result applied to `rhs`.
    pub open spec fn infix_op(
        op_name: Seq<char>,
        lhs: ExprAstView,
        rhs: ExprAstView,
        str_info: StrInfo,
        op_code_info: StrInfo,
        lhs_info: StrInfo,
    ) -> ExprAstView {
        Self::apply(Self::apply(Self::ident(op_name, op_code_info), lhs, lhs_info), rhs, str_info)
    }
}

impl FnDefAstView {
    pub open spec fn new(
        ty_annot: Option<TyExprAstView>,
        left_fn_def: LeftFnDefAstView,
        expr: ExprAstView,
        str_info: StrInfo,
    ) -> FnDefAstView {
        FnDefAstView { ty_annot, left_fn_def, expr, fn_key: None, arg_sems: None, str_info }
    }
}

pub fn top_fn_def_ast(fn_def_ast: FnDefAst) -> (ast: TopDefEnum)
    ensures
        ast == TopDefEnum::Fn(fn_def_ast),
{
    TopDefEnum::Fn(fn_def_ast)
}

pub fn fn_def_ast(
    ty_annot: Option<TyExprAst>,
    left_fn_def: LeftFnDefAst,
    expr: ExprAst,
    str_info: StrInfo,
) -> (ast: FnDefAst)
    ensures
        ast == (FnDefAst { ty_annot, left_fn_def, expr, fn_key: None, arg_sems: None, str_info }),
        ast.deep_view() == FnDefAstView::new(
            ty_annot.deep_view(),
            left_fn_def.deep_view(),
            expr.deep_view(),
            str_info,
        ),
{
    FnDefAst { ty_annot, left_fn_def, expr, fn_key: None, arg_sems: None, str_info }
}

pub fn ty_arrow_expr_ast(ty_arrow: TyArrowAst, str_info: StrInfo) -> (ast: TyExprAst)
    ensures
        ast == (TyExprAst { expr_enum: TyExprEnum::Arrow(ty_arrow), ty_sem: None, str_info }),
        ast.deep_view() == (TyExprAstView {
            expr_enum: TyExprEnumView::Arrow(ty_arrow.deep_view()),
            ty_sem: None,
            str_info,
        }),
{
    TyExprAst { expr_enum: TyExprEnum::Arrow(ty_arrow), ty_sem: None, str_info }
}

pub fn ty_ident_expr_ast(ty_ident: TyIdentAst, str_info: StrInfo) -> (ast: TyExprAst)
    ensures
        ast == (TyExprAst { expr_enum: TyExprEnum::Ident(ty_ident), ty_sem: None, str_info }),
        ast.deep_view() == (TyExprAstView {
            expr_enum: TyExprEnumView::Ident(ty_ident.deep_view()),
            ty_sem: None,
            str_info,
        }),
{
    TyExprAst { expr_enum: TyExprEnum::Ident(ty_ident), ty_sem: None, str_info }
}

pub fn ty_arrow_ast(lhs: TyExprAst, rhs: TyExprAst, str_info: StrInfo) -> (ast: TyArrowAst)
    ensures
        ast.deep_view() == (TyArrowAstView {
            lhs: Box::new(lhs.deep_view()),
            rhs: Box::new(rhs.deep_view()),
            str_info,
        }),
{
    TyArrowAst { lhs: Box::new(lhs), rhs: Box::new(rhs), str_info }
}

pub fn ty_ident_ast(name: String, str_info: StrInfo) -> (ast: TyIdentAst)
    ensures
        ast == (TyIdentAst { name, str_info }),
{
    TyIdentAst { name, str_info }
}

pub fn left_fn_def_ast(name: String, args: Vec<String>, str_info: StrInfo) -> (ast: LeftFnDefAst)
    ensures
        ast == (LeftFnDefAst { name, args, str_info }),
{
    LeftFnDefAst { name, args, str_info }
}

pub fn fn_expr_ast(fn_ast: FnAst, str_info: StrInfo) -> (ast: ExprAst)
    ensures
        ast == (ExprAst { expr_enum: ExprEnum::Fn(fn_ast), ty_sem: None, fn_sem: None, str_info }),
        ast.deep_view() == (ExprAstView {
            expr_enum: ExprEnumView::Fn(fn_ast.deep_view()),
            ty_sem: None,
            fn_sem: None,
            str_info,
        }),
{
    ExprAst { expr_enum: ExprEnum::Fn(fn_ast), ty_sem: None, fn_sem: None, str_info }
}

pub fn ident_expr_ast(ident_ast: IdentAst, str_info: StrInfo) -> (ast: ExprAst)
    ensures
        ast == (ExprAst {
            expr_enum: ExprEnum::Ident(ident_ast),
            ty_sem: None,
            fn_sem: None,
            str_info,
        }),
        ast.deep_view() == (ExprAstView {
            expr_enum: ExprEnumView::Ident(ident_ast.deep_view()),
            ty_sem: None,
            fn_sem: None,
            str_info,
        }),
{
    ExprAst { expr_enum: ExprEnum::Ident(ident_ast), ty_sem: None, fn_sem: None, str_info }
}

pub fn fn_ast(fn_expr: ExprAst, arg_expr: ExprAst, str_info: StrInfo) -> (ast: FnAst)
    ensures
        ast.deep_view() == (FnAstView {
            fn_expr: Box::new(fn_expr.deep_view()),
            arg_expr: Box::new(arg_expr.deep_view()),
            str_info,
        }),
{
    FnAst { fn_expr: Box::new(fn_expr), arg_expr: Box::new(arg_expr), str_info }
}

/// The application that a prefix operator stands for.
pub fn prefix_op_ast(op_code: String, rhs: ExprAst, str_info: StrInfo, op_code_info: StrInfo) -> (ast:
    FnAst)
    ensures
        fn_expr_ast_view(ast.deep_view(), str_info) == ExprAstView::prefix_op(
            op_code@,
            rhs.deep_view(),
            str_info,
            op_code_info,
        ),
{
    fn_ast(ident_expr_ast(ident_ast(op_code, op_code_info), op_code_info), rhs, str_info)
}

/// The two nested applications that an infix operator stands for.
#[verifier::rlimit(50)]
pub fn infix_op_ast(
    op_code: String,
    lhs: ExprAst,
    rhs: ExprAst,
    str_info: StrInfo,
    op_code_info: StrInfo,
    lhs_info: StrInfo,
) -> (ast: FnAst)
    ensures
        fn_expr_ast_view(ast.deep_view(), str_info) == ExprAstView::infix_op(
            op_code@,
            lhs.deep_view(),
            rhs.deep_view(),
            str_info,
            op_code_info,
            lhs_info,
        ),
{
    fn_ast(
        fn_expr_ast(
            fn_ast(
                ident_expr_ast(ident_ast(op_code, op_code_info), op_code_info),
                lhs,
                lhs_info,
            ),
            lhs_info,
        ),
        rhs,
        str_info,
    )
}

pub fn ident_ast(name: String, str_info: StrInfo) -> (ast: IdentAst)
    ensures
        ast == (IdentAst { name, str_info }),
{
    IdentAst { name, str_info }
}

/// The expression node around an application.
pub open spec fn fn_expr_ast_view(fn_ast: FnAstView, str_info: StrInfo) -> ExprAstView {
    ExprAstView { expr_enum: ExprEnumView::Fn(fn_ast), ty_sem: None, fn_sem: None, str_info }
}

/// Every expression of the tree has its type and its function symbol.
pub open spec fn expr_typed(e: ExprAstView) -> bool
    decreases e,
{
    &&& e.ty_sem is Some
    &&& e.fn_sem is Some
    &&& match e.expr_enum {
        ExprEnumView::Ident(_) => true,
        ExprEnumView::Fn(f) => expr_typed(*f.fn_expr) && expr_typed(*f.arg_expr),
    }
}

/// The slots of the definition and of its body are filled.
pub open spec fn fn_def_typed(d: FnDefAstView) -> bool {
    d.fn_key is Some && d.arg_sems is Some && expr_typed(d.expr)
}

pub open spec fn top_def_typed(d: TopDefEnumView) -> bool {
    match d {
        TopDefEnumView::Fn(fn_def) => fn_def_typed(fn_def),
    }
}

impl ExprAst {
    /// Whether every expression of the tree has its type and its function symbol.
    pub fn is_typed(&self) -> (b: bool)
        ensures
            b == expr_typed(self.deep_view()),
        decreases self,
    {
        if self.ty_sem.is_none() || self.fn_sem.is_none() {
            return false;
        }
        match &self.expr_enum {
            ExprEnum::Ident(_) => true,
            ExprEnum::Fn(f) => f.fn_expr.is_typed() && f.arg_expr.is_typed(),
        }
    }
}

impl FnDefAst {
    /// Whether the slots of the definition and of its body are filled.
    pub fn is_typed(&self) -> (b: bool)
        ensures
            b == fn_def_typed(self.deep_view()),
    {
        self.fn_key.is_some() && self.arg_sems.is_some() && self.expr.is_typed()
    }
}

impl TopDefEnum {
    /// Whether the slots of the definition and of its body are filled.
    pub fn is_typed(&self) -> (b: bool)
        ensures
            b == top_def_typed(self.deep_view()),
    {
        match self {
            TopDefEnum::Fn(fn_def) => fn_def.is_typed(),
        }
    }
}

} // verus!
