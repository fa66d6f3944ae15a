use akaneclib::ast::{
    fn_ast as make_fn_ast, fn_def_ast as make_fn_def_ast, fn_expr_ast as make_fn_expr_ast,
    ident_ast as make_ident_ast, ident_expr_ast as make_ident_expr_ast,
    infix_op_ast as make_infix_op_ast, left_fn_def_ast as make_left_fn_def_ast,
    prefix_op_ast as make_prefix_op_ast, top_fn_def_ast as make_top_fn_def_ast,
    ty_arrow_ast as make_ty_arrow_ast, ty_arrow_expr_ast as make_ty_arrow_expr_ast,
    ty_ident_ast as make_ty_ident_ast, ty_ident_expr_ast as make_ty_ident_expr_ast, ExprAst,
    ExprEnum, FnAst, FnDefAst, IdentAst, LeftFnDefAst, TopDefEnum, TyArrowAst, TyExprAst,
    TyExprEnum, TyIdentAst,
};
use akaneclib::lexer::lex;
use akaneclib::parser::{parse as parse_tokens, ParseError, ParseErrorKind};
use akaneclib::str_info::StrInfo;

fn dummy_info() -> StrInfo {
    StrInfo { line: 0, column: 0, start: 0, end: 0, line_start: 0, line_end: 0 }
}

fn without_spans_ty(e: TyExprAst) -> TyExprAst {
    let expr_enum = match e.expr_enum {
        TyExprEnum::Arrow(arrow) => TyExprEnum::Arrow(TyArrowAst {
            lhs: Box::new(without_spans_ty(*arrow.lhs)),
            rhs: Box::new(without_spans_ty(*arrow.rhs)),
            str_info: dummy_info(),
        }),
        TyExprEnum::Ident(ident) => {
            TyExprEnum::Ident(TyIdentAst { name: ident.name, str_info: dummy_info() })
        }
    };
    TyExprAst { expr_enum, ty_sem: e.ty_sem, str_info: dummy_info() }
}

fn without_spans_expr(e: ExprAst) -> ExprAst {
    let expr_enum = match e.expr_enum {
        ExprEnum::Fn(f) => ExprEnum::Fn(FnAst {
            fn_expr: Box::new(without_spans_expr(*f.fn_expr)),
            arg_expr: Box::new(without_spans_expr(*f.arg_expr)),
            str_info: dummy_info(),
        }),
        ExprEnum::Ident(ident) => {
            ExprEnum::Ident(IdentAst { name: ident.name, str_info: dummy_info() })
        }
    };
    ExprAst { expr_enum, ty_sem: e.ty_sem, fn_sem: e.fn_sem, str_info: dummy_info() }
}

fn without_spans(def: TopDefEnum) -> TopDefEnum {
    match def {
        TopDefEnum::Fn(d) => TopDefEnum::Fn(FnDefAst {
            ty_annot: d.ty_annot.map(without_spans_ty),
            left_fn_def: LeftFnDefAst {
                name: d.left_fn_def.name,
                args: d.left_fn_def.args,
                str_info: dummy_info(),
            },
            expr: without_spans_expr(d.expr),
            fn_key: d.fn_key,
            arg_sems: d.arg_sems,
            str_info: dummy_info(),
        }),
    }
}

fn parse_with_spans(s: &str) -> Vec<TopDefEnum> {
    parse_tokens(lex(s).unwrap()).unwrap()
}

fn parse(s: &str) -> Vec<TopDefEnum> {
    parse_with_spans(s).into_iter().map(without_spans).collect()
}

fn parse_errs(s: &str) -> Vec<ParseError> {
    parse_tokens(lex(s).unwrap()).unwrap_err()
}

fn top_fn_def_ast(fn_def_ast: FnDefAst) -> TopDefEnum {
    make_top_fn_def_ast(fn_def_ast)
}

fn fn_def_ast(ty_annot: Option<TyExprAst>, left_fn_def: LeftFnDefAst, expr: ExprAst) -> FnDefAst {
    make_fn_def_ast(ty_annot, left_fn_def, expr, dummy_info())
}

fn ty_arrow_expr_ast(ty_arrow: TyArrowAst) -> TyExprAst {
    make_ty_arrow_expr_ast(ty_arrow, dummy_info())
}

fn ty_ident_expr_ast(ty_ident: TyIdentAst) -> TyExprAst {
    make_ty_ident_expr_ast(ty_ident, dummy_info())
}

fn ty_arrow_ast(lhs: TyExprAst, rhs: TyExprAst) -> TyArrowAst {
    make_ty_arrow_ast(lhs, rhs, dummy_info())
}

fn ty_ident_ast(name: &str) -> TyIdentAst {
    make_ty_ident_ast(name.to_owned(), dummy_info())
}

fn left_fn_def_ast(name: &str, args: &[&str]) -> LeftFnDefAst {
    make_left_fn_def_ast(
        name.to_owned(),
        args.iter().map(|s| (*s).to_owned()).collect(),
        dummy_info(),
    )
}

fn fn_expr_ast(fn_ast: FnAst) -> ExprAst {
    make_fn_expr_ast(fn_ast, dummy_info())
}

fn ident_expr_ast(ident_ast: IdentAst) -> ExprAst {
    make_ident_expr_ast(ident_ast, dummy_info())
}

fn fn_ast(fn_expr: ExprAst, arg_expr: ExprAst) -> FnAst {
    make_fn_ast(fn_expr, arg_expr, dummy_info())
}

fn prefix_op_ast(op_code: &str, rhs: ExprAst) -> FnAst {
    make_prefix_op_ast(op_code.to_owned(), rhs, dummy_info(), dummy_info())
}

fn infix_op_ast(op_code: &str, lhs: ExprAst, rhs: ExprAst) -> FnAst {
    make_infix_op_ast(op_code.to_owned(), lhs, rhs, dummy_info(), dummy_info(), dummy_info())
}

fn ident_ast(name: &str) -> IdentAst {
    make_ident_ast(name.to_owned(), dummy_info())
}

#[test]
fn parse_empty() {
    assert_eq!(parse(""), &[]);
}

#[test]
fn parse_arg() {
    assert_eq!(
        parse("fn f a = 0"),
        &[top_fn_def_ast(fn_def_ast(
            None,
            left_fn_def_ast("f", &["a"]),
            ident_expr_ast(ident_ast("0"))
        ))]
    );
    assert_eq!(
        parse("fn f a b = a + b"),
        &[top_fn_def_ast(fn_def_ast(
            None,
            left_fn_def_ast("f", &["a", "b"]),
            fn_expr_ast(infix_op_ast(
                "add",
                ident_expr_ast(ident_ast("a")),
                ident_expr_ast(ident_ast("b"))
            ))
        ))]
    );
}

#[test]
fn parse_ident() {
    assert_eq!(
        parse("fn f = a"),
        &[top_fn_def_ast(fn_def_ast(
            None,
            left_fn_def_ast("f", &[]),
            ident_expr_ast(ident_ast("a"))
        ))]
    );
    assert_eq!(
        parse("fn f = f"),
        &[top_fn_def_ast(fn_def_ast(
            None,
            left_fn_def_ast("f", &[]),
            ident_expr_ast(ident_ast("f"))
        ))]
    );
}

#[test]
fn parse_num() {
    assert_eq!(
        parse("fn f = 0"),
        &[top_fn_def_ast(fn_def_ast(
            None,
            left_fn_def_ast("f", &[]),
            ident_expr_ast(ident_ast("0"))
        ))]
    );
    assert_eq!(
        parse("fn f = 123"),
        &[top_fn_def_ast(fn_def_ast(
            None,
            left_fn_def_ast("f", &[]),
            ident_expr_ast(ident_ast("123"))
        ))]
    );
}

#[test]
fn parse_fn() {
    assert_eq!(
        parse("fn f = g a"),
        &[top_fn_def_ast(fn_def_ast(
            None,
            left_fn_def_ast("f", &[]),
            fn_expr_ast(fn_ast(ident_expr_ast(ident_ast("g")), ident_expr_ast(ident_ast("a"))))
        ))]
    );
    assert_eq!(
        parse("fn f = g a b"),
        &[top_fn_def_ast(fn_def_ast(
            None,
            left_fn_def_ast("f", &[]),
            fn_expr_ast(fn_ast(
                fn_expr_ast(fn_ast(
                    ident_expr_ast(ident_ast("g")),
                    ident_expr_ast(ident_ast("a"))
                )),
                ident_expr_ast(ident_ast("b"))
            ))
        ))]
    );
}

#[test]
fn parse_infix_op() {
    assert_eq!(
        parse("fn f = a + 1"),
        &[top_fn_def_ast(fn_def_ast(
            None,
            left_fn_def_ast("f", &[]),
            fn_expr_ast(infix_op_ast(
                "add",
                ident_expr_ast(ident_ast("a")),
                ident_expr_ast(ident_ast("1"))
            ))
        ))]
    );
    assert_eq!(
        parse("fn f = g a + g b + c"),
        &[top_fn_def_ast(fn_def_ast(
            None,
            left_fn_def_ast("f", &[]),
            fn_expr_ast(infix_op_ast(
                "add",
                fn_expr_ast(infix_op_ast(
                    "add",
                    fn_expr_ast(fn_ast(
                        ident_expr_ast(ident_ast("g")),
                        ident_expr_ast(ident_ast("a"))
                    )),
                    fn_expr_ast(fn_ast(
                        ident_expr_ast(ident_ast("g")),
                        ident_expr_ast(ident_ast("b"))
                    ))
                )),
                ident_expr_ast(ident_ast("c"))
            ))
        ))]
    );
}

#[test]
fn parse_infix_op_prec() {
    assert_eq!(
        parse("fn f = a * b + c"),
        &[top_fn_def_ast(fn_def_ast(
            None,
            left_fn_def_ast("f", &[]),
            fn_expr_ast(infix_op_ast(
                "add",
                fn_expr_ast(infix_op_ast(
                    "mul",
                    ident_expr_ast(ident_ast("a")),
                    ident_expr_ast(ident_ast("b"))
                )),
                ident_expr_ast(ident_ast("c"))
            ))
        ))]
    );
    assert_eq!(
        parse("fn f = a + b * c"),
        &[top_fn_def_ast(fn_def_ast(
            None,
            left_fn_def_ast("f", &[]),
            fn_expr_ast(infix_op_ast(
                "add",
                ident_expr_ast(ident_ast("a")),
                fn_expr_ast(infix_op_ast(
                    "mul",
                    ident_expr_ast(ident_ast("b")),
                    ident_expr_ast(ident_ast("c"))
                ))
            ))
        ))]
    );
}

#[test]
fn parse_infix_op_right_assoc() {
    assert_eq!(
        parse("fn f = a <| b <| c"),
        &[top_fn_def_ast(fn_def_ast(
            None,
            left_fn_def_ast("f", &[]),
            fn_expr_ast(infix_op_ast(
                "pipelineL",
                ident_expr_ast(ident_ast("a")),
                fn_expr_ast(infix_op_ast(
                    "pipelineL",
                    ident_expr_ast(ident_ast("b")),
                    ident_expr_ast(ident_ast("c"))
                )),
            ))
        ))]
    );
}

#[test]
fn parse_paren() {
    assert_eq!(
        parse("fn f = (a + b) + c"),
        &[top_fn_def_ast(fn_def_ast(
            None,
            left_fn_def_ast("f", &[]),
            fn_expr_ast(infix_op_ast(
                "add",
                fn_expr_ast(infix_op_ast(
                    "add",
                    ident_expr_ast(ident_ast("a")),
                    ident_expr_ast(ident_ast("b"))
                )),
                ident_expr_ast(ident_ast("c"))
            ))
        ))]
    );
    assert_eq!(
        parse("fn f = a + (b + c)"),
        &[top_fn_def_ast(fn_def_ast(
            None,
            left_fn_def_ast("f", &[]),
            fn_expr_ast(infix_op_ast(
                "add",
                ident_expr_ast(ident_ast("a")),
                fn_expr_ast(infix_op_ast(
                    "add",
                    ident_expr_ast(ident_ast("b")),
                    ident_expr_ast(ident_ast("c"))
                ))
            ))
        ))]
    );
}

#[test]
fn parse_prefix_op() {
    assert_eq!(
        parse("fn f = -1"),
        &[top_fn_def_ast(fn_def_ast(
            None,
            left_fn_def_ast("f", &[]),
            fn_expr_ast(prefix_op_ast("negate", ident_expr_ast(ident_ast("1"))))
        ))]
    );
    assert_eq!(
        parse("fn f = -a + 1"),
        &[top_fn_def_ast(fn_def_ast(
            None,
            left_fn_def_ast("f", &[]),
            fn_expr_ast(infix_op_ast(
                "add",
                fn_expr_ast(prefix_op_ast("negate", ident_expr_ast(ident_ast("a")))),
                ident_expr_ast(ident_ast("1"))
            ))
        ))]
    );
}

#[test]
fn parse_ty_annot() {
    assert_eq!(
        parse("ty i32 fn f = 0"),
        &[top_fn_def_ast(fn_def_ast(
            Some(ty_ident_expr_ast(ty_ident_ast("i32"))),
            left_fn_def_ast("f", &[]),
            ident_expr_ast(ident_ast("0"))
        ))]
    );
    assert_eq!(
        parse("ty i32 -> i32 -> i32 fn f a b = a + b"),
        &[top_fn_def_ast(fn_def_ast(
            Some(ty_arrow_expr_ast(ty_arrow_ast(
                ty_ident_expr_ast(ty_ident_ast("i32")),
                ty_arrow_expr_ast(ty_arrow_ast(
                    ty_ident_expr_ast(ty_ident_ast("i32")),
                    ty_ident_expr_ast(ty_ident_ast("i32")),
                ))
            ))),
            left_fn_def_ast("f", &["a", "b"]),
            fn_expr_ast(infix_op_ast(
                "add",
                ident_expr_ast(ident_ast("a")),
                ident_expr_ast(ident_ast("b"))
            ))
        ))]
    );
    assert_eq!(
        parse("ty (i32 -> i32) -> i32 fn f a b = a + b"),
        &[top_fn_def_ast(fn_def_ast(
            Some(ty_arrow_expr_ast(ty_arrow_ast(
                ty_arrow_expr_ast(ty_arrow_ast(
                    ty_ident_expr_ast(ty_ident_ast("i32")),
                    ty_ident_expr_ast(ty_ident_ast("i32")),
                )),
                ty_ident_expr_ast(ty_ident_ast("i32")),
            ))),
            left_fn_def_ast("f", &["a", "b"]),
            fn_expr_ast(infix_op_ast(
                "add",
                ident_expr_ast(ident_ast("a")),
                ident_expr_ast(ident_ast("b"))
            ))
        ))]
    );
}

#[test]
fn parse_all_operators_of_the_table() {
    assert_eq!(
        parse("fn f = a - b / c"),
        &[top_fn_def_ast(fn_def_ast(
            None,
            left_fn_def_ast("f", &[]),
            fn_expr_ast(infix_op_ast(
                "sub",
                ident_expr_ast(ident_ast("a")),
                fn_expr_ast(infix_op_ast(
                    "div",
                    ident_expr_ast(ident_ast("b")),
                    ident_expr_ast(ident_ast("c"))
                ))
            ))
        ))]
    );
    assert_eq!(
        parse("fn f = a <| b + c"),
        &[top_fn_def_ast(fn_def_ast(
            None,
            left_fn_def_ast("f", &[]),
            fn_expr_ast(infix_op_ast(
                "pipelineL",
                ident_expr_ast(ident_ast("a")),
                fn_expr_ast(infix_op_ast(
                    "add",
                    ident_expr_ast(ident_ast("b")),
                    ident_expr_ast(ident_ast("c"))
                ))
            ))
        ))]
    );
}

#[test]
fn parse_spans_cover_the_tokens_of_each_node() {
    let source = "fn f a = g a + 12";
    let chars: Vec<char> = source.chars().collect();
    let defs = parse_with_spans(source);
    let TopDefEnum::Fn(def) = &defs[0];
    assert_eq!(def.str_info.slice(&chars), "fn f a = g a + 12");
    assert_eq!(def.left_fn_def.str_info.slice(&chars), "f a");
    assert_eq!(def.expr.str_info.slice(&chars), "g a + 12");
    let ExprEnum::Fn(outer) = &def.expr.expr_enum else { panic!("an application was expected") };
    assert_eq!(outer.arg_expr.str_info.slice(&chars), "12");
    let ExprEnum::Fn(inner) = &outer.fn_expr.expr_enum else {
        panic!("an application was expected")
    };
    assert_eq!(inner.fn_expr.str_info.slice(&chars), "+");
    assert_eq!(inner.arg_expr.str_info.slice(&chars), "g a");
    assert_eq!(def.str_info.line_slice(&chars), source);
    assert_eq!((def.expr.str_info.line, def.expr.str_info.column), (1, 10));
}

#[test]
fn parse_errors_name_what_is_missing() {
    let kinds = |s: &str| parse_errs(s).iter().map(|e| e.kind).collect::<Vec<_>>();
    assert_eq!(kinds("fn f = ;"), vec![ParseErrorKind::ExprRequired]);
    assert_eq!(kinds("fn f a b"), vec![ParseErrorKind::EqualRequired]);
    assert_eq!(
        kinds("fn = 1"),
        vec![
            ParseErrorKind::LeftFnDefRequired,
            ParseErrorKind::InvalidTopDef,
            ParseErrorKind::InvalidTopDef
        ]
    );
    assert_eq!(kinds("fn f = (a"), vec![ParseErrorKind::RParenRequired]);
    assert_eq!(
        kinds("fn f = ()"),
        vec![ParseErrorKind::ExprRequired, ParseErrorKind::InvalidTopDef]
    );
    assert_eq!(kinds("fn f = a +"), vec![ParseErrorKind::TermRequired]);
    assert_eq!(kinds("fn f = a >>= b"), vec![ParseErrorKind::InvalidInfixOp]);
    assert_eq!(kinds("fn f = +a"), vec![ParseErrorKind::InvalidPrefixOp]);
    assert_eq!(
        kinds("ty i64 -> fn f = 1"),
        vec![
            ParseErrorKind::TypeTermRequired,
            ParseErrorKind::InvalidTopDef,
            ParseErrorKind::InvalidTopDef,
            ParseErrorKind::InvalidTopDef,
            ParseErrorKind::InvalidTopDef
        ]
    );
    assert_eq!(
        kinds("fn f = a b) ;"),
        vec![ParseErrorKind::SemicolonRequired, ParseErrorKind::InvalidTopDef]
    );
    assert_eq!(kinds("ty fn"), vec![ParseErrorKind::LeftFnDefRequired]);
    assert_eq!(
        kinds("ty i64 f = 1"),
        vec![
            ParseErrorKind::InvalidTopDef,
            ParseErrorKind::InvalidTopDef,
            ParseErrorKind::InvalidTopDef,
            ParseErrorKind::InvalidTopDef
        ]
    );
}

#[test]
fn parse_goes_on_behind_an_error() {
    let errs = parse_errs("fn f = ; fn g = 1;");
    assert_eq!(errs.len(), 1);
    assert_eq!(errs[0].kind, ParseErrorKind::ExprRequired);
    assert_eq!(errs[0].pos, 3);
    assert_eq!((errs[0].info.line, errs[0].info.column), (1, 8));
}
