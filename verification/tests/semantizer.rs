use akaneclib::ast::{ExprEnum, TopDefEnum};
use akaneclib::context::SemContext;
use akaneclib::fn_sem::{FnKey, FnSem};
use akaneclib::lexer::lex;
use akaneclib::parser::parse;
use akaneclib::qual_sem::{QualKey, QualSem, ScopeSem};
use akaneclib::sem::{Sem, SemVal};
use akaneclib::semantizer::{semantize, SemError, SemErrorKind};
use akaneclib::store::StoreError;
use akaneclib::ty_sem::{TyKey, TySem};

fn parsed(source: &str) -> Vec<TopDefEnum> {
    parse(lex(source).unwrap()).unwrap()
}

fn analysed(source: &str) -> (SemContext, Result<Vec<TopDefEnum>, Vec<SemError>>) {
    let mut ctx = SemContext::new();
    let result = semantize(&mut ctx, parsed(source));
    (ctx, result)
}

fn family(ctx: &SemContext, name: &str) -> Vec<FnSem> {
    ctx.ranked_fn_store.get(&FnKey::new(QualKey::top(), name.to_owned())).unwrap()
}

fn has_family(ctx: &SemContext, name: &str) -> bool {
    ctx.ranked_fn_store.contains(&FnKey::new(QualKey::top(), name.to_owned()))
}

fn slice_of(source: &str, err: &SemError) -> String {
    let chars: Vec<char> = source.chars().collect();
    err.info.slice(&chars)
}

#[test]
fn context_starts_with_the_builtins() {
    let ctx = SemContext::new();
    let i64_ty = TySem::get_from_name(&ctx, "i64").unwrap();
    assert_eq!(i64_ty.arity(), 0);
    assert_eq!(i64_ty.logical_name(), "i64");
    for (name, arity, printed) in [
        ("negate", 1, "i64 -> i64"),
        ("add", 2, "i64 -> i64 -> i64"),
        ("sub", 2, "i64 -> i64 -> i64"),
        ("mul", 2, "i64 -> i64 -> i64"),
        ("div", 2, "i64 -> i64 -> i64"),
        ("pipelineL", 2, "(i64 -> i64 -> i64) -> i64 -> i64"),
    ] {
        let fs = family(&ctx, name);
        assert_eq!(fs.len(), arity + 1);
        assert_eq!(fs[0].arity, arity);
        assert_eq!(fs[0].ty.logical_name(), printed);
    }
    assert_eq!(ctx.qual_stack.iter(), vec![QualKey::top()]);
}

#[test]
fn family_is_saturated() {
    let (ctx, result) = analysed("fn f a b c = a + b * c;");
    assert!(result.is_ok());
    let fs = family(&ctx, "f");
    assert_eq!(fs.len(), 4);
    for (k, f) in fs.iter().enumerate() {
        assert_eq!(f.rank(), k);
        assert_eq!(f.arity, 3);
        assert_eq!(f.ty.arity(), 3 - k);
        assert_eq!(f.name, format!("f..{}", k));
        assert_eq!(FnSem::get_with_rank(&ctx, QualKey::top(), "f".to_owned(), k).unwrap(), *f);
        assert_eq!(f.id, fs[0].id + k);
    }
    assert_eq!(fs[0].ty.logical_name(), "i64 -> i64 -> i64 -> i64");
    assert_eq!(fs[3].ty.logical_name(), "i64");
}

#[test]
fn family_is_linked() {
    let (ctx, result) = analysed("fn f a b = a + b;");
    assert!(result.is_ok());
    let fs = family(&ctx, "f");
    for k in 0..2 {
        let next = ctx.next_fn_store.get(&fs[k].to_key()).unwrap();
        assert_eq!(next, fs[k + 1]);
        assert_eq!(next.name, fs[k + 1].name);
        assert_eq!(fs[k].ty.to_out_ty().unwrap(), fs[k + 1].ty);
    }
    assert!(ctx.next_fn_store.get(&fs[2].to_key()).is_err());
}

#[test]
fn unknown_function_is_one_diagnostic_at_its_name() {
    let source = "fn f = g;";
    let (_, result) = analysed(source);
    let errs = result.unwrap_err();
    assert_eq!(errs.len(), 1);
    assert_eq!(errs[0].kind, SemErrorKind::UnknownFunction("g".to_owned()));
    assert_eq!(slice_of(source, &errs[0]), "g");
    assert_eq!(errs[0].message(), "(1, 8): Unknown function: `g`");
    let chars: Vec<char> = source.chars().collect();
    assert_eq!(
        errs[0].report(&chars),
        "(1, 8): Unknown function: `g`\nfn f = g;\n       ^"
    );
}

#[test]
fn argument_count_mismatch_is_one_diagnostic() {
    let (_, result) = analysed("ty i64 -> i64 fn f a b = a + b;");
    let errs = result.unwrap_err();
    assert_eq!(errs.len(), 1);
    assert_eq!(errs[0].kind, SemErrorKind::ArgCountMismatch("f".to_owned()));
    assert_eq!(
        errs[0].message(),
        "(1, 18): Different argument count between type annotation and function definition: `f`"
    );
}

#[test]
fn other_diagnostics_of_a_definition() {
    let kinds = |source: &str| -> Vec<SemErrorKind> {
        analysed(source).1.unwrap_err().into_iter().map(|e| e.kind).collect()
    };
    assert_eq!(kinds("ty i32 fn f = 0;"), vec![SemErrorKind::UnknownType("i32".to_owned())]);
    assert_eq!(
        kinds("ty i32 -> u8 fn f a = 0;"),
        vec![SemErrorKind::UnknownType("i32".to_owned()), SemErrorKind::UnknownType("u8".to_owned())]
    );
    assert_eq!(
        kinds("fn f = 1; fn f = 2;"),
        vec![SemErrorKind::DuplicateFunction("f".to_owned())]
    );
    assert_eq!(kinds("fn add a = a;"), vec![SemErrorKind::DuplicateFunction("add".to_owned())]);
    assert_eq!(kinds("ty i64 fn f = add;"), vec![SemErrorKind::BodyTypeMismatch("f".to_owned())]);
    assert_eq!(kinds("fn f = 1 2;"), vec![SemErrorKind::NotAFunction]);
    assert_eq!(
        kinds("fn f = g h;"),
        vec![
            SemErrorKind::UnknownFunction("g".to_owned()),
            SemErrorKind::UnknownFunction("h".to_owned())
        ]
    );
    assert_eq!(
        kinds("fn f a a = a;"),
        vec![SemErrorKind::Store(StoreError::Duplicated("fn f.a..0".to_owned()))]
    );
}

#[test]
fn one_malformed_definition_does_not_lose_the_others() {
    let (ctx, result) = analysed("fn f a = a + 1; fn g = h; fn k a b = f a + b;");
    let errs = result.unwrap_err();
    assert_eq!(errs.len(), 1);
    assert_eq!(errs[0].kind, SemErrorKind::UnknownFunction("h".to_owned()));
    assert_eq!(family(&ctx, "f").len(), 2);
    assert_eq!(family(&ctx, "k").len(), 3);
    assert_eq!(ctx.qual_stack.iter(), vec![QualKey::top()]);
}

#[test]
fn slots_are_filled() {
    let (ctx, result) = analysed("fn add_one a = a + 1;");
    let defs = result.unwrap();
    assert!(defs[0].is_typed());
    let TopDefEnum::Fn(def) = &defs[0];
    assert_eq!(def.fn_key.as_ref().unwrap().logical_name(), "add_one..0");
    let arg_sems = def.arg_sems.as_ref().unwrap();
    assert_eq!(arg_sems.len(), 1);
    assert_eq!(arg_sems[0].logical_name(), "add_one.a..0");
    assert_eq!(arg_sems[0].description(), "fn add_one.a..0");
    let i64_ty = TySem::get_from_name(&ctx, "i64").unwrap();
    assert_eq!(def.expr.ty_sem.as_ref().unwrap(), &i64_ty);
    assert_eq!(def.expr.fn_sem.as_ref().unwrap().name, "add..2");
    let ExprEnum::Fn(outer) = &def.expr.expr_enum else { panic!("an application was expected") };
    assert_eq!(outer.fn_expr.fn_sem.as_ref().unwrap().name, "add..1");
    assert_eq!(outer.fn_expr.ty_sem.as_ref().unwrap().logical_name(), "i64 -> i64");
    assert_eq!(outer.arg_expr.fn_sem.as_ref().unwrap().name, "1..0");
    let ExprEnum::Fn(inner) = &outer.fn_expr.expr_enum else {
        panic!("an application was expected")
    };
    assert_eq!(inner.fn_expr.fn_sem.as_ref().unwrap().name, "add..0");
    assert_eq!(inner.arg_expr.fn_sem.as_ref().unwrap().logical_name(), "add_one.a..0");
    assert!(has_family(&ctx, "1"));
}

#[test]
fn unsemantized_definitions_are_not_typed() {
    let defs = parsed("fn f = 1;");
    assert!(!defs[0].is_typed());
}

#[test]
fn annotation_is_interned_under_the_top_qualifier() {
    let (ctx, result) = analysed("ty (i64 -> i64) -> i64 fn f g = g 1;");
    assert!(result.is_ok());
    let fs = family(&ctx, "f");
    assert_eq!(fs[0].ty.logical_name(), "(i64 -> i64) -> i64");
    assert!(ctx.ty_store.contains(&TyKey::from_name("(i64 -> i64) -> i64")));
    let (arg_tys, ret_ty) = akaneclib::sem::Replica::replica(&fs[0].ty).to_arg_and_ret_tys();
    assert_eq!(arg_tys.len(), 1);
    assert_eq!(arg_tys[0].logical_name(), "i64 -> i64");
    assert_eq!(ret_ty.logical_name(), "i64");
}

#[test]
fn literal_that_is_too_large_is_an_unknown_function() {
    let (_, result) = analysed("fn f = 9223372036854775808;");
    let errs = result.unwrap_err();
    assert_eq!(errs[0].kind, SemErrorKind::UnknownFunction("9223372036854775808".to_owned()));
    let (_, result) = analysed("fn f = 9223372036854775807;");
    assert!(result.is_ok());
}

#[test]
fn scopes_are_pushed_and_popped() {
    let mut ctx = SemContext::new();
    let key = ctx.push_scope_into_qual_stack(ScopeSem::Fn("f".to_owned()));
    assert_eq!(key.logical_name(), "f");
    let inner = ctx.push_scope_into_qual_stack(ScopeSem::Fn("g".to_owned()));
    assert_eq!(inner.description(), "fn f.fn g");
    assert_eq!(ctx.qual_stack.peek(), inner);
    assert_eq!(ctx.qual_stack.iter().len(), 3);
    assert_eq!(QualSem::new_or_get(&mut ctx, &inner).id, 2);
    assert_eq!(ctx.pop_scope().unwrap(), inner);
    assert_eq!(ctx.pop_scope().unwrap(), key);
    assert!(ctx.pop_scope().is_err());
    assert_eq!(ctx.qual_stack.iter(), vec![QualKey::top()]);
}
