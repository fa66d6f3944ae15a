use akaneclib::context::{QualStack, SemContext};
use akaneclib::diagnostics::located_message;
use akaneclib::fn_sem::{name_with_rank, FnKey, FnSem};
use akaneclib::lexer::lex;
use akaneclib::parser::{parse, ParseErrorKind};
use akaneclib::qual_sem::{QualKey, QualSem, ScopeSem};
use akaneclib::sem::{KeyEq, Replica, Sem, SemVal};
use akaneclib::store::{GenericStore, IdStore, StoreError};
use akaneclib::str_info::{StrInfo, StrInfoIter};
use akaneclib::text::{chars_of, find_double_dot, parse_nat_literal, push_decimal, text_is};
use akaneclib::token::{ident, int_token, semicolon, TokenInfo};
use akaneclib::ty_sem::{Ty1Key, Ty1Sem, Ty2Key, Ty2Sem, TyKey, TySem};

fn key(name: &str) -> FnKey {
    FnKey::new(QualKey::top(), name.to_owned())
}

#[test]
fn str_info_extend_takes_the_start_of_the_one_and_the_end_of_the_other() {
    let head = StrInfo::new(2, 3, 10, 12, 8, 20);
    let tail = StrInfo::new(4, 1, 30, 35, 28, 40);
    assert_eq!(head.extend(&tail), StrInfo::new(2, 3, 10, 35, 8, 20));
    assert_eq!(head.extend(&head), head);
}

#[test]
fn str_info_marks_the_span_in_its_line() {
    let source = chars_of("fn f =\n  abc + 1;\n");
    let info = StrInfo::new(2, 3, 9, 12, 7, 17);
    assert_eq!(info.slice(&source), "abc");
    assert_eq!(info.line_slice(&source), "  abc + 1;");
    assert_eq!(info.underline(), "  ^^^");
    assert_eq!(info.target_part_of_line(&source), "  abc + 1;\n  ^^^");
    let to_the_end = StrInfo::new(2, 9, 15, 40, 7, 17);
    assert_eq!(to_the_end.underline(), "        ^^");
    let behind_the_line = StrInfo::new(2, 20, 30, 31, 7, 17);
    assert_eq!(behind_the_line.underline(), "                       ");
    let empty = StrInfo::new(0, 0, 0, 0, 0, 0);
    assert_eq!(empty.target_part_of_line(&source), "\n");
    let beyond = StrInfo::new(1, 1, 100, 200, 90, 300);
    assert_eq!(beyond.slice(&source), "");
    assert_eq!(beyond.line_slice(&source), "");
}

#[test]
fn str_info_iter_counts_lines_and_columns() {
    let mut iter = StrInfoIter::new("a\r\nbc\n");
    assert_eq!(iter.peek(), Some('a'));
    let mut seen = Vec::new();
    while let Some((info, c)) = iter.next() {
        seen.push((c, info.line, info.column, info.start, info.end, info.line_start, info.line_end));
    }
    assert_eq!(
        seen,
        vec![
            ('a', 1, 1, 0, 1, 0, 1),
            ('\r', 1, 2, 1, 2, 0, 1),
            ('\n', 2, 0, 2, 3, 0, 1),
            ('b', 2, 1, 3, 4, 3, 5),
            ('c', 2, 2, 4, 5, 3, 5),
            ('\n', 3, 0, 5, 6, 3, 5),
        ]
    );
    assert_eq!(iter.peek(), None);
    assert_eq!(iter.next(), None);
}

#[test]
fn decimal_texts() {
    let mut s = String::from("n=");
    push_decimal(&mut s, 0);
    push_decimal(&mut s, 7);
    push_decimal(&mut s, 1234567890);
    assert_eq!(s, "n=071234567890");
    assert_eq!(name_with_rank("f".to_owned(), 12), "f..12");
    assert_eq!(located_message(&StrInfo::new(3, 14, 0, 0, 0, 0), "text"), "(3, 14): text");
}

#[test]
fn integer_literals() {
    assert_eq!(parse_nat_literal("0"), Some(0));
    assert_eq!(parse_nat_literal("007"), Some(7));
    assert_eq!(parse_nat_literal("9223372036854775807"), Some(i64::MAX));
    assert_eq!(parse_nat_literal("9223372036854775808"), None);
    assert_eq!(parse_nat_literal("99999999999999999999999"), None);
    assert_eq!(parse_nat_literal(""), None);
    assert_eq!(parse_nat_literal("12a"), None);
    assert_eq!(parse_nat_literal("-1"), None);
    assert_eq!(parse_nat_literal("+1"), None);
}

#[test]
fn double_dots_are_found() {
    assert_eq!(find_double_dot("f..0"), Some(1));
    assert_eq!(find_double_dot("a.b..c..d"), Some(3));
    assert_eq!(find_double_dot(".."), Some(0));
    assert_eq!(find_double_dot("a.b"), None);
    assert_eq!(find_double_dot("."), None);
    assert_eq!(find_double_dot(""), None);
    assert!(text_is(&"ty".to_owned(), "ty"));
    assert!(!text_is(&"ty".to_owned(), "t"));
}

#[test]
fn fn_key_without_rank_cuts_at_the_first_pair_of_dots() {
    let ranked = FnKey::new_with_rank(QualKey::top(), "f".to_owned(), 3);
    assert_eq!(ranked.name, "f..3");
    assert_eq!(ranked.without_rank(), key("f"));
    assert_eq!(key("f").without_rank(), key("f"));
    assert_eq!(key("a..b..2").without_rank(), key("a"));
    let inner = QualKey::top().pushed(ScopeSem::Fn("f".to_owned()));
    let arg = FnKey::new_with_rank(inner.replica(), "a".to_owned(), 0);
    assert_eq!(arg.logical_name(), "f.a..0");
    assert_eq!(arg.description(), "fn f.a..0");
    assert_eq!(arg.without_rank().logical_name(), "f.a");
    assert!(arg.same(&FnKey::new(inner, "a..0".to_owned())));
    assert!(!arg.same(&key("a..0")));
}

#[test]
fn qualifier_names() {
    let top = QualKey::top();
    assert!(top.is_top());
    assert_eq!(top.logical_name(), "");
    assert_eq!(top.qualify_logical_name("."), "");
    assert_eq!(top.qualify_description("::"), "");
    let f = top.pushed(ScopeSem::Fn("f".to_owned()));
    let g = f.pushed(ScopeSem::Fn("g".to_owned()));
    assert!(!g.is_top());
    assert_eq!(g.qualify_logical_name_self("/"), "f/g");
    assert_eq!(g.qualify_logical_name("/"), "f/g/");
    assert_eq!(g.qualify_description_self("."), "fn f.fn g");
    assert_eq!(g.qualify_description("."), "fn f.fn g.");
    assert_eq!(g.prefix(1), f);
    assert_eq!(g.prefix(0), top);
    assert!(g.same(&QualKey::new(vec![ScopeSem::Fn("f".to_owned()), ScopeSem::Fn("g".to_owned())])));
    assert!(!g.same(&f));
    assert_eq!(ScopeSem::Fn("f".to_owned()).logical_name(), "f");
    assert_eq!(ScopeSem::Fn("f".to_owned()).description(), "fn f");
}

#[test]
fn qualifiers_are_interned_with_the_qualifiers_before_them() {
    let mut ctx = SemContext::new();
    let g = QualKey::top()
        .pushed(ScopeSem::Fn("f".to_owned()))
        .pushed(ScopeSem::Fn("g".to_owned()));
    let qual = QualSem::new_or_get(&mut ctx, &g);
    assert_eq!(qual.id, 2);
    assert_eq!(qual.to_key(), g);
    assert_eq!(g.prefix(1).get_val(&ctx).unwrap().id, 1);
    assert_eq!(QualSem::top(&mut ctx).id, 0);
    assert_eq!(QualSem::new_or_get(&mut ctx, &g).id, 2);
    assert_eq!(ctx.qual_store.next_id(), 3);
    let missing = g.pushed(ScopeSem::Fn("h".to_owned()));
    assert_eq!(
        missing.get_val(&ctx).unwrap_err(),
        StoreError::NotFound("fn f.fn g.fn h".to_owned())
    );
}

#[test]
fn types_are_interned_once() {
    let mut ctx = SemContext::new();
    let top = QualSem::top(&mut ctx);
    let i64_ty = TySem::get_from_name(&ctx, "i64").unwrap();
    let again = TySem::new_or_get_ty1(&mut ctx, top.replica(), "i64".to_owned());
    assert!(again.same_ty(&i64_ty));
    let bool_ty = TySem::new_or_get_ty1(&mut ctx, top.replica(), "bool".to_owned());
    assert!(!bool_ty.same_ty(&i64_ty));
    assert_eq!(bool_ty.arity(), 0);
    assert!(bool_ty.to_out_ty().is_none());
    let f = TySem::new_or_get_ty2(&mut ctx, top.replica(), bool_ty.replica(), i64_ty.replica());
    assert_eq!(f.logical_name(), "bool -> i64");
    assert_eq!(f.arity(), 1);
    assert!(f.to_out_ty().unwrap().same_ty(&i64_ty));
    let g = TySem::new_or_get_fn_ty(
        &mut ctx,
        top.replica(),
        vec![f.replica(), bool_ty.replica()],
        i64_ty.replica(),
    )
    .unwrap();
    assert_eq!(g.logical_name(), "(bool -> i64) -> bool -> i64");
    assert_eq!(g.arity(), 2);
    assert!(g.to_out_ty().unwrap().same_ty(&f));
    let (args, ret) = g.replica().to_arg_and_ret_tys();
    assert_eq!(args.len(), 2);
    assert!(args[0].same_ty(&f) && args[1].same_ty(&bool_ty) && ret.same_ty(&i64_ty));
    assert!(TySem::get(&ctx, QualKey::top(), "bool -> i64".to_owned()).unwrap().same_ty(&f));
    assert!(TyKey::from_name("bool").get(&ctx).unwrap().same_ty(&bool_ty));
    assert_eq!(
        TySem::get_from_name(&ctx, "u8").unwrap_err(),
        StoreError::NotFound("u8".to_owned())
    );
    assert_eq!(Ty2Sem::name(&f, &g), "(bool -> i64) -> (bool -> i64) -> bool -> i64");
    let ty1 = Ty1Sem::new_or_get(&mut ctx, top.replica(), "bool".to_owned());
    assert_eq!(Ty1Key::new(QualKey::top(), "bool".to_owned()).get_val(&ctx).unwrap(), ty1);
    let ty2 = Ty2Sem::new_or_get(&mut ctx, top, bool_ty, i64_ty);
    assert_eq!(ty2.arity, 1);
    assert_eq!(Ty2Key::new(QualKey::top(), "bool -> i64".to_owned()).get_val(&ctx).unwrap(), ty2);
}

#[test]
fn families_are_new_or_got() {
    let mut ctx = SemContext::new();
    let top = QualSem::top(&mut ctx);
    let add = FnSem::get(&ctx, QualKey::top(), "add..0".to_owned()).unwrap();
    let bin_op_ty = add.ty.replica();
    let next_id = ctx.fn_store.next_id();
    let fs = FnSem::new(&mut ctx, top.replica(), "plus".to_owned(), bin_op_ty.replica()).unwrap();
    assert_eq!(fs.iter().map(|f| f.name.as_str()).collect::<Vec<_>>(), ["plus..0", "plus..1", "plus..2"]);
    assert_eq!(fs.iter().map(|f| f.id).collect::<Vec<_>>(), [next_id, next_id + 1, next_id + 2]);
    assert_eq!(
        FnSem::new(&mut ctx, top.replica(), "plus".to_owned(), bin_op_ty.replica()).unwrap_err(),
        StoreError::Duplicated("plus..0".to_owned())
    );
    assert_eq!(ctx.fn_store.next_id(), next_id + 3);
    let got = FnSem::new_or_get(&mut ctx, top.replica(), "plus".to_owned(), add.ty.to_out_ty().unwrap());
    assert_eq!(got, fs);
    let i64_ty = TySem::get_from_name(&ctx, "i64").unwrap();
    let made = FnSem::new_or_get(&mut ctx, top, "42".to_owned(), i64_ty);
    assert_eq!(made.len(), 1);
    assert_eq!(made[0].name, "42..0");
    assert_eq!(key("plus..1").get(&ctx).unwrap(), fs[1]);
    assert_eq!(ctx.find_fn(&"plus".to_owned()).unwrap(), fs[0]);
    assert!(ctx.find_fn(&"minus".to_owned()).is_none());
    assert!(ctx.find_ty(&"i64".to_owned()).is_some());
    assert!(ctx.find_ty(&"i32".to_owned()).is_none());
    let found = ctx.find_with_qual(|ctx: &SemContext, qual: QualSem| {
        FnSem::get_with_rank(ctx, qual.to_key(), "plus".to_owned(), 2).ok()
    });
    assert_eq!(found.unwrap(), fs[2]);
}

#[test]
fn id_store_gives_ids_in_the_order_of_insertion() {
    let mut store: IdStore<FnKey, String> = IdStore::new();
    assert_eq!(store.next_id(), 0);
    assert_eq!(store.insert(key("a"), "A".to_owned()).unwrap(), "A");
    assert_eq!(store.insert(key("a"), "B".to_owned()), Err(StoreError::Duplicated("a".to_owned())));
    assert_eq!(store.insert_or_get(key("a"), "C".to_owned()), "A");
    assert_eq!(store.insert_or_get(key("b"), "D".to_owned()), "D");
    assert_eq!(store.next_id(), 2);
    assert_eq!(store.get(&key("b")).unwrap(), "D");
    assert_eq!(store.get(&key("c")), Err(StoreError::NotFound("c".to_owned())));
    assert_eq!(store.force_insert(key("a"), "E".to_owned()), "E");
    assert_eq!(store.get(&key("a")).unwrap(), "E");
    assert_eq!(store.vals(), vec!["A".to_owned(), "D".to_owned(), "E".to_owned()]);
    assert!(store.contains(&key("a")) && !store.contains(&key("c")));
    assert_eq!(
        StoreError::Duplicated("a".to_owned()).message(),
        "Registration duplicated: `a`"
    );
    assert_eq!(StoreError::NotFound("c".to_owned()).message(), "Key not found: `c`");
}

#[test]
fn generic_store_keeps_values_under_keys() {
    let mut store: GenericStore<FnKey, Vec<String>> = GenericStore::new();
    assert_eq!(store.insert(key("a"), vec!["x".to_owned()]), Ok(()));
    assert_eq!(
        store.insert(key("a"), Vec::new()),
        Err(StoreError::Duplicated("a".to_owned()))
    );
    assert_eq!(store.insert_or_get(key("a"), Vec::new()), vec!["x".to_owned()]);
    assert_eq!(store.insert_or_get(key("b"), Vec::new()), Vec::<String>::new());
    store.push_into_vec(&key("a"), "y".to_owned());
    store.push_into_vec(&key("c"), "z".to_owned());
    assert_eq!(store.get(&key("a")).unwrap(), vec!["x".to_owned(), "y".to_owned()]);
    assert_eq!(store.get(&key("c")).unwrap(), vec!["z".to_owned()]);
    assert_eq!(store.get(&key("d")), Err(StoreError::NotFound("d".to_owned())));
    let entries = store.keys_and_vals();
    assert_eq!(
        entries.iter().map(|(k, v)| (k.name.as_str(), v.len())).collect::<Vec<_>>(),
        [("a", 2), ("b", 0), ("c", 1)]
    );
}

#[test]
fn qual_stack_keeps_the_top_qualifier() {
    let mut stack = QualStack::new();
    assert_eq!(stack.peek(), QualKey::top());
    assert!(stack.pop().is_err());
    let f = QualSem { id: 1, scopes: vec![ScopeSem::Fn("f".to_owned())] };
    assert_eq!(stack.push(&f), f.to_key());
    assert_eq!(stack.iter(), vec![f.to_key(), QualKey::top()]);
    assert_eq!(stack.pop().unwrap(), f.to_key());
    assert!(stack.pop().is_err());
    assert_eq!(stack.peek(), QualKey::top());
}

#[test]
fn tokens_are_compared_by_kind_and_text() {
    assert!(ident("a".to_owned()).same(&ident("a".to_owned())));
    assert!(!ident("a".to_owned()).same(&ident("b".to_owned())));
    assert!(!ident("1".to_owned()).same(&int_token("1".to_owned())));
    assert!(semicolon().is_semicolon() && !ident(";".to_owned()).is_semicolon());
    let info = StrInfo::new(1, 1, 0, 1, 0, 1);
    let token = TokenInfo::new(semicolon(), info);
    assert_eq!((token.0, token.1), (semicolon(), info));
}

#[test]
fn diagnostics_of_the_lexer_and_the_parser_have_their_place() {
    let errs = lex("fn f = a $ b ?? `").unwrap_err();
    assert_eq!(errs.len(), 1);
    assert_eq!(errs[0].message(), "(1, 17): Invalid token found: `\u{60}`");
    let source = "fn f =\n  (1 + ;";
    let errs = parse(lex(source).unwrap()).unwrap_err();
    assert_eq!(errs[0].kind, ParseErrorKind::TermRequired);
    assert_eq!(errs[0].message(), "(2, 8): Term required:");
    assert_eq!(
        errs[0].report(&chars_of(source)),
        "(2, 8): Term required:\n  (1 + ;\n       ^"
    );
    let errs = parse(vec![TokenInfo::new(akaneclib::token::fn_keyword(), StrInfo::new(1, 1, 0, 2, 0, 2))])
        .unwrap_err();
    assert_eq!(errs.len(), 1);
    assert_eq!(errs[0].kind, ParseErrorKind::LeftFnDefRequired);
    assert_eq!(errs[0].pos, 1);
    assert_eq!(errs[0].info, StrInfo::new(1, 1, 0, 2, 0, 2));
}
