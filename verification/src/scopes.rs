//! The context at its start, and the scopes that the semantic pass opens, closes and
//! searches.

use vstd::prelude::*;
use vstd::string::*;
use crate::context::{family_ok, member_ok, SemContext, SemContextView, TopScopePopped, QualStack};
use crate::families::new_family;
use crate::fn_sem::{ranked_key, FnKey, FnSem, FnSemView};
use crate::interning::{lemma_with_ty1, lemma_with_ty2};
use crate::qual_sem::{NameKeyView, QualKey, QualKeyView, QualSem, QualSemView, ScopeSem, ScopeSemView};
use crate::sem::{KeyEq, Replica, SemVal};
use crate::store::{StoreError, StoreErrorView};
use crate::ty_sem::{Ty1Key, Ty1Sem, Ty2Key, Ty2Sem};
use crate::store::{GenericStore, IdStore};
use crate::ty_sem::{ty2_name, TyKey, TySem, TySemView};

verus! {

/// The key of the name `name` under the top qualifier.
pub open spec fn top_key(name: Seq<char>) -> NameKeyView {
    NameKeyView { qual: QualKeyView::top(), name }
}

/// `ty` is the type of functions from `in_ty` to `out_ty`.
pub open spec fn is_fn_ty(ty: TySemView, in_ty: TySemView, out_ty: TySemView) -> bool {
    &&& ty matches TySemView::Ty2(ty2)
    &&& *ty2.in_ty == in_ty
    &&& *ty2.out_ty == out_ty
    &&& ty2.arity == out_ty.arity() + 1
}

/// The built-in types as they are interned, and the context that holds them.
pub struct BuiltinTys {
    pub ctx: SemContextView,
    pub i64_ty: TySemView,
    pub uni_op_ty: TySemView,
    pub bin_op_ty: TySemView,
    pub pipeline_l_ty: TySemView,
}

/// The context `ctx` after the type `i64` and the types of the built-in functions
/// were interned under the qualifier `top`: `i64 -> i64`, `i64 -> i64 -> i64` and
/// `(i64 -> i64 -> i64) -> i64 -> i64`, in this order.
pub open spec fn builtin_tys(ctx: SemContextView, top: QualSemView) -> BuiltinTys {
    let i64_ty = ctx.ty1(top, "i64"@);
    let c1 = ctx.with_ty1(top, "i64"@);
    let uni_op_ty = c1.ty2(top, i64_ty, i64_ty);
    let c2 = c1.with_ty2(top, i64_ty, i64_ty);
    let bin_op_ty = c2.ty2(top, i64_ty, uni_op_ty);
    let c3 = c2.with_ty2(top, i64_ty, uni_op_ty);
    let pipeline_l_ty = c3.ty2(top, bin_op_ty, uni_op_ty);
    let c4 = c3.with_ty2(top, bin_op_ty, uni_op_ty);
    BuiltinTys { ctx: c4, i64_ty, uni_op_ty, bin_op_ty, pipeline_l_ty }
}

impl SemContextView {
    /// The context that knows nothing: the top qualifier is open, and every store is
    /// empty.
    pub open spec fn empty() -> SemContextView {
        SemContextView {
            qual_stack: seq![QualKeyView::top()],
            qual_store: crate::store::IdStoreView::empty(),
            ty_store: crate::store::IdStoreView::empty(),
            ty2_store: crate::store::IdStoreView::empty(),
            ty1_store: crate::store::IdStoreView::empty(),
            fn_store: crate::store::IdStoreView::empty(),
            ranked_fn_store: Map::empty(),
            next_fn_store: Map::empty(),
        }
    }

    /// The context after the family of the built-in function `name` of the type `ty`
    /// was interned under the qualifier `top`.
    pub open spec fn with_builtin_fn(self, top: QualSemView, name: Seq<char>, ty: TySemView) -> SemContextView {
        self.with_family_or_same(
            NameKeyView { qual: top.to_key(), name },
            new_family(self.fn_store.next_id(), top, name, ty),
        )
    }

    /// The context with which every compilation starts: the top qualifier is
    /// interned first, then the built-in types, then the families of `negate`, `add`,
    /// `sub`, `mul`, `div` and `pipelineL`.
    pub open spec fn initial() -> SemContextView {
        let c0 = Self::empty().with_qual(Seq::empty()).with_qual_path(QualKeyView::top());
        let top = c0.qual_store.value(QualKeyView::top());
        let tys = builtin_tys(c0, top);
        tys.ctx.with_builtin_fn(top, "negate"@, tys.uni_op_ty).with_builtin_fn(
            top,
            "add"@,
            tys.bin_op_ty,
        ).with_builtin_fn(top, "sub"@, tys.bin_op_ty).with_builtin_fn(
            top,
            "mul"@,
            tys.bin_op_ty,
        ).with_builtin_fn(top, "div"@, tys.bin_op_ty).with_builtin_fn(
            top,
            "pipelineL"@,
            tys.pipeline_l_ty,
        )
    }

    /// The type of the built-in function `name`.
    pub open spec fn builtin_ty(self, name: Seq<char>) -> TySemView {
        self.ranked_fn_store[top_key(name)][0].ty
    }

    /// The context knows the built-in type and functions, all under the top
    /// qualifier: `i64`; `negate : i64 -> i64`; `add`, `sub`, `mul`, `div` of the
    /// type `i64 -> i64 -> i64`; and `pipelineL : (i64 -> i64 -> i64) -> i64 -> i64`.
    pub open spec fn has_builtins(self) -> bool {
        let i64_ty = self.ty_store.value(top_key("i64"@));
        let uni_op_ty = self.builtin_ty("negate"@);
        let bin_op_ty = self.builtin_ty("add"@);
        &&& self.ty_store.contains(top_key("i64"@))
        &&& i64_ty is Ty1
        &&& self.has_family(top_key("negate"@))
        &&& self.has_family(top_key("add"@))
        &&& self.has_family(top_key("sub"@))
        &&& self.has_family(top_key("mul"@))
        &&& self.has_family(top_key("div"@))
        &&& self.has_family(top_key("pipelineL"@))
        &&& is_fn_ty(uni_op_ty, i64_ty, i64_ty)
        &&& is_fn_ty(bin_op_ty, i64_ty, uni_op_ty)
        &&& self.builtin_ty("sub"@) == bin_op_ty
        &&& self.builtin_ty("mul"@) == bin_op_ty
        &&& self.builtin_ty("div"@) == bin_op_ty
        &&& is_fn_ty(self.builtin_ty("pipelineL"@), bin_op_ty, uni_op_ty)
    }

    /// The innermost open qualifier under which the function `name` has a family.
    pub open spec fn qual_of_fn(self, name: Seq<char>) -> Option<QualKeyView> {
        innermost_with_fn(self.qual_stack, self.ranked_fn_store, name)
    }

    /// The function that the name `name` denotes: the first member of the family
    /// under the innermost open qualifier that has one.
    pub open spec fn fn_named(self, name: Seq<char>) -> Option<FnSemView> {
        match self.qual_of_fn(name) {
            Some(qual) => Some(self.ranked_fn_store[NameKeyView { qual, name }][0]),
            None => None,
        }
    }

    /// The innermost open qualifier under which the type `name` is interned.
    pub open spec fn qual_of_ty(self, name: Seq<char>) -> Option<QualKeyView> {
        innermost_with_ty(self.qual_stack, self.ty_store.ids.dom(), name)
    }

    /// The type that the name `name` denotes.
    pub open spec fn ty_named(self, name: Seq<char>) -> Option<TySemView> {
        match self.qual_of_ty(name) {
            Some(qual) => Some(self.ty_store.value(NameKeyView { qual, name })),
            None => None,
        }
    }
}

/// The last qualifier of `stack` under which the function `name` has a family.
pub open spec fn innermost_with_fn(
    stack: Seq<QualKeyView>,
    ranked: Map<NameKeyView, Seq<FnSemView>>,
    name: Seq<char>,
) -> Option<QualKeyView>
    decreases stack.len(),
{
    if stack.len() == 0 {
        None
    } else if ranked.contains_key(NameKeyView { qual: stack.last(), name }) {
        Some(stack.last())
    } else {
        innermost_with_fn(stack.drop_last(), ranked, name)
    }
}

/// The last qualifier of `stack` under which `name` is among the keys `known`.
pub open spec fn innermost_with_ty(
    stack: Seq<QualKeyView>,
    known: Set<NameKeyView>,
    name: Seq<char>,
) -> Option<QualKeyView>
    decreases stack.len(),
{
    if stack.len() == 0 {
        None
    } else if known.contains(NameKeyView { qual: stack.last(), name }) {
        Some(stack.last())
    } else {
        innermost_with_ty(stack.drop_last(), known, name)
    }
}

impl SemContext {
    /// The context with which every compilation starts: the top qualifier is open,
    /// and the built-in type and functions are interned.
    #[verifier::rlimit(50)]
    pub fn new() -> (ctx: Self)
        ensures
            ctx.wf(),
            ctx.deep_view() == SemContextView::initial(),
            ctx.deep_view().qual_stack == seq![QualKeyView::top()],
            ctx.deep_view().has_builtins(),
    {
        let mut ctx = Self::with_top();
        let top = QualSem::top(&mut ctx);
        let (i64_ty, uni_op_ty, bin_op_ty, pipeline_l_ty) = Self::install_tys(&mut ctx, &top);
        proof {
            reveal_strlit("negate");
            reveal_strlit("add");
            reveal_strlit("sub");
            reveal_strlit("mul");
            reveal_strlit("div");
            reveal_strlit("pipelineL");
            assert("negate"@[0] == 'n');
            assert("add"@[0] == 'a');
            assert("sub"@[0] == 's');
            assert("mul"@[0] == 'm');
            assert("div"@[0] == 'd');
            assert("pipelineL"@[0] == 'p');
        }
        Self::install_fn(&mut ctx, &top, "negate", &uni_op_ty);
        Self::install_fn(&mut ctx, &top, "add", &bin_op_ty);
        Self::install_fn(&mut ctx, &top, "sub", &bin_op_ty);
        Self::install_fn(&mut ctx, &top, "mul", &bin_op_ty);
        Self::install_fn(&mut ctx, &top, "div", &bin_op_ty);
        Self::install_fn(&mut ctx, &top, "pipelineL", &pipeline_l_ty);
        ctx
    }

    /// The context that knows the top qualifier and nothing else.
    #[verifier::rlimit(50)]
    fn with_top() -> (ctx: Self)
        ensures
            ctx.wf(),
            ctx.deep_view() == SemContextView::empty().with_qual(Seq::empty()),
            ctx.deep_view().qual_stack == seq![QualKeyView::top()],
            ctx.deep_view().ranked_fn_store.dom() == Set::<NameKeyView>::empty(),
            forall|key: NameKeyView| !ctx.deep_view().ty_store.contains(key),
            forall|key: NameKeyView| !ctx.deep_view().ty1_store.contains(key),
            forall|key: NameKeyView| !ctx.deep_view().ty2_store.contains(key),
    {
        let mut qual_store: IdStore<QualKey, QualSem> = IdStore::new();
        let top = QualSem { id: qual_store.next_id(), scopes: Vec::new() };
        assert(top.scopes.deep_view() =~= Seq::<ScopeSemView>::empty());
        qual_store.insert_or_get(QualKey::top(), top);
        let ctx = Self {
            qual_stack: QualStack::new(),
            qual_store,
            ty_store: IdStore::new(),
            ty2_store: IdStore::new(),
            ty1_store: IdStore::new(),
            fn_store: IdStore::new(),
            ranked_fn_store: GenericStore::new(),
            next_fn_store: GenericStore::new(),
        };
        proof {
            ctx.qual_store.lemma_view_wf();
            ctx.ty_store.lemma_view_wf();
            ctx.ty1_store.lemma_view_wf();
            ctx.ty2_store.lemma_view_wf();
            ctx.fn_store.lemma_view_wf();
            assert(ctx.deep_view().ranked_fn_store.dom() =~= Set::<NameKeyView>::empty());
        }
        ctx
    }

    /// Interns the built-in type `i64` and the types of the built-in functions.
    #[verifier::rlimit(50)]
    fn install_tys(ctx: &mut SemContext, top: &QualSem) -> (tys: (TySem, TySem, TySem, TySem))
        requires
            old(ctx).wf(),
            top.deep_view().to_key() == QualKeyView::top(),
            forall|key: NameKeyView| !old(ctx).deep_view().ty_store.contains(key),
            forall|key: NameKeyView| !old(ctx).deep_view().ty1_store.contains(key),
            forall|key: NameKeyView| !old(ctx).deep_view().ty2_store.contains(key),
        ensures
            final(ctx).wf(),
            builtin_tys(old(ctx).deep_view(), top.deep_view()) == (BuiltinTys {
                ctx: final(ctx).deep_view(),
                i64_ty: tys.0.deep_view(),
                uni_op_ty: tys.1.deep_view(),
                bin_op_ty: tys.2.deep_view(),
                pipeline_l_ty: tys.3.deep_view(),
            }),
            final(ctx).deep_view().qual_stack == old(ctx).deep_view().qual_stack,
            final(ctx).deep_view().ranked_fn_store == old(ctx).deep_view().ranked_fn_store,
            final(ctx).deep_view().ty_store.contains(top_key("i64"@)),
            final(ctx).deep_view().ty_store.value(top_key("i64"@)) == tys.0.deep_view(),
            tys.0.deep_view() is Ty1,
            tys.0.deep_view().wf(),
            tys.1.deep_view().wf(),
            tys.2.deep_view().wf(),
            tys.3.deep_view().wf(),
            is_fn_ty(tys.1.deep_view(), tys.0.deep_view(), tys.0.deep_view()),
            is_fn_ty(tys.2.deep_view(), tys.0.deep_view(), tys.1.deep_view()),
            is_fn_ty(tys.3.deep_view(), tys.2.deep_view(), tys.1.deep_view()),
    {
        proof {
            reveal_strlit("i64");
        }
        let ghost c0 = ctx.deep_view();
        let i64_ty = TySem::new_or_get_ty1(ctx, top.replica(), String::from_str("i64"));
        let ghost c1 = ctx.deep_view();
        proof {
            ctx.ty_store.lemma_view_wf();
            ctx.ty1_store.lemma_view_wf();
            lemma_with_ty1(c0, top.deep_view(), "i64"@);
        }
        let uni_op_ty = TySem::new_or_get_ty2(ctx, top.replica(), i64_ty.replica(), i64_ty.replica());
        let ghost c2 = ctx.deep_view();
        proof {
            ctx.ty_store.lemma_view_wf();
            ctx.ty2_store.lemma_view_wf();
            lemma_with_ty2(c1, top.deep_view(), i64_ty.deep_view(), i64_ty.deep_view());
            assert(ty2_name(i64_ty.deep_view(), i64_ty.deep_view()).len() == 10);
        }
        let bin_op_ty = TySem::new_or_get_ty2(ctx, top.replica(), i64_ty.replica(), uni_op_ty.replica());
        let ghost c3 = ctx.deep_view();
        proof {
            ctx.ty_store.lemma_view_wf();
            ctx.ty2_store.lemma_view_wf();
            lemma_with_ty2(c2, top.deep_view(), i64_ty.deep_view(), uni_op_ty.deep_view());
            assert(ty2_name(i64_ty.deep_view(), uni_op_ty.deep_view()).len() == 17);
        }
        let pipeline_l_ty = TySem::new_or_get_ty2(
            ctx,
            top.replica(),
            bin_op_ty.replica(),
            uni_op_ty.replica(),
        );
        proof {
            ctx.ty_store.lemma_view_wf();
            ctx.ty2_store.lemma_view_wf();
            lemma_with_ty2(c3, top.deep_view(), bin_op_ty.deep_view(), uni_op_ty.deep_view());
            assert(ty2_name(bin_op_ty.deep_view(), uni_op_ty.deep_view()).len() == 33);
        }
        (i64_ty, uni_op_ty, bin_op_ty, pipeline_l_ty)
    }

    /// Interns the family of the built-in function `name` of the type `ty`.
    fn install_fn(ctx: &mut SemContext, top: &QualSem, name: &str, ty: &TySem)
        requires
            old(ctx).wf(),
            ty.deep_view().wf(),
            top.deep_view().to_key() == QualKeyView::top(),
        ensures
            final(ctx).wf(),
            final(ctx).deep_view() == old(ctx).deep_view().with_builtin_fn(
                top.deep_view(),
                name@,
                ty.deep_view(),
            ),
            final(ctx).deep_view().qual_stack == old(ctx).deep_view().qual_stack,
            final(ctx).deep_view().ty_store == old(ctx).deep_view().ty_store,
            final(ctx).deep_view().ranked_fn_store.dom() == old(
                ctx
            ).deep_view().ranked_fn_store.dom().insert(top_key(name@)),
            forall|key: NameKeyView|
                old(ctx).deep_view().ranked_fn_store.dom().contains(key) ==> #[trigger] final(
                    ctx
                ).deep_view().ranked_fn_store[key] == old(ctx).deep_view().ranked_fn_store[key],
            !old(ctx).deep_view().ranked_fn_store.dom().contains(top_key(name@)) ==> final(
                ctx
            ).deep_view().builtin_ty(name@) == ty.deep_view(),
    {
        proof {
            crate::ty_sem::lemma_ty_shape(ty.deep_view());
        }
        let ghost family = new_family(
            ctx.deep_view().fn_store.next_id(),
            top.deep_view(),
            name@,
            ty.deep_view(),
        );
        assert(family[0].ty == ty.deep_view().nth_out(0));
        FnSem::new_or_get(ctx, top.replica(), String::from_str(name), ty.replica());
        assert(ctx.deep_view().ranked_fn_store.dom() =~= old(
            ctx
        ).deep_view().ranked_fn_store.dom().insert(top_key(name@)));
    }

    /// Opens the scope `scope` inside the innermost open qualifier and gives the key
    /// of the qualifier that is open then.
    pub fn push_scope_into_qual_stack(&mut self, scope: ScopeSem) -> (key: QualKey)
        requires
            old(self).wf(),
        ensures
            final(self).wf(),
            key.deep_view() == old(self).deep_view().qual_stack.last().pushed(scope.deep_view()),
            final(self).deep_view() == (SemContextView {
                qual_stack: old(self).deep_view().qual_stack.push(key.deep_view()),
                ..old(self).deep_view().with_qual_path(key.deep_view())
            }),
            final(self).deep_view().qual_store.contains(key.deep_view()),
    {
        let qual_key = self.qual_stack.peek().pushed(scope);
        let qual = QualSem::new_or_get(self, &qual_key);
        self.qual_stack.push(&qual)
    }

    /// Closes the innermost open qualifier, which must not be the top qualifier.
    pub fn pop_scope(&mut self) -> (r: Result<QualKey, TopScopePopped>)
        requires
            old(self).wf(),
        ensures
            final(self).wf(),
            match r {
                Ok(key) => {
                    &&& crate::context::can_pop(old(self).deep_view().qual_stack)
                    &&& key.deep_view() == old(self).deep_view().qual_stack.last()
                    &&& final(self).deep_view() == (SemContextView {
                        qual_stack: old(self).deep_view().qual_stack.drop_last(),
                        ..old(self).deep_view()
                    })
                },
                Err(_) => {
                    &&& !crate::context::can_pop(old(self).deep_view().qual_stack)
                    &&& final(self).deep_view() == old(self).deep_view()
                },
            },
    {
        self.qual_stack.pop()
    }

    /// The function that `name` denotes where the search begins at the innermost
    /// open qualifier: the first member of the nearest family of that name.
    #[verifier::rlimit(50)]
    pub fn find_fn(&self, name: &String) -> (r: Option<FnSem>)
        requires
            self.wf(),
        ensures
            r.deep_view() == self.deep_view().fn_named(name@),
    {
        let ghost stack = self.deep_view().qual_stack;
        let ghost ranked = self.deep_view().ranked_fn_store;
        let mut i: usize = self.qual_stack.stack.len();
        assert(stack.subrange(0, i as int) =~= stack);
        while i > 0
            invariant
                self.wf(),
                i <= self.qual_stack.stack.len(),
                stack == self.deep_view().qual_stack,
                ranked == self.deep_view().ranked_fn_store,
                innermost_with_fn(stack, ranked, name@) == innermost_with_fn(
                    stack.subrange(0, i as int),
                    ranked,
                    name@,
                ),
            decreases i,
        {
            let ghost prefix = stack.subrange(0, i as int);
            assert(prefix.drop_last() =~= stack.subrange(0, i - 1));
            assert(prefix.last() == self.qual_stack.stack@[i - 1].deep_view());
            let key = FnKey::new(self.qual_stack.stack[i - 1].replica(), name.clone());
            match self.ranked_fn_store.get(&key) {
                Ok(fs) => {
                    proof {
                        let k = key.deep_view();
                        assert(family_ok(
                            self.deep_view().fn_store,
                            self.deep_view().next_fn_store,
                            k,
                            ranked[k],
                        ));
                    }
                    return Some(fs[0].replica());
                },
                Err(_) => {},
            }
            i -= 1;
        }
        None
    }

    /// The type that `name` denotes where the search begins at the innermost open
    /// qualifier.
    #[verifier::rlimit(50)]
    pub fn find_ty(&self, name: &String) -> (r: Option<TySem>)
        requires
            self.wf(),
        ensures
            r.deep_view() == self.deep_view().ty_named(name@),
            r matches Some(ty) ==> ty.deep_view().wf(),
    {
        let ghost stack = self.deep_view().qual_stack;
        let ghost known = self.deep_view().ty_store.ids.dom();
        let mut i: usize = self.qual_stack.stack.len();
        assert(stack.subrange(0, i as int) =~= stack);
        while i > 0
            invariant
                self.wf(),
                i <= self.qual_stack.stack.len(),
                stack == self.deep_view().qual_stack,
                known == self.deep_view().ty_store.ids.dom(),
                innermost_with_ty(stack, known, name@) == innermost_with_ty(
                    stack.subrange(0, i as int),
                    known,
                    name@,
                ),
            decreases i,
        {
            let ghost prefix = stack.subrange(0, i as int);
            assert(prefix.drop_last() =~= stack.subrange(0, i - 1));
            assert(prefix.last() == self.qual_stack.stack@[i - 1].deep_view());
            match TySem::get(self, self.qual_stack.stack[i - 1].replica(), name.clone()) {
                Ok(ty) => {
                    return Some(ty);
                },
                Err(_) => {},
            }
            i -= 1;
        }
        None
    }
}

impl QualKey {
    /// The qualifier that is interned under this key.
    pub fn get_val(&self, ctx: &SemContext) -> (r: Result<QualSem, StoreError>)
        requires
            ctx.wf(),
        ensures
            match r {
                Ok(qual) => {
                    &&& ctx.deep_view().qual_store.contains(self.deep_view())
                    &&& qual.deep_view() == ctx.deep_view().qual_store.value(self.deep_view())
                    &&& qual.deep_view().to_key() == self.deep_view()
                },
                Err(e) => {
                    &&& !ctx.deep_view().qual_store.contains(self.deep_view())
                    &&& e.deep_view() == StoreErrorView::NotFound(self.deep_view().description())
                },
            },
    {
        ctx.qual_store.get(self)
    }
}

impl Ty1Key {
    /// The primitive type that is interned under this key.
    pub fn get_val(&self, ctx: &SemContext) -> (r: Result<Ty1Sem, StoreError>)
        requires
            ctx.wf(),
        ensures
            match r {
                Ok(ty) => {
                    &&& ctx.deep_view().ty1_store.contains(self.deep_view())
                    &&& ty.deep_view() == ctx.deep_view().ty1_store.value(self.deep_view())
                },
                Err(e) => {
                    &&& !ctx.deep_view().ty1_store.contains(self.deep_view())
                    &&& e.deep_view() == StoreErrorView::NotFound(self.deep_view().description())
                },
            },
    {
        ctx.ty1_store.get(self)
    }
}

impl Ty2Key {
    /// The function type that is interned under this key.
    pub fn get_val(&self, ctx: &SemContext) -> (r: Result<Ty2Sem, StoreError>)
        requires
            ctx.wf(),
        ensures
            match r {
                Ok(ty) => {
                    &&& ctx.deep_view().ty2_store.contains(self.deep_view())
                    &&& ty.deep_view() == ctx.deep_view().ty2_store.value(self.deep_view())
                },
                Err(e) => {
                    &&& !ctx.deep_view().ty2_store.contains(self.deep_view())
                    &&& e.deep_view() == StoreErrorView::NotFound(self.deep_view().description())
                },
            },
    {
        ctx.ty2_store.get(self)
    }
}

/// `f` was asked for the qualifier at `i` of the stack of `ctx` and gave `out`.
pub open spec fn gave<T, F: Fn(&SemContext, QualSem) -> Option<T>>(
    ctx: &SemContext,
    f: F,
    i: int,
    out: Option<T>,
) -> bool {
    exists|qual: QualSem|
        qual.deep_view() == ctx.deep_view().qual_store.value(ctx.deep_view().qual_stack[i])
            && #[trigger] call_ensures(f, (ctx, qual), out)
}

impl SemContext {
    /// Asks `f` for each open qualifier, the innermost first, until it gives something:
    /// that is the result. Where it gives nothing for any of them, there is none.
    #[verifier::rlimit(50)]
    pub fn find_with_qual<T, F: Fn(&SemContext, QualSem) -> Option<T>>(&self, f: F) -> (r: Option<T>)
        requires
            self.wf(),
            forall|qual: QualSem| call_requires(f, (self, qual)),
        ensures
            match r {
                Some(x) => exists|i: int|
                    0 <= i < self.deep_view().qual_stack.len() && #[trigger] gave(
                        self,
                        f,
                        i,
                        Some(x),
                    ) && forall|j: int|
                        i < j < self.deep_view().qual_stack.len() ==> gave(self, f, j, None::<T>),
                None => forall|j: int|
                    0 <= j < self.deep_view().qual_stack.len() ==> gave(self, f, j, None::<T>),
            },
    {
        let mut i: usize = self.qual_stack.stack.len();
        while i > 0
            invariant
                self.wf(),
                i <= self.qual_stack.stack.len(),
                forall|qual: QualSem| call_requires(f, (self, qual)),
                forall|j: int|
                    i <= j < self.deep_view().qual_stack.len() ==> gave(self, f, j, None::<T>),
            decreases i,
        {
            assert(self.deep_view().qual_store.contains(self.deep_view().qual_stack[i - 1]));
            assert(self.deep_view().qual_stack[i - 1] == self.qual_stack.stack@[i - 1].deep_view());
            let qual = self.qual_stack.stack[i - 1].get_val(self).unwrap();
            let ghost asked = qual;
            let out = f(self, qual);
            assert(call_ensures(f, (self, asked), out));
            assert(gave(self, f, i - 1, out));
            match out {
                Some(x) => {
                    return Some(x);
                },
                None => {},
            }
            i -= 1;
        }
        None
    }
}

} // verus!
