//! Interning of qualifiers and types: what `new_or_get` does to the context.

use vstd::prelude::*;
use crate::context::{SemContext, SemContextView};
use crate::qual_sem::{NameKeyView, QualKey, QualKeyView, QualSem, QualSemView, ScopeSem, ScopeSemView};
use crate::sem::{KeyEq, Replica, SemVal};
use crate::store::{lemma_inserted_or_same, StoreError, StoreErrorView};
use crate::ty_sem::{
    ty2_name,
    Ty1Key,
    Ty1Sem,
    Ty1SemView,
    Ty2Key,
    Ty2Sem,
    Ty2SemView,
    TyKey,
    TySem,
    TySemView,
};

verus! {

impl SemContextView {
    /// The context in which the qualifier with the path `scopes` is interned.
    pub open spec fn with_qual(self, scopes: Seq<ScopeSemView>) -> SemContextView {
        SemContextView {
            qual_store: self.qual_store.inserted_or_same(
                QualKeyView { scopes },
                QualSemView { id: self.qual_store.next_id(), scopes },
            ),
            ..self
        }
    }

    /// The context in which the first `n` proper beginnings of the path `key` are
    /// interned, the shortest first.
    pub open spec fn with_qual_prefixes(self, key: QualKeyView, n: nat) -> SemContextView
        decreases n,
    {
        if n == 0 {
            self
        } else {
            self.with_qual_prefixes(key, (n - 1) as nat).with_qual(key.scopes.subrange(0, n as int))
        }
    }

    /// The context in which the path `key` and all its beginnings but the empty one
    /// are interned; the top qualifier is interned where `key` is empty.
    pub open spec fn with_qual_path(self, key: QualKeyView) -> SemContextView {
        if key.scopes.len() == 0 {
            self.with_qual(key.scopes)
        } else {
            self.with_qual_prefixes(key, key.scopes.len())
        }
    }

    /// The context in which the primitive type `name` is interned under `qual`.
    pub open spec fn with_ty1(self, qual: QualSemView, name: Seq<char>) -> SemContextView {
        let key = NameKeyView { qual: qual.to_key(), name };
        let ty1_store = self.ty1_store.inserted_or_same(
            key,
            Ty1SemView { id: self.ty1_store.next_id(), qual, name },
        );
        let ty = TySemView::Ty1(ty1_store.value(key));
        SemContextView {
            ty1_store,
            ty_store: self.ty_store.inserted_or_same(ty.to_key(), ty),
            ..self
        }
    }

    /// The primitive type that `with_ty1` interned or found.
    pub open spec fn ty1(self, qual: QualSemView, name: Seq<char>) -> TySemView {
        let after = self.with_ty1(qual, name);
        let key = NameKeyView { qual: qual.to_key(), name };
        after.ty_store.value(TySemView::Ty1(after.ty1_store.value(key)).to_key())
    }

    /// The context in which the function type from `in_ty` to `out_ty` is interned
    /// under `qual`.
    pub open spec fn with_ty2(self, qual: QualSemView, in_ty: TySemView, out_ty: TySemView) -> SemContextView {
        let name = ty2_name(in_ty, out_ty);
        let key = NameKeyView { qual: qual.to_key(), name };
        let ty2_store = self.ty2_store.inserted_or_same(
            key,
            Ty2SemView {
                id: self.ty2_store.next_id(),
                qual,
                name,
                in_ty: Box::new(in_ty),
                out_ty: Box::new(out_ty),
                arity: (out_ty.arity() + 1) as usize,
            },
        );
        let ty = TySemView::Ty2(ty2_store.value(key));
        SemContextView {
            ty2_store,
            ty_store: self.ty_store.inserted_or_same(ty.to_key(), ty),
            ..self
        }
    }

    /// The function type that `with_ty2` interned or found.
    pub open spec fn ty2(self, qual: QualSemView, in_ty: TySemView, out_ty: TySemView) -> TySemView {
        let after = self.with_ty2(qual, in_ty, out_ty);
        let key = NameKeyView { qual: qual.to_key(), name: ty2_name(in_ty, out_ty) };
        after.ty_store.value(TySemView::Ty2(after.ty2_store.value(key)).to_key())
    }

    /// The context in which the type of a function from `in_tys` to `out_ty` is
    /// interned, the innermost function type first.
    pub open spec fn with_fn_ty(self, qual: QualSemView, in_tys: Seq<TySemView>, out_ty: TySemView) -> SemContextView
        decreases in_tys.len(),
    {
        if in_tys.len() == 0 {
            self
        } else {
            let inner = self.with_fn_ty(qual, in_tys.drop_first(), out_ty);
            inner.with_ty2(qual, in_tys[0], self.fn_ty(qual, in_tys.drop_first(), out_ty))
        }
    }

    /// Whether the arity of every type on the way to `fn_ty` is a machine number.
    pub open spec fn fn_ty_fits(self, qual: QualSemView, in_tys: Seq<TySemView>, out_ty: TySemView) -> bool
        decreases in_tys.len(),
    {
        if in_tys.len() == 0 {
            true
        } else {
            &&& self.fn_ty_fits(qual, in_tys.drop_first(), out_ty)
            &&& self.fn_ty(qual, in_tys.drop_first(), out_ty).arity() < usize::MAX
        }
    }

    /// The context in which the type of a function from `in_tys` to `out_ty` is
    /// interned as far as the arities fit: the innermost function types, up to the
    /// first whose result type has an arity that is no machine number any more.
    pub open spec fn with_fn_ty_while_fits(
        self,
        qual: QualSemView,
        in_tys: Seq<TySemView>,
        out_ty: TySemView,
    ) -> SemContextView
        decreases in_tys.len(),
    {
        if in_tys.len() == 0 {
            self
        } else {
            let inner = self.with_fn_ty_while_fits(qual, in_tys.drop_first(), out_ty);
            if self.fn_ty_fits(qual, in_tys, out_ty) {
                inner.with_ty2(qual, in_tys[0], self.fn_ty(qual, in_tys.drop_first(), out_ty))
            } else {
                inner
            }
        }
    }

    /// The type that `with_fn_ty` interned or found.
    pub open spec fn fn_ty(self, qual: QualSemView, in_tys: Seq<TySemView>, out_ty: TySemView) -> TySemView
        decreases in_tys.len(),
    {
        if in_tys.len() == 0 {
            out_ty
        } else {
            let inner = self.with_fn_ty(qual, in_tys.drop_first(), out_ty);
            inner.ty2(qual, in_tys[0], self.fn_ty(qual, in_tys.drop_first(), out_ty))
        }
    }
}

impl QualSem {
    /// The top qualifier, interned where it was not.
    pub fn top(ctx: &mut SemContext) -> (qual: Self)
        requires
            old(ctx).wf(),
        ensures
            final(ctx).wf(),
            final(ctx).deep_view() == old(ctx).deep_view().with_qual_path(QualKeyView::top()),
            qual.deep_view() == final(ctx).deep_view().qual_store.value(QualKeyView::top()),
            qual.deep_view().to_key() == QualKeyView::top(),
    {
        QualSem::new_or_get(ctx, &QualKey::top())
    }

    fn new_or_get_one(ctx: &mut SemContext, scopes: Vec<ScopeSem>) -> (qual: Self)
        requires
            old(ctx).wf(),
        ensures
            final(ctx).wf(),
            final(ctx).deep_view() == old(ctx).deep_view().with_qual(scopes.deep_view()),
            final(ctx).deep_view().qual_store.contains(QualKeyView { scopes: scopes.deep_view() }),
            qual.deep_view() == final(ctx).deep_view().qual_store.value(
                QualKeyView { scopes: scopes.deep_view() },
            ),
            qual.deep_view().to_key() == (QualKeyView { scopes: scopes.deep_view() }),
    {
        let value = Self { id: ctx.qual_store.next_id(), scopes };
        let key = value.to_key();
        let qual = ctx.qual_store.insert_or_get(key, value);
        proof {
            ctx.qual_store.lemma_view_wf();
            lemma_inserted_or_same(
                old(ctx).deep_view().qual_store,
                key.deep_view(),
                value.deep_view(),
            );
        }
        qual
    }

    /// The qualifier with the path `key`, interned where it was not, together with
    /// the qualifiers on the way to it.
    #[verifier::rlimit(50)]
    pub fn new_or_get(ctx: &mut SemContext, key: &QualKey) -> (qual: Self)
        requires
            old(ctx).wf(),
        ensures
            final(ctx).wf(),
            final(ctx).deep_view() == old(ctx).deep_view().with_qual_path(key.deep_view()),
            final(ctx).deep_view() == (SemContextView {
                qual_store: final(ctx).deep_view().qual_store,
                ..old(ctx).deep_view()
            }),
            final(ctx).deep_view().qual_store.contains(key.deep_view()),
            qual.deep_view() == final(ctx).deep_view().qual_store.value(key.deep_view()),
            qual.deep_view().to_key() == key.deep_view(),
    {
        proof {
            lemma_with_qual_path(old(ctx).deep_view(), key.deep_view());
        }
        let n: usize = key.scopes.len();
        let mut i: usize = 1;
        while i < n
            invariant
                1 <= i,
                n == key.scopes.len(),
                ctx.wf(),
                ctx.deep_view() == old(ctx).deep_view().with_qual_prefixes(
                    key.deep_view(),
                    if n == 0 {
                        0nat
                    } else if i <= n {
                        (i - 1) as nat
                    } else {
                        (n - 1) as nat
                    },
                ),
            decreases n - i,
        {
            let prefix = key.prefix(i);
            Self::new_or_get_one(ctx, prefix.scopes);
            i += 1;
        }
        assert(key.scopes.deep_view().subrange(0, n as int) =~= key.scopes.deep_view());
        Self::new_or_get_one(ctx, key.scopes.replica())
    }
}

impl Ty1Sem {
    /// The primitive type `name` under `qual`, interned where it was not.
    pub fn new_or_get(ctx: &mut SemContext, qual: QualSem, name: String) -> (ty: Self)
        requires
            old(ctx).wf(),
        ensures
            final(ctx).ty1_store.wf(),
            final(ctx).deep_view() == (SemContextView {
                ty1_store: old(ctx).deep_view().ty1_store.inserted_or_same(
                    NameKeyView { qual: qual.deep_view().to_key(), name: name@ },
                    Ty1SemView { id: old(ctx).deep_view().ty1_store.next_id(), qual: qual.deep_view(), name: name@ },
                ),
                ..old(ctx).deep_view()
            }),
            ty.deep_view() == final(ctx).deep_view().ty1_store.value(
                NameKeyView { qual: qual.deep_view().to_key(), name: name@ },
            ),
            final(ctx).qual_store == old(ctx).qual_store,
            final(ctx).ty_store == old(ctx).ty_store,
            final(ctx).ty2_store == old(ctx).ty2_store,
            final(ctx).fn_store == old(ctx).fn_store,
            final(ctx).ranked_fn_store == old(ctx).ranked_fn_store,
            final(ctx).next_fn_store == old(ctx).next_fn_store,
            final(ctx).qual_stack == old(ctx).qual_stack,
    {
        let val = Self { id: ctx.ty1_store.next_id(), qual, name };
        let key = val.to_key();
        ctx.ty1_store.insert_or_get(key, val)
    }
}

impl Ty2Sem {
    /// The function type from `in_ty` to `out_ty` under `qual`, interned where it was
    /// not.
    #[verifier::rlimit(50)]
    pub fn new_or_get(ctx: &mut SemContext, qual: QualSem, in_ty: TySem, out_ty: TySem) -> (ty:
        Self)
        requires
            old(ctx).wf(),
            out_ty.deep_view().arity() < usize::MAX,
        ensures
            final(ctx).ty2_store.wf(),
            final(ctx).deep_view() == (SemContextView {
                ty2_store: old(ctx).deep_view().ty2_store.inserted_or_same(
                    NameKeyView {
                        qual: qual.deep_view().to_key(),
                        name: ty2_name(in_ty.deep_view(), out_ty.deep_view()),
                    },
                    Ty2SemView {
                        id: old(ctx).deep_view().ty2_store.next_id(),
                        qual: qual.deep_view(),
                        name: ty2_name(in_ty.deep_view(), out_ty.deep_view()),
                        in_ty: Box::new(in_ty.deep_view()),
                        out_ty: Box::new(out_ty.deep_view()),
                        arity: (out_ty.deep_view().arity() + 1) as usize,
                    },
                ),
                ..old(ctx).deep_view()
            }),
            ty.deep_view() == final(ctx).deep_view().ty2_store.value(
                NameKeyView {
                    qual: qual.deep_view().to_key(),
                    name: ty2_name(in_ty.deep_view(), out_ty.deep_view()),
                },
            ),
            final(ctx).qual_store == old(ctx).qual_store,
            final(ctx).ty_store == old(ctx).ty_store,
            final(ctx).ty1_store == old(ctx).ty1_store,
            final(ctx).fn_store == old(ctx).fn_store,
            final(ctx).ranked_fn_store == old(ctx).ranked_fn_store,
            final(ctx).next_fn_store == old(ctx).next_fn_store,
            final(ctx).qual_stack == old(ctx).qual_stack,
    {
        let arity = out_ty.arity() + 1;
        let val = Self {
            id: ctx.ty2_store.next_id(),
            qual,
            name: Self::name(&in_ty, &out_ty),
            in_ty: Box::new(in_ty),
            out_ty: Box::new(out_ty),
            arity,
        };
        let key = val.to_key();
        ctx.ty2_store.insert_or_get(key, val)
    }
}

impl TySem {
    /// The function type from `in_ty` to `out_ty` under `qual`, interned where it was
    /// not.
    #[verifier::rlimit(50)]
    pub fn new_or_get_ty2(ctx: &mut SemContext, qual: QualSem, in_ty: TySem, out_ty: TySem) -> (ty:
        Self)
        requires
            old(ctx).wf(),
            in_ty.deep_view().wf(),
            out_ty.deep_view().wf(),
            out_ty.deep_view().arity() < usize::MAX,
        ensures
            final(ctx).wf(),
            final(ctx).deep_view() == old(ctx).deep_view().with_ty2(
                qual.deep_view(),
                in_ty.deep_view(),
                out_ty.deep_view(),
            ),
            ty.deep_view() == old(ctx).deep_view().ty2(
                qual.deep_view(),
                in_ty.deep_view(),
                out_ty.deep_view(),
            ),
            ty.deep_view().wf(),
    {
        let ghost fresh = Ty2SemView {
            id: old(ctx).deep_view().ty2_store.next_id(),
            qual: qual.deep_view(),
            name: ty2_name(in_ty.deep_view(), out_ty.deep_view()),
            in_ty: Box::new(in_ty.deep_view()),
            out_ty: Box::new(out_ty.deep_view()),
            arity: (out_ty.deep_view().arity() + 1) as usize,
        };
        let ghost key2 = NameKeyView {
            qual: qual.deep_view().to_key(),
            name: ty2_name(in_ty.deep_view(), out_ty.deep_view()),
        };
        let val = Self::Ty2(Ty2Sem::new_or_get(ctx, qual, in_ty, out_ty));
        let ghost mid = ctx.deep_view();
        let key = val.to_key();
        let ty = ctx.ty_store.insert_or_get(key, val);
        proof {
            ctx.ty_store.lemma_view_wf();
            ctx.ty2_store.lemma_view_wf();
            assert(TySemView::Ty2(fresh).wf());
            lemma_inserted_or_same(old(ctx).deep_view().ty2_store, key2, fresh);
            lemma_inserted_or_same(mid.ty_store, key.deep_view(), val.deep_view());
        }
        ty
    }

    /// The primitive type `name` under `qual`, interned where it was not.
    pub fn new_or_get_ty1(ctx: &mut SemContext, qual: QualSem, name: String) -> (ty: Self)
        requires
            old(ctx).wf(),
        ensures
            final(ctx).wf(),
            final(ctx).deep_view() == old(ctx).deep_view().with_ty1(qual.deep_view(), name@),
            ty.deep_view() == old(ctx).deep_view().ty1(qual.deep_view(), name@),
            ty.deep_view().wf(),
    {
        let ghost fresh = Ty1SemView {
            id: old(ctx).deep_view().ty1_store.next_id(),
            qual: qual.deep_view(),
            name: name@,
        };
        let ghost key1 = NameKeyView { qual: qual.deep_view().to_key(), name: name@ };
        let val = Self::Ty1(Ty1Sem::new_or_get(ctx, qual, name));
        let ghost mid = ctx.deep_view();
        let key = val.to_key();
        let ty = ctx.ty_store.insert_or_get(key, val);
        proof {
            ctx.ty_store.lemma_view_wf();
            ctx.ty1_store.lemma_view_wf();
            lemma_inserted_or_same(old(ctx).deep_view().ty1_store, key1, fresh);
            lemma_inserted_or_same(mid.ty_store, key.deep_view(), val.deep_view());
        }
        ty
    }

    /// The type of a function that takes `in_tys` one by one and gives `out_ty`,
    /// interned where it was not. Nothing is returned where the arity of one of the
    /// types on the way is not a machine number; the types before it are interned then.
    #[verifier::rlimit(50)]
    pub fn new_or_get_fn_ty(ctx: &mut SemContext, qual: QualSem, in_tys: Vec<TySem>, out_ty: TySem) -> (r:
        Option<Self>)
        requires
            old(ctx).wf(),
            out_ty.deep_view().wf(),
            forall|i: int| 0 <= i < in_tys.len() ==> (#[trigger] in_tys@[i]).deep_view().wf(),
        ensures
            final(ctx).wf(),
            final(ctx).deep_view() == old(ctx).deep_view().with_fn_ty_while_fits(
                qual.deep_view(),
                in_tys.deep_view(),
                out_ty.deep_view(),
            ),
            final(ctx).deep_view() == (SemContextView {
                ty_store: final(ctx).deep_view().ty_store,
                ty2_store: final(ctx).deep_view().ty2_store,
                ..old(ctx).deep_view()
            }),
            match r {
                Some(ty) => {
                    &&& old(ctx).deep_view().fn_ty_fits(
                        qual.deep_view(),
                        in_tys.deep_view(),
                        out_ty.deep_view(),
                    )
                    &&& final(ctx).deep_view() == old(ctx).deep_view().with_fn_ty(
                        qual.deep_view(),
                        in_tys.deep_view(),
                        out_ty.deep_view(),
                    )
                    &&& ty.deep_view() == old(ctx).deep_view().fn_ty(
                        qual.deep_view(),
                        in_tys.deep_view(),
                        out_ty.deep_view(),
                    )
                    &&& ty.deep_view().wf()
                },
                None => !old(ctx).deep_view().fn_ty_fits(
                    qual.deep_view(),
                    in_tys.deep_view(),
                    out_ty.deep_view(),
                ),
            },
    {
        let ghost tys = in_tys.deep_view();
        let ghost q = qual.deep_view();
        let ghost out = out_ty.deep_view();
        let ghost start = old(ctx).deep_view();
        let n: usize = in_tys.len();
        let mut ty = out_ty;
        let mut i: usize = n;
        assert(tys.subrange(n as int, n as int) =~= Seq::<TySemView>::empty());
        while i > 0
            invariant
                i <= n,
                n == in_tys.len(),
                tys == in_tys.deep_view(),
                q == qual.deep_view(),
                out == out_ty.deep_view(),
                start == old(ctx).deep_view(),
                ctx.wf(),
                forall|j: int| 0 <= j < in_tys.len() ==> (#[trigger] in_tys@[j]).deep_view().wf(),
                start.fn_ty_fits(q, tys.subrange(i as int, n as int), out),
                ctx.deep_view() == start.with_fn_ty(q, tys.subrange(i as int, n as int), out),
                ctx.deep_view() == (SemContextView {
                    ty_store: ctx.deep_view().ty_store,
                    ty2_store: ctx.deep_view().ty2_store,
                    ..start
                }),
                ty.deep_view() == start.fn_ty(q, tys.subrange(i as int, n as int), out),
                ty.deep_view().wf(),
            decreases i,
        {
            let ghost rest = tys.subrange(i as int, n as int);
            let ghost more = tys.subrange(i - 1, n as int);
            assert(more.drop_first() =~= rest);
            assert(more[0] == in_tys@[i - 1].deep_view());
            if ty.arity() == usize::MAX {
                proof {
                    assert(!start.fn_ty_fits(q, more, out));
                    lemma_fn_ty_fits_suffix(start, q, tys, out, i - 1);
                    lemma_while_fits_all(start, q, rest, out);
                    lemma_while_fits_stops(start, q, tys, out, i - 1);
                }
                return None;
            }
            let in_ty = in_tys[i - 1].replica();
            ty = Self::new_or_get_ty2(ctx, qual.replica(), in_ty, ty);
            i -= 1;
        }
        assert(tys.subrange(0, n as int) =~= tys);
        proof {
            lemma_while_fits_all(start, q, tys, out);
        }
        Some(ty)
    }

    /// The type `name` under the top qualifier.
    pub fn get_from_name(ctx: &SemContext, name: &str) -> (r: Result<Self, StoreError>)
        requires
            ctx.wf(),
        ensures
            ty_found(
                ctx.deep_view(),
                NameKeyView { qual: QualKeyView::top(), name: name@ },
                r,
            ),
    {
        ctx.ty_store.get(&TyKey::from_name(name))
    }

    /// The type `name` under `qual`.
    pub fn get(ctx: &SemContext, qual: QualKey, name: String) -> (r: Result<Self, StoreError>)
        requires
            ctx.wf(),
        ensures
            ty_found(ctx.deep_view(), NameKeyView { qual: qual.deep_view(), name: name@ }, r),
    {
        let key = TyKey::new(qual, name);
        key.get(ctx)
    }
}

/// Interning qualifiers changes the store of qualifiers and nothing else, and keeps
/// what the store knew.
pub proof fn lemma_with_qual_path(ctx: SemContextView, key: QualKeyView)
    ensures
        ctx.with_qual_path(key) == (SemContextView {
            qual_store: ctx.with_qual_path(key).qual_store,
            ..ctx
        }),
{
    lemma_with_qual_prefixes(ctx, key, key.scopes.len());
}

pub proof fn lemma_with_qual_prefixes(ctx: SemContextView, key: QualKeyView, n: nat)
    ensures
        ctx.with_qual_prefixes(key, n) == (SemContextView {
            qual_store: ctx.with_qual_prefixes(key, n).qual_store,
            ..ctx
        }),
    decreases n,
{
    if n > 0 {
        lemma_with_qual_prefixes(ctx, key, (n - 1) as nat);
    }
}

/// What interning a function type does: the keys that are known afterwards, and the
/// type that comes back. Where the printed form of the type was no key before, the
/// type is the new one.
#[verifier::rlimit(50)]
pub proof fn lemma_with_ty2(ctx: SemContextView, qual: QualSemView, in_ty: TySemView, out_ty: TySemView)
    requires
        ctx.tys_wf(),
        out_ty.arity() < usize::MAX,
        ctx.with_ty2(qual, in_ty, out_ty).ty_store.wf(),
        ctx.with_ty2(qual, in_ty, out_ty).ty2_store.wf(),
    ensures
        ({
            let after = ctx.with_ty2(qual, in_ty, out_ty);
            let ty = ctx.ty2(qual, in_ty, out_ty);
            let key = NameKeyView { qual: qual.to_key(), name: ty2_name(in_ty, out_ty) };
            &&& after.ty_store.contains(key)
            &&& after.ty_store.value(key) == ty
            &&& after.ty2_store.contains(key)
            &&& after.ty1_store == ctx.ty1_store
            &&& forall|k: NameKeyView| #[trigger]
                after.ty_store.contains(k) <==> ctx.ty_store.contains(k) || k == key
            &&& forall|k: NameKeyView| #[trigger]
                after.ty2_store.contains(k) <==> ctx.ty2_store.contains(k) || k == key
            &&& forall|k: NameKeyView|
                ctx.ty_store.contains(k) ==> #[trigger] after.ty_store.value(k)
                    == ctx.ty_store.value(k)
            &&& !ctx.ty_store.contains(key) && !ctx.ty2_store.contains(key) ==> {
                &&& ty matches TySemView::Ty2(ty2)
                &&& *ty2.in_ty == in_ty
                &&& *ty2.out_ty == out_ty
                &&& ty2.name == ty2_name(in_ty, out_ty)
                &&& ty2.arity == out_ty.arity() + 1
                &&& ty2.qual == qual
            }
        }),
{
    let key = NameKeyView { qual: qual.to_key(), name: ty2_name(in_ty, out_ty) };
    let fresh = Ty2SemView {
        id: ctx.ty2_store.next_id(),
        qual,
        name: ty2_name(in_ty, out_ty),
        in_ty: Box::new(in_ty),
        out_ty: Box::new(out_ty),
        arity: (out_ty.arity() + 1) as usize,
    };
    lemma_inserted_or_same(ctx.ty2_store, key, fresh);
    let ty2_store = ctx.ty2_store.inserted_or_same(key, fresh);
    let ty = TySemView::Ty2(ty2_store.value(key));
    assert(ty.to_key() == key);
    lemma_inserted_or_same(ctx.ty_store, key, ty);
}

/// What interning a primitive type does: the keys that are known afterwards, and the
/// type that comes back. Where the name was no key before, the type is the new one.
#[verifier::rlimit(50)]
pub proof fn lemma_with_ty1(ctx: SemContextView, qual: QualSemView, name: Seq<char>)
    requires
        ctx.tys_wf(),
        ctx.with_ty1(qual, name).ty_store.wf(),
        ctx.with_ty1(qual, name).ty1_store.wf(),
    ensures
        ({
            let after = ctx.with_ty1(qual, name);
            let ty = ctx.ty1(qual, name);
            let key = NameKeyView { qual: qual.to_key(), name };
            &&& after.ty_store.contains(key)
            &&& after.ty_store.value(key) == ty
            &&& after.ty1_store.contains(key)
            &&& after.ty2_store == ctx.ty2_store
            &&& forall|k: NameKeyView| #[trigger]
                after.ty_store.contains(k) <==> ctx.ty_store.contains(k) || k == key
            &&& forall|k: NameKeyView|
                ctx.ty_store.contains(k) ==> #[trigger] after.ty_store.value(k)
                    == ctx.ty_store.value(k)
            &&& !ctx.ty_store.contains(key) && !ctx.ty1_store.contains(key) ==> {
                &&& ty matches TySemView::Ty1(ty1)
                &&& ty1.name == name
                &&& ty1.qual == qual
            }
        }),
{
    let key = NameKeyView { qual: qual.to_key(), name };
    let fresh = Ty1SemView { id: ctx.ty1_store.next_id(), qual, name };
    lemma_inserted_or_same(ctx.ty1_store, key, fresh);
    let ty1_store = ctx.ty1_store.inserted_or_same(key, fresh);
    let ty = TySemView::Ty1(ty1_store.value(key));
    assert(ty.to_key() == key);
    lemma_inserted_or_same(ctx.ty_store, key, ty);
}

/// Where all arities fit, the whole type is interned.
pub proof fn lemma_while_fits_all(
    ctx: SemContextView,
    qual: QualSemView,
    in_tys: Seq<TySemView>,
    out_ty: TySemView,
)
    requires
        ctx.fn_ty_fits(qual, in_tys, out_ty),
    ensures
        ctx.with_fn_ty_while_fits(qual, in_tys, out_ty) == ctx.with_fn_ty(qual, in_tys, out_ty),
    decreases in_tys.len(),
{
    if in_tys.len() > 0 {
        lemma_while_fits_all(ctx, qual, in_tys.drop_first(), out_ty);
    }
}

/// Where the arities do not fit from the `from`-th argument on, nothing is interned
/// for the arguments before it.
#[verifier::rlimit(50)]
pub proof fn lemma_while_fits_stops(
    ctx: SemContextView,
    qual: QualSemView,
    in_tys: Seq<TySemView>,
    out_ty: TySemView,
    from: int,
)
    requires
        0 <= from < in_tys.len(),
        !ctx.fn_ty_fits(qual, in_tys.subrange(from, in_tys.len() as int), out_ty),
    ensures
        !ctx.fn_ty_fits(qual, in_tys, out_ty),
        ctx.with_fn_ty_while_fits(qual, in_tys, out_ty) == ctx.with_fn_ty_while_fits(
            qual,
            in_tys.subrange(from + 1, in_tys.len() as int),
            out_ty,
        ),
    decreases from,
{
    let n = in_tys.len() as int;
    let here = in_tys.subrange(from, n);
    assert(here.drop_first() =~= in_tys.subrange(from + 1, n));
    if from == 0 {
        assert(here =~= in_tys);
    } else {
        let longer = in_tys.subrange(from - 1, n);
        assert(longer.drop_first() =~= here);
        lemma_while_fits_stops(ctx, qual, in_tys, out_ty, from - 1);
        assert(longer.drop_first().drop_first() =~= in_tys.subrange(from + 1, n));
    }
}

/// Where the types fit for a list of arguments, they fit for each of its ends.
pub proof fn lemma_fn_ty_fits_suffix(
    ctx: SemContextView,
    qual: QualSemView,
    in_tys: Seq<TySemView>,
    out_ty: TySemView,
    from: int,
)
    requires
        0 <= from <= in_tys.len(),
    ensures
        ctx.fn_ty_fits(qual, in_tys, out_ty) ==> ctx.fn_ty_fits(
            qual,
            in_tys.subrange(from, in_tys.len() as int),
            out_ty,
        ),
    decreases from,
{
    if from == 0 {
        assert(in_tys.subrange(0, in_tys.len() as int) =~= in_tys);
    } else {
        lemma_fn_ty_fits_suffix(ctx, qual, in_tys, out_ty, from - 1);
        let longer = in_tys.subrange(from - 1, in_tys.len() as int);
        assert(longer.drop_first() =~= in_tys.subrange(from, in_tys.len() as int));
    }
}

/// `r` is what looking up the type under `key` gives: the type where it is interned,
/// else the diagnostic that names the key.
pub open spec fn ty_found(ctx: SemContextView, key: NameKeyView, r: Result<TySem, StoreError>) -> bool {
    match r {
        Ok(ty) => {
            &&& ctx.ty_store.contains(key)
            &&& ty.deep_view() == ctx.ty_store.value(key)
            &&& ty.deep_view().wf()
        },
        Err(e) => {
            &&& !ctx.ty_store.contains(key)
            &&& e.deep_view() == StoreErrorView::NotFound(key.description())
        },
    }
}

impl TyKey {
    /// The type under this key.
    pub fn get(&self, ctx: &SemContext) -> (r: Result<TySem, StoreError>)
        requires
            ctx.wf(),
        ensures
            ty_found(ctx.deep_view(), self.deep_view(), r),
    {
        ctx.ty_store.get(self)
    }
}

} // verus!
