//! Interning of function families: what `FnSem::new` and `FnSem::new_or_get` do to
//! the context, and why the context stays sound.

use vstd::prelude::*;
use crate::context::{
    family_ok,
    fns_wf,
    is_linked_key,
    is_member_key,
    member_ok,
    SemContext,
    SemContextView,
};
use crate::fn_sem::{
    lemma_ranked_name_injective,
    name_with_rank,
    ranked_key,
    ranked_name,
    FnKey,
    FnSem,
    FnSemView,
};
use crate::qual_sem::{NameKeyView, QualKey, QualSem, QualSemView};
use crate::sem::{KeyEq, Replica, Sem, SemVal};
use crate::store::{IdStoreView, StoreError, StoreErrorView};
use crate::ty_sem::{lemma_ty_shape, TySem, TySemView};

verus! {

/// The member of rank `rank` of the family of the function `name` of the type `ty`
/// under `qual`, where `next_id` is the id of the family's first member.
pub open spec fn family_member(
    next_id: usize,
    qual: QualSemView,
    name: Seq<char>,
    ty: TySemView,
    rank: nat,
) -> FnSemView {
    FnSemView {
        id: (next_id + rank) as usize,
        qual,
        name: ranked_name(name, rank),
        ty: ty.nth_out(rank),
        arity: ty.arity(),
    }
}

/// The family of the function `name` of the type `ty` under `qual`: one member for
/// each rank from 0 to the arity of `ty`.
pub open spec fn new_family(next_id: usize, qual: QualSemView, name: Seq<char>, ty: TySemView) -> Seq<
    FnSemView,
> {
    Seq::new(
        ty.arity() as nat + 1,
        |rank: int| family_member(next_id, qual, name, ty, rank as nat),
    )
}

/// The store of functions after the first `n` members of `family` were taken.
pub open spec fn fn_store_with(
    store: IdStoreView<NameKeyView, FnSemView>,
    family: Seq<FnSemView>,
    n: nat,
) -> IdStoreView<NameKeyView, FnSemView>
    decreases n,
{
    if n == 0 {
        store
    } else {
        fn_store_with(store, family, (n - 1) as nat).inserted(
            family[n - 1].to_key(),
            family[n - 1],
        )
    }
}

/// The links after each of the first `n` members of `family` was linked to the
/// member behind it.
pub open spec fn links_with(
    links: Map<NameKeyView, FnSemView>,
    family: Seq<FnSemView>,
    n: nat,
) -> Map<NameKeyView, FnSemView>
    decreases n,
{
    if n == 0 {
        links
    } else {
        links_with(links, family, (n - 1) as nat).insert(family[n - 1].to_key(), family[n as int])
    }
}

impl SemContextView {
    /// The context after the family `family` was interned under the key `key`.
    pub open spec fn with_family(self, key: NameKeyView, family: Seq<FnSemView>) -> SemContextView {
        SemContextView {
            fn_store: fn_store_with(self.fn_store, family, family.len()),
            next_fn_store: links_with(self.next_fn_store, family, (family.len() - 1) as nat),
            ranked_fn_store: self.ranked_fn_store.insert(key, family),
            ..self
        }
    }

    /// The context after `FnSem::new_or_get`: as it was where the family is known.
    pub open spec fn with_family_or_same(self, key: NameKeyView, family: Seq<FnSemView>) -> SemContextView {
        if self.has_family(key) {
            self
        } else {
            self.with_family(key, family)
        }
    }
}

/// Two members of families have the same key only where they are the same member of
/// the same family.
pub proof fn lemma_ranked_key_injective(k1: NameKeyView, r1: nat, k2: NameKeyView, r2: nat)
    requires
        ranked_key(k1, r1) == ranked_key(k2, r2),
    ensures
        k1 == k2,
        r1 == r2,
{
    lemma_ranked_name_injective(k1.name, r1, k2.name, r2);
}

/// In a sound context a family is known exactly where its first member is stored,
/// and no member of an unknown family is stored or linked.
#[verifier::rlimit(50)]
pub proof fn lemma_family_known(
    fn_store: IdStoreView<NameKeyView, FnSemView>,
    ranked: Map<NameKeyView, Seq<FnSemView>>,
    links: Map<NameKeyView, FnSemView>,
    key: NameKeyView,
)
    requires
        fns_wf(fn_store, ranked, links),
    ensures
        ranked.contains_key(key) <==> fn_store.contains(ranked_key(key, 0)),
        !ranked.contains_key(key) ==> forall|rank: nat|
            !fn_store.contains(#[trigger] ranked_key(key, rank)) && !links.contains_key(
                ranked_key(key, rank),
            ),
{
    if ranked.contains_key(key) {
        assert(family_ok(fn_store, links, key, ranked[key]));
        assert(member_ok(fn_store, links, key, ranked[key], 0));
    } else {
        assert forall|rank: nat|
            !fn_store.contains(#[trigger] ranked_key(key, rank)) && !links.contains_key(
                ranked_key(key, rank),
            ) by {
            let k = ranked_key(key, rank);
            if fn_store.contains(k) {
                let (f, r) = choose|f: NameKeyView, r: int| is_member_key(ranked, k, f, r);
                lemma_ranked_key_injective(f, r as nat, key, rank);
            }
            if links.contains_key(k) {
                let (f, r) = choose|f: NameKeyView, r: int| is_linked_key(ranked, k, f, r);
                lemma_ranked_key_injective(f, r as nat, key, rank);
            }
        }
    }
}

/// The members of a new family: their keys, arities and types.
#[verifier::rlimit(50)]
pub proof fn lemma_new_family(next_id: usize, qual: QualSemView, name: Seq<char>, ty: TySemView)
    requires
        ty.wf(),
    ensures
        ({
            let family = new_family(next_id, qual, name, ty);
            let key = NameKeyView { qual: qual.to_key(), name };
            &&& family.len() == ty.arity() + 1
            &&& forall|rank: int|
                0 <= rank < family.len() ==> {
                    &&& (#[trigger] family[rank]).to_key() == ranked_key(key, rank as nat)
                    &&& family[rank].arity == ty.arity()
                    &&& family[rank].ty.arity() + rank == ty.arity()
                    &&& family[rank].ty.wf()
                    &&& family[rank].ty == ty.nth_out(rank as nat)
                    &&& rank + 1 < family.len() ==> {
                        &&& family[rank].ty is Ty2
                        &&& family[rank + 1].ty == *family[rank].ty->Ty2_0.out_ty
                    }
                }
        }),
{
    lemma_ty_shape(ty);
    let family = new_family(next_id, qual, name, ty);
    assert forall|rank: int| 0 <= rank < family.len() implies {
        &&& (#[trigger] family[rank]).ty.arity() + rank == ty.arity()
        &&& family[rank].ty.wf()
        &&& rank + 1 < family.len() ==> {
            &&& family[rank].ty is Ty2
            &&& family[rank + 1].ty == *family[rank].ty->Ty2_0.out_ty
        }
    } by {
        assert(family[rank].ty == ty.nth_out(rank as nat));
        if rank + 1 < family.len() {
            assert(family[rank + 1].ty == ty.nth_out((rank + 1) as nat));
        }
    }
}

/// What the store of functions holds after the first `n` members of a family were
/// taken whose keys are new and differ from each other.
#[verifier::rlimit(50)]
pub proof fn lemma_fn_store_with(
    store: IdStoreView<NameKeyView, FnSemView>,
    family: Seq<FnSemView>,
    n: nat,
)
    requires
        store.wf(),
        n <= family.len(),
        store.vals.len() + n <= usize::MAX,
        forall|i: int| 0 <= i < family.len() ==> !store.contains(#[trigger] family[i].to_key()),
        forall|i: int, j: int|
            0 <= i < j < family.len() ==> (#[trigger] family[i]).to_key() != (
            #[trigger] family[j]).to_key(),
    ensures
        fn_store_with(store, family, n).wf(),
        fn_store_with(store, family, n).vals == store.vals + family.subrange(0, n as int),
        forall|key: NameKeyView| #[trigger]
            fn_store_with(store, family, n).contains(key) <==> store.contains(key) || exists|
                i: int,
            |
                0 <= i < n && key == (#[trigger] family[i]).to_key(),
        forall|key: NameKeyView|
            store.contains(key) ==> #[trigger] fn_store_with(store, family, n).value(key)
                == store.value(key),
        forall|i: int|
            0 <= i < n ==> fn_store_with(store, family, n).value(
                (#[trigger] family[i]).to_key(),
            ) == family[i],
    decreases n,
{
    let after = fn_store_with(store, family, n);
    if n == 0 {
        assert(store.vals + family.subrange(0, 0) =~= store.vals);
    } else {
        let before = fn_store_with(store, family, (n - 1) as nat);
        lemma_fn_store_with(store, family, (n - 1) as nat);
        let added = family[n - 1];
        assert(after == before.inserted(added.to_key(), added));
        assert(before.vals.len() == store.vals.len() + n - 1);
        assert(after.vals =~= store.vals + family.subrange(0, n as int));
        assert(!before.contains(added.to_key()));
        assert forall|key: NameKeyView| #[trigger]
            after.contains(key) <==> store.contains(key) || exists|i: int|
                0 <= i < n && key == (#[trigger] family[i]).to_key() by {
            if after.contains(key) {
                if key == added.to_key() {
                    assert(key == family[n - 1].to_key());
                } else {
                    assert(before.contains(key));
                }
            }
            if store.contains(key) {
                assert(before.contains(key));
            }
            if exists|i: int| 0 <= i < n && key == (#[trigger] family[i]).to_key() {
                let i = choose|i: int| 0 <= i < n && key == (#[trigger] family[i]).to_key();
                if i < n - 1 {
                    assert(before.contains(key));
                }
            }
        }
        assert forall|key: NameKeyView| store.contains(key) implies #[trigger] after.value(key)
            == store.value(key) by {
            assert(before.contains(key));
            assert(before.ids[key] < before.vals.len());
            assert(!store.contains(family[n - 1].to_key()));
            assert(key != added.to_key());
            assert(before.value(key) == store.value(key));
            assert(after.ids[key] == before.ids[key]);
        }
        assert forall|i: int| 0 <= i < n implies after.value((#[trigger] family[i]).to_key())
            == family[i] by {
            if i < n - 1 {
                assert(before.contains(family[i].to_key()));
                assert(before.ids[family[i].to_key()] < before.vals.len());
            }
        }
        assert forall|key: NameKeyView| after.ids.contains_key(key) implies (
        #[trigger] after.ids[key]) < after.vals.len() by {
            if key != added.to_key() {
                assert(before.ids[key] < before.vals.len());
            }
        }
    }
}

/// What the links hold after each of the first `n` members of a family was linked
/// whose keys are new and differ from each other.
#[verifier::rlimit(50)]
pub proof fn lemma_links_with(links: Map<NameKeyView, FnSemView>, family: Seq<FnSemView>, n: nat)
    requires
        n < family.len(),
        forall|i: int, j: int|
            0 <= i < j < family.len() ==> (#[trigger] family[i]).to_key() != (
            #[trigger] family[j]).to_key(),
    ensures
        forall|key: NameKeyView| #[trigger]
            links_with(links, family, n).contains_key(key) <==> links.contains_key(key) || exists|
                i: int,
            |
                0 <= i < n && key == (#[trigger] family[i]).to_key(),
        forall|key: NameKeyView|
            links.contains_key(key) && (forall|i: int|
                0 <= i < n ==> key != (#[trigger] family[i]).to_key()) ==> #[trigger] links_with(
                links,
                family,
                n,
            )[key] == links[key],
        forall|i: int|
            0 <= i < n ==> links_with(links, family, n)[(#[trigger] family[i]).to_key()]
                == family[i + 1],
    decreases n,
{
    let after = links_with(links, family, n);
    if n > 0 {
        let before = links_with(links, family, (n - 1) as nat);
        lemma_links_with(links, family, (n - 1) as nat);
        let added = family[n - 1];
        assert forall|key: NameKeyView| #[trigger]
            after.contains_key(key) <==> links.contains_key(key) || exists|i: int|
                0 <= i < n && key == (#[trigger] family[i]).to_key() by {
            if after.contains_key(key) {
                if key == added.to_key() {
                    assert(key == family[n - 1].to_key());
                } else {
                    assert(before.contains_key(key));
                }
            }
            if exists|i: int| 0 <= i < n && key == (#[trigger] family[i]).to_key() {
                let i = choose|i: int| 0 <= i < n && key == (#[trigger] family[i]).to_key();
                if i < n - 1 {
                    assert(before.contains_key(key));
                }
            }
        }
        assert forall|key: NameKeyView|
            links.contains_key(key) && (forall|i: int|
                0 <= i < n ==> key != (#[trigger] family[i]).to_key()) implies #[trigger] after[key]
            == links[key] by {
            assert(key != family[n - 1].to_key());
            assert(forall|i: int| 0 <= i < n - 1 ==> key != (#[trigger] family[i]).to_key());
        }
    }
}

/// A sound context stays sound when a new family is interned in it.
#[verifier::rlimit(50)]
pub proof fn lemma_with_family_wf(
    ctx: SemContextView,
    qual: QualSemView,
    name: Seq<char>,
    ty: TySemView,
)
    requires
        ctx.wf(),
        ty.wf(),
        !ctx.has_family(NameKeyView { qual: qual.to_key(), name }),
        ctx.fn_store.vals.len() + ty.arity() + 1 <= usize::MAX,
    ensures
        ctx.with_family(
            NameKeyView { qual: qual.to_key(), name },
            new_family(ctx.fn_store.next_id(), qual, name, ty),
        ).wf(),
{
    let key = NameKeyView { qual: qual.to_key(), name };
    let family = new_family(ctx.fn_store.next_id(), qual, name, ty);
    let after = ctx.with_family(key, family);
    let n = family.len();
    lemma_new_family(ctx.fn_store.next_id(), qual, name, ty);
    lemma_family_known(ctx.fn_store, ctx.ranked_fn_store, ctx.next_fn_store, key);
    assert forall|i: int, j: int| 0 <= i < j < family.len() implies (#[trigger] family[i]).to_key()
        != (#[trigger] family[j]).to_key() by {
        if family[i].to_key() == family[j].to_key() {
            lemma_ranked_key_injective(key, i as nat, key, j as nat);
        }
    }
    assert forall|i: int| 0 <= i < family.len() implies !ctx.fn_store.contains(
        #[trigger] family[i].to_key(),
    ) by {
        assert(family[i].to_key() == ranked_key(key, i as nat));
    }
    lemma_fn_store_with(ctx.fn_store, family, n);
    lemma_links_with(ctx.next_fn_store, family, (n - 1) as nat);
    assert(forall|i: int|
        0 <= i < family.len() ==> !ctx.next_fn_store.contains_key(
            #[trigger] ranked_key(key, i as nat),
        ));
    // The families that were known are as they were.
    assert forall|k: NameKeyView| after.ranked_fn_store.contains_key(k) implies family_ok(
        after.fn_store,
        after.next_fn_store,
        k,
        #[trigger] after.ranked_fn_store[k],
    ) by {
        let fam = after.ranked_fn_store[k];
        if k == key {
            assert forall|rank: int| 0 <= rank < fam.len() implies #[trigger] member_ok(
                after.fn_store,
                after.next_fn_store,
                k,
                fam,
                rank,
            ) by {
                assert(family[rank].to_key() == ranked_key(key, rank as nat));
                assert(after.fn_store.value(family[rank].to_key()) == family[rank]);
                if rank + 1 < fam.len() {
                    assert(after.next_fn_store[family[rank].to_key()] == family[rank + 1]);
                }
            }
        } else {
            assert(ctx.ranked_fn_store.contains_key(k));
            assert(fam == ctx.ranked_fn_store[k]);
            assert(family_ok(ctx.fn_store, ctx.next_fn_store, k, fam));
            assert forall|rank: int| 0 <= rank < fam.len() implies #[trigger] member_ok(
                after.fn_store,
                after.next_fn_store,
                k,
                fam,
                rank,
            ) by {
                assert(member_ok(ctx.fn_store, ctx.next_fn_store, k, fam, rank));
                let member = fam[rank];
                assert(ctx.fn_store.contains(member.to_key()));
                assert(after.fn_store.value(member.to_key()) == ctx.fn_store.value(member.to_key()));
                if rank + 1 < fam.len() {
                    assert(ctx.next_fn_store.contains_key(member.to_key()));
                    assert forall|i: int| 0 <= i < n - 1 implies member.to_key() != (
                    #[trigger] family[i]).to_key() by {
                        assert(family[i].to_key() == ranked_key(key, i as nat));
                    }
                }
            }
        }
    }
    // Every stored function belongs to a family.
    assert forall|k: NameKeyView| #[trigger] after.fn_store.contains(k) implies exists|
        f: NameKeyView,
        r: int,
    | #[trigger] is_member_key(after.ranked_fn_store, k, f, r) by {
        if ctx.fn_store.contains(k) {
            let (f, r) = choose|f: NameKeyView, r: int|
                is_member_key(ctx.ranked_fn_store, k, f, r);
            assert(is_member_key(after.ranked_fn_store, k, f, r));
        } else {
            let i = choose|i: int| 0 <= i < n && k == (#[trigger] family[i]).to_key();
            assert(is_member_key(after.ranked_fn_store, k, key, i));
        }
    }
    // Every link belongs to a family.
    assert forall|k: NameKeyView| #[trigger] after.next_fn_store.contains_key(k) implies exists|
        f: NameKeyView,
        r: int,
    | #[trigger] is_linked_key(after.ranked_fn_store, k, f, r) by {
        if ctx.next_fn_store.contains_key(k) {
            let (f, r) = choose|f: NameKeyView, r: int|
                is_linked_key(ctx.ranked_fn_store, k, f, r);
            assert(is_linked_key(after.ranked_fn_store, k, f, r));
        } else {
            let i = choose|i: int| 0 <= i < n - 1 && k == (#[trigger] family[i]).to_key();
            assert(is_linked_key(after.ranked_fn_store, k, key, i));
        }
    }
}

/// No member of `family` is stored or linked yet, and no two members have one key.
#[verifier::opaque]
pub open spec fn family_fresh(
    fn_store: IdStoreView<NameKeyView, FnSemView>,
    links: Map<NameKeyView, FnSemView>,
    family: Seq<FnSemView>,
) -> bool {
    &&& forall|i: int| 0 <= i < family.len() ==> !fn_store.contains(#[trigger] family[i].to_key())
    &&& forall|i: int| 0 <= i < family.len() ==> !links.contains_key(#[trigger] family[i].to_key())
    &&& forall|i: int, j: int|
        0 <= i < j < family.len() ==> (#[trigger] family[i]).to_key() != (
        #[trigger] family[j]).to_key()
}

/// The family of a function that has none yet is fresh.
pub proof fn lemma_family_fresh(ctx: SemContextView, qual: QualSemView, name: Seq<char>, ty: TySemView)
    requires
        ctx.wf(),
        ty.wf(),
        !ctx.has_family(NameKeyView { qual: qual.to_key(), name }),
    ensures
        family_fresh(
            ctx.fn_store,
            ctx.next_fn_store,
            new_family(ctx.fn_store.next_id(), qual, name, ty),
        ),
{
    reveal(family_fresh);
    let key = NameKeyView { qual: qual.to_key(), name };
    let family = new_family(ctx.fn_store.next_id(), qual, name, ty);
    lemma_new_family(ctx.fn_store.next_id(), qual, name, ty);
    lemma_family_known(ctx.fn_store, ctx.ranked_fn_store, ctx.next_fn_store, key);
    assert forall|i: int, j: int| 0 <= i < j < family.len() implies (#[trigger] family[i]).to_key()
        != (#[trigger] family[j]).to_key() by {
        if family[i].to_key() == family[j].to_key() {
            lemma_ranked_key_injective(key, i as nat, key, j as nat);
        }
    }
    assert forall|i: int| 0 <= i < family.len() implies !ctx.fn_store.contains(
        #[trigger] family[i].to_key(),
    ) && !ctx.next_fn_store.contains_key(family[i].to_key()) by {
        assert(family[i].to_key() == ranked_key(key, i as nat));
    }
}

/// The member of rank `rank` of a new family, and the type of the member behind it.
pub proof fn lemma_member_step(
    next_id: usize,
    qual: QualSemView,
    name: Seq<char>,
    ty: TySemView,
    rank: nat,
)
    requires
        ty.wf(),
        rank <= ty.arity(),
    ensures
        ({
            let family = new_family(next_id, qual, name, ty);
            let key = NameKeyView { qual: qual.to_key(), name };
            &&& family.len() == ty.arity() + 1
            &&& family[rank as int] == family_member(next_id, qual, name, ty, rank)
            &&& family[rank as int].to_key() == ranked_key(key, rank)
            &&& ty.nth_out(rank).arity() == ty.arity() - rank
            &&& ty.nth_out(rank).wf()
            &&& rank == 0 ==> ty.nth_out(rank) == ty
            &&& rank < ty.arity() ==> {
                &&& ty.nth_out(rank) is Ty2
                &&& ty.nth_out(rank + 1) == *ty.nth_out(rank)->Ty2_0.out_ty
            }
        }),
{
    lemma_ty_shape(ty);
}

/// While a fresh family is taken into the stores, the member that comes next is not
/// stored and the member before it is not linked.
pub proof fn lemma_next_member_fresh(
    fn_store: IdStoreView<NameKeyView, FnSemView>,
    links: Map<NameKeyView, FnSemView>,
    family: Seq<FnSemView>,
    k: nat,
)
    requires
        fn_store.wf(),
        family_fresh(fn_store, links, family),
        k + 1 < family.len(),
        fn_store.vals.len() + k + 1 <= usize::MAX,
    ensures
        !fn_store_with(fn_store, family, k + 1).contains(family[k as int + 1].to_key()),
        !links_with(links, family, k).contains_key(family[k as int].to_key()),
{
    reveal(family_fresh);
    lemma_fn_store_with(fn_store, family, k + 1);
    lemma_links_with(links, family, k);
    let member = family[k as int + 1];
    if fn_store_with(fn_store, family, k + 1).contains(member.to_key()) {
        let i = choose|i: int| 0 <= i < k + 1 && member.to_key() == (#[trigger] family[i]).to_key();
        assert(family[i].to_key() != family[k as int + 1].to_key());
    }
    if links_with(links, family, k).contains_key(family[k as int].to_key()) {
        let i = choose|i: int|
            0 <= i < k && family[k as int].to_key() == (#[trigger] family[i]).to_key();
        assert(family[i].to_key() != family[k as int].to_key());
    }
}

/// Taking members into the store adds one value for each.
pub proof fn lemma_fn_store_with_len(
    store: IdStoreView<NameKeyView, FnSemView>,
    family: Seq<FnSemView>,
    n: nat,
)
    ensures
        fn_store_with(store, family, n).vals.len() == store.vals.len() + n,
    decreases n,
{
    if n > 0 {
        lemma_fn_store_with_len(store, family, (n - 1) as nat);
    }
}

/// `r` is what looking up the function under `key` gives: the function where it is
/// interned, else the diagnostic that names the key.
pub open spec fn fn_found(ctx: SemContextView, key: NameKeyView, r: Result<FnSem, StoreError>) -> bool {
    match r {
        Ok(f) => ctx.fn_store.contains(key) && f.deep_view() == ctx.fn_store.value(key),
        Err(e) => !ctx.fn_store.contains(key) && e.deep_view() == StoreErrorView::NotFound(
            key.description(),
        ),
    }
}

impl FnSem {
    /// Stores one member of a family: the function `name` at the rank that `ty` and
    /// `arity` give.
    #[verifier::rlimit(50)]
    fn new_one(ctx: &mut SemContext, qual: QualSem, name: String, ty: TySem, arity: usize) -> (r:
        Result<Self, StoreError>)
        requires
            old(ctx).fn_store.wf(),
            ty.deep_view().arity() <= arity,
        ensures
            final(ctx).fn_store.wf(),
            final(ctx).qual_stack == old(ctx).qual_stack,
            final(ctx).qual_store == old(ctx).qual_store,
            final(ctx).ty_store == old(ctx).ty_store,
            final(ctx).ty1_store == old(ctx).ty1_store,
            final(ctx).ty2_store == old(ctx).ty2_store,
            final(ctx).ranked_fn_store == old(ctx).ranked_fn_store,
            final(ctx).next_fn_store == old(ctx).next_fn_store,
            ({
                let member = FnSemView {
                    id: old(ctx).fn_store.deep_view().next_id(),
                    qual: qual.deep_view(),
                    name: ranked_name(name@, (arity - ty.deep_view().arity()) as nat),
                    ty: ty.deep_view(),
                    arity,
                };
                match r {
                    Ok(f) => {
                        &&& f.deep_view() == member
                        &&& !old(ctx).fn_store.deep_view().contains(member.to_key())
                        &&& final(ctx).fn_store.deep_view() == old(ctx).fn_store.deep_view().inserted(member.to_key(), member)
                    },
                    Err(e) => {
                        &&& old(ctx).fn_store.deep_view().contains(member.to_key())
                        &&& final(ctx).fn_store.deep_view() == old(ctx).fn_store.deep_view()
                        &&& e.deep_view() == StoreErrorView::Duplicated(
                            member.to_key().description(),
                        )
                    },
                }
            }),
    {
        let rank = arity - ty.arity();
        let val = Self { id: ctx.fn_store.next_id(), qual, name: name_with_rank(name, rank), ty, arity };
        let key = val.to_key();
        ctx.fn_store.insert(key, val)
    }

    /// Interns the family of the function `name` of the type `ty` under `qual`. The
    /// family must be new: where the function has a family already, nothing changes
    /// and the diagnostic names the first member.
    #[verifier::rlimit(60)]
    pub fn new(ctx: &mut SemContext, qual: QualSem, name: String, ty: TySem) -> (r: Result<
        Vec<Self>,
        StoreError,
    >)
        requires
            old(ctx).wf(),
            ty.deep_view().wf(),
        ensures
            final(ctx).wf(),
            ({
                let key = NameKeyView { qual: qual.deep_view().to_key(), name: name@ };
                let family = new_family(
                    old(ctx).deep_view().fn_store.next_id(),
                    qual.deep_view(),
                    name@,
                    ty.deep_view(),
                );
                match r {
                    Ok(fs) => {
                        &&& !old(ctx).deep_view().has_family(key)
                        &&& fs.deep_view() == family
                        &&& final(ctx).deep_view() == old(ctx).deep_view().with_family(key, family)
                    },
                    Err(e) => {
                        &&& old(ctx).deep_view().has_family(key)
                        &&& final(ctx).deep_view() == old(ctx).deep_view()
                        &&& e.deep_view() == StoreErrorView::Duplicated(
                            ranked_key(key, 0).description(),
                        )
                    },
                }
            }),
    {
        let ghost start = old(ctx).deep_view();
        let ghost q = qual.deep_view();
        let ghost t = ty.deep_view();
        let ghost key = NameKeyView { qual: q.to_key(), name: name@ };
        let ghost family = new_family(start.fn_store.next_id(), q, name@, t);
        proof {
            lemma_member_step(start.fn_store.next_id(), q, name@, t, 0);
            lemma_family_known(start.fn_store, start.ranked_fn_store, start.next_fn_store, key);
        }
        let arity = ty.arity();
        let head = match Self::new_one(ctx, qual.replica(), name.clone(), ty.replica(), arity) {
            Ok(f) => f,
            Err(e) => {
                return Err(e);
            },
        };
        proof {
            lemma_family_fresh(start, q, name@, t);
            assert(head.deep_view() == family[0]);
            assert(fn_store_with(start.fn_store, family, 0) == start.fn_store);
            assert(fn_store_with(start.fn_store, family, 1) == fn_store_with(
                start.fn_store,
                family,
                0,
            ).inserted(family[0].to_key(), family[0]));
        }
        let mut fs: Vec<Self> = Vec::new();
        fs.push(head.replica());
        assert(fs.deep_view() =~= family.subrange(0, 1));
        let mut prev_f = head;
        let mut cur_ty = ty;
        let mut k: usize = 0;
        while k < arity
            invariant
                k <= arity,
                arity == t.arity(),
                t.wf(),
                q == qual.deep_view(),
                start.fn_store.wf(),
                family == new_family(start.fn_store.next_id(), q, name@, t),
                family_fresh(start.fn_store, start.next_fn_store, family),
                fs.deep_view() == family.subrange(0, k + 1),
                prev_f.deep_view() == family[k as int],
                cur_ty.deep_view() == t.nth_out(k as nat),
                ctx.fn_store.wf(),
                ctx.next_fn_store.wf(),
                ctx.fn_store.deep_view() == fn_store_with(start.fn_store, family, (k + 1) as nat),
                ctx.next_fn_store.deep_view() == links_with(start.next_fn_store, family, k as nat),
                ctx.qual_stack == old(ctx).qual_stack,
                ctx.qual_store == old(ctx).qual_store,
                ctx.ty_store == old(ctx).ty_store,
                ctx.ty1_store == old(ctx).ty1_store,
                ctx.ty2_store == old(ctx).ty2_store,
                ctx.ranked_fn_store == old(ctx).ranked_fn_store,
            decreases arity - k,
        {
            proof {
                ctx.fn_store.lemma_view_wf();
                lemma_fn_store_with_len(start.fn_store, family, (k + 1) as nat);
                lemma_member_step(start.fn_store.next_id(), q, name@, t, (k + 1) as nat);
                lemma_member_step(start.fn_store.next_id(), q, name@, t, k as nat);
                lemma_next_member_fresh(start.fn_store, start.next_fn_store, family, k as nat);
            }
            let next_ty = cur_ty.to_out_ty().unwrap();
            let next_f = Self::new_one(ctx, qual.replica(), name.clone(), next_ty.replica(), arity).unwrap();
            let ghost before = fs.deep_view();
            fs.push(next_f.replica());
            assert(fs.deep_view() =~= before.push(next_f.deep_view()));
            assert(before.push(next_f.deep_view()) =~= family.subrange(0, k + 2));
            ctx.next_fn_store.insert(prev_f.to_key(), next_f.replica()).unwrap();
            prev_f = next_f;
            cur_ty = next_ty;
            k += 1;
        }
        proof {
            assert(family.subrange(0, k + 1) =~= family);
            ctx.fn_store.lemma_view_wf();
            lemma_fn_store_with_len(start.fn_store, family, (k + 1) as nat);
        }
        ctx.ranked_fn_store.insert(FnKey::new(qual.to_key(), name), fs.replica()).unwrap();
        proof {
            lemma_with_family_wf(start, q, name@, t);
        }
        Ok(fs)
    }

    /// The family of the function `name` under `qual`: the one that is known, else the
    /// one that is interned now as `new` does it.
    #[verifier::rlimit(50)]
    pub fn new_or_get(ctx: &mut SemContext, qual: QualSem, name: String, ty: TySem) -> (fs: Vec<
        Self,
    >)
        requires
            old(ctx).wf(),
            ty.deep_view().wf(),
        ensures
            final(ctx).wf(),
            ({
                let key = NameKeyView { qual: qual.deep_view().to_key(), name: name@ };
                let family = new_family(
                    old(ctx).deep_view().fn_store.next_id(),
                    qual.deep_view(),
                    name@,
                    ty.deep_view(),
                );
                &&& final(ctx).deep_view() == old(ctx).deep_view().with_family_or_same(key, family)
                &&& final(ctx).deep_view().has_family(key)
                &&& fs.deep_view() == final(ctx).deep_view().ranked_fn_store[key]
                &&& fs.len() > 0
            }),
    {
        let key = FnKey::new(qual.to_key(), name.clone());
        match ctx.ranked_fn_store.get(&key) {
            Ok(fs) => {
                proof {
                    let k = key.deep_view();
                    assert(family_ok(
                        ctx.deep_view().fn_store,
                        ctx.deep_view().next_fn_store,
                        k,
                        ctx.deep_view().ranked_fn_store[k],
                    ));
                }
                fs
            },
            Err(_) => {
                proof {
                    lemma_new_family(
                        ctx.deep_view().fn_store.next_id(),
                        qual.deep_view(),
                        name@,
                        ty.deep_view(),
                    );
                }
                Self::new(ctx, qual, name, ty).unwrap()
            },
        }
    }

    /// The function symbol `name` under `qual`; `name` holds the rank.
    pub fn get(ctx: &SemContext, qual: QualKey, name: String) -> (r: Result<Self, StoreError>)
        requires
            ctx.wf(),
        ensures
            fn_found(ctx.deep_view(), NameKeyView { qual: qual.deep_view(), name: name@ }, r),
    {
        let key = FnKey::new(qual, name);
        key.get(ctx)
    }

    /// The member of rank `rank` of the family of the function `name` under `qual`.
    pub fn get_with_rank(ctx: &SemContext, qual: QualKey, name: String, rank: usize) -> (r: Result<
        Self,
        StoreError,
    >)
        requires
            ctx.wf(),
        ensures
            fn_found(
                ctx.deep_view(),
                ranked_key(NameKeyView { qual: qual.deep_view(), name: name@ }, rank as nat),
                r,
            ),
    {
        let key = FnKey::new_with_rank(qual, name, rank);
        key.get(ctx)
    }
}

impl FnKey {
    /// The function symbol under this key.
    pub fn get(&self, ctx: &SemContext) -> (r: Result<FnSem, StoreError>)
        requires
            ctx.wf(),
        ensures
            fn_found(ctx.deep_view(), self.deep_view(), r),
    {
        ctx.fn_store.get(self)
    }
}

/// Every family is saturated: the family of a function of arity `n` has `n + 1`
/// members, and the member at `k` has the rank `k`, the arity `n`, and a type that
/// takes the `n - k` arguments that are left.
pub proof fn lemma_family_saturation(ctx: SemContextView, key: NameKeyView, k: int)
    requires
        ctx.wf(),
        ctx.has_family(key),
        0 <= k <= ctx.ranked_fn_store[key][0].arity,
    ensures
        ({
            let family = ctx.ranked_fn_store[key];
            let n = family[0].arity;
            &&& family.len() == n + 1
            &&& family[k].rank() == k
            &&& family[k].arity == n
            &&& family[k].ty.arity() == n - k
            &&& family[k].to_key() == ranked_key(key, k as nat)
            &&& ctx.fn_store.contains(ranked_key(key, k as nat))
            &&& ctx.fn_store.value(ranked_key(key, k as nat)) == family[k]
        }),
{
    let family = ctx.ranked_fn_store[key];
    assert(family_ok(ctx.fn_store, ctx.next_fn_store, key, family));
    assert(member_ok(ctx.fn_store, ctx.next_fn_store, key, family, k));
}

/// Every family is linked: the member of each rank below the arity leads to the
/// member of the next rank, whose type is the result type of its own.
pub proof fn lemma_family_linkage(ctx: SemContextView, key: NameKeyView, k: int)
    requires
        ctx.wf(),
        ctx.has_family(key),
        0 <= k < ctx.ranked_fn_store[key][0].arity,
    ensures
        ({
            let family = ctx.ranked_fn_store[key];
            &&& ctx.next_fn_store.contains_key(ranked_key(key, k as nat))
            &&& ctx.next_fn_store[ranked_key(key, k as nat)] == family[k + 1]
            &&& family[k].ty matches TySemView::Ty2(ty2)
            &&& family[k + 1].ty == *ty2.out_ty
        }),
{
    let family = ctx.ranked_fn_store[key];
    assert(family_ok(ctx.fn_store, ctx.next_fn_store, key, family));
    assert(member_ok(ctx.fn_store, ctx.next_fn_store, key, family, k));
}

} // verus!
