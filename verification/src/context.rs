//! The semantic context: the stores of interned entities and the stack of qualifiers
//! under which names are looked up.

use vstd::prelude::*;
use crate::fn_sem::{ranked_key, FnKey, FnSem, FnSemView};
use crate::qual_sem::{NameKeyView, QualKey, QualKeyView, QualSem, QualSemView, ScopeSem};
use crate::sem::{KeyEq, Replica, SemVal};
use crate::store::{GenericStore, IdStore, IdStoreView};
use crate::ty_sem::{Ty1Key, Ty1Sem, Ty1SemView, Ty2Key, Ty2Sem, Ty2SemView, TyKey, TySem, TySemView};

verus! {

/// The qualifiers that are open, the innermost last. The first is the top qualifier.
pub struct QualStack {
    pub stack: Vec<QualKey>,
}

impl DeepView for QualStack {
    type V = Seq<QualKeyView>;

    open spec fn deep_view(&self) -> Seq<QualKeyView> {
        self.stack.deep_view()
    }
}

/// The top qualifier was asked to leave the stack.
#[derive(Clone, Copy, Debug, PartialEq, Eq, Structural)]
pub struct TopScopePopped;

impl QualStack {
    /// The stack is not empty and the top qualifier is its first entry.
    pub open spec fn wf(&self) -> bool {
        stack_wf(self.deep_view())
    }

    pub fn new() -> (stack: Self)
        ensures
            stack.wf(),
            stack.deep_view() == seq![QualKeyView::top()],
    {
        let mut stack: Vec<QualKey> = Vec::new();
        stack.push(QualKey::top());
        assert(stack.deep_view() =~= seq![QualKeyView::top()]);
        Self { stack }
    }

    /// Opens the qualifier `qual` and gives its key back.
    pub fn push(&mut self, qual: &QualSem) -> (key: QualKey)
        ensures
            final(self).deep_view() == old(self).deep_view().push(qual.deep_view().to_key()),
            key.deep_view() == qual.deep_view().to_key(),
    {
        let key = qual.to_key();
        let ghost before = self.stack.deep_view();
        self.stack.push(key.replica());
        assert(self.stack.deep_view() =~= before.push(key.deep_view()));
        key
    }

    /// The innermost open qualifier.
    pub fn peek(&self) -> (key: QualKey)
        requires
            self.deep_view().len() > 0,
        ensures
            key.deep_view() == self.deep_view().last(),
    {
        self.stack[self.stack.len() - 1].replica()
    }

    /// Closes the innermost qualifier. The top qualifier stays: asked to close it, the
    /// stack refuses and is left as it was.
    pub fn pop(&mut self) -> (r: Result<QualKey, TopScopePopped>)
        ensures
            match r {
                Ok(key) => {
                    &&& can_pop(old(self).deep_view())
                    &&& key.deep_view() == old(self).deep_view().last()
                    &&& final(self).deep_view() == old(self).deep_view().drop_last()
                },
                Err(_) => {
                    &&& !can_pop(old(self).deep_view())
                    &&& final(self).deep_view() == old(self).deep_view()
                },
            },
    {
        let n: usize = self.stack.len();
        if n <= 1 || self.stack[n - 1].is_top() {
            return Err(TopScopePopped);
        }
        let ghost before = self.stack.deep_view();
        let key = self.stack.pop().unwrap();
        assert(self.stack.deep_view() =~= before.drop_last());
        Ok(key)
    }

    /// The open qualifiers, the innermost first.
    pub fn iter(&self) -> (keys: Vec<QualKey>)
        ensures
            keys.deep_view() == self.deep_view().reverse(),
    {
        let mut keys: Vec<QualKey> = Vec::new();
        let n: usize = self.stack.len();
        let mut i: usize = n;
        while i > 0
            invariant
                i <= n,
                n == self.stack.len(),
                keys.len() == n - i,
                forall|j: int|
                    0 <= j < keys.len() ==> keys@[j].deep_view() == self.stack@[n - 1
                        - j].deep_view(),
            decreases i,
        {
            keys.push(self.stack[i - 1].replica());
            i -= 1;
        }
        assert(keys.deep_view() =~= self.deep_view().reverse());
        keys
    }
}

pub open spec fn stack_wf(stack: Seq<QualKeyView>) -> bool {
    stack.len() > 0 && stack[0] == QualKeyView::top()
}

/// Whether the innermost qualifier can be closed: it is not the only one and it is
/// not the top qualifier.
pub open spec fn can_pop(stack: Seq<QualKeyView>) -> bool {
    stack.len() > 1 && stack.last() != QualKeyView::top()
}

/// All that the semantic pass knows.
pub struct SemContext {
    pub qual_stack: QualStack,
    pub qual_store: IdStore<QualKey, QualSem>,
    pub ty_store: IdStore<TyKey, TySem>,
    pub ty2_store: IdStore<Ty2Key, Ty2Sem>,
    pub ty1_store: IdStore<Ty1Key, Ty1Sem>,
    pub fn_store: IdStore<FnKey, FnSem>,
    /// The family of each function under the key with its unranked name.
    pub ranked_fn_store: GenericStore<FnKey, Vec<FnSem>>,
    /// For each member of a family but its last, the member of the next rank.
    pub next_fn_store: GenericStore<FnKey, FnSem>,
}

pub struct SemContextView {
    pub qual_stack: Seq<QualKeyView>,
    pub qual_store: IdStoreView<QualKeyView, QualSemView>,
    pub ty_store: IdStoreView<NameKeyView, TySemView>,
    pub ty2_store: IdStoreView<NameKeyView, Ty2SemView>,
    pub ty1_store: IdStoreView<NameKeyView, Ty1SemView>,
    pub fn_store: IdStoreView<NameKeyView, FnSemView>,
    pub ranked_fn_store: Map<NameKeyView, Seq<FnSemView>>,
    pub next_fn_store: Map<NameKeyView, FnSemView>,
}

impl DeepView for SemContext {
    type V = SemContextView;

    open spec fn deep_view(&self) -> SemContextView {
        SemContextView {
            qual_stack: self.qual_stack.deep_view(),
            qual_store: self.qual_store.deep_view(),
            ty_store: self.ty_store.deep_view(),
            ty2_store: self.ty2_store.deep_view(),
            ty1_store: self.ty1_store.deep_view(),
            fn_store: self.fn_store.deep_view(),
            ranked_fn_store: self.ranked_fn_store.deep_view(),
            next_fn_store: self.next_fn_store.deep_view(),
        }
    }
}

/// `key` is the key of the member of rank `rank` of the family `family`.
pub open spec fn is_member_key(
    ranked: Map<NameKeyView, Seq<FnSemView>>,
    key: NameKeyView,
    family: NameKeyView,
    rank: int,
) -> bool {
    &&& ranked.contains_key(family)
    &&& 0 <= rank < ranked[family].len()
    &&& key == ranked_key(family, rank as nat)
}

/// `key` is the key of a member of the family `family` that has a member behind it.
pub open spec fn is_linked_key(
    ranked: Map<NameKeyView, Seq<FnSemView>>,
    key: NameKeyView,
    family: NameKeyView,
    rank: int,
) -> bool {
    &&& ranked.contains_key(family)
    &&& 0 <= rank < ranked[family].len() - 1
    &&& key == ranked_key(family, rank as nat)
}

/// What holds of the qualifiers: each is stored under its own path, and all open
/// qualifiers are stored.
pub open spec fn quals_wf(
    qual_stack: Seq<QualKeyView>,
    qual_store: IdStoreView<QualKeyView, QualSemView>,
) -> bool {
    &&& qual_store.wf()
    &&& stack_wf(qual_stack)
    &&& forall|i: int| 0 <= i < qual_stack.len() ==> qual_store.contains(#[trigger] qual_stack[i])
    &&& forall|key: QualKeyView|
        qual_store.contains(key) ==> (#[trigger] qual_store.value(key)).to_key() == key
}

/// What holds of the types: each is stored under its own key, and the arity of each
/// counts its arrows.
pub open spec fn tys_wf(
    ty_store: IdStoreView<NameKeyView, TySemView>,
    ty1_store: IdStoreView<NameKeyView, Ty1SemView>,
    ty2_store: IdStoreView<NameKeyView, Ty2SemView>,
) -> bool {
    &&& ty_store.wf()
    &&& ty1_store.wf()
    &&& ty2_store.wf()
    &&& forall|key: NameKeyView|
        ty_store.contains(key) ==> {
            &&& (#[trigger] ty_store.value(key)).to_key() == key
            &&& ty_store.value(key).wf()
        }
    &&& forall|key: NameKeyView|
        ty1_store.contains(key) ==> (#[trigger] ty1_store.value(key)).to_key() == key
    &&& forall|key: NameKeyView|
        ty2_store.contains(key) ==> {
            &&& (#[trigger] ty2_store.value(key)).to_key() == key
            &&& TySemView::Ty2(ty2_store.value(key)).wf()
        }
}

/// What holds of the member of rank `rank` of the family `family` under the key
/// `key`: it has the name of its rank and the arity of the family, its type is what
/// is left of the family's type after `rank` arguments, it is stored under its own
/// key, and the member behind it is linked to it.
pub open spec fn member_ok(
    fn_store: IdStoreView<NameKeyView, FnSemView>,
    next_fn_store: Map<NameKeyView, FnSemView>,
    key: NameKeyView,
    family: Seq<FnSemView>,
    rank: int,
) -> bool {
    let member = family[rank];
    &&& member.to_key() == ranked_key(key, rank as nat)
    &&& member.arity == family[0].arity
    &&& member.ty.arity() + rank == member.arity
    &&& member.ty.wf()
    &&& fn_store.contains(member.to_key())
    &&& fn_store.value(member.to_key()) == member
    &&& rank + 1 < family.len() ==> {
        &&& next_fn_store.contains_key(member.to_key())
        &&& next_fn_store[member.to_key()] == family[rank + 1]
        &&& member.ty matches TySemView::Ty2(ty2)
        &&& family[rank + 1].ty == *ty2.out_ty
    }
}

/// What holds of the family `family` under the key `key`: it has one member for each
/// rank up to the arity.
pub open spec fn family_ok(
    fn_store: IdStoreView<NameKeyView, FnSemView>,
    next_fn_store: Map<NameKeyView, FnSemView>,
    key: NameKeyView,
    family: Seq<FnSemView>,
) -> bool {
    &&& family.len() > 0
    &&& family.len() == family[0].arity + 1
    &&& forall|rank: int|
        0 <= rank < family.len() ==> #[trigger] member_ok(
            fn_store,
            next_fn_store,
            key,
            family,
            rank,
        )
}

/// What holds of the functions: every family is complete and linked, and every stored
/// function and every link belongs to a family.
pub open spec fn fns_wf(
    fn_store: IdStoreView<NameKeyView, FnSemView>,
    ranked_fn_store: Map<NameKeyView, Seq<FnSemView>>,
    next_fn_store: Map<NameKeyView, FnSemView>,
) -> bool {
    &&& fn_store.wf()
    &&& forall|key: NameKeyView|
        ranked_fn_store.contains_key(key) ==> family_ok(
            fn_store,
            next_fn_store,
            key,
            #[trigger] ranked_fn_store[key],
        )
    &&& forall|key: NameKeyView| #[trigger]
        fn_store.contains(key) ==> exists|family: NameKeyView, rank: int| #[trigger]
            is_member_key(ranked_fn_store, key, family, rank)
    &&& forall|key: NameKeyView| #[trigger]
        next_fn_store.contains_key(key) ==> exists|family: NameKeyView, rank: int| #[trigger]
            is_linked_key(ranked_fn_store, key, family, rank)
}

impl SemContextView {
    pub open spec fn quals_wf(self) -> bool {
        quals_wf(self.qual_stack, self.qual_store)
    }

    pub open spec fn tys_wf(self) -> bool {
        tys_wf(self.ty_store, self.ty1_store, self.ty2_store)
    }

    pub open spec fn fns_wf(self) -> bool {
        fns_wf(self.fn_store, self.ranked_fn_store, self.next_fn_store)
    }

    pub open spec fn wf(self) -> bool {
        &&& self.quals_wf()
        &&& self.tys_wf()
        &&& self.fns_wf()
    }

    /// Whether the function with the key `key` has a family.
    pub open spec fn has_family(self, key: NameKeyView) -> bool {
        self.ranked_fn_store.contains_key(key)
    }
}

impl SemContext {
    /// The stores are sound and their contents are.
    pub open spec fn wf(&self) -> bool {
        &&& self.qual_store.wf()
        &&& self.ty_store.wf()
        &&& self.ty2_store.wf()
        &&& self.ty1_store.wf()
        &&& self.fn_store.wf()
        &&& self.ranked_fn_store.wf()
        &&& self.next_fn_store.wf()
        &&& self.deep_view().wf()
    }
}

} // verus!
