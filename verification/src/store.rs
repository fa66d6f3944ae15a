//! The stores of the semantic context: maps from keys to interned values.
//!
//! `KeyMap` is the map itself, kept as a list of entries that is searched from its
//! end, so that a later entry for a key stands for the key. `IdStore` gives every
//! value it takes an id, its index in the order of insertion; `GenericStore` keeps
//! values under their keys and nothing else.

use vstd::prelude::*;
use vstd::string::*;
use crate::sem::{KeyEq, Replica, Sem};

verus! {

/// Why a store refused a request.
#[derive(Clone, Debug, PartialEq, Eq)]
pub enum StoreError {
    /// The key is in the store already; the text describes the key.
    Duplicated(String),
    /// The key is not in the store; the text describes the key.
    NotFound(String),
}

pub enum StoreErrorView {
    Duplicated(Seq<char>),
    NotFound(Seq<char>),
}

impl DeepView for StoreError {
    type V = StoreErrorView;

    open spec fn deep_view(&self) -> StoreErrorView {
        match self {
            StoreError::Duplicated(key) => StoreErrorView::Duplicated(key@),
            StoreError::NotFound(key) => StoreErrorView::NotFound(key@),
        }
    }
}

impl StoreErrorView {
    pub open spec fn message(self) -> Seq<char> {
        match self {
            StoreErrorView::Duplicated(key) => "Registration duplicated: `"@ + key + "`"@,
            StoreErrorView::NotFound(key) => "Key not found: `"@ + key + "`"@,
        }
    }
}

impl StoreError {
    /// The text of the diagnostic.
    pub fn message(&self) -> (s: String)
        ensures
            s@ == self.deep_view().message(),
    {
        match self {
            StoreError::Duplicated(key) => {
                let mut s = String::from_str("Registration duplicated: `");
                s.append(key.as_str());
                s.append("`");
                s
            },
            StoreError::NotFound(key) => {
                let mut s = String::from_str("Key not found: `");
                s.append(key.as_str());
                s.append("`");
                s
            },
        }
    }
}

/// The index of the last entry of `keys` that is `key`.
pub open spec fn position<K>(keys: Seq<K>, key: K) -> Option<int>
    decreases keys.len(),
{
    if keys.len() == 0 {
        None
    } else if keys.last() == key {
        Some(keys.len() - 1)
    } else {
        position(keys.drop_last(), key)
    }
}

/// `position` finds an entry with the key where there is one, and the last such.
pub proof fn lemma_position<K>(keys: Seq<K>, key: K)
    ensures
        match position(keys, key) {
            Some(i) => 0 <= i < keys.len() && keys[i] == key && forall|j: int|
                i < j < keys.len() ==> keys[j] != key,
            None => forall|j: int| 0 <= j < keys.len() ==> keys[j] != key,
        },
    decreases keys.len(),
{
    if keys.len() > 0 && keys.last() != key {
        let rest = keys.drop_last();
        lemma_position(rest, key);
        assert forall|j: int| 0 <= j < rest.len() implies rest[j] == keys[j] by {}
    }
}

/// A new entry at the end stands for its key and leaves the other keys where they
/// were.
pub proof fn lemma_position_push<K>(keys: Seq<K>, added: K, key: K)
    ensures
        position(keys.push(added), key) == if key == added {
            Some(keys.len() as int)
        } else {
            position(keys, key)
        },
{
    assert(keys.push(added).drop_last() =~= keys);
}

/// A map from keys to values, both taken by their mathematical value.
pub struct KeyMap<Key, Val> {
    pub keys: Vec<Key>,
    pub vals: Vec<Val>,
}

impl<Key: KeyEq, Val: DeepView> KeyMap<Key, Val> {
    pub open spec fn wf(&self) -> bool {
        self.keys.len() == self.vals.len()
    }

    /// The index of the entry that stands for `key`.
    pub open spec fn index_of(&self, key: Key::V) -> Option<int> {
        position(self.keys.deep_view(), key)
    }

    pub open spec fn contains(&self, key: Key::V) -> bool {
        self.index_of(key) is Some
    }

    /// The value under `key`.
    pub open spec fn value(&self, key: Key::V) -> Val::V {
        self.vals@[self.index_of(key).unwrap()].deep_view()
    }

    /// The map as a mathematical map.
    pub open spec fn map(&self) -> Map<Key::V, Val::V> {
        Map::new(|key: Key::V| self.contains(key), |key: Key::V| self.value(key))
    }

    pub fn new() -> (m: Self)
        ensures
            m.wf(),
            m.map() == Map::<Key::V, Val::V>::empty(),
            m.keys@.len() == 0,
    {
        let m = KeyMap { keys: Vec::new(), vals: Vec::new() };
        assert(m.keys.deep_view() =~= Seq::<Key::V>::empty());
        assert(m.map() =~= Map::<Key::V, Val::V>::empty());
        m
    }

    /// The index of the entry for `key`, if the map has one.
    #[verifier::rlimit(50)]
    pub fn find(&self, key: &Key) -> (r: Option<usize>)
        requires
            self.wf(),
        ensures
            match r {
                Some(i) => self.index_of(key.deep_view()) == Some(i as int) && i < self.keys.len(),
                None => !self.contains(key.deep_view()),
            },
    {
        let ghost keys = self.keys.deep_view();
        let mut i: usize = self.keys.len();
        assert(keys.subrange(0, i as int) =~= keys);
        while i > 0
            invariant
                i <= self.keys.len(),
                keys == self.keys.deep_view(),
                position(keys, key.deep_view()) == position(
                    keys.subrange(0, i as int),
                    key.deep_view(),
                ),
            decreases i,
        {
            let ghost prefix = keys.subrange(0, i as int);
            assert(prefix.drop_last() =~= keys.subrange(0, i - 1));
            assert(prefix.last() == self.keys@[i - 1].deep_view());
            if self.keys[i - 1].same(key) {
                return Some(i - 1);
            }
            i -= 1;
        }
        None
    }

    /// Puts `val` under `key`, whatever stood there before.
    pub fn put(&mut self, key: Key, val: Val)
        requires
            old(self).wf(),
        ensures
            final(self).wf(),
            final(self).map() == old(self).map().insert(key.deep_view(), val.deep_view()),
            final(self).keys@ == old(self).keys@.push(key),
            final(self).vals@ == old(self).vals@.push(val),
    {
        let ghost before = self.keys.deep_view();
        self.keys.push(key);
        self.vals.push(val);
        assert(self.keys.deep_view() =~= before.push(key.deep_view()));
        assert forall|k: Key::V|
            self.contains(k) == (old(self).map().insert(
                key.deep_view(),
                val.deep_view(),
            )).contains_key(k) && (self.contains(k) ==> self.value(k) == old(self).map().insert(
                key.deep_view(),
                val.deep_view(),
            )[k]) by {
            lemma_position_push(before, key.deep_view(), k);
            lemma_position(before, k);
        }
        assert(self.map() =~= old(self).map().insert(key.deep_view(), val.deep_view()));
    }
}

/// A change of the value at the entry that stands for a key changes the map at that
/// key alone.
pub proof fn lemma_key_map_update<Key: KeyEq, Val: DeepView>(
    before: KeyMap<Key, Val>,
    after: KeyMap<Key, Val>,
    key: Key::V,
    i: int,
)
    requires
        before.wf(),
        before.index_of(key) == Some(i),
        after.keys == before.keys,
        after.vals@.len() == before.vals@.len(),
        forall|j: int| 0 <= j < before.vals@.len() && j != i ==> after.vals@[j] == before.vals@[j],
    ensures
        after.wf(),
        after.map() == before.map().insert(key, after.vals@[i].deep_view()),
{
    let keys = before.keys.deep_view();
    assert forall|k: Key::V|
        after.contains(k) == before.map().insert(key, after.vals@[i].deep_view()).contains_key(k)
            && (after.contains(k) ==> after.value(k) == before.map().insert(
            key,
            after.vals@[i].deep_view(),
        )[k]) by {
        lemma_position(keys, k);
        lemma_position(keys, key);
    }
    assert(after.map() =~= before.map().insert(key, after.vals@[i].deep_view()));
}

/// The mathematical value of an `IdStore`: the id of each key and the values by id.
#[verifier::reject_recursive_types(K)]
pub struct IdStoreView<K, V> {
    pub ids: Map<K, usize>,
    pub vals: Seq<V>,
}

impl<K, V> IdStoreView<K, V> {
    pub open spec fn empty() -> Self {
        IdStoreView { ids: Map::empty(), vals: Seq::empty() }
    }

    /// The id that the next value will get.
    pub open spec fn next_id(self) -> usize {
        self.vals.len() as usize
    }

    pub open spec fn contains(self, key: K) -> bool {
        self.ids.contains_key(key)
    }

    /// The value that is stored under `key`.
    pub open spec fn value(self, key: K) -> V {
        self.vals[self.ids[key] as int]
    }

    /// The store after `val` was taken under `key` with the next id.
    pub open spec fn inserted(self, key: K, val: V) -> Self {
        IdStoreView { ids: self.ids.insert(key, self.next_id()), vals: self.vals.push(val) }
    }

    /// The store after `insert_or_get`: unchanged where the key is known.
    pub open spec fn inserted_or_same(self, key: K, val: V) -> Self {
        if self.contains(key) {
            self
        } else {
            self.inserted(key, val)
        }
    }

    /// Every id in use is the index of a value, and the next id is a machine number.
    pub open spec fn wf(self) -> bool {
        &&& self.vals.len() <= usize::MAX
        &&& forall|key: K|
            self.ids.contains_key(key) ==> (#[trigger] self.ids[key]) < self.vals.len()
    }
}

/// What `inserted_or_same` keeps and what it adds.
#[verifier::rlimit(50)]
pub proof fn lemma_inserted_or_same<K, V>(store: IdStoreView<K, V>, key: K, val: V)
    requires
        store.wf(),
        store.inserted_or_same(key, val).vals.len() <= usize::MAX,
    ensures
        store.inserted_or_same(key, val).wf(),
        store.inserted_or_same(key, val).contains(key),
        store.inserted_or_same(key, val).value(key) == if store.contains(key) {
            store.value(key)
        } else {
            val
        },
        forall|k: K|
            store.contains(k) ==> #[trigger] store.inserted_or_same(key, val).contains(k)
                && store.inserted_or_same(key, val).value(k) == store.value(k),
        forall|k: K| #[trigger]
            store.inserted_or_same(key, val).contains(k) ==> store.contains(k) || k == key,
{
    let after = store.inserted_or_same(key, val);
    if !store.contains(key) {
        assert(after.ids[key] == store.vals.len());
        assert forall|k: K| store.contains(k) implies #[trigger] after.contains(k) && after.value(k)
            == store.value(k) by {
            assert(store.ids[k] < store.vals.len());
        }
        assert forall|k: K| after.ids.contains_key(k) implies (#[trigger] after.ids[k])
            < after.vals.len() by {
            if k != key {
                assert(store.ids[k] < store.vals.len());
            }
        }
    }
}

/// A store that gives each value an id: the number of values it held before.
pub struct IdStore<Key, Val> {
    pub id_map: KeyMap<Key, usize>,
    pub vals: Vec<Val>,
}

impl<Key: KeyEq + Sem, Val: Replica> DeepView for IdStore<Key, Val> {
    type V = IdStoreView<Key::V, Val::V>;

    open spec fn deep_view(&self) -> IdStoreView<Key::V, Val::V> {
        IdStoreView { ids: self.id_map.map(), vals: self.vals.deep_view() }
    }
}

impl<Key: KeyEq + Sem, Val: Replica> IdStore<Key, Val> {
    pub open spec fn wf(&self) -> bool {
        &&& self.id_map.wf()
        &&& forall|i: int|
            0 <= i < self.id_map.vals@.len() ==> (#[trigger] self.id_map.vals@[i]) < self.vals@.len()
    }

    pub proof fn lemma_view_wf(&self)
        requires
            self.wf(),
        ensures
            self.deep_view().wf(),
    {
        assert(self.vals.len() == self.vals@.len());
        assert forall|key: Key::V| self.id_map.map().contains_key(key) implies (
        #[trigger] self.id_map.map()[key]) < self.vals.deep_view().len() by {
            lemma_position(self.id_map.keys.deep_view(), key);
        }
    }

    pub fn new() -> (store: Self)
        ensures
            store.wf(),
            store.deep_view() == IdStoreView::<Key::V, Val::V>::empty(),
    {
        let store = Self { id_map: KeyMap::new(), vals: Vec::new() };
        assert(store.vals.deep_view() =~= Seq::<Val::V>::empty());
        store
    }

    pub fn next_id(&self) -> (id: usize)
        ensures
            id == self.deep_view().next_id(),
            id == self.deep_view().vals.len(),
    {
        self.vals.len()
    }

    /// Takes `val` under `key` with the next id, unless the key is known already.
    #[verifier::rlimit(50)]
    pub fn insert(&mut self, key: Key, val: Val) -> (r: Result<Val, StoreError>)
        requires
            old(self).wf(),
        ensures
            final(self).wf(),
            match r {
                Ok(stored) => {
                    &&& !old(self).deep_view().contains(key.deep_view())
                    &&& final(self).deep_view() == old(self).deep_view().inserted(
                        key.deep_view(),
                        val.deep_view(),
                    )
                    &&& stored.deep_view() == val.deep_view()
                },
                Err(e) => {
                    &&& old(self).deep_view().contains(key.deep_view())
                    &&& final(self).deep_view() == old(self).deep_view()
                    &&& e.deep_view() == StoreErrorView::Duplicated(key.spec_description())
                },
            },
    {
        let id = self.next_id();
        if self.id_map.find(&key).is_some() {
            return Err(StoreError::Duplicated(key.description()));
        }
        let stored = val.replica();
        let ghost before = self.vals.deep_view();
        self.id_map.put(key, id);
        self.vals.push(val);
        assert(self.vals.deep_view() =~= before.push(val.deep_view()));
        Ok(stored)
    }

    /// The value under `key` where the key is known; else `val`, which is then taken
    /// with the next id.
    #[verifier::rlimit(50)]
    pub fn insert_or_get(&mut self, key: Key, val: Val) -> (stored: Val)
        requires
            old(self).wf(),
        ensures
            final(self).wf(),
            final(self).deep_view() == old(self).deep_view().inserted_or_same(
                key.deep_view(),
                val.deep_view(),
            ),
            stored.deep_view() == final(self).deep_view().value(key.deep_view()),
            final(self).deep_view().contains(key.deep_view()),
    {
        let id = self.next_id();
        match self.id_map.find(&key) {
            Some(i) => {
                let known: usize = self.id_map.vals[i];
                assert(self.deep_view().ids[key.deep_view()] == known);
                assert(self.vals.deep_view()[known as int] == self.vals@[known as int].deep_view());
                let stored = self.vals[known].replica();
                assert(stored.deep_view() == self.deep_view().value(key.deep_view()));
                stored
            },
            None => {
                let stored = val.replica();
                let ghost before = self.vals.deep_view();
                self.id_map.put(key, id);
                self.vals.push(val);
                assert(self.vals.deep_view() =~= before.push(val.deep_view()));
                assert(self.deep_view().ids[key.deep_view()] == id);
                assert(self.deep_view().value(key.deep_view()) == val.deep_view());
                stored
            },
        }
    }

    /// Takes `val` under `key` with the next id, whether or not the key is known.
    pub fn force_insert(&mut self, key: Key, val: Val) -> (stored: Val)
        requires
            old(self).wf(),
        ensures
            final(self).wf(),
            final(self).deep_view() == old(self).deep_view().inserted(
                key.deep_view(),
                val.deep_view(),
            ),
            stored.deep_view() == val.deep_view(),
    {
        let id = self.next_id();
        let stored = val.replica();
        let ghost before = self.vals.deep_view();
        self.id_map.put(key, id);
        self.vals.push(val);
        assert(self.vals.deep_view() =~= before.push(val.deep_view()));
        stored
    }

    /// Whether `key` is known.
    pub fn contains(&self, key: &Key) -> (b: bool)
        requires
            self.wf(),
        ensures
            b == self.deep_view().contains(key.deep_view()),
    {
        self.id_map.find(key).is_some()
    }

    pub fn get(&self, key: &Key) -> (r: Result<Val, StoreError>)
        requires
            self.wf(),
        ensures
            match r {
                Ok(val) => {
                    &&& self.deep_view().contains(key.deep_view())
                    &&& val.deep_view() == self.deep_view().value(key.deep_view())
                },
                Err(e) => {
                    &&& !self.deep_view().contains(key.deep_view())
                    &&& e.deep_view() == StoreErrorView::NotFound(key.spec_description())
                },
            },
    {
        match self.id_map.find(key) {
            Some(i) => {
                let id: usize = self.id_map.vals[i];
                assert(self.deep_view().ids[key.deep_view()] == id);
                assert(self.vals.deep_view()[id as int] == self.vals@[id as int].deep_view());
                Ok(self.vals[id].replica())
            },
            None => Err(StoreError::NotFound(key.description())),
        }
    }

    /// The values in the order of their ids.
    pub fn vals(&self) -> (vals: Vec<Val>)
        ensures
            vals.deep_view() == self.deep_view().vals,
    {
        self.vals.replica()
    }
}

/// A store of values under keys.
pub struct GenericStore<Key, Val> {
    pub map: KeyMap<Key, Val>,
}

impl<Key: KeyEq + Sem, Val: Replica> DeepView for GenericStore<Key, Val> {
    type V = Map<Key::V, Val::V>;

    open spec fn deep_view(&self) -> Map<Key::V, Val::V> {
        self.map.map()
    }
}

impl<Key: KeyEq + Sem, Val: Replica> GenericStore<Key, Val> {
    pub open spec fn wf(&self) -> bool {
        self.map.wf()
    }

    pub fn new() -> (store: Self)
        ensures
            store.wf(),
            store.deep_view() == Map::<Key::V, Val::V>::empty(),
    {
        Self { map: KeyMap::new() }
    }

    /// Puts `val` under `key`, unless the key is known already.
    pub fn insert(&mut self, key: Key, val: Val) -> (r: Result<(), StoreError>)
        requires
            old(self).wf(),
        ensures
            final(self).wf(),
            match r {
                Ok(_) => {
                    &&& !old(self).deep_view().contains_key(key.deep_view())
                    &&& final(self).deep_view() == old(self).deep_view().insert(
                        key.deep_view(),
                        val.deep_view(),
                    )
                },
                Err(e) => {
                    &&& old(self).deep_view().contains_key(key.deep_view())
                    &&& final(self).deep_view() == old(self).deep_view()
                    &&& e.deep_view() == StoreErrorView::Duplicated(key.spec_description())
                },
            },
    {
        if self.map.find(&key).is_some() {
            return Err(StoreError::Duplicated(key.description()));
        }
        self.map.put(key, val);
        Ok(())
    }

    /// The value under `key` where the key is known; else `val`, which is then put
    /// under it.
    pub fn insert_or_get(&mut self, key: Key, val: Val) -> (stored: Val)
        requires
            old(self).wf(),
        ensures
            final(self).wf(),
            final(self).deep_view() == if old(self).deep_view().contains_key(key.deep_view()) {
                old(self).deep_view()
            } else {
                old(self).deep_view().insert(key.deep_view(), val.deep_view())
            },
            final(self).deep_view().contains_key(key.deep_view()),
            stored.deep_view() == final(self).deep_view()[key.deep_view()],
    {
        match self.map.find(&key) {
            Some(i) => self.map.vals[i].replica(),
            None => {
                let stored = val.replica();
                self.map.put(key, val);
                stored
            },
        }
    }

    /// Whether `key` is known.
    pub fn contains(&self, key: &Key) -> (b: bool)
        requires
            self.wf(),
        ensures
            b == self.deep_view().contains_key(key.deep_view()),
    {
        self.map.find(key).is_some()
    }

    pub fn get(&self, key: &Key) -> (r: Result<Val, StoreError>)
        requires
            self.wf(),
        ensures
            match r {
                Ok(val) => {
                    &&& self.deep_view().contains_key(key.deep_view())
                    &&& val.deep_view() == self.deep_view()[key.deep_view()]
                },
                Err(e) => {
                    &&& !self.deep_view().contains_key(key.deep_view())
                    &&& e.deep_view() == StoreErrorView::NotFound(key.spec_description())
                },
            },
    {
        match self.map.find(key) {
            Some(i) => Ok(self.map.vals[i].replica()),
            None => Err(StoreError::NotFound(key.description())),
        }
    }

    /// The entries in the order in which they were put.
    pub fn keys_and_vals(&self) -> (entries: Vec<(Key, Val)>)
        requires
            self.wf(),
        ensures
            entries.len() == self.map.keys.len(),
            forall|i: int|
                0 <= i < entries.len() ==> (#[trigger] entries@[i]).0.deep_view()
                    == self.map.keys@[i].deep_view() && entries@[i].1.deep_view()
                    == self.map.vals@[i].deep_view(),
    {
        let mut entries: Vec<(Key, Val)> = Vec::new();
        let mut i: usize = 0;
        while i < self.map.keys.len()
            invariant
                self.wf(),
                i <= self.map.keys.len(),
                entries.len() == i,
                forall|j: int|
                    0 <= j < i ==> (#[trigger] entries@[j]).0.deep_view()
                        == self.map.keys@[j].deep_view() && entries@[j].1.deep_view()
                        == self.map.vals@[j].deep_view(),
            decreases self.map.keys.len() - i,
        {
            entries.push((self.map.keys[i].replica(), self.map.vals[i].replica()));
            i += 1;
        }
        entries
    }
}

impl<Key: KeyEq + Sem, Val: Replica> GenericStore<Key, Vec<Val>> {
    /// Adds `val` at the end of the list under `key`; an unknown key gets a list of
    /// its own first.
    #[verifier::rlimit(50)]
    pub fn push_into_vec(&mut self, key: &Key, val: Val)
        requires
            old(self).wf(),
        ensures
            final(self).wf(),
            final(self).deep_view() == old(self).deep_view().insert(
                key.deep_view(),
                if old(self).deep_view().contains_key(key.deep_view()) {
                    old(self).deep_view()[key.deep_view()].push(val.deep_view())
                } else {
                    seq![val.deep_view()]
                },
            ),
    {
        match self.map.find(key) {
            Some(i) => {
                let ghost before = *self;
                let ghost list = self.map.vals@[i as int].deep_view();
                let mut vals: Vec<Val> = self.map.vals[i].replica();
                vals.push(val);
                assert(vals.deep_view() =~= list.push(val.deep_view()));
                self.map.vals[i] = vals;
                proof {
                    lemma_key_map_update(before.map, self.map, key.deep_view(), i as int);
                }
            },
            None => {
                let mut vals: Vec<Val> = Vec::new();
                vals.push(val);
                assert(vals.deep_view() =~= seq![val.deep_view()]);
                self.map.put(key.replica(), vals);
            },
        }
    }
}

} // verus!
