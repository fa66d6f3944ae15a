//! Scopes and qualifiers: the paths under which names are interned.

use vstd::prelude::*;
use vstd::string::*;
use crate::sem::{join, join_as_prefix, KeyEq, Replica, Sem, SemVal};

verus! {

/// One element of a qualifier path.
#[derive(Clone, Debug, PartialEq, Eq)]
pub enum ScopeSem {
    /// The body of the function of this name.
    Fn(String),
}

pub enum ScopeSemView {
    Fn(Seq<char>),
}

impl DeepView for ScopeSem {
    type V = ScopeSemView;

    open spec fn deep_view(&self) -> ScopeSemView {
        match self {
            ScopeSem::Fn(x) => ScopeSemView::Fn(x@),
        }
    }
}

impl ScopeSemView {
    pub open spec fn logical_name(self) -> Seq<char> {
        match self {
            ScopeSemView::Fn(x) => x,
        }
    }

    pub open spec fn description(self) -> Seq<char> {
        match self {
            ScopeSemView::Fn(x) => seq!['f', 'n', ' '] + x,
        }
    }
}

impl Replica for ScopeSem {
    fn replica(&self) -> (r: ScopeSem) {
        match self {
            ScopeSem::Fn(x) => ScopeSem::Fn(x.clone()),
        }
    }
}

impl KeyEq for ScopeSem {
    fn same(&self, other: &ScopeSem) -> (b: bool) {
        match (self, other) {
            (ScopeSem::Fn(x), ScopeSem::Fn(y)) => *x == *y,
        }
    }
}

impl Sem for ScopeSem {
    open spec fn spec_logical_name(&self) -> Seq<char> {
        self.deep_view().logical_name()
    }

    open spec fn spec_description(&self) -> Seq<char> {
        self.deep_view().description()
    }

    fn logical_name(&self) -> (s: String) {
        match self {
            ScopeSem::Fn(x) => {
                let s = x.clone();
                assert(s@ == self.deep_view().logical_name());
                s
            },
        }
    }

    fn description(&self) -> (s: String) {
        match self {
            ScopeSem::Fn(x) => {
                proof {
                    reveal_strlit("fn ");
                }
                let mut s = String::from_str("fn ");
                s.append(x.as_str());
                assert(s@ =~= seq!['f', 'n', ' '] + x@);
                s
            },
        }
    }
}

/// A qualifier as it is interned: the path and the id it got.
#[derive(Clone, Debug, PartialEq, Eq)]
pub struct QualSem {
    pub id: usize,
    pub scopes: Vec<ScopeSem>,
}

pub struct QualSemView {
    pub id: usize,
    pub scopes: Seq<ScopeSemView>,
}

/// The key of a qualifier: its path. The empty path is the top qualifier.
#[derive(Clone, Debug, PartialEq, Eq)]
pub struct QualKey {
    pub scopes: Vec<ScopeSem>,
}

pub struct QualKeyView {
    pub scopes: Seq<ScopeSemView>,
}

impl DeepView for QualSem {
    type V = QualSemView;

    open spec fn deep_view(&self) -> QualSemView {
        QualSemView { id: self.id, scopes: self.scopes.deep_view() }
    }
}

impl DeepView for QualKey {
    type V = QualKeyView;

    open spec fn deep_view(&self) -> QualKeyView {
        QualKeyView { scopes: self.scopes.deep_view() }
    }
}

impl QualSemView {
    pub open spec fn to_key(self) -> QualKeyView {
        QualKeyView { scopes: self.scopes }
    }
}

impl QualKeyView {
    pub open spec fn top() -> QualKeyView {
        QualKeyView { scopes: Seq::empty() }
    }

    pub open spec fn pushed(self, scope: ScopeSemView) -> QualKeyView {
        QualKeyView { scopes: self.scopes.push(scope) }
    }

    /// The key of the first `n` scopes of the path.
    pub open spec fn prefix(self, n: int) -> QualKeyView {
        QualKeyView { scopes: self.scopes.subrange(0, n) }
    }

    pub open spec fn logical_names(self) -> Seq<Seq<char>> {
        Seq::new(self.scopes.len(), |i: int| self.scopes[i].logical_name())
    }

    pub open spec fn descriptions(self) -> Seq<Seq<char>> {
        Seq::new(self.scopes.len(), |i: int| self.scopes[i].description())
    }

    pub open spec fn qualify_logical_name_self(self, sep: Seq<char>) -> Seq<char> {
        join(self.logical_names(), sep)
    }

    pub open spec fn qualify_logical_name(self, sep: Seq<char>) -> Seq<char> {
        join_as_prefix(self.logical_names(), sep)
    }

    pub open spec fn qualify_description_self(self, sep: Seq<char>) -> Seq<char> {
        join(self.descriptions(), sep)
    }

    pub open spec fn qualify_description(self, sep: Seq<char>) -> Seq<char> {
        join_as_prefix(self.descriptions(), sep)
    }

    pub open spec fn logical_name(self) -> Seq<char> {
        self.qualify_logical_name_self(seq!['.'])
    }

    pub open spec fn description(self) -> Seq<char> {
        self.qualify_description_self(seq!['.'])
    }
}

impl Replica for QualSem {
    fn replica(&self) -> (r: QualSem) {
        QualSem { id: self.id, scopes: self.scopes.replica() }
    }
}

impl Replica for QualKey {
    fn replica(&self) -> (r: QualKey) {
        QualKey { scopes: self.scopes.replica() }
    }
}

impl KeyEq for QualKey {
    fn same(&self, other: &QualKey) -> (b: bool) {
        if self.scopes.len() != other.scopes.len() {
            assert(self.scopes.deep_view().len() != other.scopes.deep_view().len());
            return false;
        }
        let mut i: usize = 0;
        while i < self.scopes.len()
            invariant
                i <= self.scopes.len(),
                self.scopes.len() == other.scopes.len(),
                forall|j: int|
                    0 <= j < i ==> self.scopes@[j].deep_view() == other.scopes@[j].deep_view(),
            decreases self.scopes.len() - i,
        {
            if !self.scopes[i].same(&other.scopes[i]) {
                assert(self.scopes.deep_view()[i as int] != other.scopes.deep_view()[i as int]);
                return false;
            }
            i += 1;
        }
        assert(self.scopes.deep_view() =~= other.scopes.deep_view());
        true
    }
}

impl SemVal<QualKey> for QualSem {
    open spec fn spec_to_key(&self) -> QualKeyView {
        self.deep_view().to_key()
    }

    fn to_key(&self) -> (key: QualKey) {
        QualKey { scopes: self.scopes.replica() }
    }
}

impl Sem for QualKey {
    open spec fn spec_logical_name(&self) -> Seq<char> {
        self.deep_view().logical_name()
    }

    open spec fn spec_description(&self) -> Seq<char> {
        self.deep_view().description()
    }

    fn logical_name(&self) -> (s: String) {
        proof {
            reveal_strlit(".");
        }
        let sep = ".";
        assert(sep@ =~= seq!['.']);
        self.qualify_logical_name_self(sep)
    }

    fn description(&self) -> (s: String) {
        proof {
            reveal_strlit(".");
        }
        let sep = ".";
        assert(sep@ =~= seq!['.']);
        self.qualify_description_self(sep)
    }
}

impl Sem for QualSem {
    open spec fn spec_logical_name(&self) -> Seq<char> {
        self.deep_view().to_key().logical_name()
    }

    open spec fn spec_description(&self) -> Seq<char> {
        self.deep_view().to_key().description()
    }

    fn logical_name(&self) -> (s: String) {
        self.to_key().logical_name()
    }

    fn description(&self) -> (s: String) {
        self.to_key().description()
    }
}

impl QualKey {
    pub fn top() -> (key: Self)
        ensures
            key.deep_view() == QualKeyView::top(),
    {
        let key = Self::new(Vec::new());
        assert(key.scopes.deep_view() =~= Seq::<ScopeSemView>::empty());
        key
    }

    pub fn new(scopes: Vec<ScopeSem>) -> (key: Self)
        ensures
            key.scopes == scopes,
    {
        Self { scopes }
    }

    pub fn pushed(&self, scope: ScopeSem) -> (key: Self)
        ensures
            key.deep_view() == self.deep_view().pushed(scope.deep_view()),
    {
        let mut cloned = self.scopes.replica();
        cloned.push(scope);
        assert(cloned.deep_view() =~= self.scopes.deep_view().push(scope.deep_view()));
        Self::new(cloned)
    }

    /// The key of the path's first `n` scopes.
    pub fn prefix(&self, n: usize) -> (key: Self)
        requires
            n <= self.scopes.len(),
        ensures
            key.deep_view() == self.deep_view().prefix(n as int),
    {
        let mut scopes: Vec<ScopeSem> = Vec::new();
        let mut i: usize = 0;
        while i < n
            invariant
                i <= n <= self.scopes.len(),
                scopes.len() == i,
                forall|j: int| 0 <= j < i ==> scopes@[j].deep_view() == self.scopes@[j].deep_view(),
            decreases n - i,
        {
            scopes.push(self.scopes[i].replica());
            i += 1;
        }
        assert(scopes.deep_view() =~= self.scopes.deep_view().subrange(0, n as int));
        Self::new(scopes)
    }

    pub fn is_top(&self) -> (b: bool)
        ensures
            b == (self.deep_view() == QualKeyView::top()),
    {
        let b = self.scopes.len() == 0;
        assert(b == (self.scopes.deep_view() =~= Seq::<ScopeSemView>::empty()));
        b
    }

    pub fn qualify_logical_name_self(&self, sep: &str) -> (s: String)
        ensures
            s@ == self.deep_view().qualify_logical_name_self(sep@),
    {
        let mut s = String::new();
        let mut i: usize = 0;
        let ghost names = self.deep_view().logical_names();
        assert(join(names.subrange(0, 0), sep@) =~= Seq::<char>::empty());
        while i < self.scopes.len()
            invariant
                i <= self.scopes.len(),
                names == self.deep_view().logical_names(),
                s@ == join(names.subrange(0, i as int), sep@),
            decreases self.scopes.len() - i,
        {
            let ghost before = names.subrange(0, i as int);
            let ghost after = names.subrange(0, i + 1);
            assert(after.drop_last() =~= before);
            if i > 0 {
                s.append(sep);
            }
            let part = self.scopes[i].logical_name();
            s.append(part.as_str());
            i += 1;
            assert(s@ =~= join(after, sep@));
        }
        assert(names.subrange(0, i as int) =~= names);
        s
    }

    pub fn qualify_logical_name(&self, sep: &str) -> (s: String)
        ensures
            s@ == self.deep_view().qualify_logical_name(sep@),
    {
        let mut q = self.qualify_logical_name_self(sep);
        if q.as_str().unicode_len() == 0 {
            q
        } else {
            q.append(sep);
            q
        }
    }

    pub fn qualify_description_self(&self, sep: &str) -> (s: String)
        ensures
            s@ == self.deep_view().qualify_description_self(sep@),
    {
        let mut s = String::new();
        let mut i: usize = 0;
        let ghost names = self.deep_view().descriptions();
        assert(join(names.subrange(0, 0), sep@) =~= Seq::<char>::empty());
        while i < self.scopes.len()
            invariant
                i <= self.scopes.len(),
                names == self.deep_view().descriptions(),
                s@ == join(names.subrange(0, i as int), sep@),
            decreases self.scopes.len() - i,
        {
            let ghost before = names.subrange(0, i as int);
            let ghost after = names.subrange(0, i + 1);
            assert(after.drop_last() =~= before);
            if i > 0 {
                s.append(sep);
            }
            let part = self.scopes[i].description();
            s.append(part.as_str());
            i += 1;
            assert(s@ =~= join(after, sep@));
        }
        assert(names.subrange(0, i as int) =~= names);
        s
    }

    pub fn qualify_description(&self, sep: &str) -> (s: String)
        ensures
            s@ == self.deep_view().qualify_description(sep@),
    {
        let mut q = self.qualify_description_self(sep);
        if q.as_str().unicode_len() == 0 {
            q
        } else {
            q.append(sep);
            q
        }
    }
}

/// A key made of a qualifier and a name: the key of types and of functions.
pub struct NameKeyView {
    pub qual: QualKeyView,
    pub name: Seq<char>,
}

impl NameKeyView {
    pub open spec fn logical_name(self) -> Seq<char> {
        self.qual.qualify_logical_name(seq!['.']) + self.name
    }

    pub open spec fn description(self) -> Seq<char> {
        self.qual.qualify_description(seq!['.']) + self.name
    }
}

/// The name that generated code uses for the entity `name` under `qual`.
pub fn qualified_logical_name(qual: &QualKey, name: &String) -> (s: String)
    ensures
        s@ == (NameKeyView { qual: qual.deep_view(), name: name@ }).logical_name(),
{
    proof {
        reveal_strlit(".");
    }
    let sep = ".";
    assert(sep@ =~= seq!['.']);
    let mut s = qual.qualify_logical_name(sep);
    s.append(name.as_str());
    s
}

/// The text by which diagnostics speak of the entity `name` under `qual`.
pub fn qualified_description(qual: &QualKey, name: &String) -> (s: String)
    ensures
        s@ == (NameKeyView { qual: qual.deep_view(), name: name@ }).description(),
{
    proof {
        reveal_strlit(".");
    }
    let sep = ".";
    assert(sep@ =~= seq!['.']);
    let mut s = qual.qualify_description(sep);
    s.append(name.as_str());
    s
}

} // verus!
