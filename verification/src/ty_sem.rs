//! Types of the language: primitive types and function types, as they are interned.

use vstd::prelude::*;
use vstd::string::*;
use crate::qual_sem::{
    qualified_description,
    qualified_logical_name,
    NameKeyView,
    QualKey,
    QualSem,
    QualSemView,
};
use crate::sem::{KeyEq, Replica, Sem, SemVal};
use vstd::std_specs::cmp::PartialEqSpecImpl;

verus! {

/// A primitive type.
#[derive(Clone, Debug)]
pub struct Ty1Sem {
    pub id: usize,
    pub qual: QualSem,
    pub name: String,
}

pub struct Ty1SemView {
    pub id: usize,
    pub qual: QualSemView,
    pub name: Seq<char>,
}

/// A function type `in_ty -> out_ty`. Its arity is one more than that of `out_ty`.
#[derive(Debug)]
pub struct Ty2Sem {
    pub id: usize,
    pub qual: QualSem,
    pub name: String,
    pub in_ty: Box<TySem>,
    pub out_ty: Box<TySem>,
    pub arity: usize,
}

pub struct Ty2SemView {
    pub id: usize,
    pub qual: QualSemView,
    pub name: Seq<char>,
    pub in_ty: Box<TySemView>,
    pub out_ty: Box<TySemView>,
    pub arity: usize,
}

/// A type: a function type or a primitive one.
#[derive(Debug)]
pub enum TySem {
    Ty2(Ty2Sem),
    Ty1(Ty1Sem),
}

pub enum TySemView {
    Ty2(Ty2SemView),
    Ty1(Ty1SemView),
}

/// The key of a primitive type.
#[derive(Clone, Debug, PartialEq, Eq)]
pub struct Ty1Key {
    pub qual: QualKey,
    pub name: String,
}

/// The key of a function type; its name is the printed form of the type.
#[derive(Clone, Debug, PartialEq, Eq)]
pub struct Ty2Key {
    pub qual: QualKey,
    pub name: String,
}

/// The key of a type of either kind.
#[derive(Clone, Debug, PartialEq, Eq)]
pub struct TyKey {
    pub qual: QualKey,
    pub name: String,
}

impl DeepView for Ty1Sem {
    type V = Ty1SemView;

    open spec fn deep_view(&self) -> Ty1SemView {
        Ty1SemView { id: self.id, qual: self.qual.deep_view(), name: self.name@ }
    }
}

pub open spec fn ty_sem_view(ty: TySem) -> TySemView
    decreases ty,
{
    match ty {
        TySem::Ty2(ty2) => TySemView::Ty2(
            Ty2SemView {
                id: ty2.id,
                qual: ty2.qual.deep_view(),
                name: ty2.name@,
                in_ty: Box::new(ty_sem_view(*ty2.in_ty)),
                out_ty: Box::new(ty_sem_view(*ty2.out_ty)),
                arity: ty2.arity,
            },
        ),
        TySem::Ty1(ty1) => TySemView::Ty1(ty1.deep_view()),
    }
}

impl DeepView for TySem {
    type V = TySemView;

    open spec fn deep_view(&self) -> TySemView {
        ty_sem_view(*self)
    }
}

impl DeepView for Ty2Sem {
    type V = Ty2SemView;

    open spec fn deep_view(&self) -> Ty2SemView {
        Ty2SemView {
            id: self.id,
            qual: self.qual.deep_view(),
            name: self.name@,
            in_ty: Box::new(ty_sem_view(*self.in_ty)),
            out_ty: Box::new(ty_sem_view(*self.out_ty)),
            arity: self.arity,
        }
    }
}

impl DeepView for Ty1Key {
    type V = NameKeyView;

    open spec fn deep_view(&self) -> NameKeyView {
        NameKeyView { qual: self.qual.deep_view(), name: self.name@ }
    }
}

impl DeepView for Ty2Key {
    type V = NameKeyView;

    open spec fn deep_view(&self) -> NameKeyView {
        NameKeyView { qual: self.qual.deep_view(), name: self.name@ }
    }
}

impl DeepView for TyKey {
    type V = NameKeyView;

    open spec fn deep_view(&self) -> NameKeyView {
        NameKeyView { qual: self.qual.deep_view(), name: self.name@ }
    }
}

impl Ty1SemView {
    pub open spec fn to_key(self) -> NameKeyView {
        NameKeyView { qual: self.qual.to_key(), name: self.name }
    }
}

impl Ty2SemView {
    pub open spec fn to_key(self) -> NameKeyView {
        NameKeyView { qual: self.qual.to_key(), name: self.name }
    }
}

/// The printed form of the function type from `in_ty` to `out_ty`: an argument that
/// is itself a function type stands in parentheses.
pub open spec fn ty2_name(in_ty: TySemView, out_ty: TySemView) -> Seq<char> {
    let in_name = match in_ty {
        TySemView::Ty2(ty2) => seq!['('] + ty2.name + seq![')'],
        TySemView::Ty1(ty1) => ty1.name,
    };
    in_name + seq![' ', '-', '>', ' '] + out_ty.name()
}

impl TySemView {
    pub open spec fn id(self) -> usize {
        match self {
            TySemView::Ty2(ty2) => ty2.id,
            TySemView::Ty1(ty1) => ty1.id,
        }
    }

    pub open spec fn name(self) -> Seq<char> {
        match self {
            TySemView::Ty2(ty2) => ty2.name,
            TySemView::Ty1(ty1) => ty1.name,
        }
    }

    pub open spec fn qual(self) -> QualSemView {
        match self {
            TySemView::Ty2(ty2) => ty2.qual,
            TySemView::Ty1(ty1) => ty1.qual,
        }
    }

    pub open spec fn to_key(self) -> NameKeyView {
        NameKeyView { qual: self.qual().to_key(), name: self.name() }
    }

    /// The number of arguments that a value of this type still takes.
    pub open spec fn arity(self) -> usize {
        match self {
            TySemView::Ty2(ty2) => ty2.arity,
            TySemView::Ty1(_) => 0,
        }
    }

    /// Two types are the same where they are of the same kind and have the same id.
    pub open spec fn same_ty(self, other: TySemView) -> bool {
        match (self, other) {
            (TySemView::Ty2(a), TySemView::Ty2(b)) => a.id == b.id,
            (TySemView::Ty1(a), TySemView::Ty1(b)) => a.id == b.id,
            _ => false,
        }
    }

    /// The arity of every function type in the tree counts its arrows.
    pub open spec fn wf(self) -> bool
        decreases self,
    {
        match self {
            TySemView::Ty2(ty2) => {
                &&& ty2.arity == ty2.out_ty.arity() + 1
                &&& ty2.in_ty.wf()
                &&& ty2.out_ty.wf()
            },
            TySemView::Ty1(_) => true,
        }
    }

    /// The type that is left after `k` arguments were applied; a primitive type stays
    /// what it is.
    pub open spec fn nth_out(self, k: nat) -> TySemView
        decreases k,
    {
        if k == 0 {
            self
        } else {
            match self {
                TySemView::Ty2(ty2) => ty2.out_ty.nth_out((k - 1) as nat),
                TySemView::Ty1(_) => self,
            }
        }
    }

    /// The types of the arguments, first argument first.
    pub open spec fn arg_tys(self) -> Seq<TySemView>
        decreases self,
    {
        match self {
            TySemView::Ty2(ty2) => seq![*ty2.in_ty] + ty2.out_ty.arg_tys(),
            TySemView::Ty1(_) => Seq::empty(),
        }
    }

    /// The type of the result once all arguments are applied.
    pub open spec fn ret_ty(self) -> TySemView
        decreases self,
    {
        match self {
            TySemView::Ty2(ty2) => ty2.out_ty.ret_ty(),
            TySemView::Ty1(_) => self,
        }
    }
}

/// A well-formed type has as many argument types as its arity says, its result type
/// is primitive, and applying arguments one by one walks down its arity.
#[verifier::rlimit(50)]
pub proof fn lemma_ty_shape(ty: TySemView)
    requires
        ty.wf(),
    ensures
        ty.arg_tys().len() == ty.arity(),
        ty.ret_ty() is Ty1,
        ty.ret_ty() == ty.nth_out(ty.arity() as nat),
        forall|k: nat| k <= ty.arity() ==> (#[trigger] ty.nth_out(k)).arity() == ty.arity() - k,
        forall|k: nat| k <= ty.arity() ==> (#[trigger] ty.nth_out(k)).wf(),
        forall|k: nat|
            k < ty.arity() ==> (#[trigger] ty.nth_out(k)) is Ty2 && ty.nth_out(k + 1) == *ty.nth_out(
                k,
            )->Ty2_0.out_ty,
    decreases ty,
{
    match ty {
        TySemView::Ty2(ty2) => {
            let out = *ty2.out_ty;
            lemma_ty_shape(out);
            assert forall|k: nat| k <= ty.arity() implies (#[trigger] ty.nth_out(k)).arity()
                == ty.arity() - k && ty.nth_out(k).wf() by {
                if k > 0 {
                    assert(ty.nth_out(k) == out.nth_out((k - 1) as nat));
                }
            }
            assert forall|k: nat| k < ty.arity() implies (#[trigger] ty.nth_out(k)) is Ty2
                && ty.nth_out(k + 1) == *ty.nth_out(k)->Ty2_0.out_ty by {
                if k > 0 {
                    assert(ty.nth_out(k) == out.nth_out((k - 1) as nat));
                    assert(ty.nth_out(k + 1) == out.nth_out(k));
                } else {
                    assert(ty.nth_out(1) == out.nth_out(0));
                }
            }
            assert(ty.nth_out(ty.arity() as nat) == out.nth_out(out.arity() as nat));
        },
        TySemView::Ty1(_) => {},
    }
}

impl PartialEq for Ty1Sem {
    fn eq(&self, other: &Self) -> (b: bool) {
        self.id == other.id
    }
}

impl PartialEqSpecImpl for Ty1Sem {
    open spec fn obeys_eq_spec() -> bool {
        true
    }

    open spec fn eq_spec(&self, other: &Self) -> bool {
        self.id == other.id
    }
}

impl PartialEq for Ty2Sem {
    fn eq(&self, other: &Self) -> (b: bool) {
        self.id == other.id
    }
}

impl PartialEqSpecImpl for Ty2Sem {
    open spec fn obeys_eq_spec() -> bool {
        true
    }

    open spec fn eq_spec(&self, other: &Self) -> bool {
        self.id == other.id
    }
}

impl PartialEq for TySem {
    fn eq(&self, other: &Self) -> (b: bool) {
        match (self, other) {
            (TySem::Ty2(a), TySem::Ty2(b)) => a.id == b.id,
            (TySem::Ty1(a), TySem::Ty1(b)) => a.id == b.id,
            _ => false,
        }
    }
}

impl PartialEqSpecImpl for TySem {
    open spec fn obeys_eq_spec() -> bool {
        true
    }

    open spec fn eq_spec(&self, other: &Self) -> bool {
        self.deep_view().same_ty(other.deep_view())
    }
}

impl Replica for Ty1Sem {
    fn replica(&self) -> (r: Ty1Sem) {
        Ty1Sem { id: self.id, qual: self.qual.replica(), name: self.name.clone() }
    }
}

fn replica_of_ty(ty: &TySem) -> (r: TySem)
    ensures
        r.deep_view() == ty.deep_view(),
    decreases ty,
{
    match ty {
        TySem::Ty2(ty2) => TySem::Ty2(
            Ty2Sem {
                id: ty2.id,
                qual: ty2.qual.replica(),
                name: ty2.name.clone(),
                in_ty: Box::new(replica_of_ty(&*ty2.in_ty)),
                out_ty: Box::new(replica_of_ty(&*ty2.out_ty)),
                arity: ty2.arity,
            },
        ),
        TySem::Ty1(ty1) => TySem::Ty1(ty1.replica()),
    }
}

impl Replica for TySem {
    fn replica(&self) -> (r: TySem) {
        replica_of_ty(self)
    }
}

impl Replica for Ty2Sem {
    fn replica(&self) -> (r: Ty2Sem) {
        Ty2Sem {
            id: self.id,
            qual: self.qual.replica(),
            name: self.name.clone(),
            in_ty: Box::new(replica_of_ty(&*self.in_ty)),
            out_ty: Box::new(replica_of_ty(&*self.out_ty)),
            arity: self.arity,
        }
    }
}

impl Replica for Ty1Key {
    fn replica(&self) -> (r: Ty1Key) {
        Ty1Key { qual: self.qual.replica(), name: self.name.clone() }
    }
}

impl Replica for Ty2Key {
    fn replica(&self) -> (r: Ty2Key) {
        Ty2Key { qual: self.qual.replica(), name: self.name.clone() }
    }
}

impl Replica for TyKey {
    fn replica(&self) -> (r: TyKey) {
        TyKey { qual: self.qual.replica(), name: self.name.clone() }
    }
}

impl KeyEq for Ty1Key {
    fn same(&self, other: &Ty1Key) -> (b: bool) {
        self.qual.same(&other.qual) && self.name == other.name
    }
}

impl KeyEq for Ty2Key {
    fn same(&self, other: &Ty2Key) -> (b: bool) {
        self.qual.same(&other.qual) && self.name == other.name
    }
}

impl KeyEq for TyKey {
    fn same(&self, other: &TyKey) -> (b: bool) {
        self.qual.same(&other.qual) && self.name == other.name
    }
}

impl Sem for Ty1Key {
    open spec fn spec_logical_name(&self) -> Seq<char> {
        self.deep_view().logical_name()
    }

    open spec fn spec_description(&self) -> Seq<char> {
        self.deep_view().description()
    }

    fn logical_name(&self) -> (s: String) {
        qualified_logical_name(&self.qual, &self.name)
    }

    fn description(&self) -> (s: String) {
        qualified_description(&self.qual, &self.name)
    }
}

impl Sem for Ty2Key {
    open spec fn spec_logical_name(&self) -> Seq<char> {
        self.deep_view().logical_name()
    }

    open spec fn spec_description(&self) -> Seq<char> {
        self.deep_view().description()
    }

    fn logical_name(&self) -> (s: String) {
        qualified_logical_name(&self.qual, &self.name)
    }

    fn description(&self) -> (s: String) {
        qualified_description(&self.qual, &self.name)
    }
}

impl Sem for TyKey {
    open spec fn spec_logical_name(&self) -> Seq<char> {
        self.deep_view().logical_name()
    }

    open spec fn spec_description(&self) -> Seq<char> {
        self.deep_view().description()
    }

    fn logical_name(&self) -> (s: String) {
        qualified_logical_name(&self.qual, &self.name)
    }

    fn description(&self) -> (s: String) {
        qualified_description(&self.qual, &self.name)
    }
}

impl SemVal<Ty1Key> for Ty1Sem {
    open spec fn spec_to_key(&self) -> NameKeyView {
        self.deep_view().to_key()
    }

    fn to_key(&self) -> (key: Ty1Key) {
        Ty1Key { qual: self.qual.to_key(), name: self.name.clone() }
    }
}

impl SemVal<Ty2Key> for Ty2Sem {
    open spec fn spec_to_key(&self) -> NameKeyView {
        self.deep_view().to_key()
    }

    fn to_key(&self) -> (key: Ty2Key) {
        Ty2Key { qual: self.qual.to_key(), name: self.name.clone() }
    }
}

impl SemVal<TyKey> for TySem {
    open spec fn spec_to_key(&self) -> NameKeyView {
        self.deep_view().to_key()
    }

    fn to_key(&self) -> (key: TyKey) {
        match self {
            TySem::Ty2(ty2) => TyKey::new(ty2.qual.to_key(), ty2.name.clone()),
            TySem::Ty1(ty1) => TyKey::new(ty1.qual.to_key(), ty1.name.clone()),
        }
    }
}

impl Sem for Ty1Sem {
    open spec fn spec_logical_name(&self) -> Seq<char> {
        self.deep_view().to_key().logical_name()
    }

    open spec fn spec_description(&self) -> Seq<char> {
        self.deep_view().to_key().description()
    }

    fn logical_name(&self) -> (s: String) {
        self.to_key().logical_name()
    }

    fn description(&self) -> (s: String) {
        self.to_key().description()
    }
}

impl Sem for Ty2Sem {
    open spec fn spec_logical_name(&self) -> Seq<char> {
        self.deep_view().to_key().logical_name()
    }

    open spec fn spec_description(&self) -> Seq<char> {
        self.deep_view().to_key().description()
    }

    fn logical_name(&self) -> (s: String) {
        self.to_key().logical_name()
    }

    fn description(&self) -> (s: String) {
        self.to_key().description()
    }
}

impl Sem for TySem {
    open spec fn spec_logical_name(&self) -> Seq<char> {
        self.deep_view().to_key().logical_name()
    }

    open spec fn spec_description(&self) -> Seq<char> {
        self.deep_view().to_key().description()
    }

    fn logical_name(&self) -> (s: String) {
        self.to_key().logical_name()
    }

    fn description(&self) -> (s: String) {
        self.to_key().description()
    }
}

impl Ty1Key {
    pub fn new(qual: QualKey, name: String) -> (key: Self)
        ensures
            key.qual == qual,
            key.name == name,
    {
        Self { qual, name }
    }
}

impl Ty2Key {
    pub fn new(qual: QualKey, name: String) -> (key: Self)
        ensures
            key.qual == qual,
            key.name == name,
    {
        Self { qual, name }
    }
}

impl TyKey {
    pub fn new(qual: QualKey, name: String) -> (key: Self)
        ensures
            key.qual == qual,
            key.name == name,
    {
        Self { qual, name }
    }

    /// The key of the type `name` under the top qualifier.
    pub fn from_name(name: &str) -> (key: Self)
        ensures
            key.deep_view() == (NameKeyView { qual: crate::qual_sem::QualKeyView::top(), name: name@ }),
    {
        Self { qual: QualKey::top(), name: String::from_str(name) }
    }
}

impl Ty2Sem {
    /// The printed form of the function type from `in_ty` to `out_ty`.
    #[verifier::rlimit(50)]
    pub fn name(in_ty: &TySem, out_ty: &TySem) -> (s: String)
        ensures
            s@ == ty2_name(in_ty.deep_view(), out_ty.deep_view()),
    {
        proof {
            reveal_strlit("(");
            reveal_strlit(")");
            reveal_strlit(" -> ");
        }
        let mut s = String::new();
        match in_ty {
            TySem::Ty2(ty2) => {
                s.append("(");
                s.append(ty2.name.as_str());
                s.append(")");
                assert(s@ =~= seq!['('] + ty2.name@ + seq![')']);
            },
            TySem::Ty1(ty1) => {
                s.append(ty1.name.as_str());
                assert(s@ =~= ty1.name@);
            },
        }
        s.append(" -> ");
        match out_ty {
            TySem::Ty2(ty2) => {
                s.append(ty2.name.as_str());
            },
            TySem::Ty1(ty1) => {
                s.append(ty1.name.as_str());
            },
        }
        assert(s@ =~= ty2_name(in_ty.deep_view(), out_ty.deep_view()));
        s
    }
}

impl TySem {
    pub fn arity(&self) -> (n: usize)
        ensures
            n == self.deep_view().arity(),
    {
        match self {
            TySem::Ty2(ty2) => ty2.arity,
            TySem::Ty1(_) => 0,
        }
    }

    /// Whether the two types are the same interned type.
    pub fn same_ty(&self, other: &TySem) -> (b: bool)
        ensures
            b == self.deep_view().same_ty(other.deep_view()),
    {
        *self == *other
    }

    /// The result type of a function type; a primitive type has none.
    pub fn to_out_ty(&self) -> (r: Option<TySem>)
        ensures
            match r {
                Some(out) => self.deep_view() matches TySemView::Ty2(ty2) && out.deep_view()
                    == *ty2.out_ty,
                None => self.deep_view() is Ty1,
            },
    {
        match self {
            TySem::Ty2(ty2) => Some(replica_of_ty(&*ty2.out_ty)),
            TySem::Ty1(_) => None,
        }
    }

    /// Splits a type into the types of its arguments and the type of its result.
    #[verifier::rlimit(50)]
    pub fn to_arg_and_ret_tys(self) -> (r: (Vec<TySem>, TySem))
        ensures
            r.0.deep_view() == self.deep_view().arg_tys(),
            r.1.deep_view() == self.deep_view().ret_ty(),
    {
        let mut tys: Vec<TySem> = Vec::new();
        let mut ty = self;
        let ghost whole = self.deep_view();
        assert(tys.deep_view() =~= Seq::<TySemView>::empty());
        loop
            invariant
                whole.arg_tys() == tys.deep_view() + ty.deep_view().arg_tys(),
                whole.ret_ty() == ty.deep_view().ret_ty(),
            ensures
                tys.deep_view() == whole.arg_tys(),
                ty.deep_view() == whole.ret_ty(),
            decreases ty,
        {
            match ty {
                TySem::Ty2(ty2) => {
                    let ghost before = tys.deep_view();
                    let ghost in_view = ty_sem_view(*ty2.in_ty);
                    let ghost rest = ty_sem_view(*ty2.out_ty).arg_tys();
                    tys.push(*ty2.in_ty);
                    ty = *ty2.out_ty;
                    assert(tys.deep_view() =~= before.push(in_view));
                    assert(tys.deep_view() + rest =~= before + (seq![in_view] + rest));
                },
                TySem::Ty1(ty1) => {
                    ty = TySem::Ty1(ty1);
                    assert(tys.deep_view() + ty.deep_view().arg_tys() =~= tys.deep_view());
                    break ;
                },
            }
        }
        (tys, ty)
    }
}

} // verus!
