//! Function symbols and the rank-indexed families they belong to.
//!
//! A function of arity `n` is interned as the family `f..0`, `f..1`, ..., `f..n`: the
//! entry of rank `k` stands for the function after `k` arguments were applied.

use vstd::prelude::*;
use vstd::string::*;
use vstd::std_specs::cmp::PartialEqSpecImpl;
use crate::qual_sem::{
    qualified_description,
    qualified_logical_name,
    NameKeyView,
    QualKey,
    QualSem,
    QualSemView,
};
use crate::sem::{KeyEq, Replica, Sem, SemVal};
use crate::text::{decimal, find_double_dot, first_double_dot, is_digit, push_decimal};
use crate::ty_sem::{TySem, TySemView};

verus! {

/// One member of a family: a function symbol at one rank.
#[derive(Debug)]
pub struct FnSem {
    pub id: usize,
    pub qual: QualSem,
    /// The name of the function with the rank behind it.
    pub name: String,
    /// What is left to apply at this rank.
    pub ty: TySem,
    /// The arity of the whole function, the same for every member of the family.
    pub arity: usize,
}

pub struct FnSemView {
    pub id: usize,
    pub qual: QualSemView,
    pub name: Seq<char>,
    pub ty: TySemView,
    pub arity: usize,
}

/// The key of a function symbol, or, where the name has no rank, of a family.
#[derive(Clone, Debug, PartialEq, Eq)]
pub struct FnKey {
    pub qual: QualKey,
    pub name: String,
}

impl DeepView for FnSem {
    type V = FnSemView;

    open spec fn deep_view(&self) -> FnSemView {
        FnSemView {
            id: self.id,
            qual: self.qual.deep_view(),
            name: self.name@,
            ty: self.ty.deep_view(),
            arity: self.arity,
        }
    }
}

impl DeepView for FnKey {
    type V = NameKeyView;

    open spec fn deep_view(&self) -> NameKeyView {
        NameKeyView { qual: self.qual.deep_view(), name: self.name@ }
    }
}

/// The name of the member of rank `rank` in the family of `name`.
pub open spec fn ranked_name(name: Seq<char>, rank: nat) -> Seq<char> {
    name + seq!['.', '.'] + decimal(rank)
}

/// The key of the member of rank `rank` in the family with the key `family`.
pub open spec fn ranked_key(family: NameKeyView, rank: nat) -> NameKeyView {
    NameKeyView { qual: family.qual, name: ranked_name(family.name, rank) }
}

/// The name up to its first pair of dots, or the whole name where it has none.
pub open spec fn unranked_name(name: Seq<char>) -> Seq<char> {
    match first_double_dot(name, 0) {
        Some(i) => name.subrange(0, i),
        None => name,
    }
}

/// A name and a rank can be read off the ranked name: no two of them give the same.
pub proof fn lemma_ranked_name_injective(n1: Seq<char>, r1: nat, n2: Seq<char>, r2: nat)
    requires
        ranked_name(n1, r1) == ranked_name(n2, r2),
    ensures
        n1 == n2,
        r1 == r2,
{
    let d1 = decimal(r1);
    let d2 = decimal(r2);
    let s = ranked_name(n1, r1);
    crate::text::lemma_decimal_digits(r1);
    crate::text::lemma_decimal_digits(r2);
    assert(s.len() == n1.len() + 2 + d1.len());
    assert(s.len() == n2.len() + 2 + d2.len());
    lemma_name_not_shorter(n1, d1, n2, d2);
    lemma_name_not_shorter(n2, d2, n1, d1);
    assert(n1 =~= s.subrange(0, n1.len() as int));
    assert(n2 =~= s.subrange(0, n2.len() as int));
    assert(d1 =~= s.subrange(n1.len() as int + 2, s.len() as int));
    assert(d2 =~= s.subrange(n2.len() as int + 2, s.len() as int));
    crate::text::lemma_decimal_injective(r1, r2);
}

/// A string of digits holds no dot, so the pair of dots before it is the last one.
proof fn lemma_name_not_shorter(n1: Seq<char>, d1: Seq<char>, n2: Seq<char>, d2: Seq<char>)
    requires
        n1 + seq!['.', '.'] + d1 == n2 + seq!['.', '.'] + d2,
        crate::text::all_digits(d1),
    ensures
        n1.len() >= n2.len(),
{
    let s = n1 + seq!['.', '.'] + d1;
    let t = n2 + seq!['.', '.'] + d2;
    assert(s.len() == n1.len() + 2 + d1.len());
    assert(t.len() == n2.len() + 2 + d2.len());
    if n1.len() < n2.len() {
        let k = n2.len() as int;
        assert(t[k] == '.');
        assert(t[k + 1] == '.');
        if k >= n1.len() + 2 {
            assert(s[k] == d1[k - n1.len() - 2]);
            assert(is_digit(d1[k - n1.len() - 2]));
        } else {
            assert(k == n1.len() + 1);
            assert(s[k + 1] == d1[0]);
            assert(is_digit(d1[0]));
        }
    }
}

/// Builds the name of the member of rank `rank`.
pub fn name_with_rank(name: String, rank: usize) -> (s: String)
    ensures
        s@ == ranked_name(name@, rank as nat),
{
    proof {
        reveal_strlit("..");
    }
    let mut s = name;
    s.append("..");
    push_decimal(&mut s, rank);
    assert(s@ =~= ranked_name(name@, rank as nat));
    s
}

impl FnSemView {
    pub open spec fn to_key(self) -> NameKeyView {
        NameKeyView { qual: self.qual.to_key(), name: self.name }
    }

    /// The number of arguments already applied.
    pub open spec fn rank(self) -> int {
        self.arity - self.ty.arity()
    }
}

impl PartialEq for FnSem {
    fn eq(&self, other: &Self) -> (b: bool) {
        self.id == other.id
    }
}

impl PartialEqSpecImpl for FnSem {
    open spec fn obeys_eq_spec() -> bool {
        true
    }

    open spec fn eq_spec(&self, other: &Self) -> bool {
        self.id == other.id
    }
}

impl Replica for FnSem {
    fn replica(&self) -> (r: FnSem) {
        FnSem {
            id: self.id,
            qual: self.qual.replica(),
            name: self.name.clone(),
            ty: self.ty.replica(),
            arity: self.arity,
        }
    }
}

impl Replica for FnKey {
    fn replica(&self) -> (r: FnKey) {
        FnKey { qual: self.qual.replica(), name: self.name.clone() }
    }
}

impl KeyEq for FnKey {
    fn same(&self, other: &FnKey) -> (b: bool) {
        self.qual.same(&other.qual) && self.name == other.name
    }
}

impl Sem for FnKey {
    open spec fn spec_logical_name(&self) -> Seq<char> {
        self.deep_view().logical_name()
    }

    open spec fn spec_description(&self) -> Seq<char> {
        self.deep_view().description()
    }

    fn logical_name(&self) -> (s: String) {
        qualified_logical_name(&self.qual, &self.name)
    }

    fn description(&self) -> (s: String) {
        qualified_description(&self.qual, &self.name)
    }
}

impl SemVal<FnKey> for FnSem {
    open spec fn spec_to_key(&self) -> NameKeyView {
        self.deep_view().to_key()
    }

    fn to_key(&self) -> (key: FnKey) {
        FnKey { qual: self.qual.to_key(), name: self.name.clone() }
    }
}

impl Sem for FnSem {
    open spec fn spec_logical_name(&self) -> Seq<char> {
        self.deep_view().to_key().logical_name()
    }

    open spec fn spec_description(&self) -> Seq<char> {
        self.deep_view().to_key().description()
    }

    fn logical_name(&self) -> (s: String) {
        self.to_key().logical_name()
    }

    fn description(&self) -> (s: String) {
        self.to_key().description()
    }
}

impl FnSem {
    /// The number of arguments already applied at this member.
    pub fn rank(&self) -> (rank: usize)
        requires
            self.deep_view().ty.arity() <= self.arity,
        ensures
            rank == self.deep_view().rank(),
    {
        self.arity - self.ty.arity()
    }
}

impl FnKey {
    pub fn new(qual: QualKey, name: String) -> (key: Self)
        ensures
            key.qual == qual,
            key.name == name,
    {
        Self { qual, name }
    }

    pub fn new_with_rank(qual: QualKey, name: String, rank: usize) -> (key: Self)
        ensures
            key.deep_view() == ranked_key(
                NameKeyView { qual: qual.deep_view(), name: name@ },
                rank as nat,
            ),
    {
        Self { qual, name: name_with_rank(name, rank) }
    }

    /// The key of the family: the name is cut off before its first pair of dots.
    pub fn without_rank(&self) -> (key: Self)
        ensures
            key.deep_view() == (NameKeyView {
                qual: self.deep_view().qual,
                name: unranked_name(self.name@),
            }),
    {
        match find_double_dot(self.name.as_str()) {
            Some(index) => {
                let chars = crate::text::chars_of(self.name.as_str());
                let mut name = String::new();
                crate::text::push_range(&mut name, &chars, 0, index);
                assert(name@ =~= self.name@.subrange(0, index as int));
                Self { qual: self.qual.replica(), name }
            },
            None => Self { qual: self.qual.replica(), name: self.name.clone() },
        }
    }
}

/// Cutting the rank off the key of a family member gives the key of the family,
/// where the name of the family holds no pair of dots itself.
pub proof fn lemma_unranked_ranked_name(name: Seq<char>, rank: nat)
    requires
        first_double_dot(name + seq!['.'], 0) is None,
    ensures
        unranked_name(ranked_name(name, rank)) == name,
{
    let s = ranked_name(name, rank);
    crate::text::lemma_decimal_digits(rank);
    assert(s.subrange(0, name.len() as int) =~= name);
    assert(s[name.len() as int] == '.');
    assert(s[name.len() as int + 1] == '.');
    lemma_first_double_dot_at(s, name, 0);
}

proof fn lemma_first_double_dot_at(s: Seq<char>, name: Seq<char>, from: int)
    requires
        0 <= from <= name.len(),
        name.len() + 2 <= s.len(),
        s.subrange(0, name.len() as int) == name,
        s[name.len() as int] == '.',
        s[name.len() as int + 1] == '.',
        first_double_dot(name + seq!['.'], from) is None,
    ensures
        first_double_dot(s, from) == Some(name.len() as int),
    decreases name.len() - from,
{
    let t = name + seq!['.'];
    if from < name.len() {
        assert(t[from] == name[from]);
        assert(s[from] == s.subrange(0, name.len() as int)[from]);
        if from + 1 < name.len() {
            assert(t[from + 1] == name[from + 1]);
            assert(s[from + 1] == s.subrange(0, name.len() as int)[from + 1]);
        } else {
            assert(t[from + 1] == '.');
        }
        lemma_first_double_dot_at(s, name, from + 1);
    }
}

} // verus!
