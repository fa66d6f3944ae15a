//! What all semantic entities have in common: a name, a key, and a faithful copy.

use vstd::prelude::*;
use vstd::string::*;

verus! {

/// A value that can be copied. The copy has the same mathematical value.
pub trait Replica: DeepView + Sized {
    fn replica(&self) -> (r: Self)
        ensures
            r.deep_view() == self.deep_view(),
    ;
}

/// A value that can be compared with another by its mathematical value.
pub trait KeyEq: Replica {
    fn same(&self, other: &Self) -> (b: bool)
        ensures
            b == (self.deep_view() == other.deep_view()),
    ;
}

/// A semantic entity or the key of one: it has a name by which generated code refers
/// to it and a description for diagnostics.
pub trait Sem: DeepView + Sized {
    spec fn spec_logical_name(&self) -> Seq<char>;

    spec fn spec_description(&self) -> Seq<char>;

    fn logical_name(&self) -> (s: String)
        ensures
            s@ == self.spec_logical_name(),
    ;

    fn description(&self) -> (s: String)
        ensures
            s@ == self.spec_description(),
    ;
}

/// An interned value, which knows the key it is stored under.
pub trait SemVal<Key: DeepView>: DeepView + Sized {
    spec fn spec_to_key(&self) -> Key::V;

    fn to_key(&self) -> (key: Key)
        ensures
            key.deep_view() == self.spec_to_key(),
    ;
}

impl Replica for String {
    fn replica(&self) -> (r: String) {
        self.clone()
    }
}

impl KeyEq for String {
    fn same(&self, other: &String) -> (b: bool) {
        *self == *other
    }
}

impl Sem for String {
    open spec fn spec_logical_name(&self) -> Seq<char> {
        self@
    }

    open spec fn spec_description(&self) -> Seq<char> {
        self@
    }

    fn logical_name(&self) -> (s: String) {
        self.clone()
    }

    fn description(&self) -> (s: String) {
        self.clone()
    }
}

impl Replica for usize {
    fn replica(&self) -> (r: usize) {
        *self
    }
}

impl<T: Replica> Replica for Vec<T> {
    fn replica(&self) -> (r: Vec<T>) {
        let mut r: Vec<T> = Vec::new();
        let mut i: usize = 0;
        while i < self.len()
            invariant
                i <= self.len(),
                r.len() == i,
                forall|j: int| 0 <= j < i ==> r@[j].deep_view() == self@[j].deep_view(),
            decreases self.len() - i,
        {
            r.push(self[i].replica());
            i += 1;
        }
        assert(r.deep_view() =~= self.deep_view());
        r
    }
}

impl<T: Replica> Replica for Option<T> {
    fn replica(&self) -> (r: Option<T>) {
        match self {
            Some(x) => Some(x.replica()),
            None => None,
        }
    }
}

/// The texts of `parts` in order, with `sep` between each two of them.
pub open spec fn join(parts: Seq<Seq<char>>, sep: Seq<char>) -> Seq<char>
    decreases parts.len(),
{
    if parts.len() == 0 {
        Seq::empty()
    } else if parts.len() == 1 {
        parts[0]
    } else {
        join(parts.drop_last(), sep) + sep + parts.last()
    }
}

/// `join(parts, sep)`, and `sep` once more behind it unless the text is empty.
pub open spec fn join_as_prefix(parts: Seq<Seq<char>>, sep: Seq<char>) -> Seq<char> {
    let q = join(parts, sep);
    if q.len() == 0 {
        q
    } else {
        q + sep
    }
}

} // verus!
