//! Field sets for describing a context.

use crate::value::Value;
use vstd::prelude::*;

verus! {

/// An ordered, read-only sequence of named values.
///
/// Names need not be unique; a lookup finds the first pair with the name.
#[derive(Clone, Copy)]
pub struct Fields<'a> {
    fields: &'a [(&'a str, Value<'a>)],
}

/// Whether two strings hold the same characters.
///
/// Trusted: `str`'s `==` is true exactly when the two strings are equal
/// character for character.
#[verifier::external_body]
pub(crate) fn str_eq(a: &str, b: &str) -> (r: bool)
    ensures
        r == (a@ == b@),
{
    a == b
}

impl<'a> Fields<'a> {
    /// The pairs as they were given, in order.
    pub closed spec fn entries(&self) -> Seq<(&'a str, Value<'a>)> {
        self.fields@
    }

    /// Whether pair `i` is the first pair named `key`.
    pub open spec fn first_at(&self, key: Seq<char>, i: int) -> bool {
        &&& 0 <= i < self.entries().len()
        &&& self.entries()[i].0@ == key
        &&& forall|j: int| 0 <= j < i ==> self.entries()[j].0@ != key
    }

    /// Whether some pair is named `key`.
    pub open spec fn has_name(&self, key: Seq<char>) -> bool {
        exists|i: int| 0 <= i < self.entries().len() && self.entries()[i].0@ == key
    }

    /// A field set over the given pairs.
    pub fn new(fields: &'a [(&'a str, Value<'a>)]) -> (r: Fields<'a>)
        ensures
            r.entries() == fields@,
    {
        Fields { fields }
    }

    /// The number of pairs.
    pub fn len(&self) -> (n: usize)
        ensures
            n == self.entries().len(),
    {
        self.fields.len()
    }

    /// All pairs, in order.
    pub fn pairs(&self) -> (r: Vec<(&'a str, &'a Value<'a>)>)
        ensures
            r@.len() == self.entries().len(),
            forall|i: int| 0 <= i < r@.len() ==> r@[i].0 == self.entries()[i].0
                && *r@[i].1 == self.entries()[i].1,
    {
        let mut out: Vec<(&'a str, &'a Value<'a>)> = Vec::new();
        let mut i: usize = 0;
        while i < self.fields.len()
            invariant
                i <= self.fields@.len(),
                out@.len() == i,
                forall|k: int| 0 <= k < i ==> out@[k].0 == self.fields@[k].0
                    && *out@[k].1 == self.fields@[k].1,
            decreases self.fields@.len() - i,
        {
            let pair = &self.fields[i];
            out.push((pair.0, &pair.1));
            i = i + 1;
        }
        out
    }

    /// The value of the first pair named `key`.
    pub fn get(&self, key: &str) -> (r: Option<&'a Value<'a>>)
        ensures
            match r {
                Some(v) => exists|i: int| #[trigger] self.first_at(key@, i) && *v == self.entries()[i].1,
                None => !self.has_name(key@),
            },
    {
        let mut i: usize = 0;
        while i < self.fields.len()
            invariant
                i <= self.fields@.len(),
                forall|j: int| 0 <= j < i ==> self.fields@[j].0@ != key@,
            decreases self.fields@.len() - i,
        {
            let pair = &self.fields[i];
            if str_eq(pair.0, key) {
                assert(self.first_at(key@, i as int));
                return Some(&pair.1);
            }
            i = i + 1;
        }
        None
    }
}

/// A name has at most one first pair, and has one exactly when some pair
/// bears it: duplicates are not merged, the first occurrence wins.
pub proof fn lemma_first_is_unique(fields: Fields<'_>, key: Seq<char>, i: int, j: int)
    ensures
        fields.first_at(key, i) && fields.first_at(key, j) ==> i == j,
        fields.has_name(key) <==> exists|k: int| fields.first_at(key, k),
{
    if fields.has_name(key) {
        let some = choose|k: int| 0 <= k < fields.entries().len() && fields.entries()[k].0@ == key;
        lemma_first_exists(fields, key, some);
    }
    if exists|k: int| fields.first_at(key, k) {
        let k = choose|k: int| fields.first_at(key, k);
        assert(0 <= k < fields.entries().len() && fields.entries()[k].0@ == key);
    }
}

/// Below any pair that bears a name there is a first pair that bears it.
proof fn lemma_first_exists(fields: Fields<'_>, key: Seq<char>, upto: int)
    requires
        0 <= upto < fields.entries().len(),
        fields.entries()[upto].0@ == key,
    ensures
        exists|k: int| fields.first_at(key, k),
    decreases upto,
{
    if exists|j: int| 0 <= j < upto && fields.entries()[j].0@ == key {
        let j = choose|j: int| 0 <= j < upto && fields.entries()[j].0@ == key;
        lemma_first_exists(fields, key, j);
    } else {
        assert(fields.first_at(key, upto));
    }
}

} // verus!
