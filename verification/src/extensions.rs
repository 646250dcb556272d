//! Typed extension data attached to a context.

use std::any::{Any, TypeId};
use vstd::pervasive::arbitrary;
use vstd::prelude::*;

verus! {

/// `std::any::TypeId`, the identity of a type, carried as an opaque value.
#[verifier::external_type_specification]
#[verifier::external_body]
pub struct ExTypeId(TypeId);

/// An owned value whose static type has been forgotten.
///
/// Trusted: the box of `dyn Any + Send + Sync` inside is opaque to the
/// verifier, which cannot hold a trait object of several traits.
#[verifier::external_body]
pub struct Erased {
    inner: Box<dyn Any + Send + Sync>,
}

/// The identity of the type `T`: what `TypeId::of::<T>()` returns. It
/// depends on the type alone; which identity it is, is left open.
pub closed spec fn key_of<T>() -> TypeId {
    arbitrary::<(TypeId, Option<T>)>().0
}

/// The identity of the type of the value inside `e`: what `Any::type_id`
/// reports of the boxed value.
pub uninterp spec fn erased_key(e: Erased) -> TypeId;

/// The value inside `e` read as a `T`. It depends on `e` and the type alone;
/// what it is, is left open beyond what the functions below say of it.
closed spec fn content<T>(e: Erased) -> T {
    (arbitrary::<spec_fn(Erased) -> T>())(e)
}

/// The value inside `e` if that value is of type `T`, and nothing
/// otherwise: what a downcast of the box to `T` finds.
pub closed spec fn payload<T>(e: Erased) -> Option<T> {
    if erased_key(e) == key_of::<T>() {
        Some(content::<T>(e))
    } else {
        None
    }
}

/// An erased value has a payload of type `T` exactly when its type is `T`.
pub proof fn lemma_payload_of_its_type<T>(e: Erased)
    ensures
        payload::<T>(e) is Some <==> erased_key(e) == key_of::<T>(),
{
}

/// Trusted: `TypeId::of` is a function of the type alone.
#[verifier::external_body]
fn type_key<T: 'static>() -> (k: TypeId)
    ensures
        k == key_of::<T>(),
{
    TypeId::of::<T>()
}

/// Trusted: `TypeId`'s `==` holds exactly of identical identities.
#[verifier::external_body]
fn key_eq(a: &TypeId, b: &TypeId) -> (r: bool)
    ensures
        r == (*a == *b),
{
    a == b
}

/// Trusted: boxing a `T` and forgetting its type keeps the value and its
/// type, which a downcast to `T` finds again.
#[verifier::external_body]
fn erase<T: Send + Sync + 'static>(value: T) -> (e: Erased)
    ensures
        erased_key(e) == key_of::<T>(),
        payload::<T>(e) == Some(value),
{
    Erased { inner: Box::new(value) }
}

/// Trusted: `downcast_ref` gives the value inside exactly when it is a `T`.
#[verifier::external_body]
fn downcast_ref<T: 'static>(e: &Erased) -> (r: Option<&T>)
    ensures
        match r {
            Some(v) => payload::<T>(*e) == Some(*v),
            None => payload::<T>(*e) is None,
        },
{
    e.inner.downcast_ref::<T>()
}

/// Trusted: `downcast_mut`, on the box at index `i`, lends the value inside
/// exactly when it is a `T`; what the borrower leaves there is what the box
/// then holds, still of the same type, and no other box is touched. The
/// index is in range, so nothing unwinds.
#[verifier::external_body]
fn downcast_mut_at<T: 'static>(values: &mut Vec<Erased>, i: usize) -> (r: Option<&mut T>)
    requires
        i < old(values)@.len(),
    ensures
        final(values)@ == old(values)@.update(i as int, final(values)@[i as int]),
        erased_key(final(values)@[i as int]) == erased_key(old(values)@[i as int]),
        match r {
            Some(v) => payload::<T>(old(values)@[i as int]) == Some(*v) && payload::<T>(
                final(values)@[i as int],
            ) == Some(*final(v)),
            None => payload::<T>(old(values)@[i as int]) is None && final(values)@[i as int] == old(values)@[i as int],
        },
    opens_invariants none
    no_unwind
{
    values[i].inner.downcast_mut::<T>()
}

/// Trusted: `Box<dyn Any>::downcast` gives the value inside exactly when it
/// is a `T`.
#[verifier::external_body]
fn downcast<T: 'static>(e: Erased) -> (r: Option<T>)
    ensures
        r == payload::<T>(e),
{
    match e.inner.downcast::<T>() {
        Ok(boxed) => Some(*boxed),
        Err(_) => None,
    }
}

/// Type map for custom data of a context: at most one value per type.
pub struct Extensions {
    keys: Vec<TypeId>,
    values: Vec<Erased>,
}

impl Extensions {
    /// Each key has its value at the same index, the value is of the type
    /// that the key identifies, and no key occurs twice.
    #[verifier::type_invariant]
    closed spec fn distinct_keys(&self) -> bool {
        &&& self.well_keyed()
        &&& forall|i: int|
            0 <= i < self.values@.len() ==> erased_key(#[trigger] self.values@[i]) == self.keys@[i]
    }

    /// Each key has its value at the same index, and no key occurs twice.
    closed spec fn well_keyed(&self) -> bool {
        &&& self.keys@.len() == self.values@.len()
        &&& forall|i: int, j: int|
            #![trigger self.keys@[i], self.keys@[j]]
            0 <= i < self.keys@.len() && 0 <= j < self.keys@.len() && i != j ==> self.keys@[i]
                != self.keys@[j]
    }

    spec fn keyed_at(&self, key: TypeId, i: int) -> bool {
        0 <= i < self.keys@.len() && self.keys@[i] == key
    }

    /// What the store holds: for each type identity present, the erased value
    /// stored under it.
    pub closed spec fn entries(&self) -> Map<TypeId, Erased> {
        Map::new(
            |k: TypeId| exists|i: int| self.keyed_at(k, i),
            |k: TypeId| self.values@[choose|i: int| self.keyed_at(k, i)],
        )
    }

    /// The value of type `T` that the store holds, if any.
    pub open spec fn stored<T>(&self) -> Option<T> {
        if self.entries().contains_key(key_of::<T>()) {
            payload::<T>(self.entries()[key_of::<T>()])
        } else {
            None
        }
    }

    /// An empty store. Nothing is allocated until the first insertion.
    pub fn new() -> (r: Extensions)
        ensures
            r.entries() == Map::<TypeId, Erased>::empty(),
    {
        let r = Extensions { keys: Vec::new(), values: Vec::new() };
        assert(r.entries() =~= Map::<TypeId, Erased>::empty());
        r
    }

    fn position(&self, key: &TypeId) -> (r: Option<usize>)
        ensures
            match r {
                Some(i) => self.keyed_at(*key, i as int) && self.entries().contains_key(*key)
                    && self.entries()[*key] == self.values@[i as int],
                None => !self.entries().contains_key(*key)
                    && forall|i: int| !self.keyed_at(*key, i),
            },
    {
        let mut i: usize = 0;
        while i < self.keys.len()
            invariant
                i <= self.keys@.len(),
                forall|j: int| 0 <= j < i ==> self.keys@[j] != *key,
            decreases self.keys@.len() - i,
        {
            if key_eq(&self.keys[i], key) {
                proof {
                    use_type_invariant(self);
                    assert(self.keyed_at(*key, i as int));
                    let c = choose|c: int| self.keyed_at(*key, c);
                    assert(self.keyed_at(*key, c));
                    assert(c == i);
                }
                return Some(i);
            }
            i = i + 1;
        }
        assert forall|i: int| !self.keyed_at(*key, i) by {}
        None
    }

    /// Whether the store holds data of type `T`.
    pub fn has<T: Send + Sync + 'static>(&self) -> (r: bool)
        ensures
            r == self.entries().contains_key(key_of::<T>()),
            r == (self.stored::<T>() is Some),
    {
        proof {
            use_type_invariant(self);
        }
        let key = type_key::<T>();
        self.position(&key).is_some()
    }

    /// The data of type `T`, if the store holds it.
    pub fn get<T: Send + Sync + 'static>(&self) -> (r: Option<&T>)
        ensures
            match r {
                Some(v) => self.stored::<T>() == Some(*v),
                None => self.stored::<T>() is None,
            },
            r is Some <==> self.entries().contains_key(key_of::<T>()),
    {
        proof {
            use_type_invariant(self);
        }
        let key = type_key::<T>();
        match self.position(&key) {
            Some(i) => downcast_ref::<T>(&self.values[i]),
            None => None,
        }
    }

    /// Mutable access to the data of type `T`, if the store holds it. What
    /// the borrower leaves there is the data of that type afterwards; data of
    /// other types stays.
    pub fn get_mut<T: Send + Sync + 'static>(&mut self) -> (r: Option<&mut T>)
        ensures
            match r {
                Some(v) => {
                    &&& old(self).stored::<T>() == Some(*v)
                    &&& final(self).stored::<T>() == Some(*final(v))
                    &&& final(self).entries().remove(key_of::<T>()) == old(self).entries().remove(
                        key_of::<T>(),
                    )
                },
                None => {
                    &&& old(self).stored::<T>() is None
                    &&& final(self).entries() == old(self).entries()
                },
            },
            r is Some <==> old(self).entries().contains_key(key_of::<T>()),
    {
        proof {
            use_type_invariant(&*self);
        }
        let key = type_key::<T>();
        match self.position(&key) {
            Some(i) => {
                let ghost before = *self;
                proof {
                    assert forall|after: Extensions|
                        after.keys@ == before.keys@ && after.values@ == before.values@.update(
                            i as int,
                            after.values@[i as int],
                        ) implies (#[trigger] after.entries()).contains_key(key)
                        && after.entries()[key] == after.values@[i as int]
                        && after.entries().remove(key) == before.entries().remove(key) && (
                    after.values@[i as int] == before.values@[i as int] ==> after.entries()
                        == before.entries()) by {
                        before.lemma_value_replaced(after, i as int);
                    }
                }
                downcast_mut_at::<T>(&mut self.values, i)
            },
            None => None,
        }
    }

    /// Replacing the value at one index changes the entry of its key alone.
    proof fn lemma_value_replaced(&self, after: Extensions, i: int)
        requires
            self.well_keyed(),
            0 <= i < self.keys@.len(),
            after.keys@ == self.keys@,
            after.values@ == self.values@.update(i, after.values@[i]),
        ensures
            self.entries().contains_key(self.keys@[i]),
            self.entries()[self.keys@[i]] == self.values@[i],
            after.entries().contains_key(self.keys@[i]),
            after.entries()[self.keys@[i]] == after.values@[i],
            after.entries().remove(self.keys@[i]) == self.entries().remove(self.keys@[i]),
            after.values@[i] == self.values@[i] ==> after.entries() == self.entries(),
    {
        let key = self.keys@[i];
        self.lemma_entries();
        after.lemma_entries();
        assert(after.keys@[i] == key);
        assert(self.keys@[i] == key);
        assert(after.entries().remove(key) =~= self.entries().remove(key)) by {
            assert forall|k: TypeId| k != key && self.entries().contains_key(k) implies (
            #[trigger] after.entries().contains_key(k)) && after.entries()[k]
                == self.entries()[k] by {
                let j = choose|j: int| self.keyed_at(k, j);
                assert(self.keyed_at(k, j));
                assert(after.keyed_at(k, j));
                assert(after.keys@[j] == k && self.keys@[j] == k);
            }
            assert forall|k: TypeId| k != key && after.entries().contains_key(k) implies (
            #[trigger] self.entries().contains_key(k)) by {
                let j = choose|j: int| after.keyed_at(k, j);
                assert(after.keyed_at(k, j));
                assert(self.keyed_at(k, j));
            }
        }
        if after.values@[i] == self.values@[i] {
            assert(after.values@ =~= self.values@);
            assert(after.entries() =~= self.entries());
        }
    }

    /// Every key with its value is an entry, and every entry is such a pair.
    proof fn lemma_entries(&self)
        requires
            self.well_keyed(),
        ensures
            forall|i: int|
                0 <= i < self.keys@.len() ==> self.entries().contains_key(
                    (#[trigger] self.keys@[i]),
                ) && self.entries()[self.keys@[i]] == self.values@[i],
            forall|k: TypeId| #[trigger]
                self.entries().contains_key(k) ==> exists|i: int| self.keyed_at(k, i),
    {
        assert forall|i: int| 0 <= i < self.keys@.len() implies self.entries().contains_key(
            (#[trigger] self.keys@[i]),
        ) && self.entries()[self.keys@[i]] == self.values@[i] by {
            let k = self.keys@[i];
            assert(self.keyed_at(k, i));
            let c = choose|c: int| self.keyed_at(k, c);
            assert(self.keyed_at(k, c));
            assert(c == i);
        }
    }

    /// Store `value` as the data of type `T`, and hand back the data of that
    /// type that was stored before, if any. Data of other types stays.
    pub fn insert<T: Send + Sync + 'static>(&mut self, value: T) -> (r: Option<T>)
        ensures
            r == old(self).stored::<T>(),
            r is Some <==> old(self).entries().contains_key(key_of::<T>()),
            final(self).stored::<T>() == Some(value),
            final(self).entries().contains_key(key_of::<T>()),
            final(self).entries().remove(key_of::<T>()) == old(self).entries().remove(
                key_of::<T>(),
            ),
    {
        proof {
            use_type_invariant(&*self);
            self.lemma_entries();
        }
        let key = type_key::<T>();
        let erased = erase(value);
        let found = self.position(&key);
        let ghost before = *self;
        let mut taken = Extensions::new();
        std::mem::swap(self, &mut taken);
        let mut keys = taken.keys;
        let mut values = taken.values;
        let previous = match found {
            Some(i) => {
                let _ = keys.remove(i);
                Some(values.remove(i))
            },
            None => None,
        };
        let ghost middle = Extensions { keys, values };
        assert(middle.well_keyed());
        assert(middle.distinct_keys());
        assert(forall|j: int| !middle.keyed_at(key, j));
        keys.push(key);
        values.push(erased);
        let ghost after = Extensions { keys, values };
        proof {
            let n = middle.keys@.len() as int;
            assert(after.keys@[n] == key);
            assert(after.well_keyed()) by {
                assert forall|a: int, b: int|
                    0 <= a < after.keys@.len() && 0 <= b < after.keys@.len() && a != b implies (
                #[trigger] after.keys@[a]) != (#[trigger] after.keys@[b]) by {
                    if a < n {
                        assert(after.keys@[a] == middle.keys@[a]);
                        assert(!middle.keyed_at(key, a));
                    }
                    if b < n {
                        assert(after.keys@[b] == middle.keys@[b]);
                        assert(!middle.keyed_at(key, b));
                    }
                }
            }
            before.lemma_entries();
            middle.lemma_entries();
            after.lemma_entries();
            assert(after.keyed_at(key, n));
            assert(after.entries().contains_key(key));
            assert(after.entries()[key] == erased);
            assert(after.entries().remove(key) =~= before.entries().remove(key)) by {
                assert forall|k: TypeId| k != key && before.entries().contains_key(k) implies (
                #[trigger] after.entries().contains_key(k)) && after.entries()[k]
                    == before.entries()[k] by {
                    let i = choose|i: int| before.keyed_at(k, i);
                    assert(before.keyed_at(k, i));
                    let m = if found is Some && i > found.unwrap() as int { i - 1 } else { i };
                    assert(middle.keys@[m] == before.keys@[i]);
                    assert(middle.values@[m] == before.values@[i]);
                    assert(after.keys@[m] == before.keys@[i]);
                    assert(after.values@[m] == before.values@[i]);
                    assert(after.keyed_at(k, m));
                }
                assert forall|k: TypeId| k != key && after.entries().contains_key(k) implies (
                #[trigger] before.entries().contains_key(k)) by {
                    let m = choose|m: int| after.keyed_at(k, m);
                    assert(after.keyed_at(k, m));
                    assert(m < n);
                    let i = if found is Some && m >= found.unwrap() as int { m + 1 } else { m };
                    assert(middle.keys@[m] == before.keys@[i]);
                    assert(middle.values@[m] == before.values@[i]);
                    assert(before.keyed_at(k, i));
                }
            }
        }
        *self = Extensions { keys, values };
        match previous {
            Some(e) => downcast::<T>(e),
            None => None,
        }
    }

    /// Take the data of type `T` out of the store, if it holds any. Data of
    /// other types stays.
    pub fn remove<T: Send + Sync + 'static>(&mut self) -> (r: Option<T>)
        ensures
            r == old(self).stored::<T>(),
            r is Some <==> old(self).entries().contains_key(key_of::<T>()),
            final(self).entries() == old(self).entries().remove(key_of::<T>()),
    {
        proof {
            use_type_invariant(&*self);
            self.lemma_entries();
        }
        let key = type_key::<T>();
        let ghost before = *self;
        match self.position(&key) {
            Some(i) => {
                let mut taken = Extensions::new();
                std::mem::swap(self, &mut taken);
                let mut keys = taken.keys;
                let mut values = taken.values;
                let _ = keys.remove(i);
                let value = values.remove(i);
                let ghost after = Extensions { keys, values };
                proof {
                    assert(after.well_keyed());
                    assert(after.distinct_keys());
                    after.lemma_entries();
                    assert(after.entries() =~= before.entries().remove(key)) by {
                        assert forall|k: TypeId|
                            k != key && before.entries().contains_key(k) implies (
                        #[trigger] after.entries().contains_key(k)) && after.entries()[k]
                            == before.entries()[k] by {
                            let j = choose|j: int| before.keyed_at(k, j);
                            assert(before.keyed_at(k, j));
                            let m = if j > i as int { j - 1 } else { j };
                            assert(after.keys@[m] == before.keys@[j]);
                            assert(after.values@[m] == before.values@[j]);
                            assert(after.keyed_at(k, m));
                        }
                        assert forall|k: TypeId| after.entries().contains_key(k) implies k != key
                            && #[trigger] before.entries().contains_key(k) by {
                            let m = choose|m: int| after.keyed_at(k, m);
                            assert(after.keyed_at(k, m));
                            let j = if m >= i as int { m + 1 } else { m };
                            assert(after.keys@[m] == before.keys@[j]);
                            assert(after.values@[m] == before.values@[j]);
                            assert(before.keyed_at(k, j));
                        }
                    }
                }
                *self = Extensions { keys, values };
                downcast::<T>(value)
            },
            None => {
                assert(self.entries() =~= before.entries().remove(key));
                None
            },
        }
    }
}

impl Default for Extensions {
    fn default() -> (r: Self)
        ensures
            r.entries() == Map::<TypeId, Erased>::empty(),
    {
        Extensions::new()
    }
}

} // verus!
