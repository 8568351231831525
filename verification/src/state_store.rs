//! The type-erased state store: a table holding at most one value per
//! runtime type, keyed by the type's identity.
//!
//! The store itself is verified against a `Map` model over the type keys:
//! an insert replaces the unique slot for its key, a lookup returns exactly
//! the stored value or reports the missing type by name.  The erasure of a
//! typed value into an opaque box, and the recovery of the type at the call
//! site, go through small trusted items around `core::any`.

use vstd::prelude::*;

use crate::errors::EngineError;

verus! {

// `core::any::TypeId` is an opaque identity token for a `'static` type; the
// store uses it as its key and never looks inside it.
#[verifier::external_type_specification]
#[verifier::external_body]
pub struct ExTypeId(core::any::TypeId);

/// Relies on `core::any::TypeId::of`: returns the identity token of `T`.
/// Which token a given type maps to is not observable, so nothing is
/// promised of the result.
pub assume_specification<T: ?Sized + 'static>[ core::any::TypeId::of::<T> ]() -> core::any::TypeId;

/// Relies on the `PartialEq` impl of `core::any::TypeId` in `core`, which
/// holds two identity tokens equal exactly when they are the same value.
pub assume_specification[ <core::any::TypeId as PartialEq>::eq ](
    a: &core::any::TypeId,
    b: &core::any::TypeId,
) -> (r: bool)
    ensures
        r == (a == b),
;

/// A value whose static type has been erased.  Hidden from the verifier,
/// which has no way to declare `Box<dyn Any>`; the two methods below are
/// the only way in or out.
#[verifier::external_body]
pub struct AnyValue {
    inner: Box<dyn core::any::Any>,
}

impl AnyValue {
    /// Relies on `Box::new`: boxes the value, erasing its static type.
    /// Which opaque value a given `S` maps to is not expressible here, so
    /// nothing is promised of the result.
    #[verifier::external_body]
    pub fn erase<S: 'static>(value: S) -> AnyValue {
        AnyValue { inner: Box::new(value) }
    }

    /// Relies on `<dyn Any>::downcast_mut`: returns a reference to the
    /// boxed value exactly when it was erased from type `S`.  That relation
    /// is not expressible here, so nothing is promised of the result.
    #[verifier::external_body]
    pub fn downcast_mut<S: 'static>(&mut self) -> Option<&mut S> {
        self.inner.downcast_mut::<S>()
    }
}

struct StateEntry {
    key: core::any::TypeId,
    value: AnyValue,
}

/// The association of type keys to erased values that a sequence of slots
/// represents; a later slot for the same key shadows an earlier one.
spec fn map_of(s: Seq<StateEntry>) -> Map<core::any::TypeId, AnyValue>
    decreases s.len(),
{
    if s.len() == 0 {
        Map::empty()
    } else {
        map_of(s.drop_last()).insert(s.last().key, s.last().value)
    }
}

spec fn keys_unique(s: Seq<StateEntry>) -> bool {
    forall|i: int, j: int| 0 <= i < j < s.len() ==> s[i].key != s[j].key
}

proof fn lemma_map_of_contains(s: Seq<StateEntry>, k: core::any::TypeId)
    ensures
        map_of(s).contains_key(k) <==> exists|i: int| 0 <= i < s.len() && s[i].key == k,
    decreases s.len(),
{
    if s.len() > 0 {
        lemma_map_of_contains(s.drop_last(), k);
        if s.last().key == k {
            assert(s[s.len() - 1].key == k);
        } else if map_of(s).contains_key(k) {
            let i = choose|i: int| 0 <= i < s.drop_last().len() && s.drop_last()[i].key == k;
            assert(s[i].key == k);
        } else if exists|i: int| 0 <= i < s.len() && s[i].key == k {
            let i = choose|i: int| 0 <= i < s.len() && s[i].key == k;
            assert(s.drop_last()[i].key == k);
        }
    }
}

proof fn lemma_map_of_index(s: Seq<StateEntry>, i: int)
    requires
        keys_unique(s),
        0 <= i < s.len(),
    ensures
        map_of(s).contains_key(s[i].key),
        map_of(s)[s[i].key] == s[i].value,
    decreases s.len(),
{
    lemma_map_of_contains(s, s[i].key);
    if i < s.len() - 1 {
        assert(s.drop_last()[i] == s[i]);
        lemma_map_of_index(s.drop_last(), i);
    }
}

proof fn lemma_map_of_update(s: Seq<StateEntry>, i: int, v: AnyValue)
    requires
        keys_unique(s),
        0 <= i < s.len(),
    ensures
        map_of(s.update(i, StateEntry { key: s[i].key, value: v }))
            =~= map_of(s).insert(s[i].key, v),
    decreases s.len(),
{
    let t = s.update(i, StateEntry { key: s[i].key, value: v });
    if i == s.len() - 1 {
        assert(t.drop_last() =~= s.drop_last());
    } else {
        lemma_map_of_update(s.drop_last(), i, v);
        assert(t.drop_last() =~= s.drop_last().update(i, StateEntry { key: s[i].key, value: v }));
        assert(t.last() == s.last());
    }
}

proof fn lemma_map_of_push(s: Seq<StateEntry>, e: StateEntry)
    ensures
        map_of(s.push(e)) =~= map_of(s).insert(e.key, e.value),
{
    assert(s.push(e).drop_last() =~= s);
}

/// The type-keyed singleton store owned by the engine: at most one erased
/// value per type key, last write wins.
pub struct StateManager {
    entries: Vec<StateEntry>,
}

impl StateManager {
    /// The association of type keys to stored values that this store holds.
    pub closed spec fn view(&self) -> Map<core::any::TypeId, AnyValue> {
        map_of(self.entries@)
    }

    /// Each type key occupies at most one slot.
    pub closed spec fn wf(&self) -> bool {
        keys_unique(self.entries@)
    }

    /// An empty store.
    pub fn new() -> (s: StateManager)
        ensures
            s.wf(),
            s@ == Map::<core::any::TypeId, AnyValue>::empty(),
    {
        StateManager { entries: Vec::new() }
    }

    /// Stores `value` in the unique slot for `key`, replacing whatever the
    /// slot held before.
    pub fn insert_for_key(&mut self, key: core::any::TypeId, value: AnyValue)
        requires
            old(self).wf(),
        ensures
            final(self).wf(),
            final(self)@ == old(self)@.insert(key, value),
    {
        let ghost s0 = self.entries@;
        let n = self.entries.len();
        let mut i: usize = 0;
        while i < n
            invariant
                n == self.entries.len(),
                0 <= i <= n,
                self.entries@ == s0,
                s0 == old(self).entries@,
                keys_unique(s0),
                forall|j: int| 0 <= j < i ==> s0[j].key != key,
            decreases n - i,
        {
            if self.entries[i].key == key {
                proof {
                    lemma_map_of_update(s0, i as int, value);
                }
                self.entries.set(i, StateEntry { key, value });
                return ;
            }
            i += 1;
        }
        proof {
            lemma_map_of_push(s0, StateEntry { key, value });
            lemma_map_of_contains(s0, key);
        }
        self.entries.push(StateEntry { key, value });
    }

    /// Returns the value stored for `key`, or reports the missing type by
    /// `name` without changing the store.
    pub fn get_for_key(&mut self, key: core::any::TypeId, name: &'static str) -> (r: Result<
        &mut AnyValue,
        EngineError,
    >)
        requires
            old(self).wf(),
        ensures
            match r {
                Ok(v) => {
                    &&& old(self)@.contains_key(key)
                    &&& *v == old(self)@[key]
                    &&& final(self)@ == old(self)@.insert(key, *final(v))
                    &&& final(self).wf()
                },
                Err(e) => {
                    &&& !old(self)@.contains_key(key)
                    &&& e == EngineError::UninitialisedState(name)
                    &&& *final(self) == *old(self)
                },
            },
    {
        let ghost s0 = self.entries@;
        let n = self.entries.len();
        let mut i: usize = 0;
        while i < n
            invariant
                *self == *old(self),
                n == self.entries.len(),
                0 <= i <= n,
                self.entries@ == s0,
                s0 == old(self).entries@,
                keys_unique(s0),
                forall|j: int| 0 <= j < i ==> s0[j].key != key,
            decreases n - i,
        {
            if self.entries[i].key == key {
                proof {
                    lemma_map_of_index(s0, i as int);
                    assert forall|v: AnyValue|
                        map_of(s0.update(i as int, StateEntry { key: key, value: v })) == map_of(
                            s0,
                        ).insert(key, v) by {
                        lemma_map_of_update(s0, i as int, v);
                    }
                    assert forall|v: AnyValue|
                        keys_unique(
                            s0.update(i as int, StateEntry { key: key, value: v }),
                        ) by {
                        let t = s0.update(i as int, StateEntry { key: key, value: v });
                        assert(forall|j: int| 0 <= j < t.len() ==> t[j].key == s0[j].key);
                    }
                }
                let entry = &mut self.entries[i];
                return Ok(&mut entry.value);
            }
            i += 1;
        }
        proof {
            lemma_map_of_contains(s0, key);
        }
        Err(EngineError::UninitialisedState(name))
    }

    /// Stores `value` in the slot for its own type, replacing any prior
    /// value of that type.
    pub fn insert_state<S: 'static>(&mut self, state: S)
        requires
            old(self).wf(),
        ensures
            final(self).wf(),
            exists|k: core::any::TypeId, av: AnyValue|
                final(self)@ == old(self)@.insert(k, av),
    {
        let key = core::any::TypeId::of::<S>();
        let value = AnyValue::erase(state);
        self.insert_for_key(key, value);
    }

    /// Returns the value stored for the type `S`, or fails with
    /// `UninitialisedState` carrying `name`, the caller's display name for
    /// `S`, if none was ever inserted.  Which slot the type maps to is
    /// decided by `core::any::TypeId::of`, so beyond the error's shape the
    /// exact contract lives on `get_for_key`.
    pub fn get_state<S: 'static>(&mut self, name: &'static str) -> (r: Result<
        &mut S,
        EngineError,
    >)
        requires
            old(self).wf(),
        ensures
            r matches Err(e) ==> e == EngineError::UninitialisedState(name),
    {
        let key = core::any::TypeId::of::<S>();
        match self.get_for_key(key, name) {
            Ok(v) => match v.downcast_mut::<S>() {
                Some(s) => Ok(s),
                None => Err(EngineError::UninitialisedState(name)),
            },
            Err(e) => Err(e),
        }
    }
}

/// Last write wins: storing `v1` and then `v2` under one type key leaves
/// the slot holding `v2`; a lookup can never see `v1` again unless it is
/// re-inserted.  This composes the contracts of `insert_for_key` and
/// `get_for_key`, whose post-states are given by `Map::insert` and whose
/// lookups are given by `Map::index`.
pub proof fn lemma_state_last_write_wins(
    m: Map<core::any::TypeId, AnyValue>,
    k: core::any::TypeId,
    v1: AnyValue,
    v2: AnyValue,
)
    ensures
        m.insert(k, v1).insert(k, v2)[k] == v2,
        m.insert(k, v1).insert(k, v2).contains_key(k),
{
}

/// A fresh store holds nothing: a lookup for any type key in the empty
/// model misses, so by the contract of `get_for_key` it fails with
/// `UninitialisedState` carrying the requested type's name.
pub proof fn lemma_empty_store_has_no_state(k: core::any::TypeId)
    ensures
        !Map::<core::any::TypeId, AnyValue>::empty().contains_key(k),
{
}

} // verus!
