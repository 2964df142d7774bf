use vstd::prelude::*;
use crate::error::RegistryError;
use crate::interner::{Interner, least};

verus! {

/// A dense array of values that are addressed by interned string keys.
///
/// A key is turned into an id once, at load time; after that the value is
/// reached by the id alone, which is an index into `resources`.
pub struct ResourceCollection<T> {
    interner: Interner,
    pub resources: Vec<T>,
}

/// A cursor on one id of a collection, for "load it if it is missing".
pub struct ResourceEntry<'a, T> {
    /// The id that the cursor stands on.
    pub id: usize,
    /// The collection that the cursor works on.
    pub collection: &'a mut ResourceCollection<T>,
}

impl<T> View for ResourceCollection<T> {
    type V = Seq<T>;

    /// The stored values, in the order of their ids.
    closed spec fn view(&self) -> Seq<T> {
        self.resources@
    }
}

impl<T> ResourceCollection<T> {
    /// The live keys, each with the id it holds.
    pub closed spec fn names(&self) -> Map<Seq<char>, usize> {
        self.interner.names()
    }

    /// The ids that were freed by `remove` and have not been issued again.
    pub closed spec fn free_ids(&self) -> Set<usize> {
        self.interner.free_ids()
    }

    /// The invariant of the interner behind the collection.
    pub closed spec fn wf(&self) -> bool {
        self.interner.wf()
    }

    /// The next id of the sequence: every id issued so far lies below it.
    pub closed spec fn next_id(&self) -> nat {
        self.interner.next_id()
    }

    /// The id that `index_of` and `insert` give to `key`: the one it holds
    /// if it is live, else the smallest free id, else the next in sequence.
    pub open spec fn id_for(&self, key: Seq<char>) -> nat {
        if self.names().contains_key(key) {
            self.names()[key] as nat
        } else if !self.free_ids().is_empty() {
            least(self.free_ids()) as nat
        } else {
            self.next_id()
        }
    }

    /// How `next_id()` moves when `id` is issued.
    pub open spec fn next_id_after(&self, id: usize) -> nat {
        if id == self.next_id() {
            self.next_id() + 1
        } else {
            self.next_id()
        }
    }

    /// Whether every live key has a stored value.
    ///
    /// This holds of a new collection, and `insert`, `remove` and
    /// `or_insert_with` keep it; `index_of` on a new key suspends it until a
    /// value is stored under the id.
    pub open spec fn is_ready(&self) -> bool {
        forall|k: Seq<char>| #[trigger]
            self.names().contains_key(k) ==> self.names()[k] < self@.len()
    }

    /// What `get` returns for `index`.
    pub open spec fn spec_get(&self, index: usize) -> Result<T, RegistryError> {
        if index < self@.len() {
            Ok(self@[index as int])
        } else {
            Err(RegistryError::OutOfRange)
        }
    }

    /// What `get_resource` returns for `key`.
    pub open spec fn spec_get_resource(&self, key: Seq<char>) -> Result<T, RegistryError> {
        if self.names().contains_key(key) {
            self.spec_get(self.names()[key])
        } else {
            Err(RegistryError::UnknownKey)
        }
    }

    /// Whether `key` is live and a value is stored under its id.
    pub open spec fn holds(&self, key: Seq<char>) -> bool {
        self.names().contains_key(key) && self.names()[key] < self@.len()
    }

    /// Whether `post` is `pre` after `index_of(key)` has returned `id`.
    pub open spec fn indexed(pre: Self, post: Self, key: Seq<char>, id: usize) -> bool {
        &&& post.wf()
        &&& id == pre.id_for(key)
        &&& post.names() == pre.names().insert(key, id)
        &&& post.free_ids() == pre.free_ids().remove(id)
        &&& post.next_id() == pre.next_id_after(id)
        &&& post@ == pre@
    }

    /// Whether `post` is `pre` after `insert(key, value)` has returned `id`.
    pub open spec fn inserted(pre: Self, post: Self, key: Seq<char>, value: T, id: usize) -> bool {
        &&& post.wf()
        &&& id == pre.id_for(key)
        &&& id <= pre@.len()
        &&& post.names() == pre.names().insert(key, id)
        &&& post.free_ids() == pre.free_ids().remove(id)
        &&& post.next_id() == pre.next_id_after(id)
        &&& post@ == if id == pre@.len() {
            pre@.push(value)
        } else {
            pre@.update(id as int, value)
        }
    }

    /// Whether `post` is `pre` after `remove(key)` has returned `freed`.
    pub open spec fn removed(
        pre: Self,
        post: Self,
        key: Seq<char>,
        freed: Result<usize, RegistryError>,
    ) -> bool {
        &&& post.wf()
        &&& post@ == pre@
        &&& post.next_id() == pre.next_id()
        &&& match freed {
            Ok(id) => {
                &&& pre.names().contains_key(key)
                &&& id == pre.names()[key]
                &&& post.names() == pre.names().remove(key)
                &&& post.free_ids() == pre.free_ids().insert(id)
            },
            Err(e) => {
                &&& !pre.names().contains_key(key)
                &&& e == RegistryError::UnknownKey
                &&& post.names() == pre.names()
                &&& post.free_ids() == pre.free_ids()
            },
        }
    }

    /// An empty collection.
    pub fn new() -> (collection: Self)
        ensures
            collection.wf(),
            collection.is_ready(),
            collection.names() == Map::<Seq<char>, usize>::empty(),
            collection.free_ids() == Set::<usize>::empty(),
            collection.next_id() == 0,
            collection@ == Seq::<T>::empty(),
    {
        Self { interner: Interner::new(), resources: Vec::new() }
    }

    /// The number of stored values.
    pub fn len(&self) -> (n: usize)
        ensures
            n == self@.len(),
    {
        self.resources.len()
    }

    /// Stores `value` under `key` and returns the id of `key`.
    ///
    /// The value is appended where the id is the current length, and
    /// replaces the stored one where the id is below it.
    pub fn insert(&mut self, key: &str, value: T) -> (id: usize)
        requires
            old(self).wf(),
            old(self).id_for(key@) <= old(self)@.len(),
        ensures
            Self::inserted(*old(self), *final(self), key@, value, id),
            final(self).spec_get(id) == Ok::<T, RegistryError>(value),
            old(self).is_ready() ==> final(self).is_ready(),
    {
        let id = self.interner.intern(key);
        if id == self.resources.len() {
            self.resources.push(value);
        } else {
            self.resources[id] = value;
        }
        proof {
            if old(self).is_ready() {
                assert forall|k: Seq<char>| #[trigger]
                    self.names().contains_key(k) implies self.names()[k] < self@.len() by {
                    if k != key@ {
                        assert(old(self).names().contains_key(k));
                    }
                }
            }
        }
        id
    }

    /// The id of `key`, interning it first if it is not live. No value is
    /// stored or touched.
    pub fn index_of(&mut self, key: &str) -> (id: usize)
        requires
            old(self).wf(),
        ensures
            Self::indexed(*old(self), *final(self), key@, id),
    {
        self.interner.intern(key)
    }

    /// The id of a live key; nothing is interned.
    pub fn lookup(&self, key: &str) -> (found: Option<usize>)
        ensures
            found == if self.names().contains_key(key@) {
                Some(self.names()[key@])
            } else {
                None
            },
    {
        self.interner.lookup(key)
    }

    /// Frees the id of `key` and returns it. The stored value stays where
    /// it is until another key is given the id and overwrites it, but `key`
    /// no longer leads to it.
    pub fn remove(&mut self, key: &str) -> (freed: Result<usize, RegistryError>)
        requires
            old(self).wf(),
        ensures
            Self::removed(*old(self), *final(self), key@, freed),
            old(self).is_ready() ==> final(self).is_ready(),
    {
        self.interner.remove(key)
    }

    /// The value stored under `index`.
    pub fn get(&self, index: usize) -> (found: Result<&T, RegistryError>)
        ensures
            match found {
                Ok(value) => self.spec_get(index) == Ok::<T, RegistryError>(*value),
                Err(e) => self.spec_get(index) == Err::<T, RegistryError>(e),
            },
    {
        if self.resources.len() <= index {
            return Err(RegistryError::OutOfRange);
        }
        Ok(&self.resources[index])
    }

    /// The value stored under `index`, for writing.
    pub fn get_mut(&mut self, index: usize) -> (found: Result<&mut T, RegistryError>)
        ensures
            final(self).names() == old(self).names(),
            final(self).free_ids() == old(self).free_ids(),
            final(self).next_id() == old(self).next_id(),
            final(self).wf() == old(self).wf(),
            match found {
                Ok(value) => {
                    &&& old(self).spec_get(index) == Ok::<T, RegistryError>(*value)
                    &&& final(self)@ == old(self)@.update(
                        index as int,
                        *final(value),
                    )
                },
                Err(e) => {
                    &&& old(self).spec_get(index) == Err::<T, RegistryError>(e)
                    &&& final(self)@ == old(self)@
                },
            },
    {
        if self.resources.len() <= index {
            return Err(RegistryError::OutOfRange);
        }
        Ok(&mut self.resources[index])
    }

    /// The value stored under a live key.
    pub fn get_resource(&self, key: &str) -> (found: Result<&T, RegistryError>)
        ensures
            match found {
                Ok(value) => self.spec_get_resource(key@) == Ok::<T, RegistryError>(*value),
                Err(e) => self.spec_get_resource(key@) == Err::<T, RegistryError>(e),
            },
    {
        match self.interner.lookup(key) {
            Some(id) => self.get(id),
            None => Err(RegistryError::UnknownKey),
        }
    }

    /// The live ids and the free ids split the ids below `next_id()`: no id
    /// is held by two live keys, and none is both live and free.
    pub proof fn lemma_ids_partition(&self)
        requires
            self.wf(),
        ensures
            self.names().dom().finite(),
            self.free_ids().finite(),
            self.names().len() + self.free_ids().len() == self.next_id(),
            forall|k: Seq<char>| #[trigger]
                self.names().contains_key(k) ==> self.names()[k] < self.next_id()
                    && !self.free_ids().contains(self.names()[k]),
            forall|id: usize| #[trigger] self.free_ids().contains(id) ==> id < self.next_id(),
            forall|k1: Seq<char>, k2: Seq<char>|
                #[trigger] self.names().contains_key(k1) && #[trigger] self.names().contains_key(k2)
                    && k1 != k2 ==> self.names()[k1] != self.names()[k2],
    {
        self.interner.lemma_ids_partition();
    }

    /// While every live key has a stored value, every key may be inserted:
    /// the id it is given is at most the length.
    pub proof fn lemma_ready_admits_insert(&self, key: Seq<char>)
        requires
            self.wf(),
            self.is_ready(),
        ensures
            self.id_for(key) <= self@.len(),
    {
        self.interner.lemma_id_for_bound(key, self@.len());
    }

    /// An id that `index_of` issued on a ready collection can be filled
    /// through its entry, and the collection is ready again once a value is
    /// stored under it.
    pub proof fn lemma_index_of_then_store(pre: Self, named: Self, stored: Self, key: Seq<char>, id: usize)
        requires
            pre.wf(),
            pre.is_ready(),
            Self::indexed(pre, named, key, id),
            stored.names() == named.names(),
            stored@.len() >= named@.len(),
            stored@.len() > id,
        ensures
            id <= named@.len(),
            stored.is_ready(),
    {
        pre.lemma_ready_admits_insert(key);
        assert forall|k: Seq<char>| #[trigger]
            stored.names().contains_key(k) implies stored.names()[k] < stored@.len() by {
            if k != key {
                assert(pre.names().contains_key(k));
            }
        }
    }

    /// After a value was inserted under a key, `index_of` returns the same
    /// id for that key and changes nothing.
    pub proof fn lemma_index_of_after_insert(
        pre: Self,
        stored: Self,
        asked: Self,
        key: Seq<char>,
        value: T,
        id: usize,
        again: usize,
    )
        requires
            Self::inserted(pre, stored, key, value, id),
            Self::indexed(stored, asked, key, again),
        ensures
            again == id,
            asked@ == stored@,
            asked.names() == stored.names(),
            asked.free_ids() == stored.free_ids(),
            asked.next_id() == stored.next_id(),
    {
        stored.lemma_ids_partition();
        assert(stored.names().contains_key(key));
        assert(stored.names().insert(key, id) =~= stored.names());
        assert(stored.free_ids().remove(id) =~= stored.free_ids());
    }

    /// A key that was removed cannot be resolved any more, whatever other
    /// key is interned after it, though its value is still stored. The
    /// first new key after the removal is given an id no larger than the
    /// freed one: the freed id itself where no other id was free.
    pub proof fn lemma_removed_key_is_unknown(
        pre: Self,
        dropped: Self,
        named: Self,
        key: Seq<char>,
        freed: usize,
        other: Seq<char>,
        id: usize,
    )
        requires
            pre.wf(),
            Self::removed(pre, dropped, key, Ok(freed)),
            Self::indexed(dropped, named, other, id),
            other != key,
        ensures
            named.spec_get_resource(key) == Err::<T, RegistryError>(RegistryError::UnknownKey),
            named@ == pre@,
            !pre.names().contains_key(other) ==> id <= freed,
            !pre.names().contains_key(other) && pre.free_ids().is_empty() ==> id == freed,
    {
        dropped.lemma_ids_partition();
        pre.lemma_ids_partition();
        assert(dropped.free_ids().contains(freed));
        dropped.interner.lemma_least_free();
        if pre.free_ids().is_empty() {
            assert(dropped.free_ids() =~= set![freed]);
        }
    }

    /// Whether a value can be stored under `key`: the id that the key is
    /// given is at most the length.
    pub fn admits(&self, key: &str) -> (admitted: bool)
        requires
            self.wf(),
        ensures
            admitted == (self.id_for(key@) <= self@.len()),
    {
        self.interner.peek(key) <= self.resources.len()
    }

    /// Whether `key` is live and a value is stored under its id.
    pub fn contains(&self, key: &str) -> (held: bool)
        ensures
            held == self.holds(key@),
    {
        match self.interner.lookup(key) {
            Some(id) => id < self.resources.len(),
            None => false,
        }
    }

    /// The value stored under `key`, for writing. Where `key` holds none,
    /// the value that `f` makes is stored under it first, as by `insert`.
    pub fn get_or_insert_with<F: FnOnce() -> T>(&mut self, key: &str, f: F) -> (value: &mut T)
        requires
            old(self).wf(),
            old(self).id_for(key@) <= old(self)@.len(),
            f.requires(()),
        ensures
            final(self).wf(),
            final(self).names() == old(self).names().insert(key@, old(self).id_for(key@) as usize),
            final(self).free_ids() == old(self).free_ids().remove(
                old(self).id_for(key@) as usize,
            ),
            final(self).next_id() == old(self).next_id_after(old(self).id_for(key@) as usize),
            old(self).holds(key@) ==> *value == old(self)@[old(self).id_for(key@) as int],
            !old(self).holds(key@) ==> f.ensures((), *value),
            final(self)@ == if old(self).id_for(key@) == old(self)@.len() {
                old(self)@.push(*final(value))
            } else {
                old(self)@.update(old(self).id_for(key@) as int, *final(value))
            },
            old(self).is_ready() ==> final(self).is_ready(),
    {
        let held = self.contains(key);
        let id = self.interner.intern(key);
        proof {
            if old(self).is_ready() {
                assert forall|k: Seq<char>| #[trigger]
                    self.names().contains_key(k) && k != key@ implies self.names()[k]
                    < old(self)@.len() by {
                    assert(old(self).names().contains_key(k));
                }
            }
        }
        if id == self.resources.len() {
            self.resources.push(f());
        } else if !held {
            self.resources[id] = f();
        }
        &mut self.resources[id]
    }

    /// As `get_or_insert_with`, for a maker that can fail: where it does,
    /// its error is handed on and nothing changes.
    pub fn get_or_try_insert_with<E, F: FnOnce() -> Result<T, E>>(&mut self, key: &str, f: F) -> (found:
        Result<&mut T, E>)
        requires
            old(self).wf(),
            old(self).id_for(key@) <= old(self)@.len(),
            f.requires(()),
        ensures
            match found {
                Ok(value) => {
                    &&& final(self).wf()
                    &&& final(self).names() == old(self).names().insert(
                        key@,
                        old(self).id_for(key@) as usize,
                    )
                    &&& final(self).free_ids() == old(self).free_ids().remove(
                        old(self).id_for(key@) as usize,
                    )
                    &&& final(self).next_id() == old(self).next_id_after(
                        old(self).id_for(key@) as usize,
                    )
                    &&& old(self).holds(key@) ==> *value == old(self)@[old(self).id_for(key@) as int]
                    &&& !old(self).holds(key@) ==> f.ensures((), Ok(*value))
                    &&& final(self)@ == if old(self).id_for(key@) == old(self)@.len() {
                        old(self)@.push(*final(value))
                    } else {
                        old(self)@.update(old(self).id_for(key@) as int, *final(value))
                    }
                },
                Err(e) => {
                    &&& !old(self).holds(key@)
                    &&& f.ensures((), Err(e))
                    &&& *final(self) == *old(self)
                },
            },
            old(self).is_ready() ==> final(self).is_ready(),
    {
        if self.contains(key) {
            let id = self.interner.intern(key);
            proof {
                assert(self.names() =~= old(self).names());
            }
            return Ok(&mut self.resources[id]);
        }
        let value = match f() {
            Ok(value) => value,
            Err(e) => {
                return Err(e);
            },
        };
        let id = self.interner.intern(key);
        proof {
            if old(self).is_ready() {
                assert forall|k: Seq<char>| #[trigger]
                    self.names().contains_key(k) && k != key@ implies self.names()[k]
                    < old(self)@.len() by {
                    assert(old(self).names().contains_key(k));
                }
            }
        }
        if id == self.resources.len() {
            self.resources.push(value);
        } else {
            self.resources[id] = value;
        }
        Ok(&mut self.resources[id])
    }

    /// A cursor on `index`.
    pub fn entry(&mut self, index: usize) -> (entry: ResourceEntry<'_, T>)
        ensures
            entry.id == index,
            *entry.collection == *old(self),
            *final(self) == *final(entry.collection),
    {
        ResourceEntry { id: index, collection: self }
    }
}

impl<'a, T> ResourceEntry<'a, T> {
    /// Whether a value is stored under the id.
    pub fn is_present(&self) -> (present: bool)
        ensures
            present == (self.id < old(self.collection)@.len()),
    {
        self.id < self.collection.resources.len()
    }

    /// The value under the id; where none is stored and the id is the next
    /// to be filled, the value that `f` makes is stored first.
    pub fn or_insert_with<F: FnOnce() -> T>(self, f: F) -> (value: &'a mut T)
        requires
            self.id <= old(self.collection)@.len(),
            f.requires(()),
        ensures
            final(self.collection).names() == old(self.collection).names(),
            final(self.collection).free_ids() == old(self.collection).free_ids(),
            final(self.collection).next_id() == old(self.collection).next_id(),
            final(self.collection).wf() == old(self.collection).wf(),
            self.id < old(self.collection)@.len() ==> {
                &&& *value == old(self.collection)@[self.id as int]
                &&& final(self.collection)@ == old(self.collection)@.update(
                    self.id as int,
                    *final(value),
                )
            },
            self.id == old(self.collection)@.len() ==> {
                &&& f.ensures((), *value)
                &&& final(self.collection)@ == old(self.collection)@.push(*final(value))
            },
    {
        let id = self.id;
        let coll = self.collection;
        if id < coll.resources.len() {
            &mut coll.resources[id]
        } else {
            coll.resources.push(f());
            &mut coll.resources[id]
        }
    }

    /// The value under the id, for writing, if one is stored.
    pub fn get_mut(self) -> (found: Option<&'a mut T>)
        ensures
            final(self.collection).names() == old(self.collection).names(),
            final(self.collection).free_ids() == old(self.collection).free_ids(),
            final(self.collection).next_id() == old(self.collection).next_id(),
            final(self.collection).wf() == old(self.collection).wf(),
            match found {
                Some(value) => {
                    &&& self.id < old(self.collection)@.len()
                    &&& *value == old(self.collection)@[self.id as int]
                    &&& final(self.collection)@ == old(self.collection)@.update(
                        self.id as int,
                        *final(value),
                    )
                },
                None => {
                    &&& self.id >= old(self.collection)@.len()
                    &&& final(self.collection)@ == old(self.collection)@
                },
            },
    {
        if self.id < self.collection.resources.len() {
            Some(&mut self.collection.resources[self.id])
        } else {
            None
        }
    }

    /// The value under the id, if one is stored.
    pub fn get(self) -> (found: Option<&'a T>)
        ensures
            *final(self.collection) == *old(self.collection),
            match found {
                Some(value) => self.id < old(self.collection)@.len() && *value == old(
                    self.collection,
                )@[self.id as int],
                None => self.id >= old(self.collection)@.len(),
            },
    {
        if self.id < self.collection.resources.len() {
            Some(&self.collection.resources[self.id])
        } else {
            None
        }
    }
}

} // verus!
