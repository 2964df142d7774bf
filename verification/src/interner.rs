use vstd::prelude::*;
use vstd::hash_map::StringHashMap;
use crate::error::RegistryError;

verus! {

/// The least element of a set of ids.
pub open spec fn least(ids: Set<usize>) -> usize {
    choose|m: usize| ids.contains(m) && forall|x: usize| ids.contains(x) ==> m <= x
}

/// Removing one position of a sequence without duplicates removes exactly
/// that element from the set of its elements.
proof fn lemma_remove_position(s: Seq<usize>, i: int)
    requires
        s.no_duplicates(),
        0 <= i < s.len(),
    ensures
        s.remove(i).no_duplicates(),
        s.remove(i).to_set() == s.to_set().remove(s[i]),
        s.remove(i).len() == s.len() - 1,
{
    let r = s.remove(i);
    assert forall|x: usize| r.to_set().contains(x) <==> s.to_set().remove(s[i]).contains(x) by {
        if r.to_set().contains(x) {
            let j = choose|j: int| 0 <= j < r.len() && r[j] == x;
            if j < i {
                assert(s[j] == x);
            } else {
                assert(s[j + 1] == x);
            }
        }
        if s.to_set().remove(s[i]).contains(x) {
            let j = choose|j: int| 0 <= j < s.len() && s[j] == x;
            if j < i {
                assert(r[j] == x);
            } else {
                assert(r[j - 1] == x);
            }
        }
    }
    assert(r.to_set() =~= s.to_set().remove(s[i]));
}

/// Appending an element that a sequence without duplicates does not hold
/// adds exactly that element to the set of its elements.
proof fn lemma_push_fresh(s: Seq<usize>, x: usize)
    requires
        s.no_duplicates(),
        !s.contains(x),
    ensures
        s.push(x).no_duplicates(),
        s.push(x).to_set() == s.to_set().insert(x),
{
    let r = s.push(x);
    assert forall|y: usize| r.to_set().contains(y) <==> s.to_set().insert(x).contains(y) by {
        if r.to_set().contains(y) {
            let j = choose|j: int| 0 <= j < r.len() && r[j] == y;
            if j < s.len() {
                assert(s[j] == y);
            }
        }
        if s.to_set().insert(x).contains(y) {
            if y == x {
                assert(r[s.len() as int] == y);
            } else {
                let j = choose|j: int| 0 <= j < s.len() && s[j] == y;
                assert(r[j] == y);
            }
        }
    }
    assert(r.to_set() =~= s.to_set().insert(x));
}

/// An element that no other of a sequence undercuts is the least of the
/// set of its elements.
proof fn lemma_least_at(s: Seq<usize>, at: int)
    requires
        0 <= at < s.len(),
        forall|i: int| 0 <= i < s.len() ==> s[at] <= s[i],
    ensures
        s.to_set().contains(s[at]),
        s[at] == least(s.to_set()),
{
    assert(s.contains(s[at]));
    assert forall|x: usize| s.to_set().contains(x) implies s[at] <= x by {
        let j = choose|j: int| 0 <= j < s.len() && s[j] == x;
        assert(s[at] <= s[j]);
    }
}

/// The position of the smallest element of a non-empty vector.
fn position_of_least(ids: &Vec<usize>) -> (at: usize)
    requires
        ids@.len() > 0,
    ensures
        at < ids@.len(),
        forall|i: int| 0 <= i < ids@.len() ==> ids@[at as int] <= ids@[i],
{
    let mut at: usize = 0;
    let mut i: usize = 1;
    while i < ids.len()
        invariant
            at < ids@.len(),
            1 <= i <= ids@.len(),
            forall|j: int| 0 <= j < i ==> ids@[at as int] <= ids@[j],
        decreases ids@.len() - i,
    {
        if ids[i] < ids[at] {
            at = i;
        }
        i += 1;
    }
    at
}

/// Turns string keys into small integer ids.
///
/// A key that is interned keeps its id until it is removed. The id of a
/// removed key becomes free, and the smallest free id is the first to be
/// issued again; while none is free, ids are issued in sequence from zero.
pub struct Interner {
    map: StringHashMap<usize>,
    id: usize,
    free: Vec<usize>,
}

impl Interner {
    /// The live keys, each with the id it holds.
    pub closed spec fn names(&self) -> Map<Seq<char>, usize> {
        self.map@
    }

    /// The ids that were freed and have not been issued again.
    pub closed spec fn free_ids(&self) -> Set<usize> {
        self.free@.to_set()
    }

    /// The next id of the sequence: every id issued so far lies below it.
    pub closed spec fn next_id(&self) -> nat {
        self.id as nat
    }

    /// The internal invariant: the live ids and the free ids are disjoint,
    /// no id is held twice, and together they are exactly the ids below
    /// `next_id()`.
    pub closed spec fn wf(&self) -> bool {
        &&& self.map@.dom().finite()
        &&& self.free@.no_duplicates()
        &&& self.map@.len() + self.free@.len() == self.id
        &&& forall|i: int| 0 <= i < self.free@.len() ==> self.free@[i] < self.id
        &&& forall|k: Seq<char>| #[trigger] self.map@.contains_key(k) ==> self.map@[k] < self.id
        &&& forall|k: Seq<char>, i: int|
            #[trigger] self.map@.contains_key(k) && 0 <= i < self.free@.len()
                ==> self.map@[k] != #[trigger] self.free@[i]
        &&& forall|k1: Seq<char>, k2: Seq<char>|
            #[trigger] self.map@.contains_key(k1) && #[trigger] self.map@.contains_key(k2) && k1 != k2
                ==> self.map@[k1] != self.map@[k2]
        &&& forall|id: usize|
            id < self.id ==> #[trigger] self.is_live(id) || self.free@.contains(id)
    }

    /// Whether `id` is held by a live key.
    pub open spec fn is_live(&self, id: usize) -> bool {
        exists|k: Seq<char>| #[trigger] self.names().contains_key(k) && self.names()[k] == id
    }

    /// The id that `intern` gives to `key`: the one it holds if it is live,
    /// else the smallest free id, else the next of the sequence.
    pub open spec fn id_for(&self, key: Seq<char>) -> nat {
        if self.names().contains_key(key) {
            self.names()[key] as nat
        } else if !self.free_ids().is_empty() {
            least(self.free_ids()) as nat
        } else {
            self.next_id()
        }
    }

    /// Whether `post` is `pre` after `intern(key)` has returned `id`.
    pub open spec fn interned(pre: Interner, post: Interner, key: Seq<char>, id: usize) -> bool {
        &&& post.wf()
        &&& id == pre.id_for(key)
        &&& post.names() == pre.names().insert(key, id)
        &&& post.free_ids() == pre.free_ids().remove(id)
        &&& post.next_id() == if id == pre.next_id() {
            pre.next_id() + 1
        } else {
            pre.next_id()
        }
    }

    /// Whether `post` is `pre` after `remove(key)` has returned `freed`.
    pub open spec fn removed(
        pre: Interner,
        post: Interner,
        key: Seq<char>,
        freed: Result<usize, RegistryError>,
    ) -> bool {
        &&& post.wf()
        &&& post.next_id() == pre.next_id()
        &&& match freed {
            Ok(id) => {
                &&& pre.names().contains_key(key)
                &&& id == pre.names()[key]
                &&& post.names() == pre.names().remove(key)
                &&& post.free_ids() == pre.free_ids().insert(id)
            },
            Err(e) => {
                &&& !pre.names().contains_key(key)
                &&& e == RegistryError::UnknownKey
                &&& post.names() == pre.names()
                &&& post.free_ids() == pre.free_ids()
            },
        }
    }

    /// An interner that holds no key and has issued no id.
    pub fn new() -> (interner: Self)
        ensures
            interner.wf(),
            interner.names() == Map::<Seq<char>, usize>::empty(),
            interner.free_ids() == Set::<usize>::empty(),
            interner.next_id() == 0,
    {
        let interner = Self { map: StringHashMap::new(), id: 0, free: Vec::new() };
        assert(interner.free@.to_set() =~= Set::<usize>::empty());
        interner
    }

    /// The id of a live key, without interning anything.
    pub fn lookup(&self, s: &str) -> (found: Option<usize>)
        ensures
            found == if self.names().contains_key(s@) {
                Some(self.names()[s@])
            } else {
                None
            },
    {
        match self.map.get(s) {
            Some(id) => Some(*id),
            None => None,
        }
    }

    /// The id that `intern` would return for `s`; nothing is interned.
    pub fn peek(&self, s: &str) -> (id: usize)
        requires
            self.wf(),
        ensures
            id == self.id_for(s@),
    {
        if let Some(id) = self.map.get(s) {
            return *id;
        }
        if self.free.len() > 0 {
            let at = position_of_least(&self.free);
            proof {
                lemma_least_at(self.free@, at as int);
            }
            self.free[at]
        } else {
            proof {
                assert(self.free@.to_set() =~= Set::<usize>::empty());
            }
            self.id
        }
    }

    /// Returns the id of `s`, interning it first if it is not live.
    pub fn intern(&mut self, s: &str) -> (id: usize)
        requires
            old(self).wf(),
        ensures
            Self::interned(*old(self), *final(self), s@, id),
    {
        if let Some(id) = self.map.get(s) {
            let id = *id;
            proof {
                assert(self.map@.insert(s@, id) =~= self.map@);
                assert(!self.free@.contains(id));
                assert(self.free@.to_set().remove(id) =~= self.free@.to_set());
            }
            return id;
        }
        if self.free.len() > 0 {
            let at = position_of_least(&self.free);
            proof {
                lemma_remove_position(self.free@, at as int);
                lemma_least_at(self.free@, at as int);
            }
            let ghost before = self.free@;
            let id = self.free.remove(at);
            self.map.insert(s.to_owned(), id);
            proof {
                assert forall|i: int| 0 <= i < self.free@.len() implies self.free@[i] < self.id
                    && self.free@[i] != id by {
                    if i < at {
                        assert(self.free@[i] == before[i]);
                    } else {
                        assert(self.free@[i] == before[i + 1]);
                    }
                }
                assert forall|x: usize| x < self.id implies #[trigger] self.is_live(x)
                    || self.free@.contains(x) by {
                    if x == id {
                        assert(self.names().contains_key(s@) && self.names()[s@] == x);
                    } else if old(self).is_live(x) {
                        let k = choose|k: Seq<char>| #[trigger]
                            old(self).names().contains_key(k) && old(self).names()[k] == x;
                        assert(self.names().contains_key(k) && self.names()[k] == x);
                    } else {
                        assert(before.to_set().contains(x));
                        assert(self.free@.to_set().contains(x));
                    }
                }
            }
            id
        } else {
            let id = self.id;
            self.map.insert(s.to_owned(), id);
            let live = self.map.len();
            proof {
                assert(live == old(self).map@.len() + 1);
                assert(old(self).free@.to_set() =~= Set::<usize>::empty());
                assert(old(self).free@.to_set().remove(id) =~= old(self).free@.to_set());
            }
            self.id = id + 1;
            proof {
                assert forall|x: usize| x < self.id implies #[trigger] self.is_live(x)
                    || self.free@.contains(x) by {
                    if x == id {
                        assert(self.names().contains_key(s@) && self.names()[s@] == x);
                    } else {
                        assert(old(self).is_live(x));
                        let k = choose|k: Seq<char>| #[trigger]
                            old(self).names().contains_key(k) && old(self).names()[k] == x;
                        assert(self.names().contains_key(k) && self.names()[k] == x);
                    }
                }
            }
            id
        }
    }

    /// Frees the id of a live key and returns it.
    ///
    /// The key is no longer interned; its id will be issued again. An
    /// unknown key is an error, so a key cannot be removed twice.
    pub fn remove(&mut self, s: &str) -> (freed: Result<usize, RegistryError>)
        requires
            old(self).wf(),
        ensures
            Self::removed(*old(self), *final(self), s@, freed),
    {
        let id = match self.map.get(s) {
            Some(id) => *id,
            None => {
                return Err(RegistryError::UnknownKey);
            },
        };
        proof {
            assert(!self.free@.contains(id));
            lemma_push_fresh(self.free@, id);
        }
        self.map.remove(s);
        self.free.push(id);
        proof {
            assert forall|x: usize| x < self.id implies #[trigger] self.is_live(x)
                || self.free@.contains(x) by {
                if x == id {
                    assert(self.free@[self.free@.len() - 1] == x);
                } else if old(self).is_live(x) {
                    let k = choose|k: Seq<char>| #[trigger]
                        old(self).names().contains_key(k) && old(self).names()[k] == x;
                    assert(self.names().contains_key(k) && self.names()[k] == x);
                } else {
                    let j = choose|j: int| 0 <= j < old(self).free@.len() && old(self).free@[j] == x;
                    assert(self.free@[j] == x);
                }
            }
        }
        Ok(id)
    }

    /// The ids below `next_id()` are split between the live keys and the
    /// free set: each is held by exactly one live key or is free, never both.
    pub proof fn lemma_ids_partition(&self)
        requires
            self.wf(),
        ensures
            self.names().dom().finite(),
            self.free_ids().finite(),
            self.names().len() + self.free_ids().len() == self.next_id(),
            forall|k: Seq<char>| #[trigger]
                self.names().contains_key(k) ==> self.names()[k] < self.next_id()
                    && !self.free_ids().contains(self.names()[k]),
            forall|id: usize| #[trigger] self.free_ids().contains(id) ==> id < self.next_id(),
            forall|k1: Seq<char>, k2: Seq<char>|
                #[trigger] self.names().contains_key(k1) && #[trigger] self.names().contains_key(k2)
                    && k1 != k2 ==> self.names()[k1] != self.names()[k2],
            forall|id: usize|
                id < self.next_id() ==> #[trigger] self.is_live(id) || self.free_ids().contains(id),
    {
        self.free@.unique_seq_to_set();
        assert forall|id: usize| #[trigger] self.free_ids().contains(id) implies id
            < self.next_id() by {
            let j = choose|j: int| 0 <= j < self.free@.len() && self.free@[j] == id;
            assert(self.free@[j] < self.id);
        }
    }

    /// An id given to a key that is not live is held by no live key: no two
    /// live keys ever share an id.
    pub proof fn lemma_fresh_id_not_live(&self, key: Seq<char>)
        requires
            self.wf(),
            !self.names().contains_key(key),
        ensures
            !self.is_live(self.id_for(key) as usize),
            self.id_for(key) <= self.next_id(),
    {
        self.lemma_ids_partition();
        if !self.free_ids().is_empty() {
            self.lemma_least_free();
        }
    }

    /// While an id is free, the smallest free id is one of them and none is
    /// smaller.
    pub proof fn lemma_least_free(&self)
        requires
            self.wf(),
            !self.free_ids().is_empty(),
        ensures
            self.free_ids().contains(least(self.free_ids())),
            forall|x: usize| self.free_ids().contains(x) ==> least(self.free_ids()) <= x,
    {
        assert(self.free@.len() > 0) by {
            let x = choose|x: usize| self.free_ids().contains(x);
            assert(self.free@.contains(x));
        }
        let at = least_position(self.free@);
        lemma_least_at(self.free@, at);
        assert forall|x: usize| self.free_ids().contains(x) implies self.free@[at] <= x by {
            let j = choose|j: int| 0 <= j < self.free@.len() && self.free@[j] == x;
        }
    }

    /// Where every live key holds an id below `bound`, no key is given an id
    /// above `bound`.
    pub proof fn lemma_id_for_bound(&self, key: Seq<char>, bound: nat)
        requires
            self.wf(),
            forall|k: Seq<char>| #[trigger]
                self.names().contains_key(k) ==> self.names()[k] < bound,
        ensures
            self.id_for(key) <= bound,
    {
        self.lemma_ids_partition();
        if self.names().contains_key(key) {
        } else if !self.free_ids().is_empty() {
            self.lemma_least_free();
            let m = least(self.free_ids());
            if m > bound {
                let b = bound as usize;
                assert(b < self.next_id());
                assert(self.is_live(b) || self.free_ids().contains(b));
            }
        } else {
            if self.next_id() > bound {
                let b = bound as usize;
                assert(self.is_live(b) || self.free_ids().contains(b));
            }
        }
    }

    /// A key that was removed stays unknown while other keys are interned,
    /// and the first new key after the removal is given an id no larger
    /// than the freed one: the freed id itself where no other id was free.
    pub proof fn lemma_freed_id_is_reused(
        start: Interner,
        dropped: Interner,
        reused: Interner,
        key: Seq<char>,
        freed: usize,
        other: Seq<char>,
        id: usize,
    )
        requires
            start.wf(),
            Self::removed(start, dropped, key, Ok(freed)),
            Self::interned(dropped, reused, other, id),
            other != key,
            !start.names().contains_key(other),
        ensures
            !reused.names().contains_key(key),
            reused.names().contains_key(other) && reused.names()[other] == id,
            id <= freed,
            start.free_ids().is_empty() ==> id == freed,
            !reused.free_ids().contains(id),
    {
        dropped.lemma_ids_partition();
        start.lemma_ids_partition();
        assert(dropped.free_ids().contains(freed));
        dropped.lemma_least_free();
        if start.free_ids().is_empty() {
            assert(dropped.free_ids() =~= set![freed]);
        }
    }
}

/// A position of a non-empty sequence whose element no other undercuts.
proof fn least_position(s: Seq<usize>) -> (at: int)
    requires
        s.len() > 0,
    ensures
        0 <= at < s.len(),
        forall|i: int| 0 <= i < s.len() ==> s[at] <= #[trigger] s[i],
    decreases s.len(),
{
    if s.len() == 1 {
        0
    } else {
        let head = s.drop_last();
        let at = least_position(head);
        let last = s.len() - 1;
        assert forall|i: int| 0 <= i < last implies s[at] <= #[trigger] s[i] by {
            assert(head[at] <= head[i]);
        }
        if s[last] < s[at] {
            last
        } else {
            at
        }
    }
}

} // verus!
