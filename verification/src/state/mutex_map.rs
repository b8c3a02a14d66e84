//! Forward-only id counters and the id-keyed entity store built on them.

use std::collections::HashMap;
use vstd::prelude::*;
use vstd::std_specs::iter::IteratorSpec;

verus! {

/// A counter that only moves forward. It hands out fresh ids and tracks the
/// highest id that has been seen.
#[derive(Debug)]
pub struct Id {
    inner: usize,
}

impl Clone for Id {
    fn clone(&self) -> (copy: Self)
        ensures
            copy@ == self@,
    {
        Self { inner: self.inner }
    }
}

impl View for Id {
    type V = nat;

    closed spec fn view(&self) -> nat {
        self.inner as nat
    }
}

impl Id {
    /// A counter at zero: the first id it hands out is 1.
    pub fn new() -> (id: Self)
        ensures
            id@ == 0,
    {
        Self { inner: 0 }
    }

    /// The counter's current value.
    pub fn current(&self) -> (value: usize)
        ensures
            value == self@,
    {
        self.inner
    }

    /// Increments the counter and returns the new value.
    pub fn get_next(&mut self) -> (next: usize)
        requires
            old(self)@ < usize::MAX,
        ensures
            final(self)@ == old(self)@ + 1,
            next == final(self)@,
    {
        self.inner = self.inner + 1;
        self.inner
    }

    /// Raises the counter to `new_id` if that is higher; never lowers it.
    pub fn update(&mut self, new_id: usize)
        ensures
            final(self)@ == if new_id > old(self)@ { new_id as nat } else { old(self)@ },
    {
        if new_id > self.inner {
            self.inner = new_id;
        }
    }
}

} // verus!

verus! {

broadcast use vstd::std_specs::hash::group_hash_axioms;

/// The counter `counter` after it has seen `id`.
pub open spec fn raised(counter: nat, id: usize) -> nat {
    if id > counter {
        id as nat
    } else {
        counter
    }
}

/// The ids that `count` calls of `get_next` in a row return, starting from a
/// counter at `counter`: each call returns one more than the counter held.
pub open spec fn issued(counter: nat, count: nat) -> Seq<nat> {
    Seq::new(count, |i: int| (counter + 1 + i) as nat)
}

/// Ids that are handed out in a row are strictly increasing, hence distinct,
/// and all above the counter's starting value.
pub proof fn lemma_issued_ids_increase(counter: nat, count: nat)
    ensures
        forall|i: int, j: int|
            0 <= i < j < count ==> #[trigger] issued(counter, count)[i] < #[trigger] issued(
                counter,
                count,
            )[j],
        forall|i: int| 0 <= i < count ==> counter < #[trigger] issued(counter, count)[i],
        issued(counter, count).no_duplicates(),
{
}

/// A counter that has seen `id` never falls, and the next id it hands out is
/// one above `id` where `id` exceeds the counter, else one above the counter.
pub proof fn lemma_next_after_raise(counter: nat, id: usize)
    ensures
        raised(counter, id) >= counter,
        raised(counter, id) >= id,
        id > counter ==> issued(raised(counter, id), 1)[0] == id + 1,
        id <= counter ==> issued(raised(counter, id), 1)[0] == counter + 1,
{
}

/// Whether no entity is stored under an id above `counter`.
pub open spec fn ids_within<T>(entries: Map<usize, T>, counter: nat) -> bool {
    forall|id: usize| entries.contains_key(id) ==> id <= counter
}

/// Inserting keeps every stored id within the counter, because the counter
/// sees the inserted id.
pub proof fn lemma_insert_keeps_ids_within<T>(
    entries: Map<usize, T>,
    counter: nat,
    id: usize,
    item: T,
)
    requires
        ids_within(entries, counter),
    ensures
        ids_within(entries.insert(id, item), raised(counter, id)),
{
}

/// The next id that a store hands out is not in use, whatever was inserted
/// before under ids of the caller's choosing.
pub proof fn lemma_next_id_is_unused<T>(entries: Map<usize, T>, counter: nat)
    requires
        ids_within(entries, counter),
        counter < usize::MAX,
    ensures
        !entries.contains_key((counter + 1) as usize),
        ids_within(entries, counter + 1),
{
}

/// Whether `items` is a snapshot of `entries`: one copy of each value, in
/// some order.
pub open spec fn is_snapshot<T: Clone>(items: Seq<T>, entries: Map<usize, T>) -> bool {
    exists|keys: Seq<usize>|
        #![trigger keys.no_duplicates()]
        {
            &&& keys.len() == items.len()
            &&& keys.no_duplicates()
            &&& keys.to_set() == entries.dom()
            &&& forall|i: int| 0 <= i < keys.len() ==> cloned(entries[keys[i]], #[trigger] items[i])
        }
}

/// A map from id to entity with an id counter of its own: an id that the
/// counter hands out is higher than every id that was inserted before.
#[derive(Debug)]
pub struct MutexMap<T> {
    id: Id,
    inner: HashMap<usize, T>,
}

impl<T: Clone> Clone for MutexMap<T> {
    fn clone(&self) -> (copy: Self)
        ensures
            copy@ == self@,
            copy.counter() == self.counter(),
    {
        Self { id: self.id.clone(), inner: self.inner.clone() }
    }
}

impl<T> View for MutexMap<T> {
    type V = Map<usize, T>;

    closed spec fn view(&self) -> Map<usize, T> {
        self.inner@
    }
}

impl<T: Clone> MutexMap<T> {
    /// The value of the store's id counter: the highest id that was handed
    /// out or inserted.
    pub closed spec fn counter(&self) -> nat {
        self.id@
    }

    /// An empty store whose first id is 1.
    pub fn new() -> (store: Self)
        ensures
            store@ == Map::<usize, T>::empty(),
            store.counter() == 0,
    {
        Self { id: Id::new(), inner: HashMap::new() }
    }

    /// The value of the store's id counter.
    pub fn last_id(&self) -> (id: usize)
        ensures
            id == self.counter(),
    {
        self.id.current()
    }

    /// An id for an entity that is not inserted yet.
    pub fn get_id(&mut self) -> (id: usize)
        requires
            old(self).counter() < usize::MAX,
        ensures
            id == old(self).counter() + 1,
            final(self).counter() == id,
            final(self)@ == old(self)@,
    {
        self.id.get_next()
    }

    /// A copy of the entity at `id`, if there is one.
    pub fn get(&self, id: &usize) -> (item: Option<T>)
        ensures
            item is Some <==> self@.contains_key(*id),
            item is Some ==> cloned(self@[*id], item->0),
    {
        match self.inner.get(id) {
            Some(found) => Some(found.clone()),
            None => None,
        }
    }

    /// Whether there is an entity at `id`.
    pub fn contains(&self, id: &usize) -> (found: bool)
        ensures
            found == self@.contains_key(*id),
    {
        self.inner.contains_key(id)
    }

    /// A snapshot of all entities, in no particular order.
    pub fn list(&self) -> (items: Vec<T>)
        ensures
            is_snapshot(items@, self@),
    {
        let mut items: Vec<T> = Vec::new();
        let ghost pairs = vstd::std_specs::hash::spec_hash_map_iter(&self.inner).remaining();
        for entry in it: self.inner.iter()
            invariant
                it.seq() == pairs,
                pairs.no_duplicates(),
                items.len() == it.index(),
                forall|j: int| 0 <= j < items.len() ==> cloned(*pairs[j].1, #[trigger] items[j]),
        {
            items.push(entry.1.clone());
        }
        proof {
            let keys = Seq::new(pairs.len(), |i: int| *pairs[i].0);
            assert forall|i: int, j: int| 0 <= i < keys.len() && 0 <= j < keys.len() && i != j implies keys[i]
                != keys[j] by {
                assert(self.inner@.contains_key(*pairs[i].0));
            }
            assert forall|k: usize| keys.to_set().contains(k) <==> self@.dom().contains(k) by {
                if keys.contains(k) {
                    let i = choose|i: int| 0 <= i < keys.len() && keys[i] == k;
                    assert(self.inner@.contains_key(*pairs[i].0));
                }
                if self@.contains_key(k) {
                    let i = choose|i: int| 0 <= i < pairs.len() && pairs[i] == (&k, &self.inner@[k]);
                    assert(keys[i] == k);
                }
            }
            assert(keys.to_set() =~= self@.dom());
            assert(keys.no_duplicates());
        }
        items
    }

    /// Puts `item` at `id`, replacing what was there, and makes the counter
    /// see `id`, so that ids handed out later do not collide with it.
    pub fn insert(&mut self, id: usize, item: T) -> (prior: Option<T>)
        ensures
            final(self)@ == old(self)@.insert(id, item),
            final(self).counter() == raised(old(self).counter(), id),
            prior == if old(self)@.contains_key(id) {
                Some(old(self)@[id])
            } else {
                None
            },
    {
        let res = self.inner.insert(id, item);
        self.id.update(id);
        res
    }

    /// Takes the entity at `id` out, if there is one. The counter stays.
    pub fn remove(&mut self, id: usize) -> (prior: Option<T>)
        ensures
            final(self)@ == old(self)@.remove(id),
            final(self).counter() == old(self).counter(),
            prior == if old(self)@.contains_key(id) {
                Some(old(self)@[id])
            } else {
                None
            },
    {
        self.inner.remove(&id)
    }

    /// The number of entities.
    pub fn len(&self) -> (n: usize)
        ensures
            n == self@.dom().len(),
    {
        self.inner.len()
    }
}

} // verus!
