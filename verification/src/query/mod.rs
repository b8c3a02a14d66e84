//! Buffers: named selections of storage prefixes that are queried as one table.

pub mod path;
pub mod path_utils;
pub mod tables;

use vstd::prelude::*;
use vstd::string::StringExecFns;

use crate::query::path::StoragePath;
use crate::query::path_utils::{
    antichain, dedup_paths, lemma_ref_views_push, lemma_views_push, minimal, ref_views, views,
};
use crate::state::store::ObjectStore;

verus! {

/// What a `FileSystemBuffer` stands for: a backend and the set of prefixes
/// selected from it.
pub struct FileSystemView {
    pub store: ObjectStore,
    pub prefixes: Set<Seq<char>>,
}

/// One storage backend and the prefixes selected from it, of which none
/// covers another.
#[derive(Debug)]
pub struct FileSystemBuffer {
    store: ObjectStore,
    prefixes: Vec<StoragePath>,
}

impl View for FileSystemBuffer {
    type V = FileSystemView;

    closed spec fn view(&self) -> FileSystemView {
        FileSystemView { store: self.store, prefixes: views(self.prefixes@).to_set() }
    }
}

impl Clone for FileSystemBuffer {
    fn clone(&self) -> (copy: Self)
        ensures
            copy@ == self@,
            copy.prefix_list() == self.prefix_list(),
    {
        proof {
            use_type_invariant(self);
        }
        let mut prefixes: Vec<StoragePath> = Vec::new();
        let mut i: usize = 0;
        while i < self.prefixes.len()
            invariant
                i <= self.prefixes.len(),
                views(prefixes@) == views(self.prefixes@).take(i as int),
            decreases self.prefixes.len() - i,
        {
            let ghost before = prefixes@;
            let copy = self.prefixes[i].clone();
            proof {
                lemma_views_push(before, copy);
            }
            prefixes.push(copy);
            i = i + 1;
        }
        assert(views(self.prefixes@).take(i as int) =~= views(self.prefixes@));
        FileSystemBuffer { store: self.store.clone(), prefixes }
    }
}

impl FileSystemBuffer {
    #[verifier::type_invariant]
    spec fn well_formed(self) -> bool {
        antichain(views(self.prefixes@))
    }

    /// The prefixes in the order in which they are held. The order carries
    /// no meaning beyond being the order in which they are handed out.
    pub closed spec fn prefix_list(&self) -> Seq<Seq<char>> {
        views(self.prefixes@)
    }

    /// What a selection stands for holds its prefixes as a set.
    pub proof fn lemma_view_holds_prefix_list(&self)
        ensures
            self@.prefixes == self.prefix_list().to_set(),
    {
    }

    /// The deduplicated selection of `prefixes` from `store`.
    pub fn new(store: ObjectStore, prefixes: &Vec<StoragePath>) -> (buffer: Self)
        ensures
            buffer@.store == store,
            buffer@.prefixes == minimal(views(prefixes@).to_set()),
            minimal(buffer@.prefixes) == buffer@.prefixes,
            buffer.prefix_list().to_set() == buffer@.prefixes,
            buffer.prefix_list().no_duplicates(),
    {
        let paths = dedup_paths(prefixes);
        FileSystemBuffer { store, prefixes: paths }
    }

    /// Takes the prefixes of `other`, a selection from the same backend, into
    /// this one and deduplicates the union.
    pub fn merge(&mut self, other: FileSystemBuffer)
        requires
            other@.store.metadata.id == old(self)@.store.metadata.id,
        ensures
            final(self)@.store == old(self)@.store,
            final(self)@.prefixes == minimal(old(self)@.prefixes.union(other@.prefixes)),
            minimal(final(self)@.prefixes) == final(self)@.prefixes,
            final(self).prefix_list().to_set() == final(self)@.prefixes,
            final(self).prefix_list().no_duplicates(),
    {
        let mut paths: Vec<StoragePath> = Vec::new();
        let mut i: usize = 0;
        while i < self.prefixes.len()
            invariant
                i <= self.prefixes.len(),
                views(paths@) == views(self.prefixes@).take(i as int),
            decreases self.prefixes.len() - i,
        {
            let copy = self.prefixes[i].clone();
            proof {
                lemma_views_push(paths@, copy);
            }
            paths.push(copy);
            i = i + 1;
        }
        let mut j: usize = 0;
        while j < other.prefixes.len()
            invariant
                j <= other.prefixes.len(),
                views(paths@) == views(self.prefixes@) + views(other.prefixes@).take(j as int),
            decreases other.prefixes.len() - j,
        {
            let copy = other.prefixes[j].clone();
            proof {
                lemma_views_push(paths@, copy);
            }
            paths.push(copy);
            j = j + 1;
        }
        proof {
            assert(views(other.prefixes@).take(j as int) =~= views(other.prefixes@));
            vstd::seq_lib::seq_to_set_distributes_over_add(
                views(self.prefixes@),
                views(other.prefixes@),
            );
        }
        let prefixes = dedup_paths(&paths);
        self.prefixes = prefixes;
    }

    /// The first prefix in the order in which they are held, if there is one.
    pub fn first_prefix(&self) -> (first: Option<&StoragePath>)
        ensures
            first is Some <==> self.prefix_list().len() > 0,
            first is Some ==> first->0@ == self.prefix_list()[0],
    {
        if self.prefixes.len() > 0 {
            Some(&self.prefixes[0])
        } else {
            None
        }
    }

    /// The backend that the prefixes are selected from.
    pub fn store(&self) -> (store: &ObjectStore)
        ensures
            *store == self@.store,
    {
        &self.store
    }

    /// The prefixes, none of which covers another.
    pub fn prefixes(&self) -> (list: Vec<&StoragePath>)
        ensures
            ref_views(list@) == self.prefix_list(),
            self.prefix_list().to_set() == self@.prefixes,
            self.prefix_list().no_duplicates(),
            minimal(self@.prefixes) == self@.prefixes,
    {
        proof {
            use_type_invariant(self);
        }
        let mut list: Vec<&StoragePath> = Vec::new();
        let mut i: usize = 0;
        while i < self.prefixes.len()
            invariant
                i <= self.prefixes.len(),
                ref_views(list@) == views(self.prefixes@).take(i as int),
            decreases self.prefixes.len() - i,
        {
            proof {
                lemma_ref_views_push(list@, &self.prefixes[i as int]);
            }
            list.push(&self.prefixes[i]);
            i = i + 1;
        }
        list
    }
}

/// Merging is commutative: the prefixes that result do not depend on which
/// of the two selections takes the other in.
pub proof fn lemma_merge_commutative(a: Set<Seq<char>>, b: Set<Seq<char>>)
    ensures
        minimal(a.union(b)) == minimal(b.union(a)),
{
}

/// Merging is idempotent: a deduplicated selection that takes itself in is
/// unchanged.
pub proof fn lemma_merge_idempotent(a: Set<Seq<char>>)
    requires
        minimal(a) == a,
    ensures
        minimal(a.union(a)) == a,
{
}

/// Deduplicating again changes nothing.
pub proof fn lemma_minimal_idempotent(a: Set<Seq<char>>)
    ensures
        minimal(minimal(a)) == minimal(a),
{
}

/// What a `Buffer` stands for: its id, its name, and one selection per
/// backend, in the order in which the backends were first inserted.
pub struct BufferView {
    pub id: usize,
    pub name: Seq<char>,
    pub file_systems: Seq<FileSystemView>,
}

/// Whether a selection from the backend with this id is among `parts`.
pub open spec fn has_backend(parts: Seq<FileSystemView>, backend: usize) -> bool {
    exists|i: int| 0 <= i < parts.len() && (#[trigger] parts[i]).store.metadata.id == backend
}

/// Whether `at` is where the first selection from the backend with this id
/// stands in `parts`.
pub open spec fn is_position(parts: Seq<FileSystemView>, backend: usize, at: int) -> bool {
    &&& 0 <= at < parts.len()
    &&& parts[at].store.metadata.id == backend
    &&& forall|t: int| 0 <= t < at ==> (#[trigger] parts[t]).store.metadata.id != backend
}

/// Where the first selection from the backend with this id stands in `parts`.
pub open spec fn position(parts: Seq<FileSystemView>, backend: usize) -> int {
    choose|at: int| is_position(parts, backend, at)
}

/// `parts` after `item` was inserted: merged into the selection from the same
/// backend if there is one, else added at the end.
pub open spec fn inserted(parts: Seq<FileSystemView>, item: FileSystemView) -> Seq<
    FileSystemView,
> {
    if has_backend(parts, item.store.metadata.id) {
        let at = position(parts, item.store.metadata.id);
        parts.update(
            at,
            FileSystemView {
                store: parts[at].store,
                prefixes: minimal(parts[at].prefixes.union(item.prefixes)),
            },
        )
    } else {
        parts.push(item)
    }
}

/// No two selections are from the same backend.
pub open spec fn distinct_backends(parts: Seq<FileSystemView>) -> bool {
    forall|i: int, j: int|
        0 <= i < parts.len() && 0 <= j < parts.len() && (#[trigger] parts[i]).store.metadata.id == (
        #[trigger] parts[j]).store.metadata.id ==> i == j
}

/// What each selection stands for, in order.
pub open spec fn part_views(parts: Seq<FileSystemBuffer>) -> Seq<FileSystemView> {
    parts.map_values(|part: FileSystemBuffer| part@)
}

/// A named selection of prefixes, possibly across several backends, that is
/// queried as one table.
#[derive(Debug)]
pub struct Buffer {
    id: usize,
    name: String,
    file_systems: Vec<FileSystemBuffer>,
}

impl View for Buffer {
    type V = BufferView;

    closed spec fn view(&self) -> BufferView {
        BufferView { id: self.id, name: self.name@, file_systems: part_views(self.file_systems@) }
    }
}

impl Buffer {
    /// The selections that the buffer holds, one per backend.
    pub closed spec fn parts(&self) -> Seq<FileSystemBuffer> {
        self.file_systems@
    }

    /// A buffer without any selection.
    pub fn new(id: &usize, name: &str) -> (buffer: Self)
        ensures
            buffer@ == (BufferView { id: *id, name: name@, file_systems: Seq::empty() }),
            buffer.parts() == Seq::<FileSystemBuffer>::empty(),
    {
        let buffer = Buffer { id: *id, name: String::from_str(name), file_systems: Vec::new() };
        assert(part_views(buffer.file_systems@) =~= Seq::empty());
        buffer
    }

    /// The buffer's id.
    pub fn get_id(&self) -> (id: usize)
        ensures
            id == self@.id,
    {
        self.id
    }

    /// The buffer's name, which is also the name of the view that unions its
    /// tables.
    pub fn get_name(&self) -> (name: &str)
        ensures
            name@ == self@.name,
    {
        self.name.as_str()
    }

    /// The selections, one per backend, in the order of first insertion.
    pub fn file_systems(&self) -> (parts: &Vec<FileSystemBuffer>)
        ensures
            parts@ == self.parts(),
            part_views(parts@) == self@.file_systems,
    {
        &self.file_systems
    }

    /// Inserts a selection: if the buffer already holds one from the same
    /// backend the two are merged, else the selection is added.
    pub fn insert(&mut self, item: FileSystemBuffer)
        ensures
            final(self)@ == (BufferView {
                file_systems: inserted(old(self)@.file_systems, item@),
                ..old(self)@
            }),
            part_views(final(self).parts()) == final(self)@.file_systems,
    {
        let id = item.store().metadata.id;
        let ghost before = part_views(self.file_systems@);
        let mut i: usize = 0;
        while i < self.file_systems.len() && self.file_systems[i].store().metadata.id != id
            invariant
                i <= self.file_systems.len(),
                before == part_views(self.file_systems@),
                forall|t: int| 0 <= t < i ==> (#[trigger] before[t]).store.metadata.id != id,
            decreases self.file_systems.len() - i,
        {
            i = i + 1;
        }
        if i < self.file_systems.len() {
            proof {
                assert(is_position(before, id, i as int));
                assert(position(before, id) == i);
            }
            let mut existing = self.file_systems.remove(i);
            existing.merge(item);
            let ghost merged = existing@;
            self.file_systems.insert(i, existing);
            assert(part_views(self.file_systems@) =~= before.update(i as int, merged));
        } else {
            let ghost added = item@;
            self.file_systems.push(item);
            assert(part_views(self.file_systems@) =~= before.push(added));
        }
    }
}

/// Inserting keeps the selections' backends distinct.
pub proof fn lemma_inserted_keeps_backends_distinct(parts: Seq<FileSystemView>, item: FileSystemView)
    requires
        distinct_backends(parts),
    ensures
        distinct_backends(inserted(parts, item)),
{
    let id = item.store.metadata.id;
    if has_backend(parts, id) {
        let found = choose|i: int|
            0 <= i < parts.len() && (#[trigger] parts[i]).store.metadata.id == id;
        assert(is_position(parts, id, found));
        assert(is_position(parts, id, position(parts, id)));
    }
}

/// A statement to run against a buffer.
#[derive(Debug)]
pub struct Query {
    pub statement: String,
    pub buffer: usize,
}

impl Clone for Query {
    fn clone(&self) -> (copy: Self)
        ensures
            copy == *self,
    {
        Query { statement: self.statement.clone(), buffer: self.buffer }
    }
}

} // verus!
