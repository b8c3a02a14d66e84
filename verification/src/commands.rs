//! What the front end is answered with: storage backends and buffers in
//! descending order of id, and one backend's metadata.

use vstd::multiset::Multiset;
use vstd::prelude::*;
use vstd::seq_lib::{to_multiset_build, to_multiset_insert};
use vstd::string::StringExecFns;

use crate::errors::Error;
use crate::state::app::{lists_buffers, App, BufferState};
use crate::state::mutex_map::is_snapshot;
use crate::state::store::{Metadata, ObjectStore};
use crate::text::{decimal, decimal_string};

verus! {

/// Something that is listed by an id.
pub trait Ranked {
    /// The id by which the item is listed.
    spec fn rank(&self) -> usize;

    /// The id by which the item is listed.
    fn get_rank(&self) -> (rank: usize)
        ensures
            rank == self.rank(),
    ;
}

impl Ranked for Metadata {
    open spec fn rank(&self) -> usize {
        self.id
    }

    fn get_rank(&self) -> (rank: usize) {
        self.id
    }
}

impl Ranked for BufferState {
    open spec fn rank(&self) -> usize {
        self.id
    }

    fn get_rank(&self) -> (rank: usize) {
        self.id
    }
}

/// Whether the items stand in descending order of id.
pub open spec fn descending<T: Ranked>(items: Seq<T>) -> bool {
    forall|i: int, j: int|
        0 <= i < j < items.len() ==> (#[trigger] items[i]).rank() >= (#[trigger] items[j]).rank()
}

/// The items in descending order of id.
pub fn sort_descending<T: Ranked>(items: Vec<T>) -> (sorted: Vec<T>)
    ensures
        sorted@.to_multiset() == items@.to_multiset(),
        descending(sorted@),
{
    let mut rest = items;
    let mut sorted: Vec<T> = Vec::new();
    assert(sorted@.to_multiset().add(rest@.to_multiset()) =~= items@.to_multiset()) by {
        assert(sorted@.to_multiset() =~= Multiset::empty()) by {
            sorted@.to_multiset_ensures();
        }
    }
    while rest.len() > 0
        invariant
            sorted@.to_multiset().add(rest@.to_multiset()) == items@.to_multiset(),
            descending(sorted@),
        decreases rest.len(),
    {
        let ghost rest_before = rest@;
        let ghost sorted_before = sorted@;
        let item = rest.pop().unwrap();
        let rank = item.get_rank();
        let mut at: usize = 0;
        while at < sorted.len() && sorted[at].get_rank() >= rank
            invariant
                at <= sorted.len(),
                forall|t: int| 0 <= t < at ==> (#[trigger] sorted[t]).rank() >= rank,
            decreases sorted.len() - at,
        {
            at = at + 1;
        }
        sorted.insert(at, item);
        proof {
            assert(rest_before =~= rest@.push(item));
            to_multiset_build(rest@, item);
            to_multiset_insert(sorted_before, at as int, item);
        }
    }
    assert(sorted@.to_multiset() =~= items@.to_multiset()) by {
        rest@.to_multiset_ensures();
    }
    sorted
}

/// The metadata of each backend, in order.
pub open spec fn metadata_of(stores: Seq<ObjectStore>) -> Seq<Metadata> {
    stores.map_values(|store: ObjectStore| store.metadata)
}

/// How an optional id is written: `None`, or `Some` and the id in brackets.
pub open spec fn optional_id_text(id: Option<usize>) -> Seq<char> {
    match id {
        Some(id) => "Some("@ + decimal(id as nat) + ")"@,
        None => "None"@,
    }
}

/// The text that names a storage backend that was asked for and does not
/// exist.
pub open spec fn no_storage_text(id: Option<usize>) -> Seq<char> {
    "no storage with id "@ + optional_id_text(id)
}

impl App {
    /// The metadata of all storage backends, in descending order of id.
    pub fn storages(&self) -> (listed: Vec<Metadata>)
        ensures
            descending(listed@),
            exists|stores: Seq<ObjectStore>|
                is_snapshot(stores, self@.stores) && #[trigger] metadata_of(stores).to_multiset()
                    == listed@.to_multiset(),
    {
        let stores = self.list_stores();
        let mut metadata: Vec<Metadata> = Vec::new();
        let mut i: usize = 0;
        while i < stores.len()
            invariant
                i <= stores.len(),
                metadata@ == metadata_of(stores@).take(i as int),
            decreases stores.len() - i,
        {
            metadata.push(stores[i].metadata.clone());
            i = i + 1;
        }
        assert(metadata_of(stores@).take(i as int) =~= metadata_of(stores@));
        sort_descending(metadata)
    }

    /// All buffers, in descending order of id.
    pub fn get_buffers(&self) -> (listed: Vec<BufferState>)
        ensures
            descending(listed@),
            exists|buffers: Seq<BufferState>|
                lists_buffers(buffers, self@.buffers) && #[trigger] buffers.to_multiset()
                    == listed@.to_multiset(),
    {
        let buffers = self.list_buffers();
        sort_descending(buffers)
    }

    /// The metadata of one storage backend: the one stored under `id`, or,
    /// without an id, any one. With a prefix, the metadata is rooted there
    /// instead.
    pub fn storage(&self, id: Option<usize>, prefix: Option<String>) -> (found: Result<
        Metadata,
        Error,
    >)
        ensures
            id is Some ==> (found is Ok <==> self@.stores.contains_key(id->0)),
            id is None ==> (found is Ok <==> self@.stores.dom().len() > 0),
            found is Err ==> found->Err_0 is NotFound && found->Err_0->NotFound_0@
                == no_storage_text(id),
            found is Ok ==> exists|key: usize|
                #![trigger self@.stores[key]]
                {
                    &&& self@.stores.contains_key(key)
                    &&& id is Some ==> key == id->0
                    &&& found->Ok_0 == match prefix {
                        Some(prefix) => Metadata { prefix, ..self@.stores[key].metadata },
                        None => self@.stores[key].metadata,
                    }
                },
    {
        let storage = match id {
            Some(id) => self.get_store(&id),
            None => {
                let mut stores = self.list_stores();
                if stores.len() > 0 {
                    Some(stores.swap_remove(0))
                } else {
                    None
                }
            },
        };
        let metadata = match storage {
            Some(storage) => storage.metadata,
            None => {
                let mut text = String::from_str("no storage with id ");
                match id {
                    Some(id) => {
                        text.append("Some(");
                        text.append(decimal_string(id).as_str());
                        text.append(")");
                    },
                    None => {
                        text.append("None");
                    },
                }
                return Err(Error::NotFound(text));
            },
        };
        match prefix {
            Some(path) => Ok(metadata.with_prefix(path)),
            None => Ok(metadata),
        }
    }
}

} // verus!
