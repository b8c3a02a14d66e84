//! The event-sourced application state: the stores, how an event is applied
//! to them, and how a stored buffer is resolved.

use std::path::PathBuf;
use url::Url;
use vstd::prelude::*;
use vstd::string::StringExecFns;

use crate::errors::Error;
use crate::messages::buffer::FileSystemBufferMetadata;
use crate::messages::Messages;
use crate::query::path::{normalized, parses, StoragePath};
use crate::query::path_utils::{lemma_views_push, views};
use crate::query::{Buffer, FileSystemBuffer, FileSystemView};
use crate::state::events::{buffer, store, Events, EventsView};
use crate::state::model::{
    all_parse, any_missing, applied, empty_state, fails, gathered, has_room, ids_after,
    is_default_store, is_first_missing, lemma_gathered_fails_on, lemma_total_paths_take,
    lemma_with_file_systems_frame, lemma_with_prefixes_frame, materialized, parsed, selected,
    first_missing, stored_paths, total_paths, with_file_system, with_file_systems, with_ids_taken, with_prefixes,
    with_store, BufferStateView, FileSystemBufferStateView, PrefixStateView, SelectionView,
    StateView,
};
use crate::state::mutex_map::{is_snapshot, Id, MutexMap};
use crate::state::store::{
    Connection, LocalConnection, Metadata, ObjectStore, ObjectStoreKind,
};
use crate::text::{decimal, decimal_string};

verus! {

/// `std::path::PathBuf`, which the library carries through without looking
/// inside.
#[verifier::external_type_specification]
#[verifier::external_body]
pub struct ExPathBuf(PathBuf);

/// One prefix that a buffer selects from a backend.
#[derive(Debug)]
pub struct PrefixState {
    pub id: usize,
    pub file_system_buffer: usize,
    pub path: StoragePath,
}

impl View for PrefixState {
    type V = PrefixStateView;

    open spec fn view(&self) -> PrefixStateView {
        PrefixStateView {
            id: self.id,
            file_system_buffer: self.file_system_buffer,
            path: self.path@,
        }
    }
}

impl Clone for PrefixState {
    fn clone(&self) -> (copy: Self)
        ensures
            copy@ == self@,
    {
        PrefixState {
            id: self.id,
            file_system_buffer: self.file_system_buffer,
            path: self.path.clone(),
        }
    }
}

/// What a buffer selects from one backend: the ids of its prefixes.
#[derive(Debug)]
pub struct FileSystemBufferState {
    pub id: usize,
    pub buffer: usize,
    pub store: usize,
    pub prefixes: Vec<usize>,
}

impl View for FileSystemBufferState {
    type V = FileSystemBufferStateView;

    open spec fn view(&self) -> FileSystemBufferStateView {
        FileSystemBufferStateView {
            id: self.id,
            buffer: self.buffer,
            store: self.store,
            prefixes: self.prefixes@,
        }
    }
}

impl Clone for FileSystemBufferState {
    fn clone(&self) -> (copy: Self)
        ensures
            copy@ == self@,
    {
        FileSystemBufferState {
            id: self.id,
            buffer: self.buffer,
            store: self.store,
            prefixes: self.prefixes.clone(),
        }
    }
}

/// A buffer as the log records it: its name and the ids of its selections.
#[derive(Debug)]
pub struct BufferState {
    pub id: usize,
    pub name: String,
    pub common_schema: bool,
    pub file_systems: Vec<usize>,
}

impl View for BufferState {
    type V = BufferStateView;

    open spec fn view(&self) -> BufferStateView {
        BufferStateView {
            id: self.id,
            name: self.name@,
            common_schema: self.common_schema,
            file_systems: self.file_systems@,
        }
    }
}

impl Clone for BufferState {
    fn clone(&self) -> (copy: Self)
        ensures
            copy@ == self@,
    {
        BufferState {
            id: self.id,
            name: self.name.clone(),
            common_schema: self.common_schema,
            file_systems: self.file_systems.clone(),
        }
    }
}

/// The prefixes that a buffer selects from one backend, read as paths.
#[derive(Debug)]
pub struct Selection {
    pub store: usize,
    pub paths: Vec<StoragePath>,
}

impl View for Selection {
    type V = SelectionView;

    open spec fn view(&self) -> SelectionView {
        SelectionView { store: self.store, paths: views(self.paths@) }
    }
}

/// What each selection stands for, in order.
pub open spec fn selection_views(parts: Seq<Selection>) -> Seq<SelectionView> {
    parts.map_values(|part: Selection| part@)
}

/// The application state: the last applied event id and one store per kind
/// of entity.
#[derive(Debug)]
pub struct State {
    event_id: Id,
    stores: MutexMap<ObjectStore>,
    buffers: MutexMap<BufferState>,
    file_system_buffers: MutexMap<FileSystemBufferState>,
    prefixes: MutexMap<PrefixState>,
}

impl Clone for State {
    fn clone(&self) -> (copy: Self)
        ensures
            copy@ == self@,
    {
        Self {
            event_id: self.event_id.clone(),
            stores: self.stores.clone(),
            buffers: self.buffers.clone(),
            file_system_buffers: self.file_system_buffers.clone(),
            prefixes: self.prefixes.clone(),
        }
    }
}

impl View for State {
    type V = StateView;

    closed spec fn view(&self) -> StateView {
        StateView {
            event_id: self.event_id@,
            stores: self.stores@,
            store_ids: self.stores.counter(),
            buffers: self.buffers@.map_values(|item: BufferState| item@),
            buffer_ids: self.buffers.counter(),
            file_system_buffers: self.file_system_buffers@.map_values(
                |item: FileSystemBufferState| item@,
            ),
            file_system_buffer_ids: self.file_system_buffers.counter(),
            prefixes: self.prefixes@.map_values(|item: PrefixState| item@),
            prefix_ids: self.prefixes.counter(),
        }
    }
}

/// Reads the prefixes of each selection as paths. The first prefix that is
/// not a path fails the whole.
pub fn parse_selections(parts: &Vec<FileSystemBufferMetadata>) -> (read: Result<
    Vec<Selection>,
    Error,
>)
    ensures
        read is Ok <==> all_parse(parts@.map_values(|part: FileSystemBufferMetadata| part@)),
        read is Ok ==> selection_views(read->Ok_0@) == parsed(
            parts@.map_values(|part: FileSystemBufferMetadata| part@),
        ),
        read is Err ==> read->Err_0 is Path,
{
    let ghost metas = parts@.map_values(|part: FileSystemBufferMetadata| part@);
    let mut selections: Vec<Selection> = Vec::new();
    let mut k: usize = 0;
    while k < parts.len()
        invariant
            k <= parts.len(),
            metas == parts@.map_values(|part: FileSystemBufferMetadata| part@),
            selection_views(selections@) == parsed(metas).take(k as int),
            forall|a: int, b: int|
                0 <= a < k && 0 <= b < metas[a].prefixes.len() ==> parses(
                    #[trigger] metas[a].prefixes[b],
                ),
        decreases parts.len() - k,
    {
        let part = &parts[k];
        let ghost texts = metas[k as int].prefixes;
        let mut paths: Vec<StoragePath> = Vec::new();
        let mut j: usize = 0;
        while j < part.prefixes.len()
            invariant
                j <= part.prefixes.len(),
                k < parts.len(),
                metas == parts@.map_values(|part: FileSystemBufferMetadata| part@),
                texts == part.prefixes@.map_values(|text: String| text@),
                texts == metas[k as int].prefixes,
                views(paths@) == texts.map_values(|text: Seq<char>| normalized(text)).take(j as int),
                forall|b: int| 0 <= b < j ==> parses(#[trigger] texts[b]),
            decreases part.prefixes.len() - j,
        {
            assert(texts[j as int] == part.prefixes[j as int]@);
            match StoragePath::parse(part.prefixes[j].as_str()) {
                Ok(path) => {
                    proof {
                        lemma_views_push(paths@, path);
                    }
                    paths.push(path);
                },
                Err(e) => {
                    return Err(e);
                },
            }
            j = j + 1;
        }
        proof {
            let normal = texts.map_values(|text: Seq<char>| normalized(text));
            assert(normal.take(j as int) =~= normal);
        }
        let ghost before = selections@;
        let selection = Selection { store: part.store, paths };
        selections.push(selection);
        proof {
            assert(selection_views(selections@) =~= selection_views(before).push(selection@));
        }
        k = k + 1;
    }
    Ok(selections)
}

impl State {
    /// The state before any event.
    pub fn new() -> (state: Self)
        ensures
            state@ == empty_state(),
    {
        let state = Self {
            event_id: Id::new(),
            stores: MutexMap::new(),
            buffers: MutexMap::new(),
            file_system_buffers: MutexMap::new(),
            prefixes: MutexMap::new(),
        };
        proof {
            assert(state@.buffers =~= Map::empty());
            assert(state@.file_system_buffers =~= Map::empty());
            assert(state@.prefixes =~= Map::empty());
        }
        state
    }

    /// Stores `paths` as prefixes of the selection `owner` and returns their
    /// ids.
    fn add_prefixes(&mut self, owner: usize, paths: &Vec<StoragePath>) -> (ids: Vec<usize>)
        requires
            old(self)@.prefix_ids + paths.len() <= usize::MAX,
        ensures
            final(self)@ == with_prefixes(old(self)@, owner, views(paths@)),
            ids@ == ids_after(old(self)@.prefix_ids, paths.len() as nat),
    {
        let ghost start = self@;
        let mut ids: Vec<usize> = Vec::new();
        let mut j: usize = 0;
        while j < paths.len()
            invariant
                j <= paths.len(),
                start.prefix_ids + paths.len() <= usize::MAX,
                self@ == with_prefixes(start, owner, views(paths@).take(j as int)),
                ids@ == ids_after(start.prefix_ids, j as nat),
            decreases paths.len() - j,
        {
            proof {
                lemma_with_prefixes_frame(start, owner, views(paths@).take(j as int));
            }
            let ghost before = self@;
            let id = self.prefixes.get_id();
            let item = PrefixState { id, file_system_buffer: owner, path: paths[j].clone() };
            let ghost stored = item@;
            ids.push(id);
            self.prefixes.insert(id, item);
            proof {
                let grown = views(paths@).take(j + 1);
                assert(grown.drop_last() =~= views(paths@).take(j as int));
                assert(self@.prefixes =~= before.prefixes.insert(id, stored));
            }
            j = j + 1;
        }
        proof {
            assert(views(paths@).take(j as int) =~= views(paths@));
        }
        ids
    }

    /// Stores one selection of the buffer `owner` and returns its id.
    fn add_file_system(&mut self, owner: usize, part: &Selection) -> (id: usize)
        requires
            old(self)@.file_system_buffer_ids < usize::MAX,
            old(self)@.prefix_ids + part.paths.len() <= usize::MAX,
        ensures
            final(self)@ == with_file_system(old(self)@, owner, part@),
            id == old(self)@.file_system_buffer_ids + 1,
    {
        let id = self.file_system_buffers.get_id();
        let ghost allocated = self@;
        let prefixes = self.add_prefixes(id, &part.paths);
        proof {
            lemma_with_prefixes_frame(allocated, id, part@.paths);
        }
        let ghost before = self@;
        let item = FileSystemBufferState { id, buffer: owner, store: part.store, prefixes };
        let ghost stored = item@;
        self.file_system_buffers.insert(id, item);
        proof {
            assert(self@.file_system_buffers =~= before.file_system_buffers.insert(id, stored));
        }
        id
    }
}

/// Whether `items` is a snapshot of the buffers `entries`: each buffer once,
/// in some order.
pub open spec fn lists_buffers(items: Seq<BufferState>, entries: Map<usize, BufferStateView>) -> bool {
    exists|keys: Seq<usize>|
        #![trigger keys.no_duplicates()]
        {
            &&& keys.len() == items.len()
            &&& keys.no_duplicates()
            &&& keys.to_set() == entries.dom()
            &&& forall|i: int| 0 <= i < keys.len() ==> entries[keys[i]] == (#[trigger] items[i])@
        }
}

/// Where the application keeps its event log.
#[derive(Debug)]
pub struct Config {
    pub events_file: PathBuf,
}

/// The application: its configuration and its state.
#[derive(Debug)]
pub struct App {
    config: Config,
    state: State,
}

impl View for App {
    type V = StateView;

    closed spec fn view(&self) -> StateView {
        self.state@
    }
}

impl App {
    /// The configuration that the application was made with.
    pub closed spec fn configuration(&self) -> Config {
        self.config
    }

    /// An application whose state is empty.
    pub fn new(config: Config) -> (app: Self)
        ensures
            app@ == empty_state(),
            app.configuration() == config,
    {
        Self { config, state: State::new() }
    }

    /// The application's configuration.
    pub fn config(&self) -> (config: &Config)
        ensures
            *config == self.configuration(),
    {
        &self.config
    }

    /// A snapshot of all buffers, in no particular order.
    pub fn list_buffers(&self) -> (buffers: Vec<BufferState>)
        ensures
            lists_buffers(buffers@, self@.buffers),
            buffers.len() == self@.buffers.dom().len(),
    {
        let buffers = self.state.buffers.list();
        proof {
            let entries = self.state.buffers@;
            let keys = choose|keys: Seq<usize>|
                #![trigger keys.no_duplicates()]
                {
                    &&& keys.len() == buffers@.len()
                    &&& keys.no_duplicates()
                    &&& keys.to_set() == entries.dom()
                    &&& forall|i: int|
                        0 <= i < keys.len() ==> cloned(entries[keys[i]], #[trigger] buffers@[i])
                };
            keys.unique_seq_to_set();
            assert(self@.buffers.dom() =~= entries.dom());
        }
        buffers
    }

    /// The last applied event id.
    pub fn last_event_id(&self) -> (id: usize)
        ensures
            id == self@.event_id,
    {
        self.state.event_id.current()
    }

    /// The highest storage backend id that was handed out or inserted.
    pub fn last_store_id(&self) -> (id: usize)
        ensures
            id == self@.store_ids,
    {
        self.state.stores.last_id()
    }

    /// The id for the next event.
    pub fn next_event_id(&mut self) -> (id: usize)
        requires
            old(self)@.event_id < usize::MAX,
        ensures
            id == old(self)@.event_id + 1,
            final(self)@ == (StateView { event_id: id as nat, ..old(self)@ }),
    {
        self.state.event_id.get_next()
    }

    /// The id for the next storage backend.
    pub fn next_store_id(&mut self) -> (id: usize)
        requires
            old(self)@.store_ids < usize::MAX,
        ensures
            id == old(self)@.store_ids + 1,
            final(self)@ == (StateView { store_ids: id as nat, ..old(self)@ }),
    {
        self.state.stores.get_id()
    }

    /// The id for the next buffer.
    pub fn next_buffer_id(&mut self) -> (id: usize)
        requires
            old(self)@.buffer_ids < usize::MAX,
        ensures
            id == old(self)@.buffer_ids + 1,
            final(self)@ == (StateView { buffer_ids: id as nat, ..old(self)@ }),
    {
        self.state.buffers.get_id()
    }

    /// The id for the next selection of a buffer.
    pub fn next_file_system_buffer_id(&mut self) -> (id: usize)
        requires
            old(self)@.file_system_buffer_ids < usize::MAX,
        ensures
            id == old(self)@.file_system_buffer_ids + 1,
            final(self)@ == (StateView { file_system_buffer_ids: id as nat, ..old(self)@ }),
    {
        self.state.file_system_buffers.get_id()
    }

    /// The id for the next prefix.
    pub fn next_prefix_id(&mut self) -> (id: usize)
        requires
            old(self)@.prefix_ids < usize::MAX,
        ensures
            id == old(self)@.prefix_ids + 1,
            final(self)@ == (StateView { prefix_ids: id as nat, ..old(self)@ }),
    {
        self.state.prefixes.get_id()
    }

    /// The storage backend stored under `id`, if there is one.
    pub fn get_store(&self, id: &usize) -> (store: Option<ObjectStore>)
        ensures
            store == if self@.stores.contains_key(*id) {
                Some(self@.stores[*id])
            } else {
                None
            },
    {
        self.state.stores.get(id)
    }

    /// A snapshot of all storage backends, in no particular order.
    pub fn list_stores(&self) -> (stores: Vec<ObjectStore>)
        ensures
            is_snapshot(stores@, self@.stores),
            stores.len() == self@.stores.dom().len(),
    {
        let stores = self.state.stores.list();
        proof {
            let entries = self.state.stores@;
            let keys = choose|keys: Seq<usize>|
                #![trigger keys.no_duplicates()]
                {
                    &&& keys.len() == stores@.len()
                    &&& keys.no_duplicates()
                    &&& keys.to_set() == entries.dom()
                    &&& forall|i: int|
                        0 <= i < keys.len() ==> cloned(entries[keys[i]], #[trigger] stores@[i])
                };
            keys.unique_seq_to_set();
        }
        stores
    }

    /// The number of storage backends.
    pub fn count_stores(&self) -> (count: usize)
        ensures
            count == self@.stores.dom().len(),
    {
        self.state.stores.len()
    }

    /// Whether the id counters can hand out the ids that `event` needs.
    pub fn can_apply(&self, event: &Events) -> (fits: bool)
        ensures
            fits == has_room(self@, event@),
    {
        match event {
            Events::CreateObjectStore(_) => true,
            Events::CreateBuffer(create) => {
                let selections = match parse_selections(&create.metadata.file_systems) {
                    Ok(selections) => selections,
                    Err(_) => {
                        return true;
                    },
                };
                let ghost parts = selection_views(selections@);
                if self.state.buffers.last_id() == usize::MAX {
                    return false;
                }
                if selections.len() > usize::MAX - self.state.file_system_buffers.last_id() {
                    return false;
                }
                let mut left: usize = usize::MAX - self.state.prefixes.last_id();
                let mut k: usize = 0;
                while k < selections.len()
                    invariant
                        k <= selections.len(),
                        parts == selection_views(selections@),
                        has_room(self@, event@) == (self@.prefix_ids + total_paths(parts)
                            <= usize::MAX),
                        left == usize::MAX - self@.prefix_ids - total_paths(parts.take(k as int)),
                    decreases selections.len() - k,
                {
                    proof {
                        lemma_total_paths_take(parts, k as int);
                        assert(parts.take(k + 1).drop_last() =~= parts.take(k as int));
                    }
                    if selections[k].paths.len() > left {
                        return false;
                    }
                    left = left - selections[k].paths.len();
                    k = k + 1;
                }
                proof {
                    assert(parts.take(k as int) =~= parts);
                }
                true
            },
        }
    }

    /// Applies `event` to the state. A storage backend is stored, registered,
    /// under the event's id; for a remote one the location is handed back, so
    /// that the caller attaches the backend's client to the query engine
    /// under it. A buffer takes the next buffer id, and its selections and
    /// prefixes the next ids of their kinds. A backend whose location is not
    /// a well-formed URL and a buffer with a prefix that is not a path are
    /// rejected, and the state stays as it was.
    pub fn update(&mut self, event: &Events) -> (outcome: Result<Option<Url>, Error>)
        requires
            has_room(old(self)@, event@),
        ensures
            outcome is Err <==> fails(event@),
            final(self)@ == applied(old(self)@, event@),
            outcome is Err && event@ is CreateObjectStore ==> outcome->Err_0 is UrlParseError,
            outcome is Err && event@ is CreateBuffer ==> outcome->Err_0 is Path,
            outcome is Ok ==> (outcome->Ok_0 is Some <==> event@ is CreateObjectStore
                && event@->CreateObjectStore_0.connection is Remote),
    {
        match event {
            Events::CreateObjectStore(create) => {
                let mut store = ObjectStore::new(create.metadata.clone(), create.connection.clone());
                let attach = match store.register() {
                    Ok(attach) => attach,
                    Err(e) => {
                        return Err(e);
                    },
                };
                self.state.event_id.update(create.id);
                self.state.stores.insert(create.id, store);
                Ok(attach)
            },
            Events::CreateBuffer(create) => {
                let selections = match parse_selections(&create.metadata.file_systems) {
                    Ok(selections) => selections,
                    Err(e) => {
                        return Err(e);
                    },
                };
                let ghost parts = selection_views(selections@);
                self.state.event_id.update(create.id);
                let id = self.state.buffers.get_id();
                let ghost allocated = self@;
                let mut file_systems: Vec<usize> = Vec::new();
                let mut k: usize = 0;
                while k < selections.len()
                    invariant
                        k <= selections.len(),
                        parts == selection_views(selections@),
                        allocated.file_system_buffer_ids + parts.len() <= usize::MAX,
                        allocated.prefix_ids + total_paths(parts) <= usize::MAX,
                        self@ == with_file_systems(allocated, id, parts.take(k as int)),
                        file_systems@ == ids_after(allocated.file_system_buffer_ids, k as nat),
                    decreases selections.len() - k,
                {
                    proof {
                        lemma_with_file_systems_frame(allocated, id, parts.take(k as int));
                        lemma_total_paths_take(parts, k as int);
                    }
                    let part_id = self.state.add_file_system(id, &selections[k]);
                    file_systems.push(part_id);
                    proof {
                        let grown = parts.take(k + 1);
                        assert(grown.drop_last() =~= parts.take(k as int));
                    }
                    k = k + 1;
                }
                proof {
                    assert(parts.take(k as int) =~= parts);
                    lemma_with_file_systems_frame(allocated, id, parts);
                }
                let ghost before = self@;
                let item = BufferState {
                    id,
                    name: create.metadata.name.clone(),
                    common_schema: create.metadata.common_schema,
                    file_systems,
                };
                let ghost stored = item@;
                self.state.buffers.insert(id, item);
                proof {
                    assert(self@.buffers =~= before.buffers.insert(id, stored));
                }
                Ok(None)
            },
        }
    }
}

/// `label` followed by `id` in decimal.
fn labelled(label: &str, id: usize) -> (text: String)
    ensures
        text@ == label@ + decimal(id as nat),
{
    let mut text = String::from_str(label);
    text.append(decimal_string(id).as_str());
    text
}

impl App {
    /// The backend and the deduplicated paths of a stored selection.
    fn select(&self, part: &FileSystemBufferState) -> (selection: Result<FileSystemBuffer, Error>)
        ensures
            selection is Ok <==> selected(self@, part@) is Ok,
            selection is Ok ==> selection->Ok_0@ == selected(self@, part@)->Ok_0,
            selection is Err ==> selection->Err_0 is NotFound && selection->Err_0->NotFound_0@
                == selected(self@, part@)->Err_0,
    {
        let store = match self.state.stores.get(&part.store) {
            Some(store) => store,
            None => {
                return Err(Error::NotFound(labelled("store with id ", part.store)));
            },
        };
        let ghost known = self@.prefixes.dom();
        let ghost ids = part.prefixes@;
        let mut paths: Vec<StoragePath> = Vec::new();
        let mut j: usize = 0;
        while j < part.prefixes.len()
            invariant
                j <= part.prefixes.len(),
                ids == part.prefixes@,
                known == self@.prefixes.dom(),
                known == self.state.prefixes@.dom(),
                self@.stores.contains_key(part.store),
                forall|t: int| 0 <= t < j ==> known.contains(#[trigger] ids[t]),
                views(paths@) == stored_paths(self@, ids).take(j as int),
            decreases part.prefixes.len() - j,
        {
            let prefix = match self.state.prefixes.get(&part.prefixes[j]) {
                Some(prefix) => prefix,
                None => {
                    proof {
                        assert(is_first_missing(ids, known, j as int));
                        assert(first_missing(ids, known) == ids[j as int]);
                    }
                    return Err(Error::NotFound(labelled("prefix with id ", part.prefixes[j])));
                },
            };
            proof {
                lemma_views_push(paths@, prefix.path);
            }
            paths.push(prefix.path);
            j = j + 1;
        }
        proof {
            assert(stored_paths(self@, ids).take(j as int) =~= stored_paths(self@, ids));
        }
        Ok(FileSystemBuffer::new(store, &paths))
    }

    /// Resolves the buffer stored under `buffer_id` into a buffer that can be
    /// registered: its selections are looked up one by one, each with its
    /// backend and its paths, and inserted, so that selections from one
    /// backend are merged. The first link that dangles fails the whole and
    /// is named in the error. The state is only read.
    pub fn get_buffer(&self, buffer_id: &usize) -> (buffer: Result<Buffer, Error>)
        ensures
            buffer is Ok <==> materialized(self@, *buffer_id) is Ok,
            buffer is Ok ==> buffer->Ok_0@ == materialized(self@, *buffer_id)->Ok_0,
            buffer is Err ==> buffer->Err_0 is NotFound && buffer->Err_0->NotFound_0@
                == materialized(self@, *buffer_id)->Err_0,
    {
        let record = match self.state.buffers.get(buffer_id) {
            Some(record) => record,
            None => {
                return Err(Error::NotFound(labelled("buffer with id ", *buffer_id)));
            },
        };
        let ghost ids = record.file_systems@;
        let ghost known = self@.file_system_buffers.dom();
        let mut parts: Vec<FileSystemBufferState> = Vec::new();
        let mut k: usize = 0;
        while k < record.file_systems.len()
            invariant
                k <= record.file_systems.len(),
                ids == record.file_systems@,
                known == self@.file_system_buffers.dom(),
                known == self.state.file_system_buffers@.dom(),
                record@ == self@.buffers[*buffer_id],
                self@.buffers.contains_key(*buffer_id),
                parts.len() == k,
                forall|t: int| 0 <= t < k ==> known.contains(#[trigger] ids[t]),
                forall|t: int| 0 <= t < k ==> (#[trigger] parts[t])@ == self@.file_system_buffers[ids[t]],
            decreases record.file_systems.len() - k,
        {
            let part = match self.state.file_system_buffers.get(&record.file_systems[k]) {
                Some(part) => part,
                None => {
                    proof {
                        assert(is_first_missing(ids, known, k as int));
                        assert(first_missing(ids, known) == ids[k as int]);
                    }
                    let mut text = labelled("file system buffer with id ", record.file_systems[k]);
                    text.append(" for buffer ");
                    text.append(decimal_string(*buffer_id).as_str());
                    return Err(Error::NotFound(text));
                },
            };
            parts.push(part);
            k = k + 1;
        }
        let mut buffer = Buffer::new(&record.id, record.name.as_str());
        let mut i: usize = 0;
        while i < parts.len()
            invariant
                i <= parts.len(),
                parts.len() == ids.len(),
                ids == record.file_systems@,
                known == self@.file_system_buffers.dom(),
                record@ == self@.buffers[*buffer_id],
                self@.buffers.contains_key(*buffer_id),
                !any_missing(ids, known),
                forall|t: int|
                    0 <= t < parts.len() ==> (#[trigger] parts[t])@ == self@.file_system_buffers[ids[t]],
                gathered(self@, ids.take(i as int)) == Ok::<Seq<FileSystemView>, Seq<char>>(
                    buffer@.file_systems,
                ),
                buffer@.id == record.id,
                buffer@.name == record.name@,
            decreases parts.len() - i,
        {
            proof {
                assert(ids.take(i + 1).drop_last() =~= ids.take(i as int));
            }
            let selection = match self.select(&parts[i]) {
                Ok(selection) => selection,
                Err(e) => {
                    proof {
                        lemma_gathered_fails_on(self@, ids, i + 1);
                    }
                    return Err(e);
                },
            };
            buffer.insert(selection);
            i = i + 1;
        }
        proof {
            assert(ids.take(i as int) =~= ids);
        }
        Ok(buffer)
    }
}

impl App {
    /// Makes sure that there is a storage backend, given how looking up the
    /// home directory went. If there is a backend already, nothing happens.
    /// Otherwise a local backend rooted at the home directory is created
    /// under the next ids, and its event is handed back to be appended to
    /// the log; without a home directory the call fails and nothing changes.
    pub fn bootstrap(&mut self, home: Result<String, Error>) -> (created: Result<
        Option<Events>,
        Error,
    >)
        requires
            old(self)@.stores.dom().len() == 0 && home is Ok ==> old(self)@.store_ids < usize::MAX
                && old(self)@.event_id < usize::MAX,
        ensures
            old(self)@.stores.dom().len() > 0 ==> created is Ok && created->Ok_0 is None
                && final(self)@ == old(self)@,
            old(self)@.stores.dom().len() == 0 && home is Err ==> created is Err
                && created->Err_0 == home->Err_0 && final(self)@ == old(self)@,
            old(self)@.stores.dom().len() == 0 && home is Ok ==> created is Ok
                && created->Ok_0 is Some && created->Ok_0->0 is CreateObjectStore
                && is_default_store(
                created->Ok_0->0->CreateObjectStore_0,
                (old(self)@.event_id + 1) as usize,
                (old(self)@.store_ids + 1) as usize,
                home->Ok_0@,
            ) && final(self)@ == with_store(
                with_ids_taken(old(self)@),
                created->Ok_0->0->CreateObjectStore_0,
            ),
    {
        if self.state.stores.len() > 0 {
            return Ok(None);
        }
        let home = match home {
            Ok(home) => home,
            Err(e) => {
                return Err(e);
            },
        };
        let id = self.next_store_id();
        let event_id = self.next_event_id();
        let event = Events::CreateObjectStore(
            store::Create {
                id: event_id,
                metadata: Metadata {
                    id,
                    name: String::from_str("Local"),
                    prefix: home,
                    kind: ObjectStoreKind::Local,
                },
                connection: Connection::Local(LocalConnection {  }),
            },
        );
        match self.update(&event) {
            Ok(_) => Ok(Some(event)),
            Err(e) => Err(e),
        }
    }

    /// Makes sure that there is a storage backend. If there is one already,
    /// nothing happens and nothing is handed back. If there is none, the
    /// home directory is looked up: without one the call fails and the state
    /// stays as it was; with one, a local backend named `Local` and rooted
    /// there is created under the next event id and the next backend id, and
    /// the event that created it is handed back to be appended to the log.
    pub fn ensure_default_store(&mut self) -> (created: Result<Option<Events>, Error>)
        requires
            old(self)@.stores.dom().len() == 0 ==> old(self)@.store_ids < usize::MAX && old(
                self,
            )@.event_id < usize::MAX,
        ensures
            old(self)@.stores.dom().len() > 0 ==> created is Ok && created->Ok_0 is None
                && final(self)@ == old(self)@,
            old(self)@.stores.dom().len() == 0 ==> created is Err || (created is Ok
                && created->Ok_0 is Some),
            created is Err ==> created->Err_0 is HomeDirNotFound && final(self)@ == old(self)@,
            created is Ok && created->Ok_0 is Some ==> created->Ok_0->0 is CreateObjectStore
                && is_default_store(
                created->Ok_0->0->CreateObjectStore_0,
                (old(self)@.event_id + 1) as usize,
                (old(self)@.store_ids + 1) as usize,
                created->Ok_0->0->CreateObjectStore_0.metadata.prefix@,
            ) && final(self)@ == with_store(
                with_ids_taken(old(self)@),
                created->Ok_0->0->CreateObjectStore_0,
            ),
    {
        if self.state.stores.len() > 0 {
            return Ok(None);
        }
        let home = crate::state::store::get_home_dir();
        self.bootstrap(home)
    }

    /// The event for a command, with the ids that it takes: a storage
    /// backend takes the next backend id and the next event id, a buffer the
    /// next event id.
    pub fn event_for(&mut self, message: Messages) -> (event: Events)
        requires
            old(self)@.event_id < usize::MAX,
            message is CreateObjectStore ==> old(self)@.store_ids < usize::MAX,
        ensures
            message is CreateObjectStore ==> event@ == EventsView::CreateObjectStore(
                store::Create {
                    id: (old(self)@.event_id + 1) as usize,
                    metadata: Metadata {
                        id: (old(self)@.store_ids + 1) as usize,
                        name: message->CreateObjectStore_0.metadata.name,
                        prefix: message->CreateObjectStore_0.metadata.prefix,
                        kind: message->CreateObjectStore_0.metadata.kind,
                    },
                    connection: message->CreateObjectStore_0.connection,
                },
            ) && final(self)@ == with_ids_taken(old(self)@),
            message is CreateBuffer ==> event@ == EventsView::CreateBuffer(
                buffer::CreateView {
                    id: (old(self)@.event_id + 1) as usize,
                    metadata: message->CreateBuffer_0@,
                },
            ) && final(self)@ == (StateView {
                event_id: old(self)@.event_id + 1,
                ..old(self)@
            }),
    {
        match message {
            Messages::CreateObjectStore(message) => {
                let store_id = self.next_store_id();
                let event_id = self.next_event_id();
                Events::CreateObjectStore(store::Create::from_msg(event_id, store_id, message))
            },
            Messages::CreateBuffer(message) => {
                let event_id = self.next_event_id();
                Events::CreateBuffer(buffer::Create { id: event_id, metadata: message.metadata })
            },
        }
    }
}

} // verus!
