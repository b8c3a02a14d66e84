//! What the application state stands for, how an event changes it, and what
//! a stored buffer resolves to.

use vstd::prelude::*;

use crate::messages::buffer::FileSystemBufferMetadataView;
use crate::query::path::{normalized, parses};
use crate::query::path_utils::minimal;
use crate::query::{inserted, BufferView, FileSystemView};
use crate::state::events::{store, EventsView};
use crate::state::mutex_map::raised;
use crate::state::store::{
    base_location, url_parses, Connection, LocalConnection, ObjectStore, ObjectStoreKind,
};
use crate::text::decimal;

verus! {

/// What a `PrefixState` stands for.
pub struct PrefixStateView {
    pub id: usize,
    pub file_system_buffer: usize,
    pub path: Seq<char>,
}

/// What a `FileSystemBufferState` stands for.
pub struct FileSystemBufferStateView {
    pub id: usize,
    pub buffer: usize,
    pub store: usize,
    pub prefixes: Seq<usize>,
}

/// What a `BufferState` stands for.
pub struct BufferStateView {
    pub id: usize,
    pub name: Seq<char>,
    pub common_schema: bool,
    pub file_systems: Seq<usize>,
}

/// What a `Selection` stands for.
pub struct SelectionView {
    pub store: usize,
    pub paths: Seq<Seq<char>>,
}

/// Whether every prefix of every selection can be read as a path.
pub open spec fn all_parse(parts: Seq<FileSystemBufferMetadataView>) -> bool {
    forall|k: int, j: int|
        0 <= k < parts.len() && 0 <= j < parts[k].prefixes.len() ==> parses(
            #[trigger] parts[k].prefixes[j],
        )
}

/// The selections with each prefix in normal form.
pub open spec fn parsed(parts: Seq<FileSystemBufferMetadataView>) -> Seq<SelectionView> {
    parts.map_values(
        |part: FileSystemBufferMetadataView|
            SelectionView {
                store: part.store,
                paths: part.prefixes.map_values(|text: Seq<char>| normalized(text)),
            },
    )
}

/// What the application state stands for: the last applied event id, and
/// for each kind of entity what is stored under which id and the highest id
/// that the kind's counter has reached.
pub struct StateView {
    pub event_id: nat,
    pub stores: Map<usize, ObjectStore>,
    pub store_ids: nat,
    pub buffers: Map<usize, BufferStateView>,
    pub buffer_ids: nat,
    pub file_system_buffers: Map<usize, FileSystemBufferStateView>,
    pub file_system_buffer_ids: nat,
    pub prefixes: Map<usize, PrefixStateView>,
    pub prefix_ids: nat,
}

/// The state before any event.
pub open spec fn empty_state() -> StateView {
    StateView {
        event_id: 0,
        stores: Map::empty(),
        store_ids: 0,
        buffers: Map::empty(),
        buffer_ids: 0,
        file_system_buffers: Map::empty(),
        file_system_buffer_ids: 0,
        prefixes: Map::empty(),
        prefix_ids: 0,
    }
}

/// The `count` ids that follow `last`.
pub open spec fn ids_after(last: nat, count: nat) -> Seq<usize> {
    Seq::new(count, |i: int| (last + 1 + i) as usize)
}

/// The number of paths in all selections.
pub open spec fn total_paths(parts: Seq<SelectionView>) -> nat
    decreases parts.len(),
{
    if parts.len() == 0 {
        0
    } else {
        total_paths(parts.drop_last()) + parts.last().paths.len()
    }
}

/// The state after `paths` were stored as prefixes of the selection `owner`,
/// each under the next prefix id.
pub open spec fn with_prefixes(state: StateView, owner: usize, paths: Seq<Seq<char>>) -> StateView
    decreases paths.len(),
{
    if paths.len() == 0 {
        state
    } else {
        let earlier = with_prefixes(state, owner, paths.drop_last());
        let id = (earlier.prefix_ids + 1) as usize;
        StateView {
            prefixes: earlier.prefixes.insert(
                id,
                PrefixStateView { id, file_system_buffer: owner, path: paths.last() },
            ),
            prefix_ids: earlier.prefix_ids + 1,
            ..earlier
        }
    }
}

/// The state after one selection of the buffer `owner` was stored under the
/// next selection id, and its paths as prefixes.
pub open spec fn with_file_system(state: StateView, owner: usize, part: SelectionView) -> StateView {
    let id = (state.file_system_buffer_ids + 1) as usize;
    let stored = with_prefixes(
        StateView { file_system_buffer_ids: state.file_system_buffer_ids + 1, ..state },
        id,
        part.paths,
    );
    StateView {
        file_system_buffers: stored.file_system_buffers.insert(
            id,
            FileSystemBufferStateView {
                id,
                buffer: owner,
                store: part.store,
                prefixes: ids_after(state.prefix_ids, part.paths.len()),
            },
        ),
        ..stored
    }
}

/// The state after the selections of the buffer `owner` were stored, one
/// after the other.
pub open spec fn with_file_systems(state: StateView, owner: usize, parts: Seq<SelectionView>) -> StateView
    decreases parts.len(),
{
    if parts.len() == 0 {
        state
    } else {
        with_file_system(with_file_systems(state, owner, parts.drop_last()), owner, parts.last())
    }
}

/// The state after a buffer was created: the event id is seen, the buffer
/// takes the next buffer id, its selections and prefixes are stored, and then
/// the buffer itself.
pub open spec fn with_buffer(
    state: StateView,
    event: usize,
    name: Seq<char>,
    common_schema: bool,
    parts: Seq<SelectionView>,
) -> StateView {
    let id = (state.buffer_ids + 1) as usize;
    let stored = with_file_systems(
        StateView {
            event_id: raised(state.event_id, event),
            buffer_ids: state.buffer_ids + 1,
            ..state
        },
        id,
        parts,
    );
    StateView {
        buffers: stored.buffers.insert(
            id,
            BufferStateView {
                id,
                name,
                common_schema,
                file_systems: ids_after(state.file_system_buffer_ids, parts.len()),
            },
        ),
        ..stored
    }
}

/// The state after a storage backend was created: the backend is stored,
/// registered, under the event's id, and the event id is seen.
pub open spec fn with_store(state: StateView, event: store::Create) -> StateView {
    StateView {
        event_id: raised(state.event_id, event.id),
        stores: state.stores.insert(
            event.id,
            ObjectStore { registered: true, metadata: event.metadata, connection: event.connection },
        ),
        store_ids: raised(state.store_ids, event.id),
        ..state
    }
}

/// Whether an event is rejected: a backend whose location is not a
/// well-formed URL, or a buffer with a prefix that is not a path.
pub open spec fn fails(event: EventsView) -> bool {
    match event {
        EventsView::CreateObjectStore(event) => event.connection is Remote && !url_parses(
            base_location(event.connection->Remote_0.bucket@),
        ),
        EventsView::CreateBuffer(event) => !all_parse(event.metadata.file_systems),
    }
}

/// The state after an event. A rejected event leaves the state as it was.
pub open spec fn applied(state: StateView, event: EventsView) -> StateView {
    if fails(event) {
        state
    } else {
        match event {
            EventsView::CreateObjectStore(event) => with_store(state, event),
            EventsView::CreateBuffer(event) => with_buffer(
                state,
                event.id,
                event.metadata.name,
                event.metadata.common_schema,
                parsed(event.metadata.file_systems),
            ),
        }
    }
}

/// Whether the id counters can hand out the ids that the selections need.
pub open spec fn room(state: StateView, parts: Seq<SelectionView>) -> bool {
    &&& state.buffer_ids < usize::MAX
    &&& state.file_system_buffer_ids + parts.len() <= usize::MAX
    &&& state.prefix_ids + total_paths(parts) <= usize::MAX
}

/// Whether the id counters can hand out the ids that the event needs. A
/// storage backend needs none, and neither does a buffer with a prefix that
/// is not a path.
pub open spec fn has_room(state: StateView, event: EventsView) -> bool {
    match event {
        EventsView::CreateObjectStore(_) => true,
        EventsView::CreateBuffer(create) => !all_parse(create.metadata.file_systems) || room(
            state,
            parsed(create.metadata.file_systems),
        ),
    }
}

/// Storing prefixes moves the prefix counter by their number and touches
/// nothing but the prefixes.
pub proof fn lemma_with_prefixes_frame(state: StateView, owner: usize, paths: Seq<Seq<char>>)
    ensures
        with_prefixes(state, owner, paths) == (StateView {
            prefixes: with_prefixes(state, owner, paths).prefixes,
            prefix_ids: state.prefix_ids + paths.len(),
            ..state
        }),
    decreases paths.len(),
{
    if paths.len() > 0 {
        lemma_with_prefixes_frame(state, owner, paths.drop_last());
    }
}

/// Storing selections moves the selection counter by their number and the
/// prefix counter by the number of their paths, and touches nothing but
/// selections and prefixes.
pub proof fn lemma_with_file_systems_frame(state: StateView, owner: usize, parts: Seq<SelectionView>)
    ensures
        with_file_systems(state, owner, parts) == (StateView {
            file_system_buffers: with_file_systems(state, owner, parts).file_system_buffers,
            file_system_buffer_ids: state.file_system_buffer_ids + parts.len(),
            prefixes: with_file_systems(state, owner, parts).prefixes,
            prefix_ids: state.prefix_ids + total_paths(parts),
            ..state
        }),
    decreases parts.len(),
{
    if parts.len() > 0 {
        let earlier = with_file_systems(state, owner, parts.drop_last());
        lemma_with_file_systems_frame(state, owner, parts.drop_last());
        let id = (earlier.file_system_buffer_ids + 1) as usize;
        lemma_with_prefixes_frame(
            StateView { file_system_buffer_ids: earlier.file_system_buffer_ids + 1, ..earlier },
            id,
            parts.last().paths,
        );
    }
}

/// The paths of the first selections are no more than the paths of all.
pub proof fn lemma_total_paths_take(parts: Seq<SelectionView>, count: int)
    requires
        0 <= count <= parts.len(),
    ensures
        total_paths(parts.take(count)) <= total_paths(parts),
        count < parts.len() ==> total_paths(parts.take(count)) + parts[count].paths.len()
            <= total_paths(parts),
    decreases parts.len(),
{
    if count == parts.len() {
        assert(parts.take(count) =~= parts);
    } else {
        assert(parts.drop_last().take(count) =~= parts.take(count));
        lemma_total_paths_take(parts.drop_last(), count);
    }
}

/// The text that names a buffer that does not exist.
pub open spec fn missing_buffer_text(id: usize) -> Seq<char> {
    "buffer with id "@ + decimal(id as nat)
}

/// The text that names a selection that a buffer refers to and that does not
/// exist.
pub open spec fn missing_file_system_text(part: usize, buffer: usize) -> Seq<char> {
    "file system buffer with id "@ + decimal(part as nat) + " for buffer "@ + decimal(
        buffer as nat,
    )
}

/// The text that names a storage backend that does not exist.
pub open spec fn missing_store_text(id: usize) -> Seq<char> {
    "store with id "@ + decimal(id as nat)
}

/// The text that names a prefix that does not exist.
pub open spec fn missing_prefix_text(id: usize) -> Seq<char> {
    "prefix with id "@ + decimal(id as nat)
}

/// Whether `ids[at]` is the first of `ids` that is not among `known`.
pub open spec fn is_first_missing(ids: Seq<usize>, known: Set<usize>, at: int) -> bool {
    &&& 0 <= at < ids.len()
    &&& !known.contains(ids[at])
    &&& forall|t: int| 0 <= t < at ==> known.contains(#[trigger] ids[t])
}

/// Whether one of `ids` is not among `known`.
pub open spec fn any_missing(ids: Seq<usize>, known: Set<usize>) -> bool {
    exists|at: int| is_first_missing(ids, known, at)
}

/// The first of `ids` that is not among `known`.
pub open spec fn first_missing(ids: Seq<usize>, known: Set<usize>) -> usize {
    ids[choose|at: int| is_first_missing(ids, known, at)]
}

/// The paths stored under the prefix ids `ids`, in order.
pub open spec fn stored_paths(state: StateView, ids: Seq<usize>) -> Seq<Seq<char>> {
    ids.map_values(|id: usize| state.prefixes[id].path)
}

/// What a stored selection resolves to: its backend and the deduplicated
/// set of its paths, or the text that names the first link that dangles.
pub open spec fn selected(state: StateView, part: FileSystemBufferStateView) -> Result<
    FileSystemView,
    Seq<char>,
> {
    if !state.stores.contains_key(part.store) {
        Err(missing_store_text(part.store))
    } else if any_missing(part.prefixes, state.prefixes.dom()) {
        Err(missing_prefix_text(first_missing(part.prefixes, state.prefixes.dom())))
    } else {
        Ok(
            FileSystemView {
                store: state.stores[part.store],
                prefixes: minimal(stored_paths(state, part.prefixes).to_set()),
            },
        )
    }
}

/// What the stored selections with the ids `ids` resolve to, inserted into a
/// buffer one after the other, or the text that names the first link that
/// dangles.
pub open spec fn gathered(state: StateView, ids: Seq<usize>) -> Result<
    Seq<FileSystemView>,
    Seq<char>,
>
    decreases ids.len(),
{
    if ids.len() == 0 {
        Ok(Seq::empty())
    } else {
        match gathered(state, ids.drop_last()) {
            Err(text) => Err(text),
            Ok(parts) => match selected(state, state.file_system_buffers[ids.last()]) {
                Err(text) => Err(text),
                Ok(part) => Ok(inserted(parts, part)),
            },
        }
    }
}

/// What the buffer stored under `id` resolves to, or the text that names the
/// first link that dangles: the buffer itself, then its selections, then for
/// each selection in turn its backend and its prefixes.
pub open spec fn materialized(state: StateView, id: usize) -> Result<BufferView, Seq<char>> {
    if !state.buffers.contains_key(id) {
        Err(missing_buffer_text(id))
    } else {
        let record = state.buffers[id];
        if any_missing(record.file_systems, state.file_system_buffers.dom()) {
            Err(
                missing_file_system_text(
                    first_missing(record.file_systems, state.file_system_buffers.dom()),
                    id,
                ),
            )
        } else {
            match gathered(state, record.file_systems) {
                Err(text) => Err(text),
                Ok(parts) => Ok(BufferView { id: record.id, name: record.name, file_systems: parts }),
            }
        }
    }
}

/// Once the first selections fail to resolve, so do all.
pub proof fn lemma_gathered_fails_on(state: StateView, ids: Seq<usize>, count: int)
    requires
        0 <= count <= ids.len(),
        gathered(state, ids.take(count)) is Err,
    ensures
        gathered(state, ids) == gathered(state, ids.take(count)),
    decreases ids.len(),
{
    if count == ids.len() {
        assert(ids.take(count) =~= ids);
    } else {
        assert(ids.drop_last().take(count) =~= ids.take(count));
        lemma_gathered_fails_on(state, ids.drop_last(), count);
    }
}

/// The state after the events of `log` were applied in order. An event that
/// is rejected leaves the state as it was.
pub open spec fn replayed(state: StateView, log: Seq<EventsView>) -> StateView
    decreases log.len(),
{
    if log.len() == 0 {
        state
    } else {
        applied(replayed(state, log.drop_last()), log.last())
    }
}

/// Replaying a log is a function of the log: two replays of the same log from
/// the empty state end in the same stores, counters and last event id.
pub proof fn lemma_replay_is_repeatable(first: StateView, second: StateView, log: Seq<EventsView>)
    requires
        first == replayed(empty_state(), log),
        second == replayed(empty_state(), log),
    ensures
        first == second,
{
}

/// The last applied event id never falls when an event is applied.
pub proof fn lemma_event_id_never_falls(state: StateView, event: EventsView)
    ensures
        applied(state, event).event_id >= state.event_id,
{
    match event {
        EventsView::CreateObjectStore(_) => {},
        EventsView::CreateBuffer(create) => {
            if !fails(event) {
                let parts = parsed(create.metadata.file_systems);
                let id = (state.buffer_ids + 1) as usize;
                lemma_with_file_systems_frame(
                    StateView {
                        event_id: raised(state.event_id, create.id),
                        buffer_ids: state.buffer_ids + 1,
                        ..state
                    },
                    id,
                    parts,
                );
            }
        },
    }
}

/// Whether `create` is the event that creates the default storage backend:
/// a local one named `Local` and rooted at `home`.
pub open spec fn is_default_store(create: store::Create, event: usize, id: usize, home: Seq<char>) -> bool {
    &&& create.id == event
    &&& create.metadata.id == id
    &&& create.metadata.name@ == "Local"@
    &&& create.metadata.prefix@ == home
    &&& create.metadata.kind == ObjectStoreKind::Local
    &&& create.connection == Connection::Local(LocalConnection {  })
}

/// The state with the next event id and the next storage backend id taken.
pub open spec fn with_ids_taken(state: StateView) -> StateView {
    StateView { event_id: state.event_id + 1, store_ids: state.store_ids + 1, ..state }
}

} // verus!
