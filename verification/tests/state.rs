use std::path::PathBuf;

use file_fusion::errors::Error;
use file_fusion::events::{buffer, store, Events};
use file_fusion::messages::buffer::{BufferMetadata, FileSystemBufferMetadata};
use file_fusion::state::app::{App, Config, State};
use file_fusion::state::store::{
    Connection, LocalConnection, Metadata, ObjectStore, ObjectStoreKind, RemoteConnection,
};

fn fresh() -> App {
    App::new(Config { events_file: PathBuf::from("events") })
}

fn local_store(event: usize, id: usize, name: &str) -> Events {
    Events::CreateObjectStore(store::Create {
        id: event,
        metadata: Metadata {
            id,
            name: String::from(name),
            prefix: String::from("/data"),
            kind: ObjectStoreKind::Local,
        },
        connection: Connection::Local(LocalConnection {}),
    })
}

fn remote_store(event: usize, id: usize, bucket: &str) -> Events {
    Events::CreateObjectStore(store::Create {
        id: event,
        metadata: Metadata {
            id,
            name: String::from("lake"),
            prefix: String::from(""),
            kind: ObjectStoreKind::Remote,
        },
        connection: Connection::Remote(RemoteConnection {
            region: String::from("eu-west-1"),
            bucket: String::from(bucket),
            access_key: String::from("key"),
            access_key_secret: String::from("secret"),
            endpoint: String::from("http://localhost:9000"),
        }),
    })
}

fn buffer_event(event: usize, name: &str, parts: Vec<(usize, Vec<&str>)>) -> Events {
    Events::CreateBuffer(buffer::Create {
        id: event,
        metadata: BufferMetadata {
            name: String::from(name),
            common_schema: true,
            file_systems: parts
                .into_iter()
                .map(|(store, prefixes)| FileSystemBufferMetadata {
                    store,
                    prefixes: prefixes.into_iter().map(String::from).collect(),
                })
                .collect(),
        },
    })
}

fn apply(app: &mut App, event: &Events) -> Result<Option<url::Url>, Error> {
    assert!(app.can_apply(event));
    app.update(event)
}

#[test]
fn fresh_state_gets_one_default_local_store() {
    let mut app = fresh();
    assert_eq!(app.count_stores(), 0);
    let created = app.bootstrap(Ok(String::from("/home/user"))).unwrap();
    let event = match created {
        Some(Events::CreateObjectStore(event)) => event,
        other => panic!("unexpected {:?}", other),
    };
    assert_eq!(event.id, 1);
    assert_eq!(event.metadata.id, 1);
    assert_eq!(event.metadata.name, "Local");
    assert_eq!(event.metadata.prefix, "/home/user");
    assert_eq!(event.metadata.kind, ObjectStoreKind::Local);
    assert!(matches!(event.connection, Connection::Local(_)));

    let stores = app.storages();
    assert_eq!(stores.len(), 1);
    assert_eq!(stores[0].prefix, "/home/user");
    assert_eq!(app.list_stores().len(), 1);
    let stored = app.get_store(&1).unwrap();
    assert!(stored.registered);
    assert_eq!(stored.metadata.name, "Local");

    assert!(matches!(app.bootstrap(Ok(String::from("/other"))), Ok(None)));
    assert_eq!(app.count_stores(), 1);
}

#[test]
fn bootstrap_without_home_fails_and_changes_nothing() {
    let mut app = fresh();
    assert!(matches!(
        app.bootstrap(Err(Error::HomeDirNotFound)),
        Err(Error::HomeDirNotFound)
    ));
    assert_eq!(app.count_stores(), 0);
    assert_eq!(app.next_store_id(), 1);
    assert_eq!(app.next_event_id(), 1);
}

#[test]
fn ensure_default_store_leaves_existing_stores_alone() {
    let mut app = fresh();
    apply(&mut app, &local_store(4, 2, "disk")).unwrap();
    assert!(matches!(app.ensure_default_store(), Ok(None)));
    assert_eq!(app.count_stores(), 1);
}

#[test]
fn ensure_default_store_creates_one_or_reports_no_home() {
    let mut app = fresh();
    match app.ensure_default_store() {
        Ok(Some(Events::CreateObjectStore(event))) => {
            assert_eq!(event.id, 1);
            assert_eq!(event.metadata.id, 1);
            assert_eq!(event.metadata.name, "Local");
            assert_eq!(event.metadata.kind, ObjectStoreKind::Local);
            assert!(matches!(event.connection, Connection::Local(_)));
            assert_eq!(app.count_stores(), 1);
            assert_eq!(app.get_store(&1).unwrap().metadata.prefix, event.metadata.prefix);
        }
        Err(Error::HomeDirNotFound) => assert_eq!(app.count_stores(), 0),
        other => panic!("unexpected {:?}", other),
    }
}

#[test]
fn buffer_is_materialized_with_deduplicated_prefixes() {
    let mut app = fresh();
    app.bootstrap(Ok(String::from("/home/user"))).unwrap();
    let event = buffer_event(2, "sales", vec![(1, vec!["data/2023", "data/2023/jan"])]);
    assert!(matches!(apply(&mut app, &event), Ok(None)));

    let buffer = app.get_buffer(&1).unwrap();
    assert_eq!(buffer.get_id(), 1);
    assert_eq!(buffer.get_name(), "sales");
    assert_eq!(buffer.file_systems().len(), 1);
    let prefixes = buffer.file_systems()[0].prefixes();
    assert_eq!(prefixes.len(), 1);
    assert_eq!(prefixes[0].as_str(), "data/2023");
    assert_eq!(buffer.file_systems()[0].store().metadata.id, 1);
}

#[test]
fn create_buffer_stores_records_under_consecutive_ids() {
    let mut app = fresh();
    apply(&mut app, &local_store(1, 1, "a")).unwrap();
    apply(&mut app, &local_store(2, 2, "b")).unwrap();
    let event = buffer_event(3, "mix", vec![(1, vec!["x", "/y/"]), (2, vec![]), (2, vec!["z"])]);
    apply(&mut app, &event).unwrap();

    let buffers = app.list_buffers();
    assert_eq!(buffers.len(), 1);
    assert_eq!(buffers[0].id, 1);
    assert_eq!(buffers[0].name, "mix");
    assert!(buffers[0].common_schema);
    assert_eq!(buffers[0].file_systems, vec![1, 2, 3]);
    assert_eq!(app.next_buffer_id(), 2);
    assert_eq!(app.next_file_system_buffer_id(), 4);
    assert_eq!(app.next_prefix_id(), 4);
    assert_eq!(app.next_event_id(), 4);

    let event = buffer_event(9, "more", vec![(1, vec!["p"])]);
    apply(&mut app, &event).unwrap();
    let mut buffers = app.list_buffers();
    buffers.sort_by_key(|b| b.id);
    assert_eq!(buffers[1].id, 3);
    assert_eq!(buffers[1].file_systems, vec![5]);
    assert_eq!(app.next_event_id(), 10);
}

#[test]
fn selections_from_one_backend_are_merged() {
    let mut app = fresh();
    apply(&mut app, &local_store(1, 1, "a")).unwrap();
    apply(&mut app, &local_store(2, 2, "b")).unwrap();
    let event = buffer_event(
        3,
        "merged",
        vec![(1, vec!["x/1", "y"]), (2, vec!["q"]), (1, vec!["x", "y/2"])],
    );
    apply(&mut app, &event).unwrap();
    let buffer = app.get_buffer(&1).unwrap();
    assert_eq!(buffer.file_systems().len(), 2);
    let first = &buffer.file_systems()[0];
    assert_eq!(first.store().metadata.id, 1);
    let mut prefixes: Vec<String> = first.prefixes().iter().map(|p| p.to_string()).collect();
    prefixes.sort();
    assert_eq!(prefixes, vec!["x", "y"]);
    let second = &buffer.file_systems()[1];
    assert_eq!(second.store().metadata.id, 2);
    assert_eq!(second.prefixes().len(), 1);
}

#[test]
fn missing_buffer_is_not_found_and_nothing_changes() {
    let mut app = fresh();
    app.bootstrap(Ok(String::from("/home/user"))).unwrap();
    apply(&mut app, &buffer_event(2, "sales", vec![(1, vec!["data"])])).unwrap();
    match app.get_buffer(&42) {
        Err(Error::NotFound(text)) => assert_eq!(text, "buffer with id 42"),
        other => panic!("unexpected {:?}", other.map(|b| b.get_id())),
    }
    assert_eq!(app.count_stores(), 1);
    assert_eq!(app.list_buffers().len(), 1);
    assert_eq!(app.next_buffer_id(), 2);
    assert_eq!(app.next_file_system_buffer_id(), 2);
    assert_eq!(app.next_prefix_id(), 2);
}

#[test]
fn dangling_store_is_named() {
    let mut app = fresh();
    apply(&mut app, &buffer_event(1, "lost", vec![(120, vec!["data"])])).unwrap();
    match app.get_buffer(&1) {
        Err(Error::NotFound(text)) => assert_eq!(text, "store with id 120"),
        other => panic!("unexpected {:?}", other.map(|b| b.get_id())),
    }
}

#[test]
fn malformed_prefix_fails_the_whole_event() {
    let mut app = fresh();
    apply(&mut app, &local_store(1, 1, "a")).unwrap();
    let event = buffer_event(7, "bad", vec![(1, vec!["fine", "also/fine"]), (1, vec!["not//fine"])]);
    assert!(app.can_apply(&event));
    assert!(matches!(app.update(&event), Err(Error::Path(_))));
    assert_eq!(app.list_buffers().len(), 0);
    assert_eq!(app.next_event_id(), 2);
    assert_eq!(app.next_buffer_id(), 1);
    assert_eq!(app.next_file_system_buffer_id(), 1);
    assert_eq!(app.next_prefix_id(), 1);
}

#[test]
fn store_is_inserted_at_the_event_id() {
    let mut app = fresh();
    assert!(matches!(apply(&mut app, &local_store(5, 2, "disk")), Ok(None)));
    assert!(app.get_store(&2).is_none());
    let stored = app.get_store(&5).unwrap();
    assert_eq!(stored.metadata.id, 2);
    assert!(stored.registered);
    assert_eq!(app.next_store_id(), 6);
    assert_eq!(app.next_event_id(), 6);
}

#[test]
fn remote_store_hands_back_its_location() {
    let mut app = fresh();
    let attach = apply(&mut app, &remote_store(1, 1, "bucket")).unwrap();
    assert_eq!(attach.unwrap().as_str(), "s3://bucket");
    assert!(app.get_store(&1).unwrap().registered);
}

#[test]
fn remote_store_with_malformed_location_is_rejected() {
    let mut app = fresh();
    let event = remote_store(3, 1, "[");
    assert!(matches!(apply(&mut app, &event), Err(Error::UrlParseError(_))));
    assert_eq!(app.count_stores(), 0);
    assert_eq!(app.next_event_id(), 1);
}

#[test]
fn register_happens_at_most_once() {
    let metadata = Metadata {
        id: 1,
        name: String::from("lake"),
        prefix: String::new(),
        kind: ObjectStoreKind::Remote,
    };
    let connection = Connection::Remote(RemoteConnection {
        region: String::from("r"),
        bucket: String::from("b"),
        access_key: String::from("k"),
        access_key_secret: String::from("s"),
        endpoint: String::from("e"),
    });
    let mut store = ObjectStore::new(metadata, connection);
    assert!(!store.registered);
    assert_eq!(store.register().unwrap().unwrap().as_str(), "s3://b");
    assert!(store.registered);
    assert!(store.register().unwrap().is_none());
    assert!(store.registered);

    let mut local = ObjectStore::new(
        Metadata {
            id: 2,
            name: String::from("disk"),
            prefix: String::from("/"),
            kind: ObjectStoreKind::Local,
        },
        Connection::Local(LocalConnection {}),
    );
    assert!(local.register().unwrap().is_none());
    assert!(local.registered);
}

#[test]
fn attach_follows_the_reading_of_the_location() {
    let mut store = ObjectStore::new(
        Metadata {
            id: 1,
            name: String::from("lake"),
            prefix: String::new(),
            kind: ObjectStoreKind::Remote,
        },
        Connection::Local(LocalConnection {}),
    );
    assert!(matches!(
        store.attach(url::Url::parse("no scheme")),
        Err(Error::UrlParseError(_))
    ));
    assert!(!store.registered);
    let url = store.attach(url::Url::parse("s3://x")).unwrap().unwrap();
    assert_eq!(url.as_str(), "s3://x");
    assert!(store.registered);
}

fn replay(log: &Vec<Events>) -> App {
    let mut app = fresh();
    for event in log.iter() {
        apply(&mut app, event).unwrap();
    }
    app
}

#[test]
fn replaying_a_log_twice_gives_identical_state() {
    let log = vec![
        local_store(1, 1, "a"),
        remote_store(2, 2, "bucket"),
        buffer_event(3, "one", vec![(1, vec!["x", "x/y"]), (2, vec!["z"])]),
        buffer_event(4, "two", vec![(2, vec!["/q/"])]),
    ];
    let mut first = replay(&log);
    let mut second = replay(&log);

    let a = first.storages();
    let b = second.storages();
    assert_eq!(a.len(), 2);
    assert_eq!(a.len(), b.len());
    for (x, y) in a.iter().zip(b.iter()) {
        assert_eq!((x.id, &x.name, &x.prefix, x.kind), (y.id, &y.name, &y.prefix, y.kind));
    }
    let a = first.get_buffers();
    let b = second.get_buffers();
    assert_eq!(a.len(), 2);
    for (x, y) in a.iter().zip(b.iter()) {
        assert_eq!(
            (x.id, &x.name, x.common_schema, &x.file_systems),
            (y.id, &y.name, y.common_schema, &y.file_systems)
        );
    }
    for id in 1..=2 {
        let x = first.get_buffer(&id).unwrap();
        let y = second.get_buffer(&id).unwrap();
        assert_eq!(x.get_name(), y.get_name());
        assert_eq!(x.file_systems().len(), y.file_systems().len());
        for (p, q) in x.file_systems().iter().zip(y.file_systems().iter()) {
            let mut left: Vec<String> = p.prefixes().iter().map(|s| s.to_string()).collect();
            let mut right: Vec<String> = q.prefixes().iter().map(|s| s.to_string()).collect();
            left.sort();
            right.sort();
            assert_eq!(left, right);
        }
    }
    assert_eq!(first.next_event_id(), 5);
    assert_eq!(second.next_event_id(), 5);
    assert_eq!(first.next_prefix_id(), second.next_prefix_id());
    assert_eq!(first.next_file_system_buffer_id(), second.next_file_system_buffer_id());
    assert_eq!(first.next_buffer_id(), second.next_buffer_id());
    assert_eq!(first.next_store_id(), second.next_store_id());
}

#[test]
fn event_ids_only_move_forward() {
    let mut app = fresh();
    apply(&mut app, &local_store(9, 1, "a")).unwrap();
    apply(&mut app, &local_store(4, 2, "b")).unwrap();
    assert_eq!(app.next_event_id(), 10);
}

#[test]
fn events_know_their_ids_and_clone() {
    let event = buffer_event(6, "b", vec![(1, vec!["x"])]);
    assert_eq!(event.get_id(), 6);
    let copy = event.clone();
    assert_eq!(copy.get_id(), 6);
    match copy {
        Events::CreateBuffer(create) => {
            assert_eq!(create.metadata.name, "b");
            assert_eq!(create.metadata.file_systems[0].prefixes, vec!["x"]);
        }
        _ => panic!("wrong kind"),
    }
    assert_eq!(local_store(3, 1, "a").clone().get_id(), 3);
}

#[test]
fn config_keeps_the_events_file() {
    let app = App::new(Config { events_file: PathBuf::from("/tmp/events") });
    assert_eq!(app.config().events_file, PathBuf::from("/tmp/events"));
}

#[test]
fn state_starts_empty_and_clones() {
    let state = State::new();
    let copy = state.clone();
    assert!(format!("{:?}", copy).contains("State"));
    let app = fresh();
    assert!(format!("{:?}", app).contains("events"));
}
