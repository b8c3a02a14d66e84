use std::path::PathBuf;

use file_fusion::commands::sort_descending;
use file_fusion::content::{sort_by_path, Content, ContentKind, Contents};
use file_fusion::errors::Error;
use file_fusion::events::{buffer, store, Events};
use file_fusion::messages;
use file_fusion::messages::buffer::{BufferMetadata, FileSystemBufferMetadata};
use file_fusion::messages::Messages;
use file_fusion::query::path::StoragePath;
use file_fusion::state::app::{App, BufferState, Config};
use file_fusion::state::store::{
    get_home_dir, home_dir_from, Connection, LocalConnection, Metadata, ObjectStoreKind,
};

fn fresh() -> App {
    App::new(Config { events_file: PathBuf::from("events") })
}

fn metadata(id: usize, name: &str) -> Metadata {
    Metadata {
        id,
        name: String::from(name),
        prefix: String::from("/root"),
        kind: ObjectStoreKind::Local,
    }
}

fn add_store(app: &mut App, event: usize, id: usize, name: &str) {
    let event = Events::CreateObjectStore(store::Create {
        id: event,
        metadata: metadata(id, name),
        connection: Connection::Local(LocalConnection {}),
    });
    assert!(app.can_apply(&event));
    app.update(&event).unwrap();
}

fn add_buffer(app: &mut App, event: usize, name: &str) {
    let event = Events::CreateBuffer(buffer::Create {
        id: event,
        metadata: BufferMetadata {
            name: String::from(name),
            common_schema: false,
            file_systems: vec![FileSystemBufferMetadata {
                store: 1,
                prefixes: vec![String::from("data")],
            }],
        },
    });
    assert!(app.can_apply(&event));
    app.update(&event).unwrap();
}

#[test]
fn storages_come_in_descending_order_of_id() {
    let mut app = fresh();
    add_store(&mut app, 1, 3, "c");
    add_store(&mut app, 2, 1, "a");
    add_store(&mut app, 3, 7, "g");
    add_store(&mut app, 4, 5, "e");
    let ids: Vec<usize> = app.storages().iter().map(|m| m.id).collect();
    assert_eq!(ids, vec![7, 5, 3, 1]);
    let names: Vec<String> = app.storages().iter().map(|m| m.name.clone()).collect();
    assert_eq!(names, vec!["g", "e", "c", "a"]);
    assert_eq!(fresh().storages().len(), 0);
}

#[test]
fn buffers_come_in_descending_order_of_id() {
    let mut app = fresh();
    add_store(&mut app, 1, 1, "a");
    add_buffer(&mut app, 2, "first");
    add_buffer(&mut app, 3, "second");
    add_buffer(&mut app, 4, "third");
    let names: Vec<String> = app.get_buffers().iter().map(|b| b.name.clone()).collect();
    assert_eq!(names, vec!["third", "second", "first"]);
}

#[test]
fn sort_descending_keeps_every_item() {
    let items: Vec<Metadata> = [4, 9, 1, 9, 3].iter().map(|id| metadata(*id, "m")).collect();
    let ids: Vec<usize> = sort_descending(items).iter().map(|m| m.id).collect();
    assert_eq!(ids, vec![9, 9, 4, 3, 1]);
    assert_eq!(sort_descending(Vec::<Metadata>::new()).len(), 0);
}

#[test]
fn storage_is_found_by_id() {
    let mut app = fresh();
    add_store(&mut app, 1, 1, "a");
    add_store(&mut app, 2, 2, "b");
    let found = app.storage(Some(2), None).unwrap();
    assert_eq!((found.id, found.name.as_str(), found.prefix.as_str()), (2, "b", "/root"));
    let moved = app.storage(Some(1), Some(String::from("/elsewhere"))).unwrap();
    assert_eq!((moved.id, moved.name.as_str(), moved.prefix.as_str()), (1, "a", "/elsewhere"));
    let any = app.storage(None, None).unwrap();
    assert!(any.id == 1 || any.id == 2);
}

#[test]
fn missing_storage_is_named() {
    let mut app = fresh();
    match app.storage(None, None) {
        Err(Error::NotFound(text)) => assert_eq!(text, "no storage with id None"),
        _ => panic!("expected not found"),
    }
    add_store(&mut app, 1, 1, "a");
    match app.storage(Some(90), Some(String::from("x"))) {
        Err(Error::NotFound(text)) => assert_eq!(text, "no storage with id Some(90)"),
        _ => panic!("expected not found"),
    }
}

#[test]
fn with_prefix_replaces_only_the_prefix() {
    let one = metadata(4, "disk");
    let two = one.with_prefix(String::from("/mnt"));
    assert_eq!(two.id, 4);
    assert_eq!(two.name, "disk");
    assert_eq!(two.prefix, "/mnt");
    assert_eq!(two.kind, ObjectStoreKind::Local);
    assert_eq!(one.prefix, "/root");
}

#[test]
fn metadata_and_buffers_are_the_same_by_id() {
    assert!(metadata(1, "a") == metadata(1, "b"));
    assert!(metadata(1, "a") != metadata(2, "a"));
    assert!(metadata(1, "a") < metadata(2, "a"));
    assert!(metadata(3, "a") > metadata(2, "z"));
    let one = BufferState { id: 1, name: String::from("x"), common_schema: true, file_systems: vec![] };
    let two = BufferState { id: 2, name: String::from("x"), common_schema: true, file_systems: vec![1] };
    assert!(one != two);
    assert!(one < two);
    assert!(one == one.clone());
}

#[test]
fn events_take_the_next_ids() {
    let mut app = fresh();
    let message = Messages::CreateObjectStore(messages::store::Create {
        metadata: messages::store::Metadata {
            name: String::from("disk"),
            prefix: String::from("/mnt"),
            kind: ObjectStoreKind::Local,
        },
        connection: Connection::Local(LocalConnection {}),
    });
    match app.event_for(message) {
        Events::CreateObjectStore(event) => {
            assert_eq!(event.id, 1);
            assert_eq!(event.metadata.id, 1);
            assert_eq!(event.metadata.name, "disk");
            assert_eq!(event.metadata.prefix, "/mnt");
        }
        _ => panic!("wrong kind"),
    }
    let message = Messages::CreateBuffer(messages::buffer::Create {
        metadata: BufferMetadata {
            name: String::from("b"),
            common_schema: true,
            file_systems: Vec::new(),
        },
    });
    match app.event_for(message) {
        Events::CreateBuffer(event) => {
            assert_eq!(event.id, 2);
            assert_eq!(event.metadata.name, "b");
        }
        _ => panic!("wrong kind"),
    }
    assert_eq!(app.next_store_id(), 2);
}

#[test]
fn from_msg_carries_ids_and_fields() {
    let message = messages::store::Create {
        metadata: messages::store::Metadata {
            name: String::from("lake"),
            prefix: String::from("p"),
            kind: ObjectStoreKind::Remote,
        },
        connection: Connection::Local(LocalConnection {}),
    };
    let copy = message.clone();
    let event = store::Create::from_msg(11, 4, message);
    assert_eq!(event.id, 11);
    assert_eq!(event.metadata.id, 4);
    assert_eq!(event.metadata.name, copy.metadata.name);
    assert_eq!(event.metadata.prefix, "p");
    assert_eq!(event.metadata.kind, ObjectStoreKind::Remote);
    assert!(matches!(event.connection, Connection::Local(_)));
}

#[test]
fn content_kind_follows_the_flag() {
    let dir = Content::new(String::from("a"), true);
    assert_eq!(dir.kind, ContentKind::Directory);
    assert_eq!(dir.path, "a");
    let file = Content::new(String::from("b"), false);
    assert_eq!(file.kind, ContentKind::File);
    assert_eq!(file.clone().path, "b");
}

#[test]
fn listing_is_sorted_by_path() {
    let contents = Contents::from_listing(
        String::from("root"),
        vec![String::from("root/b.parquet"), String::from("root/a.parquet"), String::from("root/é")],
        vec![String::from("root/sub"), String::from("root/a"), String::from("root/Z")],
    );
    assert_eq!(contents.path, "root");
    let listed: Vec<(&str, ContentKind)> =
        contents.items.iter().map(|c| (c.path.as_str(), c.kind)).collect();
    assert_eq!(
        listed,
        vec![
            ("root/Z", ContentKind::Directory),
            ("root/a", ContentKind::Directory),
            ("root/a.parquet", ContentKind::File),
            ("root/b.parquet", ContentKind::File),
            ("root/sub", ContentKind::Directory),
            ("root/é", ContentKind::File),
        ]
    );
    assert_eq!(Contents::from_listing(String::new(), vec![], vec![]).items.len(), 0);
}

#[test]
fn sort_by_path_orders_a_text_before_its_extensions() {
    let items: Vec<Content> = ["b", "ab", "a", "", "abc"]
        .iter()
        .map(|p| Content::new(String::from(*p), false))
        .collect();
    let paths: Vec<String> = sort_by_path(items).into_iter().map(|c| c.path).collect();
    assert_eq!(paths, vec!["", "a", "ab", "abc", "b"]);
}

#[test]
fn errors_say_what_went_wrong() {
    assert_eq!(Error::HomeDirNotFound.message(), "home dir not found");
    assert_eq!(Error::FailedToDeserializeEvents.message(), "failed to deserialize events");
    assert_eq!(Error::FailedToSerializeEvents.message(), "failed to serialize events");
    assert_eq!(Error::FailedToWriteToEventsFile.message(), "failed to write to events file");
    assert_eq!(Error::FailedToGetStateLock.message(), "failed to get state lock");
    assert_eq!(
        Error::NotFound(String::from("buffer with id 3")).message(),
        "not found `buffer with id 3`"
    );
    let path_error = StoragePath::parse("a//b").unwrap_err();
    assert!(path_error.message().contains("a//b"));
    let url_error = Error::UrlParseError(url::Url::parse("nothing").unwrap_err());
    assert_eq!(url_error.message(), "relative URL without a base");
}

#[test]
fn home_dir_is_found_or_missing() {
    assert_eq!(home_dir_from(Some(String::from("/home/u"))).unwrap(), "/home/u");
    assert!(matches!(home_dir_from(None), Err(Error::HomeDirNotFound)));
    match get_home_dir() {
        Ok(dir) => assert!(!dir.is_empty()),
        Err(Error::HomeDirNotFound) => {}
        Err(other) => panic!("unexpected {:?}", other),
    }
}
