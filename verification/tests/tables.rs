use file_fusion::errors::Error;
use file_fusion::query::path::StoragePath;
use file_fusion::query::tables::{
    name_table, registered, resolve_path, view_statement, ListingTable, SchemaSource,
};
use file_fusion::query::{Buffer, FileSystemBuffer, Query};
use file_fusion::state::store::{
    Connection, LocalConnection, Metadata, ObjectStore, ObjectStoreKind, RemoteConnection,
};

fn path(text: &str) -> StoragePath {
    StoragePath::parse(text).unwrap()
}

fn local(id: usize, name: &str) -> ObjectStore {
    ObjectStore::new(
        Metadata {
            id,
            name: String::from(name),
            prefix: String::from("/"),
            kind: ObjectStoreKind::Local,
        },
        Connection::Local(LocalConnection {}),
    )
}

fn remote(id: usize, name: &str, bucket: &str) -> ObjectStore {
    ObjectStore::new(
        Metadata {
            id,
            name: String::from(name),
            prefix: String::new(),
            kind: ObjectStoreKind::Remote,
        },
        Connection::Remote(RemoteConnection {
            region: String::from("r"),
            bucket: String::from(bucket),
            access_key: String::from("k"),
            access_key_secret: String::from("s"),
            endpoint: String::from("e"),
        }),
    )
}

fn texts(buffer: &FileSystemBuffer) -> Vec<String> {
    let mut out: Vec<String> = buffer.prefixes().iter().map(|p| p.to_string()).collect();
    out.sort();
    out
}

#[test]
fn new_file_system_buffer_deduplicates() {
    let fsb = FileSystemBuffer::new(local(1, "Local"), &vec![path("a/b"), path("a"), path("c")]);
    assert_eq!(texts(&fsb), vec!["a", "c"]);
    assert_eq!(fsb.store().metadata.name, "Local");
    assert!(fsb.first_prefix().is_some());
    let empty = FileSystemBuffer::new(local(1, "Local"), &Vec::new());
    assert!(empty.first_prefix().is_none());
    assert_eq!(empty.prefixes().len(), 0);
}

#[test]
fn merge_is_commutative() {
    let left = vec![path("a/b"), path("c"), path("d/e/f")];
    let right = vec![path("a"), path("c/x"), path("d/e")];
    let mut one = FileSystemBuffer::new(local(1, "Local"), &left);
    one.merge(FileSystemBuffer::new(local(1, "Local"), &right));
    let mut two = FileSystemBuffer::new(local(1, "Local"), &right);
    two.merge(FileSystemBuffer::new(local(1, "Local"), &left));
    assert_eq!(texts(&one), vec!["a", "c", "d/e"]);
    assert_eq!(texts(&one), texts(&two));
}

#[test]
fn merge_is_idempotent() {
    let paths = vec![path("a/b"), path("c"), path("a/b/c")];
    let mut one = FileSystemBuffer::new(local(1, "Local"), &paths);
    let before = texts(&one);
    let copy = one.clone();
    one.merge(copy);
    assert_eq!(texts(&one), before);
    assert_eq!(before, vec!["a/b", "c"]);
}

#[test]
fn insert_merges_by_backend() {
    let mut buffer = Buffer::new(&3, "sales");
    assert_eq!(buffer.get_name(), "sales");
    assert_eq!(buffer.get_id(), 3);
    buffer.insert(FileSystemBuffer::new(local(1, "one"), &vec![path("a/b")]));
    buffer.insert(FileSystemBuffer::new(local(2, "two"), &vec![path("x")]));
    buffer.insert(FileSystemBuffer::new(local(1, "one"), &vec![path("a"), path("z")]));
    assert_eq!(buffer.file_systems().len(), 2);
    assert_eq!(texts(&buffer.file_systems()[0]), vec!["a", "z"]);
    assert_eq!(texts(&buffer.file_systems()[1]), vec!["x"]);
}

#[test]
fn paths_are_resolved_per_backend_kind() {
    let disk = local(1, "Local");
    let lake = remote(2, "lake", "bucket");
    assert_eq!(resolve_path(&disk, &path("data/2023"), ".parquet"), "data/2023/");
    assert_eq!(resolve_path(&disk, &path("data/a.parquet"), ".parquet"), "data/a.parquet");
    assert_eq!(resolve_path(&disk, &path(""), ".parquet"), "/");
    assert_eq!(resolve_path(&lake, &path("data/2023"), ".parquet"), "s3://bucket/data/2023/");
    assert_eq!(
        resolve_path(&lake, &path("data/a.parquet"), ".parquet"),
        "s3://bucket/data/a.parquet"
    );
    assert_eq!(resolve_path(&lake, &path(""), ".parquet"), "s3://bucket/");
    assert_eq!(ObjectStore::location(&RemoteConnection {
        region: String::new(),
        bucket: String::from("b"),
        access_key: String::new(),
        access_key_secret: String::new(),
        endpoint: String::new(),
    }), "s3://b");
}

#[test]
fn tables_are_named_after_backend_and_prefix() {
    assert_eq!(name_table(&local(1, "Local"), &path("data/2023/jan")), "Local.data.2023.jan");
    assert_eq!(name_table(&local(1, "Local"), &path("data")), "Local.data");
    assert_eq!(name_table(&local(1, "Local"), &path("")), "Local.");
    assert_eq!(name_table(&remote(1, "lake", "b"), &path("a.b/c")), "lake.a.b.c");
}

#[test]
fn register_plans_one_table_per_prefix() {
    let mut buffer = Buffer::new(&1, "sales");
    buffer.insert(FileSystemBuffer::new(
        local(1, "Local"),
        &vec![path("data/2023"), path("data/2023/jan")],
    ));
    let tables = buffer.register(".parquet");
    assert_eq!(tables.len(), 1);
    assert_eq!(tables[0].name, "Local.data.2023");
    assert_eq!(tables[0].path, "data/2023/");

    let names: Vec<String> = tables.iter().map(|t| t.name.clone()).collect();
    assert_eq!(
        view_statement(buffer.get_name(), &names),
        "CREATE VIEW 'sales' AS SELECT * FROM 'Local.data.2023';"
    );
}

#[test]
fn register_walks_backends_in_order() {
    let mut buffer = Buffer::new(&1, "all");
    buffer.insert(FileSystemBuffer::new(local(1, "Local"), &vec![path("a")]));
    buffer.insert(FileSystemBuffer::new(remote(2, "lake", "bkt"), &vec![path("x/y.parquet")]));
    let tables = buffer.register(".parquet");
    assert_eq!(tables.len(), 2);
    assert_eq!((tables[0].name.as_str(), tables[0].path.as_str()), ("Local.a", "a/"));
    assert_eq!(
        (tables[1].name.as_str(), tables[1].path.as_str()),
        ("lake.x.y.parquet", "s3://bkt/x/y.parquet")
    );
    assert_eq!(Buffer::new(&2, "none").register(".parquet").len(), 0);
}

#[test]
fn view_unions_all_tables() {
    let names = vec![String::from("a.x"), String::from("a.y"), String::from("b.z")];
    assert_eq!(
        view_statement("v", &names),
        "CREATE VIEW 'v' AS SELECT * FROM 'a.x' UNION ALL SELECT * FROM 'a.y' UNION ALL SELECT * FROM 'b.z';"
    );
    assert_eq!(view_statement("v", &Vec::new()), "CREATE VIEW 'v' AS ;");
}

#[test]
fn registered_keeps_the_tables_that_succeeded() {
    let tables: Vec<ListingTable> = ["a", "b", "c"]
        .iter()
        .map(|n| ListingTable { name: String::from(*n), path: String::from("p/") })
        .collect();
    assert_eq!(registered(&tables, &vec![true, false, true]), vec!["a", "c"]);
    assert_eq!(registered(&tables, &vec![true, true, true]), vec!["a", "b", "c"]);
    assert_eq!(registered(&tables, &vec![false, false, false]), Vec::<String>::new());
    assert_eq!(registered(&tables, &vec![true]), vec!["a"]);
    assert_eq!(tables[0].clone().name, "a");
}

#[test]
fn sample_is_the_first_prefix_of_the_first_backend() {
    let mut buffer = Buffer::new(&4, "b");
    buffer.insert(FileSystemBuffer::new(local(7, "Local"), &vec![path("first"), path("second")]));
    buffer.insert(FileSystemBuffer::new(local(8, "Other"), &vec![path("third")]));
    let (file_system, prefix) = buffer.get_sample_prefix().unwrap();
    assert_eq!(file_system.store().metadata.id, 7);
    assert!(prefix.same_as(file_system.prefixes()[0]));
    match buffer.get_schema(false).unwrap() {
        SchemaSource::Sample { file_system, prefix } => {
            assert_eq!(file_system.store().metadata.id, 7);
            assert!(prefix.same_as(file_system.prefixes()[0]));
        }
        SchemaSource::Cached => panic!("nothing is cached"),
    }
    assert!(matches!(buffer.get_schema(true), Ok(SchemaSource::Cached)));
}

#[test]
fn sample_of_an_empty_buffer_is_not_found() {
    let buffer = Buffer::new(&12, "empty");
    match buffer.get_sample_prefix() {
        Err(Error::NotFound(text)) => assert_eq!(text, "no file systems in buffer 12"),
        _ => panic!("expected not found"),
    }
    assert!(matches!(buffer.get_schema(false), Err(Error::NotFound(_))));
    assert!(matches!(buffer.get_schema(true), Ok(SchemaSource::Cached)));

    let mut buffer = Buffer::new(&12, "hollow");
    buffer.insert(FileSystemBuffer::new(local(305, "Local"), &Vec::new()));
    match buffer.get_sample_prefix() {
        Err(Error::NotFound(text)) => {
            assert_eq!(text, "no prefixes for file system 305 in buffer 12")
        }
        _ => panic!("expected not found"),
    }
}

#[test]
fn schema_comes_from_the_first_object_that_infers() {
    let mut buffer = Buffer::new(&9, "b");
    buffer.insert(FileSystemBuffer::new(local(4, "Local"), &vec![path("p")]));
    let file_system = &buffer.file_systems()[0];
    assert_eq!(buffer.choose_schema(file_system, &vec![false, false, true, true]).unwrap(), 2);
    assert_eq!(buffer.choose_schema(file_system, &vec![true]).unwrap(), 0);
    for outcomes in [vec![], vec![false], vec![false, false]] {
        match buffer.choose_schema(file_system, &outcomes) {
            Err(Error::NotFound(text)) => {
                assert_eq!(text, "failed to find schema for file system 4 buffer 9")
            }
            _ => panic!("expected not found"),
        }
    }
}

#[test]
fn query_is_plain_data() {
    let query = Query { statement: String::from("SELECT 1"), buffer: 3 };
    let copy = query.clone();
    assert_eq!(copy.statement, "SELECT 1");
    assert_eq!(copy.buffer, 3);
}
