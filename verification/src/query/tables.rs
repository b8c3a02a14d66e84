//! What a buffer asks of the query engine: the listing tables to register,
//! the view that unions them, and the sample from which its schema is read.

use vstd::prelude::*;
use vstd::string::StringExecFns;

use crate::errors::Error;
use crate::query::path::StoragePath;
use crate::query::path_utils::ref_views;
use crate::query::{Buffer, FileSystemBuffer};
use crate::state::store::{base_location, Connection, ObjectStore};
use crate::text::{decimal, decimal_string, ends_with, join, joined, replace_char, replaced};

verus! {

/// A listing table to register with the query engine: its name and the
/// location that it lists.
#[derive(Debug)]
pub struct ListingTable {
    pub name: String,
    pub path: String,
}

/// What a `ListingTable` stands for.
pub struct ListingTableView {
    pub name: Seq<char>,
    pub path: Seq<char>,
}

impl View for ListingTable {
    type V = ListingTableView;

    open spec fn view(&self) -> ListingTableView {
        ListingTableView { name: self.name@, path: self.path@ }
    }
}

impl Clone for ListingTable {
    fn clone(&self) -> (copy: Self)
        ensures
            copy == *self,
    {
        ListingTable { name: self.name.clone(), path: self.path.clone() }
    }
}

/// Where a prefix of a backend is reached: a local prefix as it is, a remote
/// one below the location of the backend's bucket.
pub open spec fn access_path(connection: Connection, prefix: Seq<char>) -> Seq<char> {
    match connection {
        Connection::Local(_) => prefix,
        Connection::Remote(remote) => base_location(remote.bucket@) + "/"@ + prefix,
    }
}

/// The location that the engine lists for a prefix: its access path, closed
/// with a delimiter unless it names a single file of the given extension or
/// ends with a delimiter already.
pub open spec fn listing_path(connection: Connection, prefix: Seq<char>, extension: Seq<char>) -> Seq<
    char,
> {
    let path = access_path(connection, prefix);
    if extension.is_suffix_of(path) || "/"@.is_suffix_of(path) {
        path
    } else {
        path + "/"@
    }
}

/// The name of the table for a prefix of a backend: the backend's name, a
/// dot, and the prefix with dots for delimiters.
pub open spec fn table_name(backend: Seq<char>, prefix: Seq<char>) -> Seq<char> {
    backend + "."@ + replaced(prefix, '/', '.')
}

/// The listing table for one prefix of a backend.
pub open spec fn listing(store: ObjectStore, prefix: Seq<char>, extension: Seq<char>) -> ListingTableView {
    ListingTableView {
        name: table_name(store.metadata.name@, prefix),
        path: listing_path(store.connection, prefix, extension),
    }
}

/// The listing tables for the prefixes of one backend, in order.
pub open spec fn part_plan(store: ObjectStore, prefixes: Seq<Seq<char>>, extension: Seq<char>) -> Seq<
    ListingTableView,
> {
    prefixes.map_values(|prefix: Seq<char>| listing(store, prefix, extension))
}

/// The listing tables for all selections: one table per backend and prefix,
/// backend by backend.
pub open spec fn plan(parts: Seq<FileSystemBuffer>, extension: Seq<char>) -> Seq<ListingTableView>
    decreases parts.len(),
{
    if parts.len() == 0 {
        Seq::empty()
    } else {
        plan(parts.drop_last(), extension) + part_plan(
            parts.last()@.store,
            parts.last().prefix_list(),
            extension,
        )
    }
}

/// What each table stands for, in order.
pub open spec fn table_views(tables: Seq<ListingTable>) -> Seq<ListingTableView> {
    tables.map_values(|table: ListingTable| table@)
}

/// The texts of the strings, in order.
pub open spec fn texts(strings: Seq<String>) -> Seq<Seq<char>> {
    strings.map_values(|s: String| s@)
}

/// The statement that selects every row of the table `name`.
pub open spec fn select_all(name: Seq<char>) -> Seq<char> {
    "SELECT * FROM '"@ + name + "'"@
}

/// The statement that creates the view `table` as the union of all rows of
/// the tables `names`.
pub open spec fn view_sql(table: Seq<char>, names: Seq<Seq<char>>) -> Seq<char> {
    "CREATE VIEW '"@ + table + "' AS "@ + joined(
        names.map_values(|name: Seq<char>| select_all(name)),
        " UNION ALL "@,
    ) + ";"@
}

/// The names of the tables whose registration succeeded, in order. A table
/// without an outcome counts as not registered.
pub open spec fn registered_names(tables: Seq<ListingTableView>, outcomes: Seq<bool>) -> Seq<
    Seq<char>,
>
    decreases tables.len(),
{
    if tables.len() == 0 {
        Seq::empty()
    } else {
        let earlier = registered_names(tables.drop_last(), outcomes);
        let last = tables.len() - 1;
        if last < outcomes.len() && outcomes[last] {
            earlier.push(tables.last().name)
        } else {
            earlier
        }
    }
}

/// The text that says that a buffer has no selection at all.
pub open spec fn no_file_systems_text(buffer: usize) -> Seq<char> {
    "no file systems in buffer "@ + decimal(buffer as nat)
}

/// The text that says that a buffer's selection from a backend is empty.
pub open spec fn no_prefixes_text(backend: usize, buffer: usize) -> Seq<char> {
    "no prefixes for file system "@ + decimal(backend as nat) + " in buffer "@ + decimal(
        buffer as nat,
    )
}

/// The text that says that no sampled object gave a schema.
pub open spec fn no_schema_text(backend: usize, buffer: usize) -> Seq<char> {
    "failed to find schema for file system "@ + decimal(backend as nat) + " buffer "@ + decimal(
        buffer as nat,
    )
}

/// Whether `at` is the first outcome that is a success.
pub open spec fn is_first_success(outcomes: Seq<bool>, at: int) -> bool {
    &&& 0 <= at < outcomes.len()
    &&& outcomes[at]
    &&& forall|t: int| 0 <= t < at ==> !outcomes[t]
}

/// Where a buffer's schema comes from.
#[derive(Debug)]
pub enum SchemaSource<'a> {
    /// The schema is cached: nothing is to be read.
    Cached,
    /// The schema is to be inferred from the objects listed under `prefix`
    /// in the backend of `file_system`.
    Sample { file_system: &'a FileSystemBuffer, prefix: &'a StoragePath },
}

/// The location that the engine lists for `prefix` in `store`.
pub fn resolve_path(store: &ObjectStore, prefix: &StoragePath, extension: &str) -> (path: String)
    ensures
        path@ == listing_path(store.connection, prefix@, extension@),
{
    let mut path = match &store.connection {
        Connection::Local(_) => prefix.to_string(),
        Connection::Remote(remote) => {
            let mut base = ObjectStore::location(remote);
            base.append("/");
            base.append(prefix.as_str());
            base
        },
    };
    let is_file = ends_with(path.as_str(), extension);
    if !is_file {
        if !ends_with(path.as_str(), "/") {
            path.append("/");
        }
    }
    path
}

/// The name of the table for `prefix` in `store`.
pub fn name_table(store: &ObjectStore, prefix: &StoragePath) -> (name: String)
    ensures
        name@ == table_name(store.metadata.name@, prefix@),
{
    let mut name = store.metadata.name.clone();
    name.append(".");
    let dotted = replace_char(prefix.as_str(), '/', '.');
    name.append(dotted.as_str());
    name
}

/// The statement that creates the view `table` as the union of all rows of
/// the tables `names`.
pub fn view_statement(table: &str, names: &Vec<String>) -> (statement: String)
    ensures
        statement@ == view_sql(table@, texts(names@)),
{
    let ghost selects = texts(names@).map_values(|name: Seq<char>| select_all(name));
    let mut parts: Vec<String> = Vec::new();
    let mut i: usize = 0;
    while i < names.len()
        invariant
            i <= names.len(),
            selects == texts(names@).map_values(|name: Seq<char>| select_all(name)),
            texts(parts@) == selects.take(i as int),
        decreases names.len() - i,
    {
        let mut select = String::from_str("SELECT * FROM '");
        select.append(names[i].as_str());
        select.append("'");
        let ghost before = parts@;
        parts.push(select);
        assert(texts(parts@) =~= texts(before).push(select@));
        i = i + 1;
    }
    assert(selects.take(i as int) =~= selects);
    let union = join(&parts, " UNION ALL ");
    let mut statement = String::from_str("CREATE VIEW '");
    statement.append(table);
    statement.append("' AS ");
    statement.append(union.as_str());
    statement.append(";");
    statement
}

/// The names of the tables whose registration succeeded, in order.
pub fn registered(tables: &Vec<ListingTable>, outcomes: &Vec<bool>) -> (names: Vec<String>)
    ensures
        texts(names@) == registered_names(table_views(tables@), outcomes@),
{
    let mut names: Vec<String> = Vec::new();
    let mut i: usize = 0;
    while i < tables.len()
        invariant
            i <= tables.len(),
            texts(names@) == registered_names(table_views(tables@).take(i as int), outcomes@),
        decreases tables.len() - i,
    {
        let ghost grown = table_views(tables@).take(i + 1);
        assert(grown.drop_last() =~= table_views(tables@).take(i as int));
        if i < outcomes.len() && outcomes[i] {
            let ghost before = names@;
            let name = tables[i].name.clone();
            names.push(name);
        }
        i = i + 1;
    }
    assert(table_views(tables@).take(i as int) =~= table_views(tables@));
    names
}

impl Buffer {
    /// The listing tables that make up the buffer: one per backend and
    /// prefix, each to be registered with the buffer's schema and the file
    /// format that `extension` belongs to.
    pub fn register(&self, extension: &str) -> (tables: Vec<ListingTable>)
        ensures
            table_views(tables@) == plan(self.parts(), extension@),
    {
        let parts = self.file_systems();
        let mut tables: Vec<ListingTable> = Vec::new();
        let mut i: usize = 0;
        while i < parts.len()
            invariant
                i <= parts.len(),
                table_views(tables@) == plan(parts@.take(i as int), extension@),
            decreases parts.len() - i,
        {
            let file_system = &parts[i];
            let store = file_system.store();
            let prefixes = file_system.prefixes();
            let ghost done = plan(parts@.take(i as int), extension@);
            let ghost list = file_system.prefix_list();
            let mut j: usize = 0;
            while j < prefixes.len()
                invariant
                    j <= prefixes.len(),
                    ref_views(prefixes@) == list,
                    table_views(tables@) == done + part_plan(*store, list.take(j as int), extension@),
                decreases prefixes.len() - j,
            {
                let prefix = prefixes[j];
                let table = ListingTable {
                    name: name_table(store, prefix),
                    path: resolve_path(store, prefix, extension),
                };
                let ghost before = tables@;
                tables.push(table);
                proof {
                    assert(table_views(tables@) =~= table_views(before).push(table@));
                }
                j = j + 1;
            }
            proof {
                let grown = parts@.take(i + 1);
                assert(grown.drop_last() =~= parts@.take(i as int));
            }
            i = i + 1;
        }
        assert(parts@.take(i as int) =~= parts@);
        tables
    }

    /// The selection and prefix from which the buffer's schema is sampled:
    /// the first prefix of the first selection.
    pub fn get_sample_prefix(&self) -> (sample: Result<(&FileSystemBuffer, &StoragePath), Error>)
        ensures
            self.parts().len() == 0 ==> sample is Err && sample->Err_0 is NotFound
                && sample->Err_0->NotFound_0@ == no_file_systems_text(self@.id),
            self.parts().len() > 0 && self.parts()[0].prefix_list().len() == 0 ==> sample is Err
                && sample->Err_0 is NotFound && sample->Err_0->NotFound_0@ == no_prefixes_text(
                self.parts()[0]@.store.metadata.id,
                self@.id,
            ),
            self.parts().len() > 0 && self.parts()[0].prefix_list().len() > 0 ==> sample is Ok
                && *sample->Ok_0.0 == self.parts()[0] && sample->Ok_0.1@
                == self.parts()[0].prefix_list()[0],
    {
        let parts = self.file_systems();
        if parts.len() == 0 {
            let mut text = String::from_str("no file systems in buffer ");
            text.append(decimal_string(self.get_id()).as_str());
            return Err(Error::NotFound(text));
        }
        let file_system = &parts[0];
        match file_system.first_prefix() {
            Some(prefix) => Ok((file_system, prefix)),
            None => {
                let mut text = String::from_str("no prefixes for file system ");
                text.append(decimal_string(file_system.store().metadata.id).as_str());
                text.append(" in buffer ");
                text.append(decimal_string(self.get_id()).as_str());
                Err(Error::NotFound(text))
            },
        }
    }

    /// Where the buffer's schema comes from: the cache if it is filled, else
    /// the sample prefix, whose objects are then tried in turn.
    pub fn get_schema(&self, cached: bool) -> (source: Result<SchemaSource<'_>, Error>)
        ensures
            cached ==> source is Ok && source->Ok_0 is Cached,
            !cached && self.parts().len() == 0 ==> source is Err && source->Err_0 is NotFound
                && source->Err_0->NotFound_0@ == no_file_systems_text(self@.id),
            !cached && self.parts().len() > 0 && self.parts()[0].prefix_list().len() == 0
                ==> source is Err && source->Err_0 is NotFound && source->Err_0->NotFound_0@
                == no_prefixes_text(self.parts()[0]@.store.metadata.id, self@.id),
            !cached && self.parts().len() > 0 && self.parts()[0].prefix_list().len() > 0
                ==> source is Ok && source->Ok_0 is Sample && *source->Ok_0->file_system
                == self.parts()[0] && source->Ok_0->prefix@ == self.parts()[0].prefix_list()[0],
    {
        if cached {
            return Ok(SchemaSource::Cached);
        }
        match self.get_sample_prefix() {
            Ok((file_system, prefix)) => Ok(SchemaSource::Sample { file_system, prefix }),
            Err(e) => Err(e),
        }
    }

    /// Which of the sampled objects gives the buffer's schema: the first one
    /// whose inference succeeded. Objects that failed are skipped; if all
    /// failed, or none was listed, no schema is found.
    pub fn choose_schema(&self, file_system: &FileSystemBuffer, outcomes: &Vec<bool>) -> (chosen:
        Result<usize, Error>)
        ensures
            chosen is Ok <==> exists|at: int| is_first_success(outcomes@, at),
            chosen is Ok ==> is_first_success(outcomes@, chosen->Ok_0 as int),
            chosen is Err ==> chosen->Err_0 is NotFound && chosen->Err_0->NotFound_0@
                == no_schema_text(file_system@.store.metadata.id, self@.id),
    {
        let mut i: usize = 0;
        while i < outcomes.len() && !outcomes[i]
            invariant
                i <= outcomes.len(),
                forall|t: int| 0 <= t < i ==> !outcomes[t],
            decreases outcomes.len() - i,
        {
            i = i + 1;
        }
        if i < outcomes.len() {
            assert(is_first_success(outcomes@, i as int));
            Ok(i)
        } else {
            let mut text = String::from_str("failed to find schema for file system ");
            text.append(decimal_string(file_system.store().metadata.id).as_str());
            text.append(" buffer ");
            text.append(decimal_string(self.get_id()).as_str());
            Err(Error::NotFound(text))
        }
    }
}

} // verus!
