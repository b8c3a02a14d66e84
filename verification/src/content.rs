//! The contents of a place in a storage backend: its directories and files,
//! in ascending order of path.

use vstd::prelude::*;
use vstd::seq_lib::{to_multiset_build, to_multiset_insert};

verus! {

/// Whether an entry is a directory or a file.
#[derive(Debug, Clone, Copy, PartialEq, Eq, Structural)]
pub enum ContentKind {
    Directory,
    File,
}

/// One entry of a listing.
#[derive(Debug)]
pub struct Content {
    pub path: String,
    pub kind: ContentKind,
}

impl Clone for Content {
    fn clone(&self) -> (copy: Self)
        ensures
            copy == *self,
    {
        Content { path: self.path.clone(), kind: self.kind }
    }
}

impl Content {
    /// The entry at `path`: a directory if `is_dir`, else a file.
    pub fn new(path: String, is_dir: bool) -> (entry: Self)
        ensures
            entry.path == path,
            entry.kind == if is_dir {
                ContentKind::Directory
            } else {
                ContentKind::File
            },
    {
        if is_dir {
            return Self { path, kind: ContentKind::Directory };
        }
        Self { path, kind: ContentKind::File }
    }
}

/// The order of texts: character by character by code point, a text before
/// every longer text that it starts.
pub open spec fn text_le(a: Seq<char>, b: Seq<char>) -> bool
    decreases a.len(),
{
    if a.len() == 0 {
        true
    } else if b.len() == 0 {
        false
    } else if a[0] != b[0] {
        a[0] < b[0]
    } else {
        text_le(a.skip(1), b.skip(1))
    }
}

/// Of two texts one comes no later than the other.
pub proof fn lemma_text_le_total(a: Seq<char>, b: Seq<char>)
    ensures
        text_le(a, b) || text_le(b, a),
    decreases a.len(),
{
    if a.len() > 0 && b.len() > 0 {
        if a[0] == b[0] {
            lemma_text_le_total(a.skip(1), b.skip(1));
        }
    }
}

/// The order of texts is transitive.
pub proof fn lemma_text_le_transitive(a: Seq<char>, b: Seq<char>, c: Seq<char>)
    requires
        text_le(a, b),
        text_le(b, c),
    ensures
        text_le(a, c),
    decreases a.len(),
{
    if a.len() > 0 && b.len() > 0 && c.len() > 0 && a[0] == b[0] && b[0] == c[0] {
        lemma_text_le_transitive(a.skip(1), b.skip(1), c.skip(1));
    }
}

/// Whether `a` comes no later than `b`.
///
/// Trusted: `<=` on `str`, which compares the two strings byte by byte; on
/// UTF-8 that is the order of their characters by code point.
#[verifier::external_body]
fn text_precedes(a: &str, b: &str) -> (le: bool)
    ensures
        le == text_le(a@, b@),
{
    a <= b
}

/// Whether the entries stand in ascending order of path.
pub open spec fn ascending(items: Seq<Content>) -> bool {
    forall|i: int, j: int|
        0 <= i < j < items.len() ==> text_le((#[trigger] items[i]).path@, (#[trigger] items[j]).path@)
}

/// The entries in ascending order of path.
pub fn sort_by_path(items: Vec<Content>) -> (sorted: Vec<Content>)
    ensures
        sorted@.to_multiset() == items@.to_multiset(),
        ascending(sorted@),
{
    let mut rest = items;
    let mut sorted: Vec<Content> = Vec::new();
    assert(sorted@.to_multiset().add(rest@.to_multiset()) =~= items@.to_multiset()) by {
        sorted@.to_multiset_ensures();
    }
    while rest.len() > 0
        invariant
            sorted@.to_multiset().add(rest@.to_multiset()) == items@.to_multiset(),
            ascending(sorted@),
        decreases rest.len(),
    {
        let ghost rest_before = rest@;
        let ghost sorted_before = sorted@;
        let item = rest.pop().unwrap();
        let mut at: usize = 0;
        while at < sorted.len() && text_precedes(sorted[at].path.as_str(), item.path.as_str())
            invariant
                at <= sorted.len(),
                forall|t: int| 0 <= t < at ==> text_le((#[trigger] sorted[t]).path@, item.path@),
            decreases sorted.len() - at,
        {
            at = at + 1;
        }
        let ghost path = item.path@;
        sorted.insert(at, item);
        proof {
            assert(rest_before =~= rest@.push(item));
            to_multiset_build(rest@, item);
            to_multiset_insert(sorted_before, at as int, item);
            assert forall|i: int, j: int| 0 <= i < j < sorted@.len() implies text_le(
                (#[trigger] sorted@[i]).path@,
                (#[trigger] sorted@[j]).path@,
            ) by {
                if i == at {
                    let next = sorted_before[at as int].path@;
                    lemma_text_le_total(next, path);
                    if j - 1 > at {
                        lemma_text_le_transitive(path, next, sorted_before[j - 1].path@);
                    }
                }
            }
        }
    }
    assert(sorted@.to_multiset() =~= items@.to_multiset()) by {
        rest@.to_multiset_ensures();
    }
    sorted
}

/// The contents of a place in a storage backend.
#[derive(Debug)]
pub struct Contents {
    pub path: String,
    pub items: Vec<Content>,
}

/// The entries for the listed files and directories, files first.
pub open spec fn entries(files: Seq<String>, dirs: Seq<String>) -> Seq<Content> {
    files.map_values(|path: String| Content { path, kind: ContentKind::File }) + dirs.map_values(
        |path: String| Content { path, kind: ContentKind::Directory },
    )
}

impl Contents {
    /// The contents of `path`, given the files and the directories that were
    /// listed there: one entry for each, in ascending order of path.
    pub fn from_listing(path: String, files: Vec<String>, dirs: Vec<String>) -> (contents: Self)
        ensures
            contents.path == path,
            contents.items@.to_multiset() == entries(files@, dirs@).to_multiset(),
            ascending(contents.items@),
    {
        let ghost file_entries = files@.map_values(
            |path: String| Content { path, kind: ContentKind::File },
        );
        let ghost dir_entries = dirs@.map_values(
            |path: String| Content { path, kind: ContentKind::Directory },
        );
        let mut items: Vec<Content> = Vec::new();
        let mut i: usize = 0;
        while i < files.len()
            invariant
                i <= files.len(),
                file_entries == files@.map_values(
                    |path: String| Content { path, kind: ContentKind::File },
                ),
                items@ == file_entries.take(i as int),
            decreases files.len() - i,
        {
            items.push(Content::new(files[i].clone(), false));
            i = i + 1;
        }
        let mut j: usize = 0;
        while j < dirs.len()
            invariant
                j <= dirs.len(),
                dir_entries == dirs@.map_values(
                    |path: String| Content { path, kind: ContentKind::Directory },
                ),
                items@ == file_entries + dir_entries.take(j as int),
            decreases dirs.len() - j,
        {
            items.push(Content::new(dirs[j].clone(), true));
            j = j + 1;
        }
        assert(dir_entries.take(j as int) =~= dir_entries);
        Contents { path, items: sort_by_path(items) }
    }
}

} // verus!
