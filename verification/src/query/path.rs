//! Storage paths: delimiter-separated, normalized object locations, and the
//! prefix order on them.

use object_store::path::Path;
use vstd::prelude::*;

use crate::errors::Error;
use object_store::path::Error as PathError;

verus! {

/// The character that separates the segments of a path.
pub open spec fn delimiter() -> char {
    '/'
}

/// `text` without one leading delimiter, if it has one.
pub open spec fn strip_leading(text: Seq<char>) -> Seq<char> {
    if text.len() > 0 && text[0] == delimiter() {
        text.skip(1)
    } else {
        text
    }
}

/// `text` without one trailing delimiter, if it has one.
pub open spec fn strip_trailing(text: Seq<char>) -> Seq<char> {
    if text.len() > 0 && text.last() == delimiter() {
        text.drop_last()
    } else {
        text
    }
}

/// The normal form of `text`: one leading and one trailing delimiter are
/// dropped. A text that is empty after the leading delimiter is the root.
pub open spec fn normalized(text: Seq<char>) -> Seq<char> {
    let inner = strip_leading(text);
    if inner.len() == 0 {
        inner
    } else {
        strip_trailing(inner)
    }
}

/// Whether `text[from..to]` is a segment of `text`: a maximal run without a
/// delimiter, bounded on each side by a delimiter or by an end of the text.
pub open spec fn is_segment(text: Seq<char>, from: int, to: int) -> bool {
    &&& 0 <= from <= to <= text.len()
    &&& (from == 0 || text[from - 1] == delimiter())
    &&& (to == text.len() || text[to] == delimiter())
    &&& forall|k: int| from <= k < to ==> text[k] != delimiter()
}

/// Whether `c` is an ASCII control character.
pub open spec fn is_control(c: char) -> bool {
    (c as u32) < 0x20 || (c as u32) == 0x7f
}

/// Whether `segment` may stand in a path: it is not empty, is neither `.` nor
/// `..`, and holds no ASCII control character.
pub open spec fn valid_segment(segment: Seq<char>) -> bool {
    &&& segment.len() > 0
    &&& segment != seq!['.']
    &&& segment != seq!['.', '.']
    &&& forall|k: int| 0 <= k < segment.len() ==> !is_control(#[trigger] segment[k])
}

/// Whether every segment of `text` is valid.
pub open spec fn valid_segments(text: Seq<char>) -> bool {
    forall|from: int, to: int| #[trigger]
        is_segment(text, from, to) ==> valid_segment(text.subrange(from, to))
}

/// Whether `text` can be read as a path: after one leading delimiter is
/// dropped it is empty, or, with one trailing delimiter dropped too, all its
/// segments are valid.
pub open spec fn parses(text: Seq<char>) -> bool {
    strip_leading(text).len() == 0 || valid_segments(normalized(text))
}

/// Whether `raw` is a path in normal form: the root, or valid segments joined
/// by single delimiters.
pub open spec fn is_normal(raw: Seq<char>) -> bool {
    raw.len() == 0 || valid_segments(raw)
}

/// The prefix order on paths: `prefix` covers `path` when `path` starts with
/// `prefix` and continues, if at all, at a segment boundary. The root covers
/// every path.
pub open spec fn covers(prefix: Seq<char>, path: Seq<char>) -> bool {
    &&& prefix.is_prefix_of(path)
    &&& (prefix.len() == 0 || path.len() == prefix.len() || path[prefix.len() as int]
        == delimiter())
}

/// A normal path neither starts nor ends with a delimiter.
pub proof fn lemma_normal_has_no_outer_delimiter(raw: Seq<char>)
    requires
        is_normal(raw),
        raw.len() > 0,
    ensures
        raw[0] != delimiter(),
        raw.last() != delimiter(),
{
    if raw[0] == delimiter() {
        assert(is_segment(raw, 0, 0));
    }
    if raw.last() == delimiter() {
        let n = raw.len() as int;
        assert(is_segment(raw, n, n));
    }
}

/// Reading a path yields a normal path, and a normal path reads as itself.
pub proof fn lemma_normalized_is_normal(text: Seq<char>)
    requires
        parses(text),
    ensures
        is_normal(normalized(text)),
        parses(normalized(text)),
        normalized(normalized(text)) == normalized(text),
{
    let raw = normalized(text);
    if raw.len() > 0 {
        lemma_normal_has_no_outer_delimiter(raw);
    }
}

/// One leading and one trailing delimiter are ignored: a normal path that is
/// not the root reads as itself with either or both added.
pub proof fn lemma_outer_delimiters_are_ignored(raw: Seq<char>)
    requires
        is_normal(raw),
        raw.len() > 0,
    ensures
        parses(raw) && normalized(raw) == raw,
        parses(raw.push(delimiter())) && normalized(raw.push(delimiter())) == raw,
        parses(seq![delimiter()] + raw) && normalized(seq![delimiter()] + raw) == raw,
        parses(seq![delimiter()] + raw.push(delimiter())) && normalized(
            seq![delimiter()] + raw.push(delimiter()),
        ) == raw,
{
    lemma_normal_has_no_outer_delimiter(raw);
    let slash = seq![delimiter()];
    assert(raw.push(delimiter()).drop_last() =~= raw);
    assert((slash + raw).skip(1) =~= raw);
    assert((slash + raw.push(delimiter())).skip(1) =~= raw.push(delimiter()));
}

/// The prefix order is reflexive.
pub proof fn lemma_covers_reflexive(a: Seq<char>)
    ensures
        covers(a, a),
{
}

/// The prefix order is antisymmetric.
pub proof fn lemma_covers_antisymmetric(a: Seq<char>, b: Seq<char>)
    requires
        covers(a, b),
        covers(b, a),
    ensures
        a == b,
{
}

/// The prefix order is transitive.
pub proof fn lemma_covers_transitive(a: Seq<char>, b: Seq<char>, c: Seq<char>)
    requires
        covers(a, b),
        covers(b, c),
    ensures
        covers(a, c),
{
}

/// Reads `text` as a path and returns its normal form.
///
/// Trusted: `object_store::path::Path::parse`, followed by the conversion of
/// the path into its raw string. The call drops one leading delimiter; if
/// nothing is left the result is the root. Otherwise it drops one trailing
/// delimiter and fails unless every segment between delimiters is non-empty,
/// is neither `.` nor `..`, and holds no ASCII control character.
#[verifier::external_body]
fn parse_raw(text: &str) -> (parsed: Result<String, PathError>)
    ensures
        parsed is Ok <==> parses(text@),
        parsed is Ok ==> parsed->Ok_0@ == normalized(text@),
{
    Path::parse(text).map(String::from)
}

/// Whether the normal path `prefix` covers the normal path `path`.
///
/// Trusted: `object_store::path::Path::prefix_matches`, called on the two
/// paths that the raw strings read as. The call strips `prefix` from the
/// front of `path` and, unless `prefix` or the rest is empty, asks that the
/// rest starts with a delimiter.
#[verifier::external_body]
fn raw_prefix_matches(path: &str, prefix: &str) -> (hit: bool)
    requires
        is_normal(path@),
        is_normal(prefix@),
    ensures
        hit == covers(prefix@, path@),
{
    match (Path::parse(path), Path::parse(prefix)) {
        (Ok(path), Ok(prefix)) => path.prefix_matches(&prefix),
        _ => false,
    }
}

/// A path in a storage backend, kept in normal form.
#[derive(Debug)]
pub struct StoragePath {
    raw: String,
}

impl View for StoragePath {
    type V = Seq<char>;

    closed spec fn view(&self) -> Seq<char> {
        self.raw@
    }
}

impl Clone for StoragePath {
    fn clone(&self) -> (copy: Self)
        ensures
            copy@ == self@,
    {
        proof {
            use_type_invariant(self);
        }
        StoragePath { raw: self.raw.clone() }
    }
}

impl StoragePath {
    #[verifier::type_invariant]
    spec fn well_formed(self) -> bool {
        is_normal(self.raw@)
    }

    /// Reads `text` as a path. One leading and one trailing delimiter are
    /// ignored; a text with an empty, relative or control-bearing segment is
    /// rejected.
    pub fn parse(text: &str) -> (parsed: Result<StoragePath, Error>)
        ensures
            parsed is Ok <==> parses(text@),
            parsed is Ok ==> parsed->Ok_0@ == normalized(text@),
            parsed is Err ==> parsed->Err_0 is Path,
    {
        match parse_raw(text) {
            Ok(raw) => {
                Ok(StoragePath { raw })
            },
            Err(e) => Err(Error::Path(e)),
        }
    }

    /// The root path, which covers every path.
    pub fn root() -> (path: StoragePath)
        ensures
            path@ == Seq::<char>::empty(),
    {
        StoragePath { raw: String::new() }
    }

    /// The path's normal form as text.
    pub fn as_str(&self) -> (text: &str)
        ensures
            text@ == self@,
    {
        self.raw.as_str()
    }

    /// The path's normal form as an owned string.
    pub fn to_string(&self) -> (text: String)
        ensures
            text@ == self@,
    {
        self.raw.clone()
    }

    /// Whether this path lies under `prefix` or is `prefix` itself.
    pub fn prefix_matches(&self, prefix: &StoragePath) -> (hit: bool)
        ensures
            hit == covers(prefix@, self@),
    {
        proof {
            use_type_invariant(self);
            use_type_invariant(prefix);
        }
        raw_prefix_matches(self.raw.as_str(), prefix.raw.as_str())
    }

    /// Whether the two paths are the same path.
    pub fn same_as(&self, other: &StoragePath) -> (same: bool)
        ensures
            same == (self@ == other@),
    {
        self.raw == other.raw
    }
}

} // verus!
