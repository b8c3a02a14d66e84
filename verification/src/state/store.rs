//! Storage backends: what they are called, how they are reached, and whether
//! they have been attached to the query engine.

use directories::UserDirs;
use url::ParseError;
use url::Url;
use vstd::prelude::*;
use vstd::string::StringExecFns;

use crate::errors::Error;

verus! {

/// `url::Url`, which the library carries through without looking inside.
#[verifier::external_type_specification]
#[verifier::external_body]
pub struct ExUrl(Url);

/// Whether a backend lives on the local disk or in a remote object store.
#[derive(Debug, Clone, Copy, PartialEq, Eq, Structural)]
pub enum ObjectStoreKind {
    Local,
    Remote,
}

/// What a storage backend is called and where it is rooted.
#[derive(Debug)]
pub struct Metadata {
    pub id: usize,
    pub name: String,
    pub prefix: String,
    pub kind: ObjectStoreKind,
}

impl Clone for Metadata {
    fn clone(&self) -> (copy: Self)
        ensures
            copy == *self,
    {
        Metadata {
            id: self.id,
            name: self.name.clone(),
            prefix: self.prefix.clone(),
            kind: self.kind,
        }
    }
}

impl Metadata {
    /// The same backend rooted at `prefix`.
    pub fn with_prefix(&self, prefix: String) -> (moved: Self)
        ensures
            moved == (Metadata { prefix, ..*self }),
    {
        Metadata { id: self.id, name: self.name.clone(), prefix, kind: self.kind }
    }
}

/// How a local backend is reached: it needs nothing.
#[derive(Debug, Clone, Copy, PartialEq, Eq, Structural)]
pub struct LocalConnection {}

/// How a remote backend is reached.
#[derive(Debug)]
pub struct RemoteConnection {
    pub region: String,
    pub bucket: String,
    pub access_key: String,
    pub access_key_secret: String,
    pub endpoint: String,
}

impl Clone for RemoteConnection {
    fn clone(&self) -> (copy: Self)
        ensures
            copy == *self,
    {
        RemoteConnection {
            region: self.region.clone(),
            bucket: self.bucket.clone(),
            access_key: self.access_key.clone(),
            access_key_secret: self.access_key_secret.clone(),
            endpoint: self.endpoint.clone(),
        }
    }
}

/// How a backend is reached.
#[derive(Debug)]
pub enum Connection {
    Local(LocalConnection),
    Remote(RemoteConnection),
}

impl Clone for Connection {
    fn clone(&self) -> (copy: Self)
        ensures
            copy == *self,
    {
        match self {
            Connection::Local(local) => Connection::Local(*local),
            Connection::Remote(remote) => Connection::Remote(remote.clone()),
        }
    }
}

/// The location under which a remote backend with this bucket is attached to
/// the query engine.
pub open spec fn base_location(bucket: Seq<char>) -> Seq<char> {
    "s3://"@ + bucket
}

/// Whether `text` is a well-formed URL.
pub uninterp spec fn url_parses(text: Seq<char>) -> bool;

/// Reads `text` as a URL.
///
/// Trusted: `url::Url::parse`. Whether it succeeds depends on `text` alone;
/// nothing is claimed of the URL it returns.
#[verifier::external_body]
fn parse_url(text: &str) -> (parsed: Result<Url, ParseError>)
    ensures
        parsed is Ok <==> url_parses(text@),
{
    Url::parse(text)
}

/// A storage backend as the application holds it.
#[derive(Debug)]
pub struct ObjectStore {
    pub registered: bool,
    pub metadata: Metadata,
    pub connection: Connection,
}

impl Clone for ObjectStore {
    fn clone(&self) -> (copy: Self)
        ensures
            copy == *self,
    {
        ObjectStore {
            registered: self.registered,
            metadata: self.metadata.clone(),
            connection: self.connection.clone(),
        }
    }
}

impl ObjectStore {
    /// A backend that has not been attached to the query engine yet.
    pub fn new(metadata: Metadata, connection: Connection) -> (store: Self)
        ensures
            store == (ObjectStore { registered: false, metadata, connection }),
    {
        ObjectStore { registered: false, metadata, connection }
    }

    /// Whether attaching this backend calls for a location: it is remote and
    /// has not been attached yet.
    pub open spec fn needs_location(&self) -> bool {
        !self.registered && self.connection is Remote
    }

    /// The text of the location under which this backend is attached.
    pub open spec fn location_text(&self) -> Seq<char> {
        base_location(self.connection->Remote_0.bucket@)
    }

    /// The text of the location under which a remote backend is attached.
    pub fn location(connection: &RemoteConnection) -> (text: String)
        ensures
            text@ == base_location(connection.bucket@),
    {
        let mut text = String::from_str("s3://");
        text.append(connection.bucket.as_str());
        text
    }

    /// Marks the backend as attached, given how reading its location went.
    /// With a location the backend becomes registered and the location is
    /// handed back for the caller to attach the client under; without one the
    /// backend stays as it was.
    pub fn attach(&mut self, location: Result<Url, ParseError>) -> (action: Result<
        Option<Url>,
        Error,
    >)
        ensures
            location is Ok ==> action == Ok::<Option<Url>, Error>(Some(location->Ok_0))
                && *final(self) == (ObjectStore { registered: true, ..*old(self) }),
            location is Err ==> action == Err::<Option<Url>, Error>(
                Error::UrlParseError(location->Err_0),
            ) && *final(self) == *old(self),
    {
        match location {
            Ok(url) => {
                self.registered = true;
                Ok(Some(url))
            },
            Err(e) => Err(Error::UrlParseError(e)),
        }
    }

    /// Attaches the backend at most once. A backend that is already
    /// registered is left alone. A local backend becomes registered and
    /// needs nothing more. A remote backend becomes registered if its
    /// location is a well-formed URL, which is handed back so that the caller
    /// attaches the client under it; otherwise the call fails and the backend
    /// stays unregistered.
    pub fn register(&mut self) -> (action: Result<Option<Url>, Error>)
        ensures
            !old(self).needs_location() ==> action == Ok::<Option<Url>, Error>(None)
                && *final(self) == (ObjectStore { registered: true, ..*old(self) }),
            old(self).needs_location() && url_parses(old(self).location_text()) ==> action is Ok
                && action->Ok_0 is Some && *final(self) == (ObjectStore {
                registered: true,
                ..*old(self)
            }),
            old(self).needs_location() && !url_parses(old(self).location_text()) ==> action is Err
                && action->Err_0 is UrlParseError && *final(self) == *old(self),
    {
        if self.registered {
            return Ok(None);
        }
        match &self.connection {
            Connection::Local(_) => {
                self.registered = true;
                Ok(None)
            },
            Connection::Remote(connection) => {
                let text = Self::location(connection);
                let parsed = parse_url(text.as_str());
                self.attach(parsed)
            },
        }
    }
}

/// Looks up the current user's home directory.
///
/// Trusted: `directories::UserDirs::new` and `UserDirs::home_dir`. The answer
/// depends on the process's environment, so nothing is claimed of it.
#[verifier::external_body]
fn lookup_home_dir() -> (found: Option<String>) {
    match UserDirs::new() {
        Some(dirs) => dirs.home_dir().to_str().map(String::from),
        None => None,
    }
}

/// The home directory that was found, or the error that says it was not.
pub fn home_dir_from(found: Option<String>) -> (home: Result<String, Error>)
    ensures
        found is Some ==> home == Ok::<String, Error>(found->0),
        found is None ==> home == Err::<String, Error>(Error::HomeDirNotFound),
{
    match found {
        Some(dir) => Ok(dir),
        None => Err(Error::HomeDirNotFound),
    }
}

/// The current user's home directory.
pub fn get_home_dir() -> (home: Result<String, Error>)
    ensures
        home is Err ==> home->Err_0 is HomeDirNotFound,
{
    home_dir_from(lookup_home_dir())
}

} // verus!
