//! The library's error type.

use object_store::path::Error as PathError;
use url::ParseError;
use vstd::prelude::*;
use vstd::string::StringExecFns;

verus! {

/// `object_store::path::Error`, which the library carries through without
/// looking inside.
#[verifier::external_type_specification]
#[verifier::external_body]
pub struct ExPathError(PathError);

/// `url::ParseError`, which the library carries through without looking
/// inside.
#[verifier::external_type_specification]
#[verifier::external_body]
pub struct ExUrlParseError(ParseError);

/// What can go wrong in the library.
#[derive(Debug)]
pub enum Error {
    /// The user's home directory could not be determined.
    HomeDirNotFound,
    /// A line of the event log is not an event.
    FailedToDeserializeEvents,
    /// An event could not be written as a line of the event log.
    FailedToSerializeEvents,
    /// The event log could not be appended to.
    FailedToWriteToEventsFile,
    /// The application state could not be locked.
    FailedToGetStateLock,
    /// A referenced entity does not exist; the text says which.
    NotFound(String),
    /// A prefix is not a well-formed storage path.
    Path(PathError),
    /// A remote backend's bucket does not give a well-formed location.
    UrlParseError(ParseError),
}

/// What a path error says.
///
/// Trusted: `to_string` of `object_store::path::Error`. Nothing is claimed
/// of the text.
#[verifier::external_body]
fn path_error_text(error: &PathError) -> (text: String) {
    error.to_string()
}

/// What a URL error says.
///
/// Trusted: `to_string` of `url::ParseError`. Nothing is claimed of the text.
#[verifier::external_body]
fn url_error_text(error: &ParseError) -> (text: String) {
    error.to_string()
}

/// The text that says that `what` was not found.
pub open spec fn not_found_text(what: Seq<char>) -> Seq<char> {
    "not found `"@ + what + "`"@
}

impl Error {
    /// The error as one line of text. An error that came from reading a
    /// path or a URL says what that reading said.
    pub fn message(&self) -> (text: String)
        ensures
            self is HomeDirNotFound ==> text@ == "home dir not found"@,
            self is FailedToDeserializeEvents ==> text@ == "failed to deserialize events"@,
            self is FailedToSerializeEvents ==> text@ == "failed to serialize events"@,
            self is FailedToWriteToEventsFile ==> text@ == "failed to write to events file"@,
            self is FailedToGetStateLock ==> text@ == "failed to get state lock"@,
            self is NotFound ==> text@ == not_found_text(self->NotFound_0@),
    {
        match self {
            Error::HomeDirNotFound => String::from_str("home dir not found"),
            Error::FailedToDeserializeEvents => String::from_str("failed to deserialize events"),
            Error::FailedToSerializeEvents => String::from_str("failed to serialize events"),
            Error::FailedToWriteToEventsFile => String::from_str("failed to write to events file"),
            Error::FailedToGetStateLock => String::from_str("failed to get state lock"),
            Error::NotFound(what) => {
                let mut text = String::from_str("not found `");
                text.append(what.as_str());
                text.append("`");
                text
            },
            Error::Path(error) => path_error_text(error),
            Error::UrlParseError(error) => url_error_text(error),
        }
    }
}

} // verus!
