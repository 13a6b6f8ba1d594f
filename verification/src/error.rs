//! What can go wrong while a capsule is built.

use vstd::prelude::*;
use vstd::std_specs::convert::FromSpecImpl;
use vstd::string::*;

verus! {

/// The errors of this library.
#[derive(Debug)]
pub enum Error {
    /// An error opening the page in an editor
    EditorError(String),
    /// An error while formatting data
    FormatError,
    /// An error with an incorrect path prefix
    PathPrefixError,
    /// An error parsing a boolean from the command line
    ParseBoolError,
    /// An error parsing an integer from the command line
    ParseIntError,
    /// An error parsing an enum type from a string slice
    ParseEnumError,
    /// An error parsing the time of publication
    TimeError(chrono::ParseError),
    /// An error parsing a url
    UrlError(url::ParseError),
    /// Another, unexpected, error
    OtherError(String),
}

/// What an error reports: a time that is no date and time, a URL that
/// cannot be made, or something else.
#[derive(Clone, Copy, Debug, PartialEq, Eq, Structural)]
pub enum Failure {
    Time,
    Url,
    Other,
}

impl Error {
    /// What this error reports.
    pub open spec fn failure(&self) -> Failure {
        match self {
            Error::TimeError(_) => Failure::Time,
            Error::UrlError(_) => Failure::Url,
            _ => Failure::Other,
        }
    }

    /// The message of this error, as it is shown to the user. The fixed
    /// messages are stated; the others are the outside error's own words.
    pub fn message(&self) -> (s: String)
        ensures
            self is FormatError ==> s@ == "Format error"@,
            self is PathPrefixError ==> s@ == "Path prefix error"@,
            self is ParseBoolError ==> s@ == "Parse bool error"@,
            self is ParseIntError ==> s@ == "Parse int error"@,
            self is ParseEnumError ==> s@ == "Parse enum error"@,
            self matches Error::EditorError(e) ==> s@ == e@,
            self matches Error::OtherError(e) ==> s@ == e@,
    {
        match self {
            Error::FormatError => String::from_str("Format error"),
            Error::PathPrefixError => String::from_str("Path prefix error"),
            Error::ParseBoolError => String::from_str("Parse bool error"),
            Error::ParseIntError => String::from_str("Parse int error"),
            Error::ParseEnumError => String::from_str("Parse enum error"),
            Error::TimeError(e) => e.to_string(),
            Error::UrlError(e) => e.to_string(),
            Error::EditorError(e) => e.clone(),
            Error::OtherError(e) => e.clone(),
        }
    }
}

impl From<String> for Error {
    fn from(s: String) -> (e: Error) {
        Error::OtherError(s)
    }
}

impl FromSpecImpl<String> for Error {
    open spec fn obeys_from_spec() -> bool {
        true
    }

    open spec fn from_spec(s: String) -> Error {
        Error::OtherError(s)
    }
}

impl From<chrono::ParseError> for Error {
    fn from(err: chrono::ParseError) -> (e: Error) {
        Error::TimeError(err)
    }
}

impl FromSpecImpl<chrono::ParseError> for Error {
    open spec fn obeys_from_spec() -> bool {
        true
    }

    open spec fn from_spec(err: chrono::ParseError) -> Error {
        Error::TimeError(err)
    }
}

impl From<url::ParseError> for Error {
    fn from(err: url::ParseError) -> (e: Error) {
        Error::UrlError(err)
    }
}

impl FromSpecImpl<url::ParseError> for Error {
    open spec fn obeys_from_spec() -> bool {
        true
    }

    open spec fn from_spec(err: url::ParseError) -> Error {
        Error::UrlError(err)
    }
}

} // verus!
