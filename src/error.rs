use vstd::prelude::*;

use crate::router::{source_name, SourceType};

verus! {

/// Why a URL could not be parsed.
#[derive(Debug, Clone, PartialEq, Eq)]
pub enum UrlParseError {
    /// The text has no scheme: it is a relative reference.
    RelativeUrlWithoutBase,
    /// Any other parse failure, with the parser's description of it.
    Malformed { detail: String },
}

/// The error kinds shared by every storage backend.
///
/// Causes that come from a backend are carried as their message text.
#[derive(Debug)]
pub enum Error {
    Generic { store: SourceType, source: String },
    NotFound { path: String, source: String },
    InvalidArgument { msg: String },
    HomeDirError { path: String },
    UnableToOpenFile { path: String, source: String },
    UnableToCreateDir { path: String, source: String },
    UnableToReadBytes { path: String, source: String },
    UnableToWriteToFile { path: String, source: String },
    ConnectTimeout { path: String, source: String },
    ReadTimeout { path: String, source: String },
    SocketError { path: String, source: String },
    InvalidUrl { path: String, source: UrlParseError },
    NotAFile { path: String },
    UnableToDetermineSize { path: String },
    UnableToLoadCredentials { store: SourceType, source: String },
    UnableToCreateClient { store: SourceType, source: String },
    Unauthorized { store: SourceType, path: String, source: String },
    NotImplementedSource { store: String },
    Unhandled { path: String, msg: String },
    UnableToSendDataOverChannel { source: String },
    JoinError { source: String },
    CachedError { source: Box<Error> },
}

/// The classes into which the engine sorts an I/O error.
#[derive(Debug, Clone, Copy, PartialEq, Eq)]
pub enum EngineErrorKind {
    FileNotFound,
    ConnectTimeout,
    ReadTimeout,
    ByteStreamError,
    SocketError,
    External,
}

/// The engine-wide error into which every I/O error folds.
#[derive(Debug)]
pub enum EngineError {
    FileNotFound { path: String, source: Box<Error> },
    ConnectTimeout(Box<Error>),
    ReadTimeout(Box<Error>),
    ByteStreamError(Box<Error>),
    SocketError(Box<Error>),
    External(Box<Error>),
    ComputeError(String),
}

/// The class of an error that is not a cached one.
pub open spec fn direct_kind(e: Error) -> EngineErrorKind {
    match e {
        Error::NotFound { .. } => EngineErrorKind::FileNotFound,
        Error::ConnectTimeout { .. } => EngineErrorKind::ConnectTimeout,
        Error::ReadTimeout { .. } => EngineErrorKind::ReadTimeout,
        Error::UnableToReadBytes { .. } => EngineErrorKind::ByteStreamError,
        Error::SocketError { .. } => EngineErrorKind::SocketError,
        _ => EngineErrorKind::External,
    }
}

/// The class of an error: a cached error is classed by the error it wraps,
/// one level deep.
pub open spec fn engine_kind_spec(e: Error) -> EngineErrorKind {
    match e {
        Error::CachedError { source } => match *source {
            Error::CachedError { .. } => EngineErrorKind::External,
            inner => direct_kind(inner),
        },
        _ => direct_kind(e),
    }
}

/// The path that a not-found error names, looking through a cached error.
pub open spec fn not_found_path(e: Error) -> Seq<char> {
    match e {
        Error::NotFound { path, .. } => path@,
        Error::CachedError { source } => match *source {
            Error::NotFound { path, .. } => path@,
            _ => Seq::empty(),
        },
        _ => Seq::empty(),
    }
}

/// The text that reports an error to a user, naming the path, store and
/// cause that it carries.
pub open spec fn error_message(e: Error) -> Seq<char>
    decreases e,
{
    match e {
        Error::Generic { store, source } => "Generic "@ + source_name(store) + " error: "@ + source@,
        Error::NotFound { path, source } => "Object at location "@ + path@ + " not found\nDetails:\n"@
            + source@,
        Error::InvalidArgument { msg } => "Invalid Argument: \""@ + msg@ + "\""@,
        Error::HomeDirError { .. } => "Unable to expand home dir"@,
        Error::UnableToOpenFile { path, source } => "Unable to open file "@ + path@ + ": "@ + source@,
        Error::UnableToCreateDir { path, source } => "Unable to create directory "@ + path@ + ": "@
            + source@,
        Error::UnableToReadBytes { path, source } => "Unable to read data from file "@ + path@ + ": "@
            + source@,
        Error::UnableToWriteToFile { path, source } => "Unable to write data to file "@ + path@
            + ": "@ + source@,
        Error::ConnectTimeout { path, source } => "Connection timed out when trying to connect to "@
            + path@ + "\nDetails:\n"@ + source@,
        Error::ReadTimeout { path, source } => "Read timed out when trying to read "@ + path@
            + "\nDetails:\n"@ + source@,
        Error::SocketError { path, source } => "Socket error occurred when trying to read "@ + path@
            + "\nDetails:\n"@ + source@,
        Error::InvalidUrl { path, .. } => "Unable to convert URL \""@ + path@ + "\" to path"@,
        Error::NotAFile { path } => "Not a File: \""@ + path@ + "\""@,
        Error::UnableToDetermineSize { path } => "Unable to determine size of "@ + path@,
        Error::UnableToLoadCredentials { store, source } => "Unable to load Credentials for store: "@
            + source_name(store) + "\nDetails:\n"@ + source@,
        Error::UnableToCreateClient { store, source } => "Failed to load Credentials for store: "@
            + source_name(store) + "\nDetails:\n"@ + source@,
        Error::Unauthorized { store, path, source } => "Unauthorized to access store: "@ + source_name(
            store,
        ) + " for file: "@ + path@ + "\nYou may need to set valid Credentials\n"@ + source@,
        Error::NotImplementedSource { store } => "Source not yet implemented: "@ + store@,
        Error::Unhandled { path, msg } => "Unhandled Error for path: "@ + path@ + "\nDetails:\n"@
            + msg@,
        Error::UnableToSendDataOverChannel { source } => "Error sending data over a tokio channel: "@
            + source@,
        Error::JoinError { source } => "Error joining spawned task: "@ + source@,
        Error::CachedError { source } => "Cached error: "@ + error_message(*source),
    }
}

/// Whether a failure met while consuming a byte stream is transient, so that
/// reissuing the read may succeed.
pub open spec fn is_retryable_spec(e: Error) -> bool {
    match e {
        Error::ConnectTimeout { .. } => true,
        Error::ReadTimeout { .. } => true,
        Error::SocketError { .. } => true,
        Error::UnableToReadBytes { .. } => true,
        _ => false,
    }
}

impl EngineError {
    /// The class of this engine error; `None` for a compute error.
    pub open spec fn kind_spec(&self) -> Option<EngineErrorKind> {
        match self {
            EngineError::FileNotFound { .. } => Some(EngineErrorKind::FileNotFound),
            EngineError::ConnectTimeout(_) => Some(EngineErrorKind::ConnectTimeout),
            EngineError::ReadTimeout(_) => Some(EngineErrorKind::ReadTimeout),
            EngineError::ByteStreamError(_) => Some(EngineErrorKind::ByteStreamError),
            EngineError::SocketError(_) => Some(EngineErrorKind::SocketError),
            EngineError::External(_) => Some(EngineErrorKind::External),
            EngineError::ComputeError(_) => None,
        }
    }

    /// The I/O error that this engine error carries, if any.
    pub open spec fn cause_spec(&self) -> Option<Error> {
        match self {
            EngineError::FileNotFound { source, .. } => Some(**source),
            EngineError::ConnectTimeout(e) => Some(**e),
            EngineError::ReadTimeout(e) => Some(**e),
            EngineError::ByteStreamError(e) => Some(**e),
            EngineError::SocketError(e) => Some(**e),
            EngineError::External(e) => Some(**e),
            EngineError::ComputeError(_) => None,
        }
    }
}

fn cat2(a: &str, b: &str) -> (r: String)
    ensures
        r@ == a@ + b@,
{
    String::from_str(a).concat(b)
}

fn cat3(a: &str, b: &str, c: &str) -> (r: String)
    ensures
        r@ == a@ + b@ + c@,
{
    String::from_str(a).concat(b).concat(c)
}

fn cat4(a: &str, b: &str, c: &str, d: &str) -> (r: String)
    ensures
        r@ == a@ + b@ + c@ + d@,
{
    String::from_str(a).concat(b).concat(c).concat(d)
}

impl Error {
    /// The text that reports this error to a user.
    pub fn message(&self) -> (r: String)
        ensures
            r@ == error_message(*self),
        decreases *self,
    {
        match self {
            Error::Generic { store, source } => cat4("Generic ", store.name().as_str(), " error: ", source),
            Error::NotFound { path, source } => cat4(
                "Object at location ",
                path,
                " not found\nDetails:\n",
                source,
            ),
            Error::InvalidArgument { msg } => cat3("Invalid Argument: \"", msg, "\""),
            Error::HomeDirError { .. } => String::from_str("Unable to expand home dir"),
            Error::UnableToOpenFile { path, source } => cat4("Unable to open file ", path, ": ", source),
            Error::UnableToCreateDir { path, source } => cat4(
                "Unable to create directory ",
                path,
                ": ",
                source,
            ),
            Error::UnableToReadBytes { path, source } => cat4(
                "Unable to read data from file ",
                path,
                ": ",
                source,
            ),
            Error::UnableToWriteToFile { path, source } => cat4(
                "Unable to write data to file ",
                path,
                ": ",
                source,
            ),
            Error::ConnectTimeout { path, source } => cat4(
                "Connection timed out when trying to connect to ",
                path,
                "\nDetails:\n",
                source,
            ),
            Error::ReadTimeout { path, source } => cat4(
                "Read timed out when trying to read ",
                path,
                "\nDetails:\n",
                source,
            ),
            Error::SocketError { path, source } => cat4(
                "Socket error occurred when trying to read ",
                path,
                "\nDetails:\n",
                source,
            ),
            Error::InvalidUrl { path, .. } => cat3("Unable to convert URL \"", path, "\" to path"),
            Error::NotAFile { path } => cat3("Not a File: \"", path, "\""),
            Error::UnableToDetermineSize { path } => cat2("Unable to determine size of ", path),
            Error::UnableToLoadCredentials { store, source } => cat4(
                "Unable to load Credentials for store: ",
                store.name().as_str(),
                "\nDetails:\n",
                source,
            ),
            Error::UnableToCreateClient { store, source } => cat4(
                "Failed to load Credentials for store: ",
                store.name().as_str(),
                "\nDetails:\n",
                source,
            ),
            Error::Unauthorized { store, path, source } => {
                let head = cat4(
                    "Unauthorized to access store: ",
                    store.name().as_str(),
                    " for file: ",
                    path,
                );
                head.concat("\nYou may need to set valid Credentials\n").concat(source.as_str())
            },
            Error::NotImplementedSource { store } => cat2("Source not yet implemented: ", store),
            Error::Unhandled { path, msg } => cat4(
                "Unhandled Error for path: ",
                path,
                "\nDetails:\n",
                msg,
            ),
            Error::UnableToSendDataOverChannel { source } => cat2(
                "Error sending data over a tokio channel: ",
                source,
            ),
            Error::JoinError { source } => cat2("Error joining spawned task: ", source),
            Error::CachedError { source } => {
                let inner = source.message();
                String::from_str("Cached error: ").concat(inner.as_str())
            },
        }
    }

    /// The class of this error as the engine sees it.
    pub fn engine_kind(&self) -> (r: EngineErrorKind)
        ensures
            r == engine_kind_spec(*self),
    {
        match self {
            Error::CachedError { source } => match &**source {
                Error::CachedError { .. } => EngineErrorKind::External,
                inner => inner.direct_engine_kind(),
            },
            _ => self.direct_engine_kind(),
        }
    }

    fn direct_engine_kind(&self) -> (r: EngineErrorKind)
        ensures
            r == direct_kind(*self),
    {
        match self {
            Error::NotFound { .. } => EngineErrorKind::FileNotFound,
            Error::ConnectTimeout { .. } => EngineErrorKind::ConnectTimeout,
            Error::ReadTimeout { .. } => EngineErrorKind::ReadTimeout,
            Error::UnableToReadBytes { .. } => EngineErrorKind::ByteStreamError,
            Error::SocketError { .. } => EngineErrorKind::SocketError,
            _ => EngineErrorKind::External,
        }
    }

    /// Whether this error is a transient read failure worth one more attempt.
    pub fn is_retryable(&self) -> (r: bool)
        ensures
            r == is_retryable_spec(*self),
    {
        match self {
            Error::ConnectTimeout { .. } => true,
            Error::ReadTimeout { .. } => true,
            Error::SocketError { .. } => true,
            Error::UnableToReadBytes { .. } => true,
            _ => false,
        }
    }

    /// Folds this error into the engine's error, keeping it as the cause.
    pub fn into_engine_error(self) -> (r: EngineError)
        ensures
            r.kind_spec() == Some(engine_kind_spec(self)),
            r.cause_spec() == Some(self),
            r matches EngineError::FileNotFound { path, .. } ==> path@ == not_found_path(self),
    {
        let kind = self.engine_kind();
        match kind {
            EngineErrorKind::FileNotFound => {
                let path = self.not_found_path();
                EngineError::FileNotFound { path, source: Box::new(self) }
            },
            EngineErrorKind::ConnectTimeout => EngineError::ConnectTimeout(Box::new(self)),
            EngineErrorKind::ReadTimeout => EngineError::ReadTimeout(Box::new(self)),
            EngineErrorKind::ByteStreamError => EngineError::ByteStreamError(Box::new(self)),
            EngineErrorKind::SocketError => EngineError::SocketError(Box::new(self)),
            EngineErrorKind::External => EngineError::External(Box::new(self)),
        }
    }

    fn not_found_path(&self) -> (r: String)
        ensures
            r@ == not_found_path(*self),
    {
        match self {
            Error::NotFound { path, .. } => path.clone(),
            Error::CachedError { source } => match &**source {
                Error::NotFound { path, .. } => path.clone(),
                _ => String::new(),
            },
            _ => String::new(),
        }
    }
}

} // verus!
