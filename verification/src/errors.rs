//! Error types of the library.
use vstd::prelude::*;

verus! {

/// Errors that indicate an invariant of the client-side machinery was broken.
#[derive(Debug, PartialEq, Eq)]
pub enum ClientInvariantError {
    /// State was registered for an entry that was declared never to take any.
    IllegalStateRegistration,
    /// A function that needs state was handed none.
    NoState,
    /// The state handed to a function was not of the type it takes.
    InvalidState { source: String },
}

/// Errors that can occur while fetching from the server.
#[derive(Debug, PartialEq, Eq)]
pub enum FetchError {
    /// The response body was not a string.
    NotString { url: String },
    /// The server answered with a status other than 200 (or 404).
    NotOk { url: String, status: u16, err: String },
    /// The response could not be deserialized.
    SerFailed { url: String, source: String },
}

/// Errors that can occur while preloading a page.
#[derive(Debug, PartialEq, Eq)]
pub enum ClientPreloadError {
    /// The page asked for does not exist.
    PreloadNotFound { path: String },
}

/// Errors that can occur in the browser.
#[derive(Debug, PartialEq, Eq)]
pub enum ClientError {
    /// An internal invariant was violated.
    InvariantError(ClientInvariantError),
    /// Fetching from the server failed.
    FetchError(FetchError),
    /// Preloading a page failed.
    PreloadError(ClientPreloadError),
    /// The server reported an error while building something the page needs.
    ServerError { status: u16, message: String },
}

/// An error the server met, as it is handed on to the browser: its HTTP
/// status and message.
#[derive(Debug, Clone, PartialEq, Eq)]
pub struct ServerErrorData {
    pub status: u16,
    pub msg: String,
}

/// Who is to blame for an error, with an optional HTTP status code.
#[derive(Debug, PartialEq, Eq, Structural, Clone, Copy)]
pub enum ErrorBlame {
    /// The client is to blame.
    Client(Option<u16>),
    /// The server is to blame.
    Server(Option<u16>),
}

/// Errors that can occur while serving.
#[derive(Debug, PartialEq, Eq)]
pub enum ServeError {
    /// No page was found at the given path.
    PageNotFound { path: String },
    /// Both build and request states were defined for a template when only
    /// one or neither was expected.
    BothStatesDefined,
    /// A stored revalidation time could not be parsed as an RFC 3339
    /// datetime.
    BadRevalidate { source: String },
}

/// Errors that can occur while building.
#[derive(Debug, PartialEq, Eq)]
pub enum BuildError {
    /// A feature was required of a template or of the global state that it
    /// has not enabled.
    TemplateFeatureNotEnabled { template_name: String, feature_name: String },
}

/// Errors that can occur while reading from or writing to a store.
#[derive(Debug, PartialEq, Eq)]
pub enum StoreError {
    /// The asset was not found.
    NotFound { name: String },
    /// The asset could not be read.
    ReadFailed { name: String, source: String },
    /// The asset could not be written.
    WriteFailed { name: String, source: String },
}

/// Errors that can occur on the server-side.
#[derive(Debug, PartialEq, Eq)]
pub enum ServerError {
    /// A user-provided rendering function failed.
    RenderFnFailed { fn_name: String, template_name: String, blame: ErrorBlame, source: String },
    /// An error occurred while building.
    BuildError(BuildError),
    /// An error occurred while serving.
    ServeError(ServeError),
    /// An error occurred in a store.
    StoreError(StoreError),
    /// The stored state of a page could not be parsed.
    InvalidPageState { source: String },
    /// The extra build state of a template was missing from the immutable
    /// store.
    MissingBuildExtra { template_name: String },
    /// The extra build state of a template could not be parsed.
    InvalidBuildExtra { template_name: String, source: String },
    /// An error of the kind the browser meets, met on the engine-side.
    ClientError(ClientError),
}

} // verus!
