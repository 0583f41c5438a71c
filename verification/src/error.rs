//! The client-facing error taxonomy and the mapping of engine errors
//! into it.
use vstd::prelude::*;

verus! {

/// An error as callers of the facade see it.
#[derive(Debug, PartialEq)]
pub enum FliptError {
    /// The engine failed to start, or a call into it failed.
    Internal { message: String },
    /// A flag key that does not exist. Nothing in this crate raises it.
    UnknownFlag { message: String },
    /// Data supplied by the caller violates a precondition.
    InvalidRequest { message: String },
    /// The engine reported a transport or server failure.
    ConnectionError { message: String },
}

/// The mathematical value of a [`FliptError`].
pub enum FliptErrorView {
    Internal { message: Seq<char> },
    UnknownFlag { message: Seq<char> },
    InvalidRequest { message: Seq<char> },
    ConnectionError { message: Seq<char> },
}

impl View for FliptError {
    type V = FliptErrorView;

    open spec fn view(&self) -> FliptErrorView {
        match *self {
            FliptError::Internal { message } => FliptErrorView::Internal { message: message@ },
            FliptError::UnknownFlag { message } => FliptErrorView::UnknownFlag {
                message: message@,
            },
            FliptError::InvalidRequest { message } => FliptErrorView::InvalidRequest {
                message: message@,
            },
            FliptError::ConnectionError { message } => FliptErrorView::ConnectionError {
                message: message@,
            },
        }
    }
}

impl FliptErrorView {
    /// The diagnostic message that the error carries.
    pub open spec fn message(self) -> Seq<char> {
        match self {
            FliptErrorView::Internal { message } => message,
            FliptErrorView::UnknownFlag { message } => message,
            FliptErrorView::InvalidRequest { message } => message,
            FliptErrorView::ConnectionError { message } => message,
        }
    }

    /// The heading under which an error of this variant is displayed.
    pub open spec fn heading(self) -> Seq<char> {
        match self {
            FliptErrorView::Internal { .. } => "Internal error: "@,
            FliptErrorView::UnknownFlag { .. } => "Unknown flag: "@,
            FliptErrorView::InvalidRequest { .. } => "Invalid request: "@,
            FliptErrorView::ConnectionError { .. } => "Connection error: "@,
        }
    }

    /// The displayed form: the variant's heading, then the message.
    pub open spec fn text(self) -> Seq<char> {
        self.heading() + self.message()
    }
}

/// Joins a fixed prefix and a detail into one owned text.
pub fn prefixed(prefix: &str, detail: &str) -> (text: String)
    ensures
        text@ == prefix@ + detail@,
{
    let mut text = prefix.to_string();
    text.append(detail);
    text
}

impl FliptError {
    /// The text under which the error is displayed.
    pub fn to_string(&self) -> (text: String)
        ensures
            text@ == self@.text(),
    {
        match self {
            FliptError::Internal { message } => prefixed("Internal error: ", message.as_str()),
            FliptError::UnknownFlag { message } => prefixed("Unknown flag: ", message.as_str()),
            FliptError::InvalidRequest { message } => prefixed(
                "Invalid request: ",
                message.as_str(),
            ),
            FliptError::ConnectionError { message } => prefixed(
                "Connection error: ",
                message.as_str(),
            ),
        }
    }
}

/// How the engine classifies one of its own errors.
#[derive(Clone, Copy, Debug, PartialEq, Eq, Structural)]
pub enum EngineErrorKind {
    /// An internal failure of the engine.
    Internal,
    /// Malformed input: the engine could not decode what it was given.
    InvalidJson,
    /// A failure of the server or of the transport to it.
    Server,
    /// An unknown error, or one of a kind that is none of the above.
    Unknown,
}

/// An error of the engine, as plain values.
#[derive(Debug, PartialEq)]
pub struct EngineError {
    pub kind: EngineErrorKind,
    /// The message attached to the error; for malformed input, the decode
    /// diagnostic.
    pub message: String,
    /// The engine's own rendering of the whole error.
    pub rendered: String,
}

/// The mathematical value of an [`EngineError`].
pub struct EngineErrorView {
    pub kind: EngineErrorKind,
    pub message: Seq<char>,
    pub rendered: Seq<char>,
}

impl View for EngineError {
    type V = EngineErrorView;

    open spec fn view(&self) -> EngineErrorView {
        EngineErrorView { kind: self.kind, message: self.message@, rendered: self.rendered@ }
    }
}

impl EngineErrorView {
    /// The client-facing error that stands for this engine error.
    ///
    /// An internal failure keeps the engine's message, malformed input
    /// becomes an invalid request that carries the decode diagnostic, a
    /// server failure becomes a connection error whose message does not echo
    /// the transport detail, and an unknown or unclassified error becomes an
    /// internal error with a fixed message.
    pub open spec fn client_error(self) -> FliptErrorView {
        match self.kind {
            EngineErrorKind::Internal => FliptErrorView::Internal { message: self.message },
            EngineErrorKind::InvalidJson => FliptErrorView::InvalidRequest {
                message: self.message,
            },
            EngineErrorKind::Server => FliptErrorView::ConnectionError {
                message: "Server connection error"@,
            },
            EngineErrorKind::Unknown => FliptErrorView::Internal { message: "Unknown error"@ },
        }
    }

    /// The internal error that wraps this engine error under a prefix that
    /// names the failed operation.
    pub open spec fn wrapped(self, prefix: Seq<char>) -> FliptErrorView {
        FliptErrorView::Internal { message: prefix + self.rendered }
    }
}

/// The mapping is stated over views, in the contract of `from`: a
/// message made from a fixed text is known by its view only, so no value is
/// named here.
impl vstd::std_specs::convert::FromSpecImpl<EngineError> for FliptError {
    open spec fn obeys_from_spec() -> bool {
        false
    }

    open spec fn from_spec(err: EngineError) -> FliptError {
        arbitrary()
    }
}

impl From<EngineError> for FliptError {
    /// Maps an engine error into the client-facing taxonomy.
    fn from(err: EngineError) -> (out: FliptError)
        ensures
            out@ == err@.client_error(),
    {
        match err.kind {
            EngineErrorKind::Internal => FliptError::Internal { message: err.message },
            EngineErrorKind::InvalidJson => FliptError::InvalidRequest { message: err.message },
            EngineErrorKind::Server => FliptError::ConnectionError {
                message: "Server connection error".to_string(),
            },
            EngineErrorKind::Unknown => FliptError::Internal {
                message: "Unknown error".to_string(),
            },
        }
    }
}

impl EngineError {
    /// Wraps the error into an internal error whose message is `prefix`
    /// followed by the engine's rendering of it.
    pub fn wrap(self, prefix: &str) -> (out: FliptError)
        ensures
            out@ == self@.wrapped(prefix@),
    {
        FliptError::Internal { message: prefixed(prefix, self.rendered.as_str()) }
    }
}

/// No engine error reaches callers as an unknown flag, neither mapped nor
/// wrapped: that variant is kept for a later use.
pub proof fn lemma_unknown_flag_is_not_raised(error: EngineErrorView, prefix: Seq<char>)
    ensures
        !(error.client_error() is UnknownFlag),
        !(error.wrapped(prefix) is UnknownFlag),
{
}

} // verus!
