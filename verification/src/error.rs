//! The errors of the library. Each is a plain value; none is retried or
//! swallowed anywhere in the library.

use vstd::prelude::*;

verus! {

/// Why no usable HTTP response came back.
#[derive(Debug, PartialEq, Eq)]
pub enum HttpError {
    /// The exchange itself failed (connection, TLS, timeout); the text is the
    /// cause as the HTTP stack reported it.
    Failed(String),
    /// The server answered with a status of the client or server error class.
    Status(u16),
}

/// Why a body could not be read as what was expected.
#[derive(Debug, PartialEq, Eq)]
pub enum JsonError {
    /// The body is not JSON; the text is the parser's message.
    Syntax(String),
    /// The JSON does not have the expected shape.
    Shape,
}

/// What can go wrong with a call or a command.
#[derive(Debug, PartialEq, Eq)]
pub enum Error {
    /// Network, TLS, timeout or an error status.
    Http(HttpError),
    /// Malformed JSON or a shape other than the expected one.
    Json(JsonError),
    /// The server refused the call; code and message are the server's.
    Api { code: i64, message: String },
    /// The response held neither a result nor an error.
    MissingResult,
    /// No token could be found; the text says why.
    Env(String),
    /// A lookup on the client's side found nothing; the text says what.
    NotFound(String),
}

/// The `error` member of a response.
#[derive(Debug, PartialEq, Eq)]
pub struct JsonRpcError {
    pub code: i64,
    pub message: String,
}

/// The model of a [`HttpError`]: texts as sequences of characters, numbers as
/// integers.
pub enum HttpErrorView {
    Failed(Seq<char>),
    Status(int),
}

/// The model of a [`JsonError`]: texts as sequences of characters, numbers as
/// integers.
pub enum JsonErrorView {
    Syntax(Seq<char>),
    Shape,
}

/// The model of a [`Error`]: texts as sequences of characters, numbers as
/// integers.
pub enum ErrorView {
    Http(HttpErrorView),
    Json(JsonErrorView),
    Api { code: int, message: Seq<char> },
    MissingResult,
    Env(Seq<char>),
    NotFound(Seq<char>),
}

/// The model of a [`JsonRpcError`]: texts as sequences of characters, numbers as
/// integers.
pub struct JsonRpcErrorView {
    pub code: int,
    pub message: Seq<char>,
}

impl View for HttpError {
    type V = HttpErrorView;

    open spec fn view(&self) -> HttpErrorView {
        match self {
            HttpError::Failed(cause) => HttpErrorView::Failed(cause@),
            HttpError::Status(status) => HttpErrorView::Status(*status as int),
        }
    }
}

impl View for JsonError {
    type V = JsonErrorView;

    open spec fn view(&self) -> JsonErrorView {
        match self {
            JsonError::Syntax(message) => JsonErrorView::Syntax(message@),
            JsonError::Shape => JsonErrorView::Shape,
        }
    }
}

impl View for Error {
    type V = ErrorView;

    open spec fn view(&self) -> ErrorView {
        match self {
            Error::Http(e) => ErrorView::Http(e@),
            Error::Json(e) => ErrorView::Json(e@),
            Error::Api { code, message } => ErrorView::Api {
                code: *code as int,
                message: message@,
            },
            Error::MissingResult => ErrorView::MissingResult,
            Error::Env(reason) => ErrorView::Env(reason@),
            Error::NotFound(what) => ErrorView::NotFound(what@),
        }
    }
}

impl View for JsonRpcError {
    type V = JsonRpcErrorView;

    open spec fn view(&self) -> JsonRpcErrorView {
        JsonRpcErrorView { code: self.code as int, message: self.message@ }
    }
}

impl JsonRpcErrorView {
    /// The error that a caller sees for this member: code and message pass
    /// through unchanged.
    pub open spec fn api(self) -> ErrorView {
        ErrorView::Api { code: self.code, message: self.message }
    }
}

impl From<JsonRpcError> for Error {
    fn from(e: JsonRpcError) -> (r: Error)
        ensures
            r@ == e@.api(),
    {
        Error::Api { code: e.code, message: e.message }
    }
}

impl vstd::std_specs::convert::FromSpecImpl<JsonRpcError> for Error {
    open spec fn obeys_from_spec() -> bool {
        true
    }

    open spec fn from_spec(e: JsonRpcError) -> Error {
        Error::Api { code: e.code, message: e.message }
    }
}

} // verus!
