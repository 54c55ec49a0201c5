//! The transport: how a call becomes one HTTP request, and how the reply to
//! it becomes a typed result or an error. Nothing here touches the network;
//! whoever sends the [`Request`] hands back a [`Reply`].

use crate::error::{
    Error, ErrorView, HttpError, HttpErrorView, JsonError, JsonErrorView, JsonRpcError,
    JsonRpcErrorView,
};
use crate::json::{json_parse, json_text, views, Json, JsonValue};
use crate::payload::Payload;
use std::marker::PhantomData;
use vstd::prelude::*;

verus! {

/// Where every call is posted.
pub const ENDPOINT: &'static str = "https://njal.la/api/1/";

/// The time that a whole exchange may take, in seconds.
pub const TIMEOUT_SECS: u64 = 30;

impl Payload for JsonRpcError {
    /// A record of two fields: `code`, an integer that fits 64 bits with
    /// sign, and `message`, a text.
    open spec fn read(value: JsonValue) -> Option<JsonRpcErrorView> {
        if value.is_record(2) {
            match (
                value.int_at(0, "code"@, i64::MIN as int, i64::MAX as int),
                value.text_at(1, "message"@),
            ) {
                (Some(code), Some(message)) => Some(JsonRpcErrorView { code, message }),
                _ => None,
            }
        } else {
            None
        }
    }

    fn decode(value: &Json) -> (r: Option<JsonRpcError>) {
        if !value.is_record(2) {
            return None;
        }
        match (value.i64_at(0, "code"), value.text_at(1, "message")) {
            (Some(code), Some(message)) => Some(JsonRpcError { code, message }),
            _ => None,
        }
    }
}

/// One HTTP POST, ready to be sent.
#[derive(Debug, PartialEq, Eq)]
pub struct Request {
    pub url: String,
    /// The value of the `Authorization` header.
    pub authorization: String,
    /// The value of the `Content-Type` header.
    pub content_type: String,
    /// The time allowed for the whole exchange.
    pub timeout_secs: u64,
    pub body: String,
}

/// The model of a [`Request`]: texts as sequences of characters, numbers as
/// integers.
pub struct RequestView {
    pub url: Seq<char>,
    pub authorization: Seq<char>,
    pub content_type: Seq<char>,
    pub timeout_secs: int,
    pub body: Seq<char>,
}

impl View for Request {
    type V = RequestView;

    open spec fn view(&self) -> RequestView {
        RequestView {
            url: self.url@,
            authorization: self.authorization@,
            content_type: self.content_type@,
            timeout_secs: self.timeout_secs as int,
            body: self.body@,
        }
    }
}

/// What came of sending a [`Request`].
#[derive(Debug, PartialEq, Eq)]
pub enum Reply {
    /// No response: the exchange failed, for the reason given.
    Failed(String),
    /// A response, with its status code and its whole body.
    Received { status: u16, body: Vec<u8> },
}

/// The model of a [`Reply`]: texts as sequences of characters, numbers as
/// integers.
pub enum ReplyView {
    Failed(Seq<char>),
    Received { status: int, body: Seq<u8> },
}

impl View for Reply {
    type V = ReplyView;

    open spec fn view(&self) -> ReplyView {
        match self {
            Reply::Failed(cause) => ReplyView::Failed(cause@),
            Reply::Received { status, body } => ReplyView::Received {
                status: *status as int,
                body: body@,
            },
        }
    }
}

/// The request envelope of a call: protocol version, a constant id, the
/// method and its parameters, in this order.
pub open spec fn envelope(method: Seq<char>, params: JsonValue) -> JsonValue {
    JsonValue::Object(
        seq![
            ("jsonrpc"@, JsonValue::Text("2.0"@)),
            ("id"@, JsonValue::Int(1)),
            ("method"@, JsonValue::Text(method)),
            ("params"@, params),
        ],
    )
}

/// The one request of a call: a POST to the endpoint with the credential in
/// the `Authorization` header and the envelope as compact JSON in the body.
pub open spec fn post(
    authorization: Seq<char>,
    method: Seq<char>,
    params: JsonValue,
) -> RequestView {
    RequestView {
        url: ENDPOINT@,
        authorization,
        content_type: "application/json"@,
        timeout_secs: TIMEOUT_SECS as int,
        body: json_text(envelope(method, params)),
    }
}

/// A response envelope: its two members, each where it is populated.
#[derive(Debug, PartialEq, Eq)]
pub struct Envelope<'a> {
    pub result: Option<&'a Json>,
    pub error: Option<JsonRpcError>,
}

/// The model of an [`Envelope`].
pub struct EnvelopeView {
    pub result: Option<JsonValue>,
    pub error: Option<JsonRpcErrorView>,
}

impl<'a> View for Envelope<'a> {
    type V = EnvelopeView;

    open spec fn view(&self) -> EnvelopeView {
        EnvelopeView {
            result: match self.result {
                Some(result) => Some(result@),
                None => None,
            },
            error: match self.error {
                Some(error) => Some(error@),
                None => None,
            },
        }
    }
}

/// The `error` member of a response, where it is populated: the outer
/// `None` says that the member is there and is no error object.
pub open spec fn error_member(response: JsonValue) -> Option<Option<JsonRpcErrorView>> {
    if JsonValue::left_out(response.slot(1, "error"@)) {
        Some(None)
    } else {
        match JsonRpcError::read(response.slot(1, "error"@).unwrap()) {
            Some(error) => Some(Some(error)),
            None => None,
        }
    }
}

/// The `result` member of a response, where it is populated.
pub open spec fn result_member(response: JsonValue) -> Option<JsonValue> {
    if JsonValue::left_out(response.slot(0, "result"@)) {
        None
    } else {
        response.slot(0, "result"@)
    }
}

impl EnvelopeView {
    /// The envelope that a response is: a record of two fields, `result`
    /// and `error`, each of which may be left out; `None` where the response
    /// is no such record.
    pub open spec fn read(response: JsonValue) -> Option<EnvelopeView> {
        if response.is_record(2) {
            match error_member(response) {
                Some(error) => Some(EnvelopeView { result: result_member(response), error }),
                None => None,
            }
        } else {
            None
        }
    }

    /// What an envelope comes to: the error where one is populated,
    /// whatever else is there; a missing result where neither member is;
    /// else the result.
    pub open spec fn outcome(self) -> Result<JsonValue, ErrorView> {
        match self.error {
            Some(error) => Err(error.api()),
            None => match self.result {
                Some(result) => Ok(result),
                None => Err(ErrorView::MissingResult),
            },
        }
    }

    /// What an envelope comes to when its result is read as `T`.
    pub open spec fn resolved<T: Payload>(self) -> Result<T::V, ErrorView> {
        match self.outcome() {
            Err(error) => Err(error),
            Ok(result) => match T::read(result) {
                Some(value) => Ok(value),
                None => Err(ErrorView::Json(JsonErrorView::Shape)),
            },
        }
    }
}

/// What a parsed body comes to when its result is read as `T`.
pub open spec fn resolved<T: Payload>(parsed: Result<JsonValue, Seq<char>>) -> Result<
    T::V,
    ErrorView,
> {
    match parsed {
        Err(message) => Err(ErrorView::Json(JsonErrorView::Syntax(message))),
        Ok(response) => match EnvelopeView::read(response) {
            None => Err(ErrorView::Json(JsonErrorView::Shape)),
            Some(envelope) => envelope.resolved::<T>(),
        },
    }
}

/// Whether a status is of the client or server error class.
pub open spec fn is_error_status(status: int) -> bool {
    400 <= status < 600
}

/// What a reply comes to when the result is read as `T`: a failed exchange
/// and an error status are transport errors, and an error status is one
/// whatever the body holds; any other body is parsed and resolved.
pub open spec fn finished<T: Payload>(reply: ReplyView) -> Result<T::V, ErrorView> {
    match reply {
        ReplyView::Failed(cause) => Err(ErrorView::Http(HttpErrorView::Failed(cause))),
        ReplyView::Received { status, body } => if is_error_status(status) {
            Err(ErrorView::Http(HttpErrorView::Status(status)))
        } else {
            resolved::<T>(json_parse(body))
        },
    }
}

/// An envelope whose `error` member is populated fails with that error's
/// code and message, whatever its `result` member holds and whatever type
/// the result was to be read as.
pub proof fn lemma_error_takes_precedence<T: Payload>(
    envelope: EnvelopeView,
    error: JsonRpcErrorView,
)
    requires
        envelope.error == Some(error),
    ensures
        envelope.outcome() == Err::<JsonValue, ErrorView>(
            ErrorView::Api { code: error.code, message: error.message },
        ),
        envelope.resolved::<T>() == Err::<T::V, ErrorView>(
            ErrorView::Api { code: error.code, message: error.message },
        ),
        forall|response: JsonValue|
            EnvelopeView::read(response) == Some(envelope) ==> #[trigger] resolved::<T>(
                Ok(response),
            ) == Err::<T::V, ErrorView>(
                ErrorView::Api { code: error.code, message: error.message },
            ),
{
}

/// An envelope in which neither `result` nor `error` is populated fails as
/// one without a result.
pub proof fn lemma_empty_envelope_is_missing_result<T: Payload>(envelope: EnvelopeView)
    requires
        envelope.error is None,
        envelope.result is None,
    ensures
        envelope.outcome() == Err::<JsonValue, ErrorView>(ErrorView::MissingResult),
        envelope.resolved::<T>() == Err::<T::V, ErrorView>(ErrorView::MissingResult),
        forall|response: JsonValue|
            EnvelopeView::read(response) == Some(envelope) ==> #[trigger] resolved::<T>(
                Ok(response),
            ) == Err::<T::V, ErrorView>(ErrorView::MissingResult),
{
}

/// An envelope in which only `result` is populated succeeds if and only if
/// the result can be read as the expected type, and then with what was read;
/// otherwise it fails as one of another shape.
pub proof fn lemma_result_alone_decides<T: Payload>(envelope: EnvelopeView, result: JsonValue)
    requires
        envelope.error is None,
        envelope.result == Some(result),
    ensures
        envelope.outcome() == Ok::<JsonValue, ErrorView>(result),
        envelope.resolved::<T>() is Ok <==> T::read(result) is Some,
        T::read(result) matches Some(value) ==> envelope.resolved::<T>() == Ok::<T::V, ErrorView>(
            value,
        ),
        T::read(result) is None ==> envelope.resolved::<T>() == Err::<T::V, ErrorView>(
            ErrorView::Json(JsonErrorView::Shape),
        ),
        forall|response: JsonValue|
            EnvelopeView::read(response) == Some(envelope) ==> #[trigger] resolved::<T>(
                Ok(response),
            ) == envelope.resolved::<T>(),
{
}

/// A populated member is never `null`: a `null` member counts as left out.
pub proof fn lemma_null_member_is_left_out(response: JsonValue, envelope: EnvelopeView)
    requires
        EnvelopeView::read(response) == Some(envelope),
    ensures
        envelope.result != Some(JsonValue::Null),
        response.slot(0, "result"@) == Some(JsonValue::Null) ==> envelope.result is None,
        response.slot(1, "error"@) == Some(JsonValue::Null) ==> envelope.error is None,
{
}

/// Nothing but the reply decides what a call comes to: replies with the
/// same status and body resolve alike, and so do failures with the same
/// cause.
pub proof fn lemma_same_reply_same_result<T: Payload>(first: Reply, second: Reply)
    requires
        first@ == second@,
    ensures
        finished::<T>(first@) == finished::<T>(second@),
{
}

/// An error status fails the call whatever the body holds; the body is not
/// looked at.
pub proof fn lemma_error_status_ignores_body<T: Payload>(
    status: int,
    one: Seq<u8>,
    other: Seq<u8>,
)
    requires
        is_error_status(status),
    ensures
        finished::<T>(ReplyView::Received { status, body: one }) == finished::<T>(
            ReplyView::Received { status, body: other },
        ),
        finished::<T>(ReplyView::Received { status, body: one }) == Err::<T::V, ErrorView>(
            ErrorView::Http(HttpErrorView::Status(status)),
        ),
{
}

/// The request of a call carries the credential in its `Authorization`
/// header, and its body is the envelope of the method and the parameters:
/// version "2.0", id 1, the method, the parameters.
pub proof fn lemma_request_frames_call(
    authorization: Seq<char>,
    method: Seq<char>,
    params: JsonValue,
)
    ensures
        post(authorization, method, params).authorization == authorization,
        post(authorization, method, params).url == ENDPOINT@,
        post(authorization, method, params).timeout_secs == 30,
        post(authorization, method, params).body == json_text(envelope(method, params)),
        envelope(method, params) matches JsonValue::Object(fields) && fields.len() == 4
            && fields[0] == ("jsonrpc"@, JsonValue::Text("2.0"@)) && fields[1] == (
            "id"@,
            JsonValue::Int(1),
        ) && fields[2] == ("method"@, JsonValue::Text(method)) && fields[3] == ("params"@, params),
{
}

impl<'a> Envelope<'a> {
    /// Reads a response as an envelope.
    pub fn decode(response: &'a Json) -> (r: Option<Envelope<'a>>)
        ensures
            match r {
                Some(envelope) => EnvelopeView::read(response@) == Some(envelope@),
                None => EnvelopeView::read(response@) is None,
            },
    {
        if !response.is_record(2) {
            return None;
        }
        let error = if response.left_out_at(1, "error") {
            None
        } else {
            match JsonRpcError::decode(response.slot(1, "error").unwrap()) {
                Some(error) => Some(error),
                None => {
                    return None;
                },
            }
        };
        let result = if response.left_out_at(0, "result") {
            None
        } else {
            response.slot(0, "result")
        };
        Some(Envelope { result, error })
    }

    /// The result of the envelope, or the error that it stands for.
    pub fn outcome(self) -> (r: Result<&'a Json, Error>)
        ensures
            views(r) == self@.outcome(),
    {
        match self.error {
            Some(error) => Err(Error::from(error)),
            None => match self.result {
                Some(result) => Ok(result),
                None => Err(Error::MissingResult),
            },
        }
    }

    /// The result of the envelope read as a `T`, or the error.
    pub fn resolve<T: Payload>(self) -> (r: Result<T, Error>)
        ensures
            views(r) == self@.resolved::<T>(),
    {
        match self.outcome() {
            Err(error) => Err(error),
            Ok(result) => match T::decode(result) {
                Some(value) => Ok(value),
                None => Err(Error::Json(JsonError::Shape)),
            },
        }
    }
}

/// Resolves a parsed body into a `T` or an error.
pub fn resolve<T: Payload>(parsed: Result<Json, String>) -> (r: Result<T, Error>)
    ensures
        views(r) == resolved::<T>(views(parsed)),
{
    match parsed {
        Err(message) => Err(Error::Json(JsonError::Syntax(message))),
        Ok(response) => match Envelope::decode(&response) {
            None => Err(Error::Json(JsonError::Shape)),
            Some(envelope) => envelope.resolve::<T>(),
        },
    }
}

/// Resolves the reply to a call into a `T` or an error.
pub fn finish<T: Payload>(reply: &Reply) -> (r: Result<T, Error>)
    ensures
        views(r) == finished::<T>(reply@),
{
    match reply {
        Reply::Failed(cause) => Err(Error::Http(HttpError::Failed(cause.clone()))),
        Reply::Received { status, body } => {
            if 400 <= *status && *status < 600 {
                Err(Error::Http(HttpError::Status(*status)))
            } else {
                resolve::<T>(Json::parse(body.as_slice()))
            }
        },
    }
}

/// A call under way: the request to send, and the type that the result of
/// its reply is read as.
pub struct Call<T> {
    pub request: Request,
    pub shape: PhantomData<T>,
}

impl<T: Payload> Call<T> {
    /// Resolves the reply to this call.
    pub fn finish(&self, reply: &Reply) -> (r: Result<T, Error>)
        ensures
            views(r) == finished::<T>(reply@),
    {
        finish::<T>(reply)
    }
}

/// The client: it holds the credential, and nothing that changes. The
/// credential leaves it only in the `Authorization` header of a request.
#[derive(Clone)]
pub struct NjallaClient {
    auth: String,
}

impl NjallaClient {
    /// The value of the `Authorization` header of every request.
    pub closed spec fn authorization(&self) -> Seq<char> {
        self.auth@
    }

    /// A client for the given API token.
    pub fn new(token: &str) -> (r: NjallaClient)
        ensures
            r.authorization() == "Njalla "@ + token@,
    {
        NjallaClient { auth: "Njalla ".to_owned().concat(token) }
    }

    /// A client for the token that was looked up in the environment, or the
    /// reason why none was found.
    pub fn from_env(found: Result<String, String>) -> (r: Result<NjallaClient, Error>)
        ensures
            match found {
                Ok(token) => r matches Ok(client) && client.authorization() == "Njalla "@ + token@,
                Err(reason) => r matches Err(error) && error@ == ErrorView::Env(reason@),
            },
    {
        match found {
            Ok(token) => Ok(NjallaClient::new(token.as_str())),
            Err(reason) => Err(Error::Env(reason)),
        }
    }

    /// Starts a call of `method` with `params`, whose result will be read
    /// as `T`.
    pub fn call<T: Payload>(&self, method: &str, params: Json) -> (r: Call<T>)
        ensures
            r.request@ == post(self.authorization(), method@, params@),
    {
        let ghost wanted = envelope(method@, params@);
        let mut fields: Vec<(String, Json)> = Vec::new();
        Json::put(&mut fields, "jsonrpc", Json::text_of("2.0"));
        Json::put(&mut fields, "id", Json::Integer(1));
        Json::put(&mut fields, "method", Json::text_of(method));
        Json::put(&mut fields, "params", params);
        assert(fields.deep_view() =~= wanted->Object_0);
        let body = Json::object(fields).text();
        Call {
            request: Request {
                url: ENDPOINT.to_owned(),
                authorization: self.auth.clone(),
                content_type: "application/json".to_owned(),
                timeout_secs: TIMEOUT_SECS,
                body,
            },
            shape: PhantomData,
        }
    }

    /// Starts a call of `method` with `params` whose result is not looked
    /// at.
    pub fn call_void(&self, method: &str, params: Json) -> (r: Call<()>)
        ensures
            r.request@ == post(self.authorization(), method@, params@),
    {
        self.call::<()>(method, params)
    }
}

} // verus!
