use vstd::prelude::*;

verus! {

/// Identifier of a request: an integer or a string, as the client sent it.
pub enum RequestId {
    Int(i32),
    Text(String),
}

/// What an identifier is, as a mathematical value.
pub enum IdView {
    Int(i32),
    Text(Seq<char>),
}

impl View for RequestId {
    type V = IdView;

    open spec fn view(&self) -> IdView {
        match self {
            RequestId::Int(n) => IdView::Int(*n),
            RequestId::Text(s) => IdView::Text(s@),
        }
    }
}

impl RequestId {
    /// A copy of this identifier.
    pub fn duplicate(&self) -> (r: RequestId)
        ensures
            r == *self,
    {
        match self {
            RequestId::Int(n) => RequestId::Int(*n),
            RequestId::Text(s) => RequestId::Text(s.clone()),
        }
    }

    /// Whether two identifiers are the same (`1` and `"1"` are not).
    pub fn same_as(&self, other: &RequestId) -> (r: bool)
        ensures
            r == (self@ == other@),
    {
        match self {
            RequestId::Int(a) => match other {
                RequestId::Int(b) => *a == *b,
                RequestId::Text(_) => false,
            },
            RequestId::Text(a) => match other {
                RequestId::Int(_) => false,
                RequestId::Text(b) => a.eq(b),
            },
        }
    }
}

/// A request: it asks for exactly one response.
pub struct Request<P> {
    pub id: RequestId,
    pub method: String,
    pub params: P,
}

/// A notification: it is never answered.
pub struct Notification<P> {
    pub method: String,
    pub params: P,
}

/// A response to a request that this server sent to the client.
pub struct Response<P> {
    pub id: RequestId,
    pub outcome: Outcome<P>,
}

/// An inbound message, in the order of delivery.
pub enum Message<P> {
    Request(Request<P>),
    Notification(Notification<P>),
    Response(Response<P>),
}

/// The error carried by an error response.
pub struct ResponseError<P> {
    pub code: i32,
    pub message: String,
    pub data: Option<P>,
}

/// What a response carries: a payload, the null payload, or an error.
pub enum Outcome<P> {
    Value(P),
    Null,
    Error(ResponseError<P>),
}

pub const INVALID_REQUEST: i32 = -32600;

pub const INVALID_PARAMS: i32 = -32602;

pub const INTERNAL_ERROR: i32 = -32603;

/// Relies on `lsp_server::ErrorCode::InvalidRequest`, declared as -32600.
#[verifier::external_body]
pub(crate) fn invalid_request_code() -> (r: i32)
    ensures
        r == INVALID_REQUEST,
{
    lsp_server::ErrorCode::InvalidRequest as i32
}

/// Relies on `lsp_server::ErrorCode::InvalidParams`, declared as -32602.
#[verifier::external_body]
pub(crate) fn invalid_params_code() -> (r: i32)
    ensures
        r == INVALID_PARAMS,
{
    lsp_server::ErrorCode::InvalidParams as i32
}

/// Relies on `lsp_server::ErrorCode::InternalError`, declared as -32603.
#[verifier::external_body]
pub(crate) fn internal_error_code() -> (r: i32)
    ensures
        r == INTERNAL_ERROR,
{
    lsp_server::ErrorCode::InternalError as i32
}

/// Relies on `lsp_types::request::Shutdown::METHOD`, which is "shutdown".
#[verifier::external_body]
pub(crate) fn shutdown_method() -> (r: &'static str)
    ensures
        r@ == shutdown_name(),
{
    <lsp_types::request::Shutdown as lsp_types::request::Request>::METHOD
}

/// Relies on `lsp_types::notification::Exit::METHOD`, which is "exit".
#[verifier::external_body]
pub(crate) fn exit_method() -> (r: &'static str)
    ensures
        r@ == exit_name(),
{
    <lsp_types::notification::Exit as lsp_types::notification::Notification>::METHOD
}

/// Method of the request that asks the server to shut down.
pub open spec fn shutdown_name() -> Seq<char> {
    "shutdown"@
}

/// Method of the notification that ends the message loop.
pub open spec fn exit_name() -> Seq<char> {
    "exit"@
}

} // verus!
