//! JSON-RPC requests and responses.

use vstd::prelude::*;

use crate::json::{Json, JsonView};

verus! {

/// A request, as a client sends it.
#[derive(Debug)]
pub struct JsonRpcRequest {
    pub jsonrpc: String,
    /// None in a notification.
    pub id: Option<Json>,
    pub method: String,
    pub params: Option<Json>,
}

/// What a request says.
pub struct RequestView {
    pub jsonrpc: Seq<char>,
    pub id: Option<JsonView>,
    pub method: Seq<char>,
    pub params: Option<JsonView>,
}

impl View for JsonRpcRequest {
    type V = RequestView;

    open spec fn view(&self) -> RequestView {
        RequestView {
            jsonrpc: self.jsonrpc@,
            id: self.id.deep_view(),
            method: self.method@,
            params: self.params.deep_view(),
        }
    }
}

/// Why a request was not served.
#[derive(Debug)]
pub struct JsonRpcError {
    pub code: i32,
    pub message: String,
}

/// What an error says.
pub struct ErrorView {
    pub code: i32,
    pub message: Seq<char>,
}

impl View for JsonRpcError {
    type V = ErrorView;

    open spec fn view(&self) -> ErrorView {
        ErrorView { code: self.code, message: self.message@ }
    }
}

impl DeepView for JsonRpcError {
    type V = ErrorView;

    open spec fn deep_view(&self) -> ErrorView {
        self@
    }
}

/// The answer to a request.
#[derive(Debug)]
pub struct JsonRpcResponse {
    pub jsonrpc: String,
    pub id: Option<Json>,
    pub result: Option<Json>,
    pub error: Option<JsonRpcError>,
}

/// What an answer says.
pub struct ResponseView {
    pub jsonrpc: Seq<char>,
    pub id: Option<JsonView>,
    pub result: Option<JsonView>,
    pub error: Option<ErrorView>,
}

impl View for JsonRpcResponse {
    type V = ResponseView;

    open spec fn view(&self) -> ResponseView {
        ResponseView {
            jsonrpc: self.jsonrpc@,
            id: self.id.deep_view(),
            result: self.result.deep_view(),
            error: self.error.deep_view(),
        }
    }
}

/// The answer that a request was served.
pub open spec fn success(id: Option<JsonView>, result: JsonView) -> ResponseView {
    ResponseView { jsonrpc: "2.0"@, id, result: Some(result), error: None }
}

/// The answer that a request was not served.
pub open spec fn failure(id: Option<JsonView>, code: i32, message: Seq<char>) -> ResponseView {
    ResponseView {
        jsonrpc: "2.0"@,
        id,
        result: None,
        error: Some(ErrorView { code, message }),
    }
}

impl JsonRpcResponse {
    /// The answer that a request was served, with what it asked for.
    pub fn success(id: Option<Json>, result: Json) -> (r: JsonRpcResponse)
        ensures
            r@ == success(id.deep_view(), result@),
    {
        JsonRpcResponse { jsonrpc: "2.0".to_owned(), id, result: Some(result), error: None }
    }

    /// The answer that a request was not served, and why.
    pub fn error(id: Option<Json>, code: i32, message: String) -> (r: JsonRpcResponse)
        ensures
            r@ == failure(id.deep_view(), code, message@),
    {
        JsonRpcResponse {
            jsonrpc: "2.0".to_owned(),
            id,
            result: None,
            error: Some(JsonRpcError { code, message }),
        }
    }
}

/// The line is not JSON, or no request.
pub const PARSE_ERROR: i32 = -32700;

/// The request is not of this version of the protocol.
pub const INVALID_REQUEST: i32 = -32600;

/// There is no such method.
pub const METHOD_NOT_FOUND: i32 = -32601;

/// The parameters do not fit the method.
pub const INVALID_PARAMS: i32 = -32602;

/// The method could not be carried out.
pub const SERVER_ERROR: i32 = -32000;

/// What a method came to: its result, or the error to report.
pub type Outcome = Result<Json, JsonRpcError>;

/// What an outcome says.
pub open spec fn outcome_view(outcome: Outcome) -> Result<JsonView, ErrorView> {
    match outcome {
        Ok(result) => Ok(result@),
        Err(error) => Err(error@),
    }
}

/// The answer that tells an outcome.
pub open spec fn told(id: Option<JsonView>, outcome: Result<JsonView, ErrorView>) -> ResponseView {
    match outcome {
        Ok(result) => success(id, result),
        Err(error) => failure(id, error.code, error.message),
    }
}

/// Tells the outcome of a method to who asked for it.
pub fn tell(id: Option<Json>, outcome: Outcome) -> (r: JsonRpcResponse)
    ensures
        r@ == told(id.deep_view(), outcome_view(outcome)),
{
    match outcome {
        Ok(result) => JsonRpcResponse::success(id, result),
        Err(error) => JsonRpcResponse::error(id, error.code, error.message),
    }
}

/// A response is of version 2.0 of the protocol, carries the id that it was made for,
/// and holds either a result or an error.
pub proof fn response_is_one_or_the_other(
    id: Option<JsonView>,
    outcome: Result<JsonView, ErrorView>,
)
    ensures
        told(id, outcome).jsonrpc == "2.0"@,
        told(id, outcome).id == id,
        told(id, outcome).result is Some <==> told(id, outcome).error is None,
{
}

} // verus!
