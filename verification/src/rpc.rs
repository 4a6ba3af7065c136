//! JSON-RPC 2.0 envelopes.
//!
//! `V` stands for what the envelope carries: a JSON value on the wire, a typed
//! payload where the agent builds the message.

use crate::error_codes;
use crate::text::cat2;
use vstd::prelude::*;
use vstd::string::StringExecFns;

verus! {

/// JSON-RPC 2.0 request envelope.
#[derive(Debug, Clone)]
pub struct RpcRequest<V> {
    pub jsonrpc: String,
    /// Unique request ID. Present for requests, absent for notifications.
    pub id: Option<String>,
    /// RPC method name (e.g. "exec", "fs.list", "shell.open").
    pub method: String,
    /// Method-specific parameters.
    pub params: V,
}

/// JSON-RPC 2.0 response envelope.
#[derive(Debug, Clone)]
pub struct RpcResponse<V> {
    pub jsonrpc: String,
    pub id: String,
    /// The result payload (present on success).
    pub result: Option<V>,
    /// Error payload (present on failure).
    pub error: Option<RpcError<V>>,
}

/// JSON-RPC 2.0 error object.
#[derive(Debug, Clone)]
pub struct RpcError<V> {
    pub code: i32,
    pub message: String,
    pub data: Option<V>,
}

/// Unified message type: either a request or a response.
#[derive(Debug, Clone)]
pub enum RpcMessage<V> {
    Request(RpcRequest<V>),
    Response(RpcResponse<V>),
}

impl<V> RpcRequest<V> {
    /// Whether this is a request of JSON-RPC 2.0 with the given ID.
    pub open spec fn asks(self, id: Seq<char>, method: Seq<char>, params: V) -> bool {
        &&& self.jsonrpc@ == "2.0"@
        &&& self.id matches Some(i) && i@ == id
        &&& self.method@ == method
        &&& self.params == params
    }

    /// Whether this is a notification of JSON-RPC 2.0.
    pub open spec fn notifies(self, method: Seq<char>, params: V) -> bool {
        &&& self.jsonrpc@ == "2.0"@
        &&& self.id is None
        &&& self.method@ == method
        &&& self.params == params
    }

    /// Create a new JSON-RPC 2.0 request.
    pub fn new(id: String, method: &str, params: V) -> (request: Self)
        ensures
            request.asks(id@, method@, params),
    {
        RpcRequest {
            jsonrpc: String::from_str("2.0"),
            id: Some(id),
            method: String::from_str(method),
            params,
        }
    }

    /// Create a notification (no response expected).
    pub fn notification(method: &str, params: V) -> (request: Self)
        ensures
            request.notifies(method@, params),
    {
        RpcRequest {
            jsonrpc: String::from_str("2.0"),
            id: None,
            method: String::from_str(method),
            params,
        }
    }

    /// Whether a response is sent for this: for a request, but not for a
    /// notification.
    pub fn expects_response(&self) -> (yes: bool)
        ensures
            yes == (self.id is Some),
    {
        self.id.is_some()
    }
}

impl<V> RpcResponse<V> {
    /// Whether this is one whole response of JSON-RPC 2.0 to the request with the
    /// given ID: it holds a result or an error, and not both.
    pub open spec fn responds_to(self, id: Seq<char>) -> bool {
        &&& self.jsonrpc@ == "2.0"@
        &&& self.id@ == id
        &&& self.result is Some != self.error is Some
    }

    /// Whether this is the success response with the given ID and result.
    pub open spec fn succeeds(self, id: Seq<char>, result: V) -> bool {
        &&& self.jsonrpc@ == "2.0"@
        &&& self.id@ == id
        &&& self.result == Some(result)
        &&& self.error is None
    }

    /// Whether this is a success response with the given ID.
    pub open spec fn answers(self, id: Seq<char>) -> bool {
        self.result is Some && self.succeeds(id, self.payload())
    }

    /// The result of a success response.
    pub open spec fn payload(self) -> V {
        self.result->0
    }

    /// Whether this is the error response with the given ID, code and message,
    /// and without data.
    pub open spec fn fails(self, id: Seq<char>, code: i32, message: Seq<char>) -> bool {
        &&& self.jsonrpc@ == "2.0"@
        &&& self.id@ == id
        &&& self.result is None
        &&& self.error matches Some(e) && e.code == code && e.message@ == message && e.data is None
    }

    /// Whether this is the error response with the given ID, code, message and
    /// data.
    pub open spec fn fails_with(
        self,
        id: Seq<char>,
        code: i32,
        message: Seq<char>,
        data: V,
    ) -> bool {
        &&& self.jsonrpc@ == "2.0"@
        &&& self.id@ == id
        &&& self.result is None
        &&& self.error matches Some(e) && e.code == code && e.message@ == message && e.data == Some(
            data,
        )
    }

    /// Whether this is the response to a request whose parameters could not be
    /// read for the given reason.
    pub open spec fn rejects_params(self, id: Seq<char>, reason: Seq<char>) -> bool {
        self.fails(id, error_codes::INVALID_PARAMS, "Invalid params: "@ + reason)
    }

    /// Create a success response.
    pub fn success(id: String, result: V) -> (response: Self)
        ensures
            response.succeeds(id@, result),
    {
        RpcResponse { jsonrpc: String::from_str("2.0"), id, result: Some(result), error: None }
    }

    /// Create an error response.
    pub fn error(id: String, code: i32, message: String) -> (response: Self)
        ensures
            response.fails(id@, code, message@),
    {
        RpcResponse {
            jsonrpc: String::from_str("2.0"),
            id,
            result: None,
            error: Some(RpcError { code, message, data: None }),
        }
    }

    /// Create an error response with additional data.
    pub fn error_with_data(id: String, code: i32, message: String, data: V) -> (response: Self)
        ensures
            response.fails_with(id@, code, message@, data),
    {
        RpcResponse {
            jsonrpc: String::from_str("2.0"),
            id,
            result: None,
            error: Some(RpcError { code, message, data: Some(data) }),
        }
    }

    /// The response to a request whose parameters could not be read.
    pub fn invalid_params(id: String, reason: &str) -> (response: Self)
        ensures
            response.rejects_params(id@, reason@),
    {
        RpcResponse::error(id, error_codes::INVALID_PARAMS, cat2("Invalid params: ", reason))
    }

    /// Check if this response is an error.
    pub fn is_error(&self) -> (yes: bool)
        ensures
            yes == (self.error is Some),
    {
        self.error.is_some()
    }
}

/// However a request is answered, it is answered by one whole response with the
/// request's ID: by a result, by an error, or by an error with data.
pub proof fn law_every_answer_is_one_response<V>(
    response: RpcResponse<V>,
    id: Seq<char>,
    code: i32,
    message: Seq<char>,
    data: V,
)
    requires
        response.answers(id) || response.fails(id, code, message) || response.fails_with(
            id,
            code,
            message,
            data,
        ),
    ensures
        response.responds_to(id),
{
}

/// A request whose parameters cannot be read is answered by one whole response
/// with its ID, and the error has the code for parameters that are not valid.
pub proof fn law_unreadable_params_are_an_error<V>(
    response: RpcResponse<V>,
    id: Seq<char>,
    reason: Seq<char>,
)
    requires
        response.rejects_params(id, reason),
    ensures
        response.responds_to(id),
        response.error matches Some(e) && e.code == -32602,
{
}

} // verus!
