//! RPC messages exchanged between client and server.
//!
//! On the wire a message is a MessagePack encoding of [`Request`] or
//! [`Response`], carried in a length-prefixed frame (see
//! [`crate::framing`]).

use crate::error::{CoreError, CoreResult};
use crate::json::JsonValue;
use vstd::prelude::*;

verus! {

/// Name of the built-in liveness method, answered with `"pong"`.
pub const METHOD_PING: &'static str = "ping";

/// Name of the built-in method that answers with its own parameters.
pub const METHOD_ECHO: &'static str = "echo";

/// Name of the built-in method that stops the server.
pub const METHOD_SHUTDOWN: &'static str = "shutdown";

/// A single RPC request sent from a client to the server.
#[derive(Debug, PartialEq)]
pub struct Request {
    /// Numeric identifier of the call. The client must pair this
    /// with the response's `id`.
    pub id: u64,
    /// Name of the remote method to invoke.
    pub method: String,
    /// Positional arguments passed to the method.
    pub params: Vec<JsonValue>,
}

/// Response sent from the server back to the client.
#[derive(Debug, PartialEq)]
pub struct Response {
    /// Identifier matching the request that produced this response.
    pub id: u64,
    /// Result of a successful call. Mutually exclusive with `error`.
    pub result: Option<JsonValue>,
    /// Error message for a failed call. Mutually exclusive with `result`.
    pub error: Option<String>,
}

/// The successful response to call `id` with result `result`.
pub open spec fn ok_response(id: u64, result: JsonValue) -> Response {
    Response { id, result: Some(result), error: None }
}

/// Whether `r` is a failed response to call `id` with message `message`.
pub open spec fn is_err_response(r: Response, id: u64, message: Seq<char>) -> bool {
    &&& r.id == id
    &&& r.result is None
    &&& r.error matches Some(m) && m@ == message
}

/// Text of the error a response that holds neither result nor error
/// turns into.
pub open spec fn missing_both_text() -> Seq<char> {
    "response missing both result and error"@
}

/// Whether `res` is what [`Response::into_result`] turns `r` into: its
/// error message as an RPC error when it has one, else its result, else
/// an invalid-request error.
pub open spec fn is_result_of(r: Response, res: CoreResult<JsonValue>) -> bool {
    match r.error {
        Some(msg) => res matches Err(CoreError::Rpc(m)) && m == msg,
        None => match r.result {
            Some(v) => res == Ok::<JsonValue, CoreError>(v),
            None => res matches Err(CoreError::InvalidRequest(m)) && m@ == missing_both_text(),
        },
    }
}

impl Response {
    /// Create a successful response wrapping `result`.
    pub fn ok(id: u64, result: JsonValue) -> (r: Self)
        ensures
            r == ok_response(id, result),
    {
        Response { id, result: Some(result), error: None }
    }

    /// Create an error response with the given message.
    pub fn err(id: u64, message: String) -> (r: Self)
        ensures
            r.id == id,
            r.result is None,
            r.error == Some(message),
    {
        Response { id, result: None, error: Some(message) }
    }

    /// Convert the response into a [`CoreResult`].
    pub fn into_result(self) -> (res: CoreResult<JsonValue>)
        ensures
            is_result_of(self, res),
    {
        match self.error {
            Some(msg) => Err(CoreError::Rpc(msg)),
            None => match self.result {
                Some(v) => Ok(v),
                None => Err(
                    CoreError::InvalidRequest(
                        String::from_str("response missing both result and error"),
                    ),
                ),
            },
        }
    }
}

/// A successful response turns back into its result, and a failed one
/// into an RPC error with its message: what `ok` and `err` build,
/// `into_result` takes apart.
pub proof fn lemma_into_result_inverts(
    id: u64,
    v: JsonValue,
    ok_res: CoreResult<JsonValue>,
    failed: Response,
    message: Seq<char>,
    err_res: CoreResult<JsonValue>,
)
    requires
        is_result_of(ok_response(id, v), ok_res),
        is_err_response(failed, id, message),
        is_result_of(failed, err_res),
    ensures
        ok_res == Ok::<JsonValue, CoreError>(v),
        err_res matches Err(CoreError::Rpc(m)) && m@ == message,
{
}

/// A response holds a result or an error, never both, when `ok` or `err`
/// built it.
pub proof fn lemma_result_error_exclusive(id: u64, v: JsonValue, failed: Response, message: Seq<char>)
    requires
        is_err_response(failed, id, message),
    ensures
        ok_response(id, v).result is Some && ok_response(id, v).error is None,
        failed.error is Some && failed.result is None,
{
}

/// Text of the error for a response whose id is not its request's.
pub open spec fn mismatched_id_text() -> Seq<char> {
    "response id does not match request id"@
}

/// Pair a received response with the call `request_id` it answers: the
/// response itself when its id is the request's, else an
/// invalid-request error.
pub fn pair_response(request_id: u64, response: Response) -> (r: CoreResult<Response>)
    ensures
        response.id == request_id ==> r == Ok::<Response, CoreError>(response),
        response.id != request_id ==> (r matches Err(CoreError::InvalidRequest(m)) && m@
            == mismatched_id_text()),
{
    if response.id == request_id {
        Ok(response)
    } else {
        Err(CoreError::InvalidRequest(String::from_str("response id does not match request id")))
    }
}

} // verus!
