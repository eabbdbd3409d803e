//! What the server answers to each frame it receives.
//!
//! The server reads a frame, decodes a [`Request`] from it, and hands
//! the outcome to [`reply_to`]; it then sends the reply's response and,
//! for a shutdown request, stops.

use crate::error::{CoreError, CoreResult};
use crate::handlers::{dispatch, is_dispatch_response, MethodHandler, Server};
use crate::json::JsonValue;
use crate::protocol::{Request, Response, METHOD_PING, METHOD_SHUTDOWN};
use vstd::prelude::*;

verus! {

/// The server's answer to one received frame.
#[derive(Debug, PartialEq)]
pub enum ServerReply {
    /// Send the response and keep serving the connection.
    Continue(Response),
    /// Send the response, then stop the server.
    Shutdown(Response),
}

/// Text that opens the error answer to a frame that does not decode.
pub open spec fn decode_error_prefix() -> Seq<char> {
    "decode error: "@
}

/// Whether `r` answers a frame that did not decode because of `e`: an
/// error response with id 0 whose message is the decode-error prefix
/// followed by the message of `e`.
pub open spec fn is_decode_error_response(r: Response, e: CoreError) -> bool {
    let p = decode_error_prefix();
    &&& r.id == 0
    &&& r.result is None
    &&& r.error matches Some(m) && {
        &&& p.len() <= m@.len()
        &&& m@.subrange(0, p.len() as int) == p
        &&& e.is_message(m@.skip(p.len() as int))
    }
}

/// Whether `r` answers a shutdown request: the request's id and an
/// empty object as result.
pub open spec fn is_shutdown_response(r: Response, id: u64) -> bool {
    &&& r.id == id
    &&& r.error is None
    &&& r.result matches Some(JsonValue::Object(members)) && members@.len() == 0
}

/// Whether `r` answers a ping: the request's id and the string `"pong"`.
pub open spec fn is_pong_response(r: Response, id: u64) -> bool {
    &&& r.id == id
    &&& r.error is None
    &&& r.result matches Some(JsonValue::String(s)) && s@ == "pong"@
}

/// Whether `reply` is the server's answer to the decoding outcome
/// `decoded` with handlers `handlers`.
pub open spec fn is_server_reply<H: MethodHandler>(
    handlers: Map<Seq<char>, crate::handlers::Handler<H>>,
    decoded: CoreResult<Request>,
    reply: ServerReply,
) -> bool {
    match decoded {
        Err(e) => reply matches ServerReply::Continue(r) && is_decode_error_response(r, e),
        Ok(req) => if req.method@ == METHOD_SHUTDOWN@ {
            reply matches ServerReply::Shutdown(r) && is_shutdown_response(r, req.id)
        } else if req.method@ == METHOD_PING@ {
            reply matches ServerReply::Continue(r) && is_pong_response(r, req.id)
        } else {
            reply matches ServerReply::Continue(r) && is_dispatch_response(handlers, req, r)
        },
    }
}

/// The server's answer to a received frame, given what decoding the
/// frame as a request gave: `shutdown` and `ping` are answered by the
/// server itself, every other method is dispatched to its handler, and
/// a frame that does not decode is answered with an error to call 0.
pub fn reply_to<H: MethodHandler>(server: &Server<H>, decoded: CoreResult<Request>) -> (reply:
    ServerReply)
    ensures
        is_server_reply(server.handlers(), decoded, reply),
{
    match decoded {
        Ok(request) => {
            if request.method == String::from_str(METHOD_SHUTDOWN) {
                let id = request.id;
                ServerReply::Shutdown(Response::ok(id, JsonValue::Object(Vec::new())))
            } else if request.method == String::from_str(METHOD_PING) {
                let pong = String::from_str("pong");
                ServerReply::Continue(Response::ok(request.id, JsonValue::String(pong)))
            } else {
                ServerReply::Continue(dispatch(server, request))
            }
        },
        Err(e) => {
            let msg = e.message();
            let text = String::from_str("decode error: ").concat(msg.as_str());
            proof {
                let p = decode_error_prefix();
                assert(text@.subrange(0, p.len() as int) =~= p);
                assert(text@.skip(p.len() as int) =~= msg@);
            }
            let r = Response::err(0, text);
            ServerReply::Continue(r)
        },
    }
}

/// `ping` and `shutdown` are answered by the server itself, whatever
/// handlers are registered, even under those names; every other request
/// that decodes gets the answer dispatching it gives.
pub proof fn lemma_builtin_methods_take_precedence<H: MethodHandler>(
    handlers: Map<Seq<char>, crate::handlers::Handler<H>>,
    request: Request,
    reply: ServerReply,
)
    requires
        is_server_reply(handlers, Ok(request), reply),
    ensures
        request.method@ == METHOD_PING@ ==> (reply matches ServerReply::Continue(r)
            && is_pong_response(r, request.id)),
        request.method@ == METHOD_SHUTDOWN@ ==> (reply matches ServerReply::Shutdown(r)
            && is_shutdown_response(r, request.id)),
        request.method@ != METHOD_PING@ && request.method@ != METHOD_SHUTDOWN@ ==> (
        reply matches ServerReply::Continue(r) && is_dispatch_response(handlers, request, r)),
{
    reveal_strlit("ping");
    reveal_strlit("shutdown");
    assert(METHOD_PING@.len() != METHOD_SHUTDOWN@.len());
}

/// Only a shutdown request stops the server: every other frame, decoded
/// or not, is answered and the connection goes on.
pub proof fn lemma_only_shutdown_stops<H: MethodHandler>(
    handlers: Map<Seq<char>, crate::handlers::Handler<H>>,
    decoded: CoreResult<Request>,
    reply: ServerReply,
)
    requires
        is_server_reply(handlers, decoded, reply),
    ensures
        reply is Shutdown <==> (decoded matches Ok(req) && req.method@ == METHOD_SHUTDOWN@),
{
}

} // verus!
