use outwiker::connection::{reply_to, ServerReply};
use outwiker::error::{CoreError, CoreResult};
use outwiker::handlers::{Handler, MethodHandler, Server};
use outwiker::json::JsonValue;
use outwiker::protocol::{Request, Response};

struct Overrides;

impl MethodHandler for Overrides {
    fn call(&self, _server: &Server<Self>, request: Request) -> CoreResult<Response> {
        Ok(Response::ok(request.id, JsonValue::String("custom".into())))
    }
}

fn req(id: u64, method: &str) -> Request {
    Request { id, method: method.to_string(), params: vec![JsonValue::Null] }
}

#[test]
fn ping_answers_pong() {
    let s: Server<Overrides> = Server::new();
    assert_eq!(
        reply_to(&s, Ok(req(5, "ping"))),
        ServerReply::Continue(Response::ok(5, JsonValue::String("pong".into())))
    );
}

#[test]
fn shutdown_answers_empty_object_and_stops() {
    let s: Server<Overrides> = Server::new();
    assert_eq!(
        reply_to(&s, Ok(req(6, "shutdown"))),
        ServerReply::Shutdown(Response::ok(6, JsonValue::Object(vec![])))
    );
}

#[test]
fn registered_ping_does_not_override_builtin() {
    let mut s: Server<Overrides> = Server::new();
    s.register("ping".to_string(), Handler::Custom(Overrides));
    s.register("shutdown".to_string(), Handler::Custom(Overrides));
    assert_eq!(
        reply_to(&s, Ok(req(7, "ping"))),
        ServerReply::Continue(Response::ok(7, JsonValue::String("pong".into())))
    );
    assert!(matches!(reply_to(&s, Ok(req(8, "shutdown"))), ServerReply::Shutdown(_)));
}

#[test]
fn other_methods_are_dispatched() {
    let mut s: Server<Overrides> = Server::new();
    s.register("x".to_string(), Handler::Custom(Overrides));
    assert_eq!(
        reply_to(&s, Ok(req(9, "x"))),
        ServerReply::Continue(Response::ok(9, JsonValue::String("custom".into())))
    );
    assert_eq!(
        reply_to(&s, Ok(req(10, "echo"))),
        ServerReply::Continue(Response::ok(10, JsonValue::Array(vec![JsonValue::Null])))
    );
    assert_eq!(
        reply_to(&s, Ok(req(11, "nothing"))),
        ServerReply::Continue(Response::err(11, "unknown method: nothing".to_string()))
    );
}

#[test]
fn undecodable_frame_answers_error_to_call_zero() {
    let s: Server<Overrides> = Server::new();
    let e = rmp_serde::from_slice::<u32>(&[0xc1]).unwrap_err();
    let text = e.to_string();
    let reply = reply_to(&s, Err(CoreError::MsgPackDecode(e)));
    assert_eq!(
        reply,
        ServerReply::Continue(Response::err(
            0,
            format!("decode error: MessagePack deserialization error: {text}")
        ))
    );
}

#[test]
fn methods_are_case_sensitive() {
    let s: Server<Overrides> = Server::new();
    assert_eq!(
        reply_to(&s, Ok(req(12, "PING"))),
        ServerReply::Continue(Response::err(12, "unknown method: PING".to_string()))
    );
}
