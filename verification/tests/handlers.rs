use outwiker::error::{CoreError, CoreResult};
use outwiker::handlers::{dispatch, outcome_response, Handler, MethodHandler, Server};
use outwiker::json::JsonValue;
use outwiker::protocol::{Request, Response};

/// Test handlers of the user's kind.
enum TestHandler {
    Constant,
    FailsRpc,
    FailsOther,
    CountsHandlers,
}

impl MethodHandler for TestHandler {
    fn call(&self, server: &Server<Self>, request: Request) -> CoreResult<Response> {
        match self {
            TestHandler::Constant => Ok(Response::ok(request.id, JsonValue::Bool(true))),
            TestHandler::FailsRpc => Err(CoreError::Rpc("nope".to_string())),
            TestHandler::FailsOther => Err(CoreError::Transport("down".to_string())),
            TestHandler::CountsHandlers => {
                let has_echo = server.get("echo").is_some();
                Ok(Response::ok(request.id, JsonValue::Bool(has_echo)))
            }
        }
    }
}

fn req(id: u64, method: &str, params: Vec<JsonValue>) -> Request {
    Request { id, method: method.to_string(), params }
}

#[test]
fn new_server_has_echo_only() {
    let s: Server<TestHandler> = Server::new();
    assert!(matches!(s.get("echo"), Some(Handler::Echo)));
    assert!(s.get("ping").is_none());
    assert!(s.get("").is_none());
    assert!(s.get("ECHO").is_none());
}

#[test]
fn default_is_new() {
    let s: Server<TestHandler> = Server::default();
    assert!(matches!(s.get("echo"), Some(Handler::Echo)));
}

#[test]
fn register_then_get() {
    let mut s: Server<TestHandler> = Server::new();
    s.register("const".to_string(), Handler::Custom(TestHandler::Constant));
    assert!(matches!(s.get("const"), Some(Handler::Custom(TestHandler::Constant))));
    assert!(matches!(s.get("echo"), Some(Handler::Echo)));
}

#[test]
fn register_replaces_existing() {
    let mut s: Server<TestHandler> = Server::new();
    s.register("echo".to_string(), Handler::Custom(TestHandler::FailsRpc));
    assert!(matches!(s.get("echo"), Some(Handler::Custom(TestHandler::FailsRpc))));
    s.register("echo".to_string(), Handler::Echo);
    assert!(matches!(s.get("echo"), Some(Handler::Echo)));
}

#[test]
fn dispatch_echo_returns_params_array() {
    let s: Server<TestHandler> = Server::new();
    let params = vec![JsonValue::Number(serde_json::Number::from(1)), JsonValue::String("x".into())];
    let r = dispatch(&s, req(11, "echo", params));
    assert_eq!(
        r,
        Response::ok(
            11,
            JsonValue::Array(vec![
                JsonValue::Number(serde_json::Number::from(1)),
                JsonValue::String("x".into())
            ])
        )
    );
}

#[test]
fn dispatch_echo_without_params() {
    let s: Server<TestHandler> = Server::new();
    let r = dispatch(&s, req(1, "echo", vec![]));
    assert_eq!(r.result, Some(JsonValue::Array(vec![])));
    assert_eq!(r.error, None);
}

#[test]
fn dispatch_unknown_method() {
    let s: Server<TestHandler> = Server::new();
    let r = dispatch(&s, req(12, "frobnicate", vec![]));
    assert_eq!(r, Response::err(12, "unknown method: frobnicate".to_string()));
}

#[test]
fn dispatch_custom_ok() {
    let mut s: Server<TestHandler> = Server::new();
    s.register("c".to_string(), Handler::Custom(TestHandler::Constant));
    let r = dispatch(&s, req(13, "c", vec![]));
    assert_eq!(r, Response::ok(13, JsonValue::Bool(true)));
}

#[test]
fn dispatch_custom_rpc_error_keeps_message() {
    let mut s: Server<TestHandler> = Server::new();
    s.register("f".to_string(), Handler::Custom(TestHandler::FailsRpc));
    let r = dispatch(&s, req(14, "f", vec![]));
    assert_eq!(r, Response::err(14, "nope".to_string()));
}

#[test]
fn dispatch_custom_other_error_uses_display_text() {
    let mut s: Server<TestHandler> = Server::new();
    s.register("g".to_string(), Handler::Custom(TestHandler::FailsOther));
    let r = dispatch(&s, req(15, "g", vec![]));
    assert_eq!(r, Response::err(15, "transport error: down".to_string()));
}

#[test]
fn handler_sees_server() {
    let mut s: Server<TestHandler> = Server::new();
    s.register("h".to_string(), Handler::Custom(TestHandler::CountsHandlers));
    let r = dispatch(&s, req(16, "h", vec![]));
    assert_eq!(r.result, Some(JsonValue::Bool(true)));
}

#[test]
fn outcome_response_cases() {
    assert_eq!(outcome_response(1, Ok(Response::ok(9, JsonValue::Null))), Response::ok(9, JsonValue::Null));
    assert_eq!(
        outcome_response(2, Err(CoreError::Rpc("m".into()))),
        Response::err(2, "m".to_string())
    );
    assert_eq!(
        outcome_response(3, Err(CoreError::UnknownMethod("z".into()))),
        Response::err(3, "unknown method: z".to_string())
    );
}

#[test]
fn dispatch_custom_invalid_request_display_text() {
    struct Bad;
    impl MethodHandler for Bad {
        fn call(&self, _server: &Server<Self>, _request: Request) -> CoreResult<Response> {
            Err(CoreError::InvalidRequest("bad".into()))
        }
    }
    let mut s: Server<Bad> = Server::new();
    s.register("f".to_string(), Handler::Custom(Bad));
    let r = dispatch(&s, req(2, "f", vec![]));
    assert_eq!(r, Response::err(2, "invalid request: bad".to_string()));
}
