use outwiker::error::CoreError;
use outwiker::json::JsonValue;
use outwiker::protocol::{pair_response, Request, Response, METHOD_ECHO, METHOD_PING, METHOD_SHUTDOWN};

#[test]
fn method_names() {
    assert_eq!(METHOD_PING, "ping");
    assert_eq!(METHOD_ECHO, "echo");
    assert_eq!(METHOD_SHUTDOWN, "shutdown");
}

#[test]
fn ok_holds_result_only() {
    let r = Response::ok(7, JsonValue::Bool(true));
    assert_eq!(r.id, 7);
    assert_eq!(r.result, Some(JsonValue::Bool(true)));
    assert_eq!(r.error, None);
}

#[test]
fn err_holds_error_only() {
    let r = Response::err(9, "boom".to_string());
    assert_eq!(r.id, 9);
    assert_eq!(r.result, None);
    assert_eq!(r.error, Some("boom".to_string()));
}

#[test]
fn into_result_of_ok_gives_value() {
    let v = JsonValue::Number(serde_json::Number::from(42));
    let res = Response::ok(1, v).into_result();
    assert_eq!(res.unwrap(), JsonValue::Number(serde_json::Number::from(42)));
}

#[test]
fn into_result_of_err_gives_rpc_error() {
    match Response::err(2, "bad".to_string()).into_result() {
        Err(CoreError::Rpc(m)) => assert_eq!(m, "bad"),
        other => panic!("unexpected {other:?}"),
    }
}

#[test]
fn into_result_prefers_error_over_result() {
    let r = Response { id: 3, result: Some(JsonValue::Null), error: Some("e".to_string()) };
    match r.into_result() {
        Err(CoreError::Rpc(m)) => assert_eq!(m, "e"),
        other => panic!("unexpected {other:?}"),
    }
}

#[test]
fn into_result_of_empty_response_is_invalid() {
    let r = Response { id: 4, result: None, error: None };
    match r.into_result() {
        Err(e @ CoreError::InvalidRequest(_)) => {
            assert_eq!(e.message(), "invalid request: response missing both result and error")
        }
        other => panic!("unexpected {other:?}"),
    }
}

#[test]
fn request_fields() {
    let r = Request { id: 5, method: "m".to_string(), params: vec![JsonValue::Null] };
    assert_eq!(r.params.len(), 1);
    assert_eq!(r.method, "m");
}

#[test]
fn pair_response_matching_id() {
    let r = pair_response(8, Response::ok(8, JsonValue::Null)).unwrap();
    assert_eq!(r, Response::ok(8, JsonValue::Null));
}

#[test]
fn pair_response_mismatched_id() {
    match pair_response(8, Response::err(0, "decode error".to_string())) {
        Err(CoreError::InvalidRequest(m)) => assert_eq!(m, "response id does not match request id"),
        other => panic!("unexpected {other:?}"),
    }
}
