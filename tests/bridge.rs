use serde_json::Value;
use worker_supervisor::bridge::{
    decoded_reply, plan_test_tool, request_body, success_status, test_tool_reply, tool_request,
    tool_url_string, WorkerReply,
};
use worker_supervisor::error::WorkerError;
use worker_supervisor::supervisor::ApiServerState;

fn add_args() -> Value {
    let mut m = serde_json::Map::new();
    m.insert("a".to_string(), Value::from(1));
    m.insert("b".to_string(), Value::from(1));
    Value::Object(m)
}

#[test]
fn invoke_while_idle_is_not_running() {
    let st = ApiServerState::new();
    let r = plan_test_tool(&st, "add", &add_args());
    assert!(matches!(r, Err(WorkerError::NotRunning)));
}

#[test]
fn invoke_builds_request_for_tool() {
    let mut st = ApiServerState::new();
    st.start_api_server(8000, Ok(1)).unwrap();
    let req = plan_test_tool(&st, "add", &add_args()).ok().unwrap();
    assert_eq!(req.url, "http://localhost:8000/tools/add/test");
    assert_eq!(req.body, "{\"args\":{\"a\":1,\"b\":1}}");
    let sent: Value = serde_json::from_str(&req.body).unwrap();
    assert_eq!(sent.get("args"), Some(&add_args()));
}

#[test]
fn success_reply_is_returned_unchanged() {
    let r = test_tool_reply(WorkerReply::Response(200, "{\"result\": 42}".to_string()));
    let mut m = serde_json::Map::new();
    m.insert("result".to_string(), Value::from(42));
    assert_eq!(r, Ok(Value::Object(m)));
}

#[test]
fn failure_status_is_remote_error() {
    let r = test_tool_reply(WorkerReply::Response(500, "division by zero".to_string()));
    assert_eq!(r, Err(WorkerError::RemoteError("division by zero".to_string())));
}

#[test]
fn unreachable_worker_is_transport_error() {
    let r = test_tool_reply(WorkerReply::Unreachable("connection refused".to_string()));
    assert_eq!(r, Err(WorkerError::TransportError("connection refused".to_string())));
}

#[test]
fn undecodable_success_body_is_decode_error() {
    let r = test_tool_reply(WorkerReply::Response(200, "not json".to_string()));
    assert!(matches!(r, Err(WorkerError::ResponseDecodeError(_))));
    let r = test_tool_reply(WorkerReply::Response(204, String::new()));
    assert!(matches!(r, Err(WorkerError::ResponseDecodeError(_))));
}

#[test]
fn status_boundaries() {
    assert!(!success_status(199));
    assert!(success_status(200));
    assert!(success_status(299));
    assert!(!success_status(300));
    assert!(!success_status(404));
    let r = test_tool_reply(WorkerReply::Response(299, "[1, 2]".to_string()));
    assert_eq!(r, Ok(Value::from(vec![1, 2])));
    let r = test_tool_reply(WorkerReply::Response(302, "{}".to_string()));
    assert_eq!(r, Err(WorkerError::RemoteError("{}".to_string())));
}

#[test]
fn url_and_body_framing() {
    assert_eq!(tool_url_string(1, "echo"), "http://localhost:1/tools/echo/test");
    assert_eq!(tool_url_string(65535, ""), "http://localhost:65535/tools//test");
    assert_eq!(request_body("null"), "{\"args\":null}");
    assert_eq!(request_body("[1,\"x\"]"), "{\"args\":[1,\"x\"]}");
}

#[test]
fn request_after_stop_is_not_running() {
    let mut st = ApiServerState::new();
    st.start_api_server(8000, Ok(1)).unwrap();
    st.stop_api_server(Ok(())).unwrap();
    let r = plan_test_tool(&st, "add", &Value::Null);
    assert!(matches!(r, Err(WorkerError::NotRunning)));
}

#[test]
fn decoded_reply_keeps_value() {
    let v = add_args();
    assert_eq!(decoded_reply(Ok(v.clone())), Ok(v));
    let bad = serde_json::from_str::<Value>("{\"a\":");
    assert!(matches!(decoded_reply(bad), Err(WorkerError::ResponseDecodeError(_))));
}

#[test]
fn unreadable_body_after_success_is_decode_error() {
    let r = test_tool_reply(WorkerReply::BodyUnreadable(200, "stream reset".to_string()));
    assert_eq!(r, Err(WorkerError::ResponseDecodeError("stream reset".to_string())));
}

#[test]
fn unreadable_body_after_failure_is_transport_error() {
    let r = test_tool_reply(WorkerReply::BodyUnreadable(500, "stream reset".to_string()));
    assert_eq!(r, Err(WorkerError::TransportError("stream reset".to_string())));
}

#[test]
fn tool_request_frames_url_and_body() {
    let req = tool_request(8000, "add", "{\"a\":1,\"b\":1}");
    assert_eq!(req.url, "http://localhost:8000/tools/add/test");
    assert_eq!(req.body, "{\"args\":{\"a\":1,\"b\":1}}");
}

#[test]
fn running_worker_always_gets_a_request() {
    let mut st = ApiServerState::new();
    st.start_api_server(9100, Ok(3)).unwrap();
    for args in [Value::Null, Value::from("x"), Value::from(vec![1, 2]), add_args()] {
        let req = plan_test_tool(&st, "echo", &args).ok().unwrap();
        assert_eq!(req.url, "http://localhost:9100/tools/echo/test");
        let sent: Value = serde_json::from_str(&req.body).unwrap();
        assert_eq!(sent.get("args"), Some(&args));
    }
}
