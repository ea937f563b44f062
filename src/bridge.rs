//! Forwarding a named tool invocation to the running worker, and reading
//! its reply.
//!
//! `plan_test_tool` decides whether a request may be sent and builds it; the
//! caller sends it and hands what came back to `test_tool_reply`, which turns
//! it into the caller's result.
use vstd::prelude::*;
use vstd::string::*;
use crate::error::WorkerError;
use crate::supervisor::ApiServerState;
use crate::text::{decimal, push_decimal};

verus! {

#[verifier::external_type_specification]
#[verifier::external_body]
pub struct ExJsonValue(serde_json::Value);

#[verifier::external_type_specification]
#[verifier::external_body]
pub struct ExJsonError(serde_json::Error);

/// Whether a text is one JSON value that serde_json reads.
pub uninterp spec fn json_accepts(text: Seq<char>) -> bool;

/// Relies on serde_json::from_str at type Value: it reads the text as one
/// JSON value, and fails exactly when the text is not one; which, depends on
/// the text alone.
#[verifier::external_body]
fn parse_json(text: &str) -> (r: Result<serde_json::Value, serde_json::Error>)
    ensures
        r is Ok <==> json_accepts(text@),
{
    serde_json::from_str(text)
}

/// Relies on serde_json::to_string at type Value: the JSON text of a value.
/// It does not fail on a Value, whose map keys are all strings and which is
/// written into memory.
#[verifier::external_body]
fn encode_json(v: &serde_json::Value) -> (r: Result<String, serde_json::Error>)
    ensures
        r is Ok,
{
    serde_json::to_string(v)
}

/// Relies on the Display impl of serde_json::Error: a description of the error.
/// Nothing is assumed of the text.
#[verifier::external_body]
fn json_error_text(e: &serde_json::Error) -> (r: String) {
    e.to_string()
}

/// The endpoint of the tool `name` on a worker listening on `port`.
pub open spec fn tool_url(port: u16, name: Seq<char>) -> Seq<char> {
    "http://localhost:"@ + decimal(port as nat) + "/tools/"@ + name + "/test"@
}

/// The request body that carries the JSON text of the arguments.
pub open spec fn args_envelope(args_json: Seq<char>) -> Seq<char> {
    "{\"args\":"@ + args_json + "}"@
}

/// Whether an HTTP status denotes success (2xx).
pub open spec fn is_success_status(status: u16) -> bool {
    200 <= status <= 299
}

/// An HTTP POST to be sent to the worker, with a JSON body.
pub struct ToolRequest {
    pub url: String,
    pub body: String,
}

/// What came back from sending a request to the worker.
pub enum WorkerReply {
    /// No response was received: the connection could not be made, or the
    /// exchange broke off. The text says why.
    Unreachable(String),
    /// A response with this HTTP status and body text.
    Response(u16, String),
    /// A response with this HTTP status whose body could not be read; the
    /// text says why.
    BodyUnreadable(u16, String),
}

/// The endpoint of the tool `name` on a worker listening on `port`.
pub fn tool_url_string(port: u16, name: &str) -> (r: String)
    ensures
        r@ == tool_url(port, name@),
{
    let mut url = String::from_str("http://localhost:");
    push_decimal(&mut url, port as u64);
    url.append("/tools/");
    url.append(name);
    url.append("/test");
    url
}

/// The request body that carries the arguments given as JSON text.
pub fn request_body(args_json: &str) -> (r: String)
    ensures
        r@ == args_envelope(args_json@),
{
    let mut body = String::from_str("{\"args\":");
    body.append(args_json);
    body.append("}");
    body
}

/// Whether an HTTP status denotes success (2xx).
pub fn success_status(status: u16) -> (r: bool)
    ensures
        r == is_success_status(status),
{
    200 <= status && status <= 299
}

/// The request for the tool `name` on a worker listening on `port`, with the
/// arguments given as JSON text.
pub fn tool_request(port: u16, name: &str, args_json: &str) -> (r: ToolRequest)
    ensures
        r.url@ == tool_url(port, name@),
        r.body@ == args_envelope(args_json@),
{
    ToolRequest { url: tool_url_string(port, name), body: request_body(args_json) }
}

/// Decides whether the tool `name` may be invoked with `args`, and builds the
/// request: the tool's endpoint on the recorded port, and a body that carries
/// the JSON text of `args`. Nothing is sent while no worker runs.
pub fn plan_test_tool(state: &ApiServerState, name: &str, args: &serde_json::Value) -> (r: Result<
    ToolRequest,
    WorkerError,
>)
    ensures
        !state@.running ==> r == Err::<ToolRequest, WorkerError>(WorkerError::NotRunning),
        state@.running ==> r is Ok,
        r is Ok ==> r->Ok_0.url@ == tool_url(state@.port, name@),
        r is Ok ==> exists|t: Seq<char>| r->Ok_0.body@ == args_envelope(t),
{
    if !state.status() {
        return Err(WorkerError::NotRunning);
    }
    let text = encode_json(args).unwrap();
    Ok(tool_request(state.port(), name, text.as_str()))
}

/// The result of a success reply whose body was read as JSON: the value
/// itself, unchanged, or a decode error when the body is not JSON.
pub fn decoded_reply(parsed: Result<serde_json::Value, serde_json::Error>) -> (r: Result<
    serde_json::Value,
    WorkerError,
>)
    ensures
        parsed is Ok ==> r == Ok::<serde_json::Value, WorkerError>(parsed->Ok_0),
        parsed is Err ==> r matches Err(WorkerError::ResponseDecodeError(_)),
{
    match parsed {
        Ok(v) => Ok(v),
        Err(e) => Err(WorkerError::ResponseDecodeError(json_error_text(&e))),
    }
}

/// The result of an invocation, from what came back from the worker: a
/// success status yields the body read as JSON (see `decoded_reply`), a
/// failure status yields the body as a remote error, and no response yields a
/// transport error. A body that could not be read counts as undecodable after
/// a success status, and as a broken exchange after a failure status.
pub fn test_tool_reply(reply: WorkerReply) -> (r: Result<serde_json::Value, WorkerError>)
    ensures
        reply matches WorkerReply::Unreachable(d) ==> r == Err::<serde_json::Value, WorkerError>(
            WorkerError::TransportError(d),
        ),
        reply is Response && !is_success_status(reply->Response_0) ==> r == Err::<
            serde_json::Value,
            WorkerError,
        >(WorkerError::RemoteError(reply->Response_1)),
        reply is Response && is_success_status(reply->Response_0) ==> (r is Ok <==> json_accepts(
            reply->Response_1@,
        )),
        reply is Response && is_success_status(reply->Response_0) && !json_accepts(
            reply->Response_1@,
        ) ==> r matches Err(WorkerError::ResponseDecodeError(_)),
        reply is BodyUnreadable && is_success_status(reply->BodyUnreadable_0) ==> r == Err::<
            serde_json::Value,
            WorkerError,
        >(WorkerError::ResponseDecodeError(reply->BodyUnreadable_1)),
        reply is BodyUnreadable && !is_success_status(reply->BodyUnreadable_0) ==> r == Err::<
            serde_json::Value,
            WorkerError,
        >(WorkerError::TransportError(reply->BodyUnreadable_1)),
{
    match reply {
        WorkerReply::Unreachable(detail) => Err(WorkerError::TransportError(detail)),
        WorkerReply::BodyUnreadable(status, detail) => {
            if success_status(status) {
                Err(WorkerError::ResponseDecodeError(detail))
            } else {
                Err(WorkerError::TransportError(detail))
            }
        },
        WorkerReply::Response(status, body) => {
            if success_status(status) {
                decoded_reply(parse_json(body.as_str()))
            } else {
                Err(WorkerError::RemoteError(body))
            }
        },
    }
}

} // verus!
