//! What the Worker answers: which handler a request goes to, the request body
//! limit, and the status, content type and body of each reply.

use vstd::prelude::*;

use crate::auth::{auth_failure_text, AuthError};
use crate::text::str_equal;

verus! {

/// Where a request is served.
#[derive(Debug, Clone, Copy, PartialEq, Eq, Structural)]
pub enum Route {
    Health,
    GraphQl,
    NotFound,
}

/// `GET /health` is the health check, `POST /graphql` the GraphQL endpoint,
/// anything else is not found.
pub open spec fn route_for(method: Seq<char>, path: Seq<char>) -> Route {
    if method == "GET"@ && path == "/health"@ {
        Route::Health
    } else if method == "POST"@ && path == "/graphql"@ {
        Route::GraphQl
    } else {
        Route::NotFound
    }
}

/// The route of a request with `method` and `path`.
pub fn route(method: &str, path: &str) -> (res: Route)
    ensures
        res == route_for(method@, path@),
{
    if str_equal(method, "GET") && str_equal(path, "/health") {
        Route::Health
    } else if str_equal(method, "POST") && str_equal(path, "/graphql") {
        Route::GraphQl
    } else {
        Route::NotFound
    }
}

/// Largest GraphQL request body accepted, in bytes (8 KB).
pub const MAX_BODY_BYTES: u64 = 8192;

/// Whether a body of `length` bytes is refused. It applies both to a declared
/// `Content-Length` and to the bytes actually read.
pub fn exceeds_body_limit(length: u64) -> (res: bool)
    ensures
        res == (length > MAX_BODY_BYTES),
{
    length > MAX_BODY_BYTES
}

/// An HTTP reply: status, `content-type` and body.
#[derive(Debug, Clone)]
pub struct Reply {
    pub status: u16,
    pub content_type: String,
    pub body: String,
}

/// Whether `reply` has the given status, content type and body.
pub open spec fn reply_is(reply: Reply, status: u16, content_type: Seq<char>, body: Seq<char>) -> bool {
    reply.status == status && reply.content_type@ == content_type && reply.body@ == body
}

fn reply(status: u16, content_type: &str, body: String) -> (res: Reply)
    ensures
        reply_is(res, status, content_type@, body@),
{
    Reply { status, content_type: String::from_str(content_type), body }
}

/// The health check's answer.
pub fn health_reply() -> (res: Reply)
    ensures
        reply_is(res, 200, "application/json"@, "{\"status\":\"ok\"}"@),
{
    reply(200, "application/json", String::from_str("{\"status\":\"ok\"}"))
}

/// The answer for an unknown route.
pub fn not_found_reply() -> (res: Reply)
    ensures
        reply_is(res, 404, "text/plain"@, "Not Found"@),
{
    reply(404, "text/plain", String::from_str("Not Found"))
}

/// The answer when the environment lacks a usable configuration; it names no
/// variable.
pub fn misconfigured_reply() -> (res: Reply)
    ensures
        reply_is(res, 502, "text/plain"@, "Service misconfigured"@),
{
    reply(502, "text/plain", String::from_str("Service misconfigured"))
}

/// The answer when the request could not be authenticated.
pub fn unauthorized_reply(error: &AuthError) -> (res: Reply)
    ensures
        reply_is(res, 401, "text/plain"@, auth_failure_text(error@)),
{
    reply(401, "text/plain", error.message())
}

/// The answer for a body above `MAX_BODY_BYTES`.
pub fn payload_too_large_reply() -> (res: Reply)
    ensures
        reply_is(res, 413, "text/plain"@, "Payload Too Large"@),
{
    reply(413, "text/plain", String::from_str("Payload Too Large"))
}

/// The answer for a body that is not a GraphQL request; `detail` is the
/// parser's explanation.
pub fn bad_request_reply(detail: &str) -> (res: Reply)
    ensures
        reply_is(res, 400, "text/plain"@, "Invalid GraphQL request: "@ + detail@),
{
    let mut body = String::from_str("Invalid GraphQL request: ");
    body.append(detail);
    reply(400, "text/plain", body)
}

/// The answer carrying an executed GraphQL response, `json`.
pub fn graphql_reply(json: String) -> (res: Reply)
    ensures
        reply_is(res, 200, "application/json"@, json@),
{
    reply(200, "application/json", json)
}

} // verus!
