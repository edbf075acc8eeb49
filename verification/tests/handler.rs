use gql_async_graphql::auth::AuthError;
use gql_async_graphql::handler::{
    bad_request_reply, exceeds_body_limit, graphql_reply, health_reply, misconfigured_reply,
    not_found_reply, payload_too_large_reply, route, unauthorized_reply, Route,
};

#[test]
fn requests_are_routed_by_method_and_path() {
    assert_eq!(route("GET", "/health"), Route::Health);
    assert_eq!(route("POST", "/graphql"), Route::GraphQl);
    assert_eq!(route("GET", "/graphql"), Route::NotFound);
    assert_eq!(route("POST", "/health"), Route::NotFound);
    assert_eq!(route("GET", "/"), Route::NotFound);
}

#[test]
fn body_limit_is_eight_kilobytes() {
    assert!(!exceeds_body_limit(0));
    assert!(!exceeds_body_limit(8192));
    assert!(exceeds_body_limit(8193));
}

#[test]
fn replies_carry_status_type_and_body() {
    let r = health_reply();
    assert_eq!((r.status, r.content_type.as_str(), r.body.as_str()), (200, "application/json", r#"{"status":"ok"}"#));
    let r = not_found_reply();
    assert_eq!((r.status, r.body.as_str()), (404, "Not Found"));
    let r = misconfigured_reply();
    assert_eq!((r.status, r.body.as_str()), (502, "Service misconfigured"));
    let r = unauthorized_reply(&AuthError::MissingAuthorization);
    assert_eq!((r.status, r.body.as_str()), (401, "Missing Authorization header"));
    let r = payload_too_large_reply();
    assert_eq!((r.status, r.body.as_str()), (413, "Payload Too Large"));
    let r = bad_request_reply("eof");
    assert_eq!((r.status, r.body.as_str()), (400, "Invalid GraphQL request: eof"));
    let r = graphql_reply(r#"{"data":null}"#.to_string());
    assert_eq!((r.status, r.content_type.as_str()), (200, "application/json"));
}
