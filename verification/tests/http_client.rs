use gql_async_graphql::auth::AuthContext;
use gql_async_graphql::config::RuntimeConfig;
use gql_async_graphql::http_client::{
    build_flights_url, check_origin_status, common_headers, confirm_deleted, first_created_flight,
    first_updated_flight, flights_from_rows, last_fetched_flight, FlightsQuery, HttpMethod,
    OriginError, SupabaseClient,
};
use gql_async_graphql::models::{CreateFlightInput, FlightRow};

fn test_config() -> RuntimeConfig {
    RuntimeConfig::new("https://example.supabase.co", "publishable-key")
}

fn test_auth() -> AuthContext {
    AuthContext { access_token: "token-123".to_string(), user_id: "user-123".to_string() }
}

fn test_client() -> SupabaseClient {
    SupabaseClient::new(test_config(), test_auth())
}

fn row(id: &str) -> FlightRow {
    FlightRow {
        id: id.to_string(),
        user_id: "user-123".to_string(),
        date: "2026-03-12".to_string(),
        aircraft_title: None,
        aircraft_registration: None,
        departure_icao: None,
        departure_name: None,
        departure_lat: None,
        departure_lon: None,
        arrival_icao: None,
        arrival_name: None,
        arrival_lat: None,
        arrival_lon: None,
        distance_nm: None,
        elapsed_seconds: None,
        max_altitude_ft: None,
        landing_vs_fpm: None,
        landing_g_force: None,
        notes: None,
    }
}

fn json_body(pairs: &[(&str, Option<&str>)]) -> String {
    let mut map = serde_json::Map::new();
    for (k, v) in pairs {
        let value = match v {
            Some(s) => serde_json::Value::String(s.to_string()),
            None => serde_json::Value::Null,
        };
        map.insert(k.to_string(), value);
    }
    serde_json::to_string(&serde_json::Value::Object(map)).unwrap()
}

#[test]
fn create_request_includes_auth_headers_and_user_id() {
    let client = test_client();
    let payload = client.create_payload(CreateFlightInput {
        date: "2026-03-12".to_string(),
        aircraft_title: None,
        aircraft_registration: None,
        departure_icao: None,
        departure_name: None,
        departure_lat: None,
        departure_lon: None,
        arrival_icao: None,
        arrival_name: None,
        arrival_lat: None,
        arrival_lon: None,
        distance_nm: None,
        elapsed_seconds: None,
        max_altitude_ft: None,
        landing_vs_fpm: None,
        landing_g_force: None,
        notes: Some("hello".to_string()),
    });
    let body = json_body(&[
        ("user_id", Some(payload.user_id.as_str())),
        ("date", Some(payload.date.as_str())),
        ("notes", payload.notes.as_deref()),
    ]);
    let prepared = client
        .prepare_write(HttpMethod::Post, FlightsQuery::select_all(), Some(Ok(body)), true)
        .unwrap();

    assert_eq!(prepared.method, HttpMethod::Post);
    assert!(prepared.headers.contains(&("apikey".to_string(), "publishable-key".to_string())));
    assert!(prepared
        .headers
        .contains(&("authorization".to_string(), "Bearer token-123".to_string())));
    assert!(prepared.body.as_deref().unwrap().contains("\"user_id\":\"user-123\""));
}

#[test]
fn write_request_headers_follow_body_and_representation() {
    let client = test_client();
    let prepared = client
        .prepare_write(HttpMethod::Delete, FlightsQuery::single("f".to_string()), None, true)
        .unwrap();
    assert_eq!(
        prepared.headers,
        vec![
            ("apikey".to_string(), "publishable-key".to_string()),
            ("authorization".to_string(), "Bearer token-123".to_string()),
            ("prefer".to_string(), "return=representation".to_string()),
        ],
    );
    assert_eq!(prepared.body, None);
    let err = client
        .prepare_write(HttpMethod::Patch, FlightsQuery::select_all(), Some(Err("boom".to_string())), false)
        .unwrap_err();
    assert_eq!(err, OriginError::Other("Failed to serialize request body: boom".to_string()));
    let headers = common_headers(&test_config(), &test_auth(), true, None);
    assert_eq!(headers.len(), 3);
    assert_eq!(headers[2], ("content-type".to_string(), "application/json".to_string()));
}

#[test]
fn list_request_encodes_limit_and_offset() {
    let client = test_client();
    let prepared = client.prepare_get(FlightsQuery::list(20, 5)).unwrap();

    assert_eq!(
        prepared.url,
        "https://example.supabase.co/rest/v1/flights?select=*&limit=20&offset=5",
    );
}

#[test]
fn single_flight_request_uses_eq_filter() {
    let client = test_client();
    let prepared = client.prepare_get(FlightsQuery::single("flight-1".to_string())).unwrap();

    assert_eq!(
        prepared.url,
        "https://example.supabase.co/rest/v1/flights?select=*&id=eq.flight-1&limit=1&offset=0",
    );
}

#[test]
fn flights_url_encodes_values_and_negative_numbers() {
    let url = build_flights_url(&test_config(), &FlightsQuery {
        id: Some("a b&c".to_string()),
        limit: Some(-3),
        offset: None,
    })
    .unwrap();
    assert_eq!(url, "https://example.supabase.co/rest/v1/flights?select=*&id=eq.a+b%26c&limit=-3");
    assert_eq!(
        build_flights_url(&test_config(), &FlightsQuery::select_all()).unwrap(),
        "https://example.supabase.co/rest/v1/flights?select=*",
    );
}

#[test]
fn invalid_base_url_is_reported() {
    let config = RuntimeConfig::new("not a url", "k");
    match build_flights_url(&config, &FlightsQuery::select_all()) {
        Err(OriginError::Other(message)) => {
            assert!(message.starts_with("Invalid Supabase URL: "), "{message}")
        },
        other => panic!("unexpected {other:?}"),
    }
}

#[test]
fn origin_error_messages_and_not_found() {
    assert!(OriginError::Status(404).is_not_found());
    assert!(!OriginError::Status(500).is_not_found());
    assert!(!OriginError::Other("404".to_string()).is_not_found());
    assert_eq!(OriginError::Status(500).message(), "Origin returned status 500");
    assert_eq!(OriginError::Other("x".to_string()).message(), "x");
    assert_eq!(check_origin_status(399), Ok(()));
    assert_eq!(check_origin_status(401), Err(OriginError::Status(401)));
}

#[test]
fn response_rows_become_flights() {
    assert_eq!(first_created_flight(vec![row("a"), row("b")]).unwrap().id, "a");
    assert_eq!(
        first_created_flight(vec![]).unwrap_err(),
        OriginError::Other("Supabase create returned no rows".to_string()),
    );
    assert_eq!(first_updated_flight(vec![row("a")]).unwrap().id, "a");
    assert_eq!(first_updated_flight(vec![]).unwrap_err(), OriginError::Status(404));
    assert_eq!(last_fetched_flight(vec![row("a"), row("b")]).unwrap().id, "b");
    assert_eq!(last_fetched_flight(vec![]).unwrap_err(), OriginError::Status(404));
    assert_eq!(confirm_deleted(&vec![row("a")]), Ok(()));
    assert_eq!(confirm_deleted(&vec![]), Err(OriginError::Status(404)));
    let ids: Vec<String> = flights_from_rows(vec![row("x"), row("y")]).into_iter().map(|f| f.id).collect();
    assert_eq!(ids, vec!["x".to_string(), "y".to_string()]);
}

#[test]
fn incoming_bearer_token_is_forwarded_unchanged() {
    let mut headers = http::HeaderMap::new();
    headers.insert(http::header::AUTHORIZATION, "Bearer abc.def.ghi".parse().unwrap());
    let token = gql_async_graphql::auth::extract_bearer_token(&headers).unwrap();
    let auth = AuthContext { access_token: token, user_id: "u".to_string() };
    let sent = common_headers(&test_config(), &auth, false, None);
    assert_eq!(sent[1], ("authorization".to_string(), "Bearer abc.def.ghi".to_string()));
}
