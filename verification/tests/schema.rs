use gql_async_graphql::http_client::OriginError;
use gql_async_graphql::models::Flight;
use gql_async_graphql::schema::{resolver_outcome, MutationRoot, QueryRoot};

fn make_flight(id: &str, date: &str) -> Flight {
    Flight {
        id: id.to_string(),
        date: date.to_string(),
        aircraft_title: None,
        aircraft_registration: None,
        departure_icao: None,
        departure_name: None,
        departure_lat: None,
        departure_lon: None,
        arrival_icao: None,
        arrival_name: None,
        arrival_lat: None,
        arrival_lon: None,
        distance_nm: None,
        elapsed_seconds: None,
        max_altitude_ft: None,
        landing_vs_fpm: None,
        landing_g_force: None,
        notes: None,
    }
}

#[test]
fn page_defaults_and_clamps() {
    assert_eq!(QueryRoot::flights_page(None, None), (20, 0));
    assert_eq!(QueryRoot::flights_page(Some(2), Some(1)), (2, 1));
    assert_eq!(QueryRoot::flights_page(Some(-5), None), (0, 0));
    assert_eq!(QueryRoot::flights_page(Some(999), None), (100, 0));
    assert_eq!(QueryRoot::flights_page(None, Some(-10)), (20, 0));
    assert_eq!(QueryRoot::flights_page(Some(100), Some(i32::MAX)), (100, i32::MAX));
}

#[test]
fn missing_flight_is_null_and_other_failures_are_errors() {
    let found = QueryRoot::flight_outcome(Ok(make_flight("f1", "2026-01-01"))).unwrap().unwrap();
    assert_eq!(found.id, "f1");
    assert_eq!(found.date, "2026-01-01");
    assert!(QueryRoot::flight_outcome(Err(OriginError::Status(404))).unwrap().is_none());
    let message = QueryRoot::flight_outcome(Err(OriginError::Status(500))).unwrap_err();
    assert!(message.contains("500"));
}

#[test]
fn mutation_outcomes() {
    assert_eq!(MutationRoot::delete_outcome(Ok(())), Ok(true));
    let message = MutationRoot::delete_outcome(Err(OriginError::Status(404))).unwrap_err();
    assert!(message.contains("404"));
    let message = resolver_outcome::<Flight>(Err(OriginError::Status(404))).unwrap_err();
    assert_eq!(message, "Origin returned status 404");
    let flight = resolver_outcome(Ok(make_flight("new-1", "2026-03-08"))).unwrap();
    assert_eq!(flight.id, "new-1");
}
