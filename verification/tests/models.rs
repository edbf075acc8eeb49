use gql_async_graphql::models::{
    CreateFlightInput, CreateFlightPayload, Flight, FlightRow, UpdateFlightInput, UpdateFlightPatch,
};

#[test]
fn create_payload_includes_user_id() {
    let payload = CreateFlightPayload::new(
        CreateFlightInput {
            date: "2026-03-12".to_string(),
            aircraft_title: None,
            aircraft_registration: None,
            departure_icao: None,
            departure_name: None,
            departure_lat: None,
            departure_lon: None,
            arrival_icao: None,
            arrival_name: None,
            arrival_lat: None,
            arrival_lon: None,
            distance_nm: None,
            elapsed_seconds: None,
            max_altitude_ft: None,
            landing_vs_fpm: None,
            landing_g_force: None,
            notes: Some("First flight".to_string()),
        },
        "user-123".to_string(),
    );

    assert_eq!(payload.user_id, "user-123");
    assert_eq!(payload.notes.as_deref(), Some("First flight"));
}

#[test]
fn row_becomes_flight_with_the_same_fields() {
    let row = FlightRow {
        id: "flight-1".to_string(),
        user_id: "user-123".to_string(),
        date: "2026-03-12".to_string(),
        aircraft_title: Some("C172".to_string()),
        aircraft_registration: None,
        departure_icao: Some("KSEA".to_string()),
        departure_name: None,
        departure_lat: Some(47.45_f64.to_bits()),
        departure_lon: None,
        arrival_icao: None,
        arrival_name: None,
        arrival_lat: None,
        arrival_lon: None,
        distance_nm: None,
        elapsed_seconds: Some(3600),
        max_altitude_ft: None,
        landing_vs_fpm: None,
        landing_g_force: None,
        notes: Some("Smooth landing".to_string()),
    };
    let flight: Flight = row.into();
    assert_eq!(flight.id, "flight-1");
    assert_eq!(flight.aircraft_title.as_deref(), Some("C172"));
    assert_eq!(flight.notes.as_deref(), Some("Smooth landing"));
    assert_eq!(flight.departure_lat.map(f64::from_bits), Some(47.45));
    assert_eq!(flight.elapsed_seconds, Some(3600));
}

#[test]
fn patch_keeps_exactly_the_present_fields() {
    let patch = UpdateFlightPatch::from(UpdateFlightInput {
        date: Some("2026-03-12".to_string()),
        aircraft_title: None,
        aircraft_registration: None,
        departure_icao: None,
        departure_name: None,
        departure_lat: None,
        departure_lon: None,
        arrival_icao: None,
        arrival_name: None,
        arrival_lat: None,
        arrival_lon: None,
        distance_nm: None,
        elapsed_seconds: None,
        max_altitude_ft: None,
        landing_vs_fpm: None,
        landing_g_force: None,
        notes: Some("Updated".to_string()),
    });
    assert_eq!(patch.date.as_deref(), Some("2026-03-12"));
    assert_eq!(patch.notes.as_deref(), Some("Updated"));
    assert!(patch.aircraft_title.is_none());
}
