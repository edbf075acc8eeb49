//! The flight records exchanged with GraphQL clients and with PostgREST.
//!
//! Fractional measurements (coordinates, distance, altitude, landing rate and
//! load) are carried as the IEEE 754 bit patterns of their `f64` values
//! (`f64::to_bits`): the worker only moves them between records, so the bit
//! pattern stands for the number exactly.

use vstd::prelude::*;

verus! {

/// A flight as GraphQL clients see it.
#[derive(Debug, Clone)]
pub struct Flight {
    pub id: String,
    pub date: String,
    pub aircraft_title: Option<String>,
    pub aircraft_registration: Option<String>,
    pub departure_icao: Option<String>,
    pub departure_name: Option<String>,
    pub departure_lat: Option<u64>,
    pub departure_lon: Option<u64>,
    pub arrival_icao: Option<String>,
    pub arrival_name: Option<String>,
    pub arrival_lat: Option<u64>,
    pub arrival_lon: Option<u64>,
    pub distance_nm: Option<u64>,
    pub elapsed_seconds: Option<i32>,
    pub max_altitude_ft: Option<u64>,
    pub landing_vs_fpm: Option<u64>,
    pub landing_g_force: Option<u64>,
    pub notes: Option<String>,
}

/// A row of the `flights` table as PostgREST returns it.
#[derive(Debug, Clone)]
pub struct FlightRow {
    pub id: String,
    pub user_id: String,
    pub date: String,
    pub aircraft_title: Option<String>,
    pub aircraft_registration: Option<String>,
    pub departure_icao: Option<String>,
    pub departure_name: Option<String>,
    pub departure_lat: Option<u64>,
    pub departure_lon: Option<u64>,
    pub arrival_icao: Option<String>,
    pub arrival_name: Option<String>,
    pub arrival_lat: Option<u64>,
    pub arrival_lon: Option<u64>,
    pub distance_nm: Option<u64>,
    pub elapsed_seconds: Option<i32>,
    pub max_altitude_ft: Option<u64>,
    pub landing_vs_fpm: Option<u64>,
    pub landing_g_force: Option<u64>,
    pub notes: Option<String>,
}

/// The `createFlight` mutation's input.
#[derive(Debug, Clone)]
pub struct CreateFlightInput {
    pub date: String,
    pub aircraft_title: Option<String>,
    pub aircraft_registration: Option<String>,
    pub departure_icao: Option<String>,
    pub departure_name: Option<String>,
    pub departure_lat: Option<u64>,
    pub departure_lon: Option<u64>,
    pub arrival_icao: Option<String>,
    pub arrival_name: Option<String>,
    pub arrival_lat: Option<u64>,
    pub arrival_lon: Option<u64>,
    pub distance_nm: Option<u64>,
    pub elapsed_seconds: Option<i32>,
    pub max_altitude_ft: Option<u64>,
    pub landing_vs_fpm: Option<u64>,
    pub landing_g_force: Option<u64>,
    pub notes: Option<String>,
}

/// The body of the insert request: the input plus its owner.
#[derive(Debug, Clone)]
pub struct CreateFlightPayload {
    pub user_id: String,
    pub date: String,
    pub aircraft_title: Option<String>,
    pub aircraft_registration: Option<String>,
    pub departure_icao: Option<String>,
    pub departure_name: Option<String>,
    pub departure_lat: Option<u64>,
    pub departure_lon: Option<u64>,
    pub arrival_icao: Option<String>,
    pub arrival_name: Option<String>,
    pub arrival_lat: Option<u64>,
    pub arrival_lon: Option<u64>,
    pub distance_nm: Option<u64>,
    pub elapsed_seconds: Option<i32>,
    pub max_altitude_ft: Option<u64>,
    pub landing_vs_fpm: Option<u64>,
    pub landing_g_force: Option<u64>,
    pub notes: Option<String>,
}

/// The `updateFlight` mutation's input; absent fields are left unchanged.
#[derive(Debug, Clone)]
pub struct UpdateFlightInput {
    pub date: Option<String>,
    pub aircraft_title: Option<String>,
    pub aircraft_registration: Option<String>,
    pub departure_icao: Option<String>,
    pub departure_name: Option<String>,
    pub departure_lat: Option<u64>,
    pub departure_lon: Option<u64>,
    pub arrival_icao: Option<String>,
    pub arrival_name: Option<String>,
    pub arrival_lat: Option<u64>,
    pub arrival_lon: Option<u64>,
    pub distance_nm: Option<u64>,
    pub elapsed_seconds: Option<i32>,
    pub max_altitude_ft: Option<u64>,
    pub landing_vs_fpm: Option<u64>,
    pub landing_g_force: Option<u64>,
    pub notes: Option<String>,
}

/// The body of the update request; absent fields are left out of it.
#[derive(Debug, Clone)]
pub struct UpdateFlightPatch {
    pub date: Option<String>,
    pub aircraft_title: Option<String>,
    pub aircraft_registration: Option<String>,
    pub departure_icao: Option<String>,
    pub departure_name: Option<String>,
    pub departure_lat: Option<u64>,
    pub departure_lon: Option<u64>,
    pub arrival_icao: Option<String>,
    pub arrival_name: Option<String>,
    pub arrival_lat: Option<u64>,
    pub arrival_lon: Option<u64>,
    pub distance_nm: Option<u64>,
    pub elapsed_seconds: Option<i32>,
    pub max_altitude_ft: Option<u64>,
    pub landing_vs_fpm: Option<u64>,
    pub landing_g_force: Option<u64>,
    pub notes: Option<String>,
}

/// The flight that a row stands for: the row without its owner.
pub open spec fn flight_from_row(row: FlightRow) -> Flight {
    Flight {
        id: row.id,
        date: row.date,
        aircraft_title: row.aircraft_title,
        aircraft_registration: row.aircraft_registration,
        departure_icao: row.departure_icao,
        departure_name: row.departure_name,
        departure_lat: row.departure_lat,
        departure_lon: row.departure_lon,
        arrival_icao: row.arrival_icao,
        arrival_name: row.arrival_name,
        arrival_lat: row.arrival_lat,
        arrival_lon: row.arrival_lon,
        distance_nm: row.distance_nm,
        elapsed_seconds: row.elapsed_seconds,
        max_altitude_ft: row.max_altitude_ft,
        landing_vs_fpm: row.landing_vs_fpm,
        landing_g_force: row.landing_g_force,
        notes: row.notes,
    }
}

impl vstd::std_specs::convert::FromSpecImpl<FlightRow> for Flight {
    open spec fn obeys_from_spec() -> bool {
        true
    }

    open spec fn from_spec(row: FlightRow) -> Flight {
        flight_from_row(row)
    }
}

impl From<FlightRow> for Flight {
    /// The row without its owner.
    fn from(row: FlightRow) -> (res: Flight)
        ensures
            res.id == row.id,
            res.date == row.date,
            res.aircraft_title == row.aircraft_title,
            res.aircraft_registration == row.aircraft_registration,
            res.departure_icao == row.departure_icao,
            res.departure_name == row.departure_name,
            res.departure_lat == row.departure_lat,
            res.departure_lon == row.departure_lon,
            res.arrival_icao == row.arrival_icao,
            res.arrival_name == row.arrival_name,
            res.arrival_lat == row.arrival_lat,
            res.arrival_lon == row.arrival_lon,
            res.distance_nm == row.distance_nm,
            res.elapsed_seconds == row.elapsed_seconds,
            res.max_altitude_ft == row.max_altitude_ft,
            res.landing_vs_fpm == row.landing_vs_fpm,
            res.landing_g_force == row.landing_g_force,
            res.notes == row.notes,
    {
        Flight {
            id: row.id,
            date: row.date,
            aircraft_title: row.aircraft_title,
            aircraft_registration: row.aircraft_registration,
            departure_icao: row.departure_icao,
            departure_name: row.departure_name,
            departure_lat: row.departure_lat,
            departure_lon: row.departure_lon,
            arrival_icao: row.arrival_icao,
            arrival_name: row.arrival_name,
            arrival_lat: row.arrival_lat,
            arrival_lon: row.arrival_lon,
            distance_nm: row.distance_nm,
            elapsed_seconds: row.elapsed_seconds,
            max_altitude_ft: row.max_altitude_ft,
            landing_vs_fpm: row.landing_vs_fpm,
            landing_g_force: row.landing_g_force,
            notes: row.notes,
        }
    }
}

/// The insert body for `input` owned by `user_id`.
pub open spec fn create_payload(input: CreateFlightInput, user_id: String) -> CreateFlightPayload {
    CreateFlightPayload {
        user_id: user_id,
        date: input.date,
        aircraft_title: input.aircraft_title,
        aircraft_registration: input.aircraft_registration,
        departure_icao: input.departure_icao,
        departure_name: input.departure_name,
        departure_lat: input.departure_lat,
        departure_lon: input.departure_lon,
        arrival_icao: input.arrival_icao,
        arrival_name: input.arrival_name,
        arrival_lat: input.arrival_lat,
        arrival_lon: input.arrival_lon,
        distance_nm: input.distance_nm,
        elapsed_seconds: input.elapsed_seconds,
        max_altitude_ft: input.max_altitude_ft,
        landing_vs_fpm: input.landing_vs_fpm,
        landing_g_force: input.landing_g_force,
        notes: input.notes,
    }
}

impl CreateFlightPayload {
    /// The insert body for `input`, owned by `user_id`.
    pub fn new(input: CreateFlightInput, user_id: String) -> (res: Self)
        ensures
            res == create_payload(input, user_id),
            res.user_id == user_id,
            res.date == input.date,
            res.aircraft_title == input.aircraft_title,
            res.aircraft_registration == input.aircraft_registration,
            res.departure_icao == input.departure_icao,
            res.departure_name == input.departure_name,
            res.departure_lat == input.departure_lat,
            res.departure_lon == input.departure_lon,
            res.arrival_icao == input.arrival_icao,
            res.arrival_name == input.arrival_name,
            res.arrival_lat == input.arrival_lat,
            res.arrival_lon == input.arrival_lon,
            res.distance_nm == input.distance_nm,
            res.elapsed_seconds == input.elapsed_seconds,
            res.max_altitude_ft == input.max_altitude_ft,
            res.landing_vs_fpm == input.landing_vs_fpm,
            res.landing_g_force == input.landing_g_force,
            res.notes == input.notes,
    {
        Self {
            user_id,
            date: input.date,
            aircraft_title: input.aircraft_title,
            aircraft_registration: input.aircraft_registration,
            departure_icao: input.departure_icao,
            departure_name: input.departure_name,
            departure_lat: input.departure_lat,
            departure_lon: input.departure_lon,
            arrival_icao: input.arrival_icao,
            arrival_name: input.arrival_name,
            arrival_lat: input.arrival_lat,
            arrival_lon: input.arrival_lon,
            distance_nm: input.distance_nm,
            elapsed_seconds: input.elapsed_seconds,
            max_altitude_ft: input.max_altitude_ft,
            landing_vs_fpm: input.landing_vs_fpm,
            landing_g_force: input.landing_g_force,
            notes: input.notes,
        }
    }
}

impl vstd::std_specs::convert::FromSpecImpl<UpdateFlightInput> for UpdateFlightPatch {
    open spec fn obeys_from_spec() -> bool {
        true
    }

    open spec fn from_spec(input: UpdateFlightInput) -> UpdateFlightPatch {
        patch_from_input(input)
    }
}

/// The patch for `input`: the fields present in the input, and only those.
pub open spec fn patch_from_input(input: UpdateFlightInput) -> UpdateFlightPatch {
    UpdateFlightPatch {
        date: input.date,
        aircraft_title: input.aircraft_title,
        aircraft_registration: input.aircraft_registration,
        departure_icao: input.departure_icao,
        departure_name: input.departure_name,
        departure_lat: input.departure_lat,
        departure_lon: input.departure_lon,
        arrival_icao: input.arrival_icao,
        arrival_name: input.arrival_name,
        arrival_lat: input.arrival_lat,
        arrival_lon: input.arrival_lon,
        distance_nm: input.distance_nm,
        elapsed_seconds: input.elapsed_seconds,
        max_altitude_ft: input.max_altitude_ft,
        landing_vs_fpm: input.landing_vs_fpm,
        landing_g_force: input.landing_g_force,
        notes: input.notes,
    }
}

impl From<UpdateFlightInput> for UpdateFlightPatch {
    /// The patch that sets exactly the fields present in `input`.
    fn from(input: UpdateFlightInput) -> (res: UpdateFlightPatch)
        ensures
            res.date == input.date,
            res.aircraft_title == input.aircraft_title,
            res.aircraft_registration == input.aircraft_registration,
            res.departure_icao == input.departure_icao,
            res.departure_name == input.departure_name,
            res.departure_lat == input.departure_lat,
            res.departure_lon == input.departure_lon,
            res.arrival_icao == input.arrival_icao,
            res.arrival_name == input.arrival_name,
            res.arrival_lat == input.arrival_lat,
            res.arrival_lon == input.arrival_lon,
            res.distance_nm == input.distance_nm,
            res.elapsed_seconds == input.elapsed_seconds,
            res.max_altitude_ft == input.max_altitude_ft,
            res.landing_vs_fpm == input.landing_vs_fpm,
            res.landing_g_force == input.landing_g_force,
            res.notes == input.notes,
    {
        UpdateFlightPatch {
            date: input.date,
            aircraft_title: input.aircraft_title,
            aircraft_registration: input.aircraft_registration,
            departure_icao: input.departure_icao,
            departure_name: input.departure_name,
            departure_lat: input.departure_lat,
            departure_lon: input.departure_lon,
            arrival_icao: input.arrival_icao,
            arrival_name: input.arrival_name,
            arrival_lat: input.arrival_lat,
            arrival_lon: input.arrival_lon,
            distance_nm: input.distance_nm,
            elapsed_seconds: input.elapsed_seconds,
            max_altitude_ft: input.max_altitude_ft,
            landing_vs_fpm: input.landing_vs_fpm,
            landing_g_force: input.landing_g_force,
            notes: input.notes,
        }
    }
}

/// Converting a row keeps every field where it was: each field of the flight
/// is the row's field of the same name (the owner is dropped).
pub proof fn lemma_row_conversion_keeps_fields(row: FlightRow)
    ensures
        flight_from_row(row).id == row.id,
        flight_from_row(row).date == row.date,
        flight_from_row(row).aircraft_title == row.aircraft_title,
        flight_from_row(row).aircraft_registration == row.aircraft_registration,
        flight_from_row(row).departure_icao == row.departure_icao,
        flight_from_row(row).departure_name == row.departure_name,
        flight_from_row(row).departure_lat == row.departure_lat,
        flight_from_row(row).departure_lon == row.departure_lon,
        flight_from_row(row).arrival_icao == row.arrival_icao,
        flight_from_row(row).arrival_name == row.arrival_name,
        flight_from_row(row).arrival_lat == row.arrival_lat,
        flight_from_row(row).arrival_lon == row.arrival_lon,
        flight_from_row(row).distance_nm == row.distance_nm,
        flight_from_row(row).elapsed_seconds == row.elapsed_seconds,
        flight_from_row(row).max_altitude_ft == row.max_altitude_ft,
        flight_from_row(row).landing_vs_fpm == row.landing_vs_fpm,
        flight_from_row(row).landing_g_force == row.landing_g_force,
        flight_from_row(row).notes == row.notes,
        <Flight as vstd::std_specs::convert::FromSpec<FlightRow>>::from_spec(row) == flight_from_row(
            row,
        ),
{
}

/// The insert body copies each input field to the field of the same name and
/// is owned by the given user.
pub proof fn lemma_create_payload_keeps_fields(input: CreateFlightInput, user_id: String)
    ensures
        create_payload(input, user_id).user_id == user_id,
        create_payload(input, user_id).date == input.date,
        create_payload(input, user_id).aircraft_title == input.aircraft_title,
        create_payload(input, user_id).aircraft_registration == input.aircraft_registration,
        create_payload(input, user_id).departure_icao == input.departure_icao,
        create_payload(input, user_id).departure_name == input.departure_name,
        create_payload(input, user_id).departure_lat == input.departure_lat,
        create_payload(input, user_id).departure_lon == input.departure_lon,
        create_payload(input, user_id).arrival_icao == input.arrival_icao,
        create_payload(input, user_id).arrival_name == input.arrival_name,
        create_payload(input, user_id).arrival_lat == input.arrival_lat,
        create_payload(input, user_id).arrival_lon == input.arrival_lon,
        create_payload(input, user_id).distance_nm == input.distance_nm,
        create_payload(input, user_id).elapsed_seconds == input.elapsed_seconds,
        create_payload(input, user_id).max_altitude_ft == input.max_altitude_ft,
        create_payload(input, user_id).landing_vs_fpm == input.landing_vs_fpm,
        create_payload(input, user_id).landing_g_force == input.landing_g_force,
        create_payload(input, user_id).notes == input.notes,
{
}

/// The patch sets exactly the fields present in the input, with the same
/// values: a field is present in the patch exactly when it is in the input.
pub proof fn lemma_patch_keeps_fields(input: UpdateFlightInput)
    ensures
        patch_from_input(input).date == input.date,
        patch_from_input(input).aircraft_title == input.aircraft_title,
        patch_from_input(input).aircraft_registration == input.aircraft_registration,
        patch_from_input(input).departure_icao == input.departure_icao,
        patch_from_input(input).departure_name == input.departure_name,
        patch_from_input(input).departure_lat == input.departure_lat,
        patch_from_input(input).departure_lon == input.departure_lon,
        patch_from_input(input).arrival_icao == input.arrival_icao,
        patch_from_input(input).arrival_name == input.arrival_name,
        patch_from_input(input).arrival_lat == input.arrival_lat,
        patch_from_input(input).arrival_lon == input.arrival_lon,
        patch_from_input(input).distance_nm == input.distance_nm,
        patch_from_input(input).elapsed_seconds == input.elapsed_seconds,
        patch_from_input(input).max_altitude_ft == input.max_altitude_ft,
        patch_from_input(input).landing_vs_fpm == input.landing_vs_fpm,
        patch_from_input(input).landing_g_force == input.landing_g_force,
        patch_from_input(input).notes == input.notes,
        <UpdateFlightPatch as vstd::std_specs::convert::FromSpec<UpdateFlightInput>>::from_spec(
            input,
        ) == patch_from_input(input),
{
}

} // verus!
