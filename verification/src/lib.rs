//! Request authentication, configuration and Supabase request preparation for
//! the flight-log GraphQL worker.

pub mod auth;
pub mod config;
pub mod der;
pub mod handler;
pub mod http_client;
pub mod models;
pub mod schema;
pub mod signing;
pub mod text;
