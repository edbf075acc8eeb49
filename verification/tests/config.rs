use gql_async_graphql::config::{ConfigError, RuntimeConfig};

#[test]
fn derives_supabase_urls_without_double_slashes() {
    let config = RuntimeConfig::new("https://example.supabase.co/", "publishable-key");

    assert_eq!(
        config.flights_rest_url(),
        "https://example.supabase.co/rest/v1/flights",
    );
    assert_eq!(config.jwt_issuer(), "https://example.supabase.co/auth/v1",);
    assert_eq!(
        config.jwks_url(),
        "https://example.supabase.co/auth/v1/.well-known/jwks.json",
    );
}

#[test]
fn normalizes_whitespace_and_repeated_trailing_slashes() {
    let config = RuntimeConfig::new("  https://example.supabase.co///  ", "key");
    assert_eq!(config.jwt_issuer(), "https://example.supabase.co/auth/v1");
    assert_eq!(config.supabase_publishable_key(), "key");
}

#[test]
fn normalization_is_not_idempotent_for_slash_then_space() {
    let once = RuntimeConfig::new("https://a.co/ /", "key");
    assert_eq!(once.flights_rest_url(), "https://a.co/ /rest/v1/flights");
    let twice = RuntimeConfig::new("https://a.co/ ", "key");
    assert_eq!(twice.flights_rest_url(), "https://a.co/rest/v1/flights");
}

#[test]
fn env_values_missing_and_blank() {
    assert_eq!(
        RuntimeConfig::from_env_values(None, Some("key")),
        Err(ConfigError::MissingVar("SUPABASE_URL")),
    );
    assert_eq!(
        RuntimeConfig::from_env_values(Some("https://x.co"), None),
        Err(ConfigError::MissingVar("SUPABASE_PUBLISHABLE_KEY")),
    );
    assert_eq!(
        RuntimeConfig::from_env_values(Some("   "), None),
        Err(ConfigError::MissingVar("SUPABASE_PUBLISHABLE_KEY")),
    );
    assert_eq!(
        RuntimeConfig::from_env_values(Some(" \t "), Some("key")),
        Err(ConfigError::InvalidVar("SUPABASE_URL")),
    );
    assert_eq!(
        RuntimeConfig::from_env_values(Some("https://x.co"), Some("  ")),
        Err(ConfigError::InvalidVar("SUPABASE_PUBLISHABLE_KEY")),
    );
    let config = RuntimeConfig::from_env_values(Some("https://x.co/"), Some("k")).unwrap();
    assert_eq!(config, RuntimeConfig::new("https://x.co", "k"));
}

#[test]
fn config_error_messages() {
    assert_eq!(
        ConfigError::MissingVar("SUPABASE_URL").message(),
        "Missing required variable SUPABASE_URL",
    );
    assert_eq!(
        ConfigError::InvalidVar("SUPABASE_PUBLISHABLE_KEY").message(),
        "Invalid required variable SUPABASE_PUBLISHABLE_KEY",
    );
}
