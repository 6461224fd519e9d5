use solana_geyser_clickhouse::config::{
    default_batch_size, default_batch_timeout_ms, default_channel_capacity,
    default_clickhouse_database, default_clickhouse_table, default_clickhouse_url,
    default_create_schema, default_max_retries, ConfigError, LegacyClickhouse, PluginConfig,
    RawConfig,
};
use solana_geyser_clickhouse::text::{is_blank_str, normalize_clickhouse_url, starts_with};

fn empty_raw() -> RawConfig {
    RawConfig {
        clickhouse_url: None,
        clickhouse_database: None,
        clickhouse_table: None,
        batch_size: None,
        batch_timeout_ms: None,
        max_retries: None,
        channel_capacity: None,
        create_schema: None,
        clickhouse: None,
    }
}

fn invalid_message(r: Result<PluginConfig, ConfigError>) -> String {
    match r {
        Err(ConfigError::Invalid(m)) => m,
        Err(e) => panic!("unexpected error {:?}", e),
        Ok(_) => panic!("expected an error"),
    }
}

#[test]
fn default_values_match_readme() {
    assert_eq!(default_clickhouse_url(), "http://127.0.0.1:8123");
    assert_eq!(default_clickhouse_database(), "solana");
    assert_eq!(default_clickhouse_table(), "accounts");
    assert_eq!(default_batch_size(), 1000);
    assert_eq!(default_batch_timeout_ms(), 5000);
    assert_eq!(default_max_retries(), 3);
    assert_eq!(default_channel_capacity(), 100_000);
    assert!(default_create_schema());
}

#[test]
fn default_config_is_valid() {
    let c = PluginConfig::default();
    assert_eq!(c.clickhouse_url, "http://127.0.0.1:8123");
    assert_eq!(c.clickhouse_database, "solana");
    assert_eq!(c.clickhouse_table, "accounts");
    assert_eq!(c.batch_size, 1000);
    assert_eq!(c.batch_timeout_ms, 5000);
    assert_eq!(c.max_retries, 3);
    assert_eq!(c.channel_capacity, 100_000);
    assert!(c.create_schema);
    assert!(c.validate().is_ok());
}

#[test]
fn empty_file_loads_defaults() {
    let c = PluginConfig::load(empty_raw()).unwrap();
    assert_eq!(c.clickhouse_url, "http://127.0.0.1:8123");
    assert_eq!(c.clickhouse_database, "solana");
    assert_eq!(c.clickhouse_table, "accounts");
    assert_eq!(c.batch_size, 1000);
    assert_eq!(c.max_retries, 3);
}

#[test]
fn readme_example_config_loads() {
    let mut raw = empty_raw();
    raw.clickhouse_url = Some("http://127.0.0.1:8123".to_string());
    raw.clickhouse_database = Some("solana".to_string());
    raw.clickhouse_table = Some("accounts".to_string());
    raw.batch_size = Some(1000);
    raw.batch_timeout_ms = Some(5000);
    raw.max_retries = Some(3);
    raw.channel_capacity = Some(100000);
    raw.create_schema = Some(true);
    let c = PluginConfig::load(raw).unwrap();
    assert_eq!(c.clickhouse_table, "accounts");
    assert_eq!(c.channel_capacity, 100000);
}

#[test]
fn set_keys_override_defaults() {
    let mut raw = empty_raw();
    raw.clickhouse_url = Some("http://db:8123".to_string());
    raw.clickhouse_table = Some("updates".to_string());
    raw.batch_size = Some(10);
    raw.batch_timeout_ms = Some(250);
    raw.max_retries = Some(0);
    raw.channel_capacity = Some(5);
    raw.create_schema = Some(false);
    let c = PluginConfig::load(raw).unwrap();
    assert_eq!(c.clickhouse_url, "http://db:8123");
    assert_eq!(c.clickhouse_database, "solana");
    assert_eq!(c.clickhouse_table, "updates");
    assert_eq!(c.batch_size, 10);
    assert_eq!(c.batch_timeout_ms, 250);
    assert_eq!(c.max_retries, 0);
    assert_eq!(c.channel_capacity, 5);
    assert!(!c.create_schema);
}

#[test]
fn legacy_block_overrides_url_and_database() {
    let mut raw = empty_raw();
    raw.clickhouse_url = Some("http://ignored:8123".to_string());
    raw.clickhouse_database = Some("ignored".to_string());
    raw.clickhouse = Some(LegacyClickhouse {
        endpoint: Some("tcp://ch.internal:9000".to_string()),
        database: Some("mainnet".to_string()),
    });
    let c = PluginConfig::load(raw).unwrap();
    assert_eq!(c.clickhouse_url, "http://ch.internal:9000");
    assert_eq!(c.clickhouse_database, "mainnet");
}

#[test]
fn legacy_block_without_keys_keeps_values() {
    let mut raw = empty_raw();
    raw.clickhouse_url = Some("http://kept:8123".to_string());
    raw.clickhouse = Some(LegacyClickhouse { endpoint: None, database: None });
    let c = PluginConfig::load(raw).unwrap();
    assert_eq!(c.clickhouse_url, "http://kept:8123");
    assert_eq!(c.clickhouse_database, "solana");
}

#[test]
fn legacy_http_endpoint_is_kept() {
    let mut raw = empty_raw();
    raw.clickhouse = Some(LegacyClickhouse {
        endpoint: Some("https://secure:8443".to_string()),
        database: None,
    });
    let c = PluginConfig::load(raw).unwrap();
    assert_eq!(c.clickhouse_url, "https://secure:8443");
}

#[test]
fn zero_batch_size_is_rejected() {
    let mut raw = empty_raw();
    raw.batch_size = Some(0);
    raw.batch_timeout_ms = Some(0);
    assert_eq!(invalid_message(PluginConfig::load(raw)), "batch_size must be greater than 0");
}

#[test]
fn zero_batch_timeout_is_rejected() {
    let mut raw = empty_raw();
    raw.batch_timeout_ms = Some(0);
    raw.channel_capacity = Some(0);
    assert_eq!(
        invalid_message(PluginConfig::load(raw)),
        "batch_timeout_ms must be greater than 0"
    );
}

#[test]
fn zero_channel_capacity_is_rejected() {
    let mut raw = empty_raw();
    raw.channel_capacity = Some(0);
    assert_eq!(
        invalid_message(PluginConfig::load(raw)),
        "channel_capacity must be greater than 0"
    );
}

#[test]
fn blank_database_is_rejected() {
    let mut raw = empty_raw();
    raw.clickhouse_database = Some(" \t\n".to_string());
    raw.clickhouse_table = Some(String::new());
    assert_eq!(invalid_message(PluginConfig::load(raw)), "clickhouse_database cannot be empty");
}

#[test]
fn blank_legacy_database_is_rejected() {
    let mut raw = empty_raw();
    raw.clickhouse = Some(LegacyClickhouse { endpoint: None, database: Some(String::new()) });
    assert_eq!(invalid_message(PluginConfig::load(raw)), "clickhouse_database cannot be empty");
}

#[test]
fn unicode_blank_table_is_rejected() {
    let mut raw = empty_raw();
    raw.clickhouse_table = Some("\u{3000}\u{00A0}".to_string());
    assert_eq!(invalid_message(PluginConfig::load(raw)), "clickhouse_table cannot be empty");
}

#[test]
fn padded_names_are_accepted_as_given() {
    let mut raw = empty_raw();
    raw.clickhouse_table = Some("  accounts  ".to_string());
    let c = PluginConfig::load(raw).unwrap();
    assert_eq!(c.clickhouse_table, "  accounts  ");
}

#[test]
fn validate_reports_first_problem() {
    let mut c = PluginConfig::default();
    c.channel_capacity = 0;
    c.clickhouse_table = String::new();
    match c.validate() {
        Err(ConfigError::Invalid(m)) => assert_eq!(m, "channel_capacity must be greater than 0"),
        _ => panic!("expected an error"),
    }
}

#[test]
fn blank_detection() {
    assert!(is_blank_str(""));
    assert!(is_blank_str(" \r\n\t"));
    assert!(is_blank_str("\u{2028}\u{205F}"));
    assert!(!is_blank_str(" a "));
    assert!(!is_blank_str("\u{200B}"));
}

#[test]
fn prefix_detection() {
    assert!(starts_with("tcp://x", "tcp://"));
    assert!(starts_with("abc", ""));
    assert!(!starts_with("tcp:/", "tcp://"));
    assert!(!starts_with("xtcp://", "tcp://"));
}

#[test]
fn tcp_endpoint_becomes_http() {
    assert_eq!(normalize_clickhouse_url("tcp://127.0.0.1:9000"), "http://127.0.0.1:9000");
    assert_eq!(normalize_clickhouse_url("tcp://"), "http://");
}

#[test]
fn other_endpoints_are_unchanged() {
    assert_eq!(normalize_clickhouse_url("http://127.0.0.1:8123"), "http://127.0.0.1:8123");
    assert_eq!(normalize_clickhouse_url("TCP://host"), "TCP://host");
    assert_eq!(normalize_clickhouse_url("x tcp://host"), "x tcp://host");
    assert_eq!(normalize_clickhouse_url(""), "");
}

#[test]
fn normalization_is_idempotent() {
    let once = normalize_clickhouse_url("tcp://tcp://h");
    assert_eq!(once, "http://tcp://h");
    assert_eq!(normalize_clickhouse_url(&once), once);
}

#[test]
fn config_error_carries_json_error() {
    let e = serde_json::from_str::<u32>("not json").unwrap_err();
    let err = ConfigError::Json(e);
    assert!(matches!(err, ConfigError::Json(_)));
    let io = ConfigError::Io(std::io::Error::other("missing"));
    assert!(matches!(io, ConfigError::Io(_)));
}
