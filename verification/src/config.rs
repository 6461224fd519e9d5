//! Plugin configuration: defaults, merging of a parsed configuration file
//! (including the legacy `clickhouse` block), and validation.
use vstd::prelude::*;

use crate::text::{is_blank, is_blank_str, normalize_clickhouse_url, normalized_url};

verus! {

/// `std::io::Error`, the error of reading the configuration file; carried
/// through unopened.
#[verifier::external_type_specification]
#[verifier::external_body]
pub struct ExIoError(std::io::Error);

/// `serde_json::Error`, the error of parsing the configuration file;
/// carried through unopened.
#[verifier::external_type_specification]
#[verifier::external_body]
pub struct ExJsonError(serde_json::Error);

/// Settings of the plugin.
#[derive(Debug, Clone)]
pub struct PluginConfig {
    pub clickhouse_url: String,
    pub clickhouse_database: String,
    pub clickhouse_table: String,
    pub batch_size: usize,
    pub batch_timeout_ms: u64,
    pub max_retries: u32,
    pub channel_capacity: usize,
    pub create_schema: bool,
}

/// Mathematical value of a [`PluginConfig`]: the strings as character
/// sequences, the numbers as they are.
pub struct PluginConfigView {
    pub clickhouse_url: Seq<char>,
    pub clickhouse_database: Seq<char>,
    pub clickhouse_table: Seq<char>,
    pub batch_size: usize,
    pub batch_timeout_ms: u64,
    pub max_retries: u32,
    pub channel_capacity: usize,
    pub create_schema: bool,
}

impl View for PluginConfig {
    type V = PluginConfigView;

    open spec fn view(&self) -> PluginConfigView {
        PluginConfigView {
            clickhouse_url: self.clickhouse_url@,
            clickhouse_database: self.clickhouse_database@,
            clickhouse_table: self.clickhouse_table@,
            batch_size: self.batch_size,
            batch_timeout_ms: self.batch_timeout_ms,
            max_retries: self.max_retries,
            channel_capacity: self.channel_capacity,
            create_schema: self.create_schema,
        }
    }
}

/// The legacy `clickhouse` block of a configuration file.
#[derive(Debug)]
pub struct LegacyClickhouse {
    pub endpoint: Option<String>,
    pub database: Option<String>,
}

/// A configuration file as parsed: every key may be absent.
#[derive(Debug)]
pub struct RawConfig {
    pub clickhouse_url: Option<String>,
    pub clickhouse_database: Option<String>,
    pub clickhouse_table: Option<String>,
    pub batch_size: Option<usize>,
    pub batch_timeout_ms: Option<u64>,
    pub max_retries: Option<u32>,
    pub channel_capacity: Option<usize>,
    pub create_schema: Option<bool>,
    pub clickhouse: Option<LegacyClickhouse>,
}

/// Why a configuration could not be used.
#[derive(Debug)]
pub enum ConfigError {
    /// The configuration file could not be read.
    Io(std::io::Error),
    /// The configuration file is not the expected JSON.
    Json(serde_json::Error),
    /// A setting is out of range; the text says which.
    Invalid(String),
}

/// ClickHouse HTTP endpoint used when none is configured.
pub fn default_clickhouse_url() -> (s: String)
    ensures
        s@ == "http://127.0.0.1:8123"@,
{
    String::from_str("http://127.0.0.1:8123")
}

/// Database used when none is configured.
pub fn default_clickhouse_database() -> (s: String)
    ensures
        s@ == "solana"@,
{
    String::from_str("solana")
}

/// Table used when none is configured.
pub fn default_clickhouse_table() -> (s: String)
    ensures
        s@ == "accounts"@,
{
    String::from_str("accounts")
}

/// Number of updates written per batch when none is configured.
pub fn default_batch_size() -> (n: usize)
    ensures
        n == 1000,
{
    1_000
}

/// Milliseconds after which a partial batch is written, when none is configured.
pub fn default_batch_timeout_ms() -> (n: u64)
    ensures
        n == 5000,
{
    5_000
}

/// Number of insert attempts per batch when none is configured.
pub fn default_max_retries() -> (n: u32)
    ensures
        n == 3,
{
    3
}

/// Capacity of the update channel when none is configured.
pub fn default_channel_capacity() -> (n: usize)
    ensures
        n == 100_000,
{
    100_000
}

/// Whether the database and table are created at load time, when not configured.
pub fn default_create_schema() -> (b: bool)
    ensures
        b,
{
    true
}

/// The configuration used when the file sets nothing.
pub open spec fn default_config() -> PluginConfigView {
    PluginConfigView {
        clickhouse_url: "http://127.0.0.1:8123"@,
        clickhouse_database: "solana"@,
        clickhouse_table: "accounts"@,
        batch_size: 1000,
        batch_timeout_ms: 5000,
        max_retries: 3,
        channel_capacity: 100_000,
        create_schema: true,
    }
}

/// The first setting that makes `c` unusable, with the message that
/// reports it, or `None` when every setting is in range.
pub open spec fn invalid_reason(c: PluginConfigView) -> Option<Seq<char>> {
    if c.batch_size == 0 {
        Some("batch_size must be greater than 0"@)
    } else if c.batch_timeout_ms == 0 {
        Some("batch_timeout_ms must be greater than 0"@)
    } else if c.channel_capacity == 0 {
        Some("channel_capacity must be greater than 0"@)
    } else if is_blank(c.clickhouse_database) {
        Some("clickhouse_database cannot be empty"@)
    } else if is_blank(c.clickhouse_table) {
        Some("clickhouse_table cannot be empty"@)
    } else {
        None
    }
}

/// `o`'s text when present, `d` otherwise.
pub open spec fn text_or(o: Option<String>, d: Seq<char>) -> Seq<char> {
    match o {
        Some(v) => v@,
        None => d,
    }
}

/// The configuration that a parsed file describes: each key that the file
/// sets replaces the default, and the legacy `clickhouse` block, when
/// present, has the last word on the URL (normalized) and the database.
pub open spec fn merged_config(raw: RawConfig) -> PluginConfigView {
    let d = default_config();
    let url = text_or(raw.clickhouse_url, d.clickhouse_url);
    let database = text_or(raw.clickhouse_database, d.clickhouse_database);
    let (url, database) = match raw.clickhouse {
        Some(legacy) => (
            match legacy.endpoint {
                Some(e) => normalized_url(e@),
                None => url,
            },
            text_or(legacy.database, database),
        ),
        None => (url, database),
    };
    PluginConfigView {
        clickhouse_url: url,
        clickhouse_database: database,
        clickhouse_table: text_or(raw.clickhouse_table, d.clickhouse_table),
        batch_size: raw.batch_size.unwrap_or(d.batch_size),
        batch_timeout_ms: raw.batch_timeout_ms.unwrap_or(d.batch_timeout_ms),
        max_retries: raw.max_retries.unwrap_or(d.max_retries),
        channel_capacity: raw.channel_capacity.unwrap_or(d.channel_capacity),
        create_schema: raw.create_schema.unwrap_or(d.create_schema),
    }
}

/// The default configuration passes validation.
pub proof fn lemma_default_config_is_valid()
    ensures
        invalid_reason(default_config()) is None,
{
    reveal_strlit("solana");
    reveal_strlit("accounts");
    assert(!crate::text::is_white_space("solana"@[0]));
    assert(!crate::text::is_white_space("accounts"@[0]));
}

/// A configuration is usable exactly when batch size, batch timeout and
/// channel capacity are positive and the database and table names are not
/// blank; the report names the first problem in that order.
pub proof fn lemma_validation_rules(c: PluginConfigView)
    ensures
        invalid_reason(c) is None <==> (c.batch_size > 0 && c.batch_timeout_ms > 0
            && c.channel_capacity > 0 && !is_blank(c.clickhouse_database) && !is_blank(
            c.clickhouse_table,
        )),
        c.batch_size == 0 ==> invalid_reason(c) == Some("batch_size must be greater than 0"@),
        c.batch_size > 0 && c.batch_timeout_ms == 0 ==> invalid_reason(c) == Some(
            "batch_timeout_ms must be greater than 0"@,
        ),
        c.batch_size > 0 && c.batch_timeout_ms > 0 && c.channel_capacity == 0 ==> invalid_reason(c)
            == Some("channel_capacity must be greater than 0"@),
        c.batch_size > 0 && c.batch_timeout_ms > 0 && c.channel_capacity > 0 && is_blank(
            c.clickhouse_database,
        ) ==> invalid_reason(c) == Some("clickhouse_database cannot be empty"@),
        c.batch_size > 0 && c.batch_timeout_ms > 0 && c.channel_capacity > 0 && !is_blank(
            c.clickhouse_database,
        ) && is_blank(c.clickhouse_table) ==> invalid_reason(c) == Some(
            "clickhouse_table cannot be empty"@,
        ),
{
}

/// A file that sets nothing describes the default configuration.
pub proof fn lemma_empty_file_gives_defaults(raw: RawConfig)
    requires
        raw.clickhouse_url is None,
        raw.clickhouse_database is None,
        raw.clickhouse_table is None,
        raw.batch_size is None,
        raw.batch_timeout_ms is None,
        raw.max_retries is None,
        raw.channel_capacity is None,
        raw.create_schema is None,
        raw.clickhouse is None,
    ensures
        merged_config(raw) == default_config(),
{
}

/// Where each loaded setting comes from. The database is the legacy
/// block's when it names one, otherwise the file's top-level one, otherwise
/// "solana". The URL is the legacy endpoint (with `tcp://` read as
/// `http://`) when there is one, otherwise the top-level URL, otherwise the
/// default. Every other setting is the file's when set, otherwise its
/// default.
pub proof fn lemma_load_precedence(raw: RawConfig)
    ensures
        ({
            let c = merged_config(raw);
            let legacy_db = raw.clickhouse is Some && raw.clickhouse->0.database is Some;
            let legacy_url = raw.clickhouse is Some && raw.clickhouse->0.endpoint is Some;
            &&& legacy_db ==> c.clickhouse_database == raw.clickhouse->0.database->0@
            &&& !legacy_db && raw.clickhouse_database is Some ==> c.clickhouse_database
                == raw.clickhouse_database->0@
            &&& !legacy_db && raw.clickhouse_database is None ==> c.clickhouse_database
                == "solana"@
            &&& legacy_url ==> c.clickhouse_url == normalized_url(
                raw.clickhouse->0.endpoint->0@,
            )
            &&& !legacy_url && raw.clickhouse_url is Some ==> c.clickhouse_url
                == raw.clickhouse_url->0@
            &&& !legacy_url && raw.clickhouse_url is None ==> c.clickhouse_url
                == "http://127.0.0.1:8123"@
            &&& raw.clickhouse_table is Some ==> c.clickhouse_table == raw.clickhouse_table->0@
            &&& raw.clickhouse_table is None ==> c.clickhouse_table == "accounts"@
            &&& raw.batch_size is Some ==> c.batch_size == raw.batch_size->0
            &&& raw.batch_size is None ==> c.batch_size == 1000
            &&& raw.batch_timeout_ms is Some ==> c.batch_timeout_ms == raw.batch_timeout_ms->0
            &&& raw.batch_timeout_ms is None ==> c.batch_timeout_ms == 5000
            &&& raw.max_retries is Some ==> c.max_retries == raw.max_retries->0
            &&& raw.max_retries is None ==> c.max_retries == 3
            &&& raw.channel_capacity is Some ==> c.channel_capacity == raw.channel_capacity->0
            &&& raw.channel_capacity is None ==> c.channel_capacity == 100_000
            &&& raw.create_schema is Some ==> c.create_schema == raw.create_schema->0
            &&& raw.create_schema is None ==> c.create_schema
        }),
{
}

impl Default for PluginConfig {
    fn default() -> (c: Self)
        ensures
            c@ == default_config(),
    {
        PluginConfig {
            clickhouse_url: default_clickhouse_url(),
            clickhouse_database: default_clickhouse_database(),
            clickhouse_table: default_clickhouse_table(),
            batch_size: default_batch_size(),
            batch_timeout_ms: default_batch_timeout_ms(),
            max_retries: default_max_retries(),
            channel_capacity: default_channel_capacity(),
            create_schema: default_create_schema(),
        }
    }
}

impl PluginConfig {
    /// Builds the configuration that a parsed configuration file describes
    /// and checks it: `Ok` with the merged settings exactly when they are
    /// all in range, otherwise the error for the first setting out of range.
    pub fn load(parsed: RawConfig) -> (r: Result<PluginConfig, ConfigError>)
        ensures
            match r {
                Ok(c) => c@ == merged_config(parsed) && invalid_reason(c@) is None,
                Err(ConfigError::Invalid(m)) => invalid_reason(merged_config(parsed)) == Some(
                    m@,
                ),
                Err(_) => false,
            },
    {
        let ghost raw = parsed;
        let mut config = Self::default();
        let RawConfig {
            clickhouse_url,
            clickhouse_database,
            clickhouse_table,
            batch_size,
            batch_timeout_ms,
            max_retries,
            channel_capacity,
            create_schema,
            clickhouse,
        } = parsed;
        if let Some(v) = clickhouse_url {
            config.clickhouse_url = v;
        }
        if let Some(v) = clickhouse_database {
            config.clickhouse_database = v;
        }
        if let Some(v) = clickhouse_table {
            config.clickhouse_table = v;
        }
        if let Some(v) = batch_size {
            config.batch_size = v;
        }
        if let Some(v) = batch_timeout_ms {
            config.batch_timeout_ms = v;
        }
        if let Some(v) = max_retries {
            config.max_retries = v;
        }
        if let Some(v) = channel_capacity {
            config.channel_capacity = v;
        }
        if let Some(v) = create_schema {
            config.create_schema = v;
        }
        if let Some(legacy) = clickhouse {
            let LegacyClickhouse { endpoint, database } = legacy;
            if let Some(endpoint) = endpoint {
                config.clickhouse_url = normalize_clickhouse_url(endpoint.as_str());
            }
            if let Some(database) = database {
                config.clickhouse_database = database;
            }
        }
        assert(config@ == merged_config(raw));
        match config.validate() {
            Ok(()) => Ok(config),
            Err(e) => Err(e),
        }
    }

    /// Checks that the settings are usable: batch size, batch timeout and
    /// channel capacity must be positive, and the database and table names
    /// must not be blank. Reports the first violation in that order.
    pub fn validate(&self) -> (r: Result<(), ConfigError>)
        ensures
            match r {
                Ok(()) => invalid_reason(self@) is None,
                Err(ConfigError::Invalid(m)) => invalid_reason(self@) == Some(m@),
                Err(_) => false,
            },
    {
        if self.batch_size == 0 {
            return Err(ConfigError::Invalid(String::from_str("batch_size must be greater than 0")));
        }
        if self.batch_timeout_ms == 0 {
            return Err(
                ConfigError::Invalid(String::from_str("batch_timeout_ms must be greater than 0")),
            );
        }
        if self.channel_capacity == 0 {
            return Err(
                ConfigError::Invalid(String::from_str("channel_capacity must be greater than 0")),
            );
        }
        if is_blank_str(self.clickhouse_database.as_str()) {
            return Err(
                ConfigError::Invalid(String::from_str("clickhouse_database cannot be empty")),
            );
        }
        if is_blank_str(self.clickhouse_table.as_str()) {
            return Err(ConfigError::Invalid(String::from_str("clickhouse_table cannot be empty")));
        }
        Ok(())
    }
}

} // verus!
