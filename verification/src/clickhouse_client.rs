//! The ClickHouse side: the connection handle, the row written per
//! account update, and the SQL text that creates the schema.
use vstd::prelude::*;

verus! {

/// `clickhouse::Client`, the HTTP client handle; carried through unopened.
#[verifier::external_type_specification]
#[verifier::external_body]
pub struct ExClient(clickhouse::Client);

/// `clickhouse::error::Error`, the error of a ClickHouse operation;
/// carried through unopened.
#[verifier::external_type_specification]
#[verifier::external_body]
pub struct ExClickhouseOpError(clickhouse::error::Error);

/// `Clone` of `clickhouse::Client`: a copy of the configuration sharing
/// the transport. Nothing is stated of the handle, which is opaque here.
pub assume_specification[ <clickhouse::Client as Clone>::clone ](client: &clickhouse::Client) -> (c:
    clickhouse::Client);

/// Calls `clickhouse::Client::default`, a client with the default HTTP
/// transport and no URL or database set. Nothing is stated of the handle,
/// which is opaque here.
#[verifier::external_body]
fn client_default() -> (c: clickhouse::Client) {
    clickhouse::Client::default()
}

/// The server URL that a client is configured with.
pub uninterp spec fn client_url(c: clickhouse::Client) -> Seq<char>;

/// The default database that a client is configured with, if any.
pub uninterp spec fn client_database(c: clickhouse::Client) -> Option<Seq<char>>;

/// Calls `clickhouse::Client::with_url`, which stores `url` as the server
/// URL. (When the URL carries a `database` query parameter, the call also
/// sets the default database; that is not stated here.)
#[verifier::external_body]
fn client_with_url(client: clickhouse::Client, url: &str) -> (c: clickhouse::Client)
    ensures
        client_url(c) == url@,
{
    client.with_url(url)
}

/// Calls `clickhouse::Client::with_database`, which sets the default
/// database to `database` and leaves the server URL as it was.
#[verifier::external_body]
fn client_with_database(client: clickhouse::Client, database: &str) -> (c: clickhouse::Client)
    ensures
        client_url(c) == client_url(client),
        client_database(c) == Some(database@),
{
    client.with_database(database)
}

/// A client configured for one database, together with the table that
/// account updates go to.
#[derive(Clone)]
pub struct ClickhouseConnection {
    pub client: clickhouse::Client,
    database: String,
    table: String,
}

/// What the library knows of a connection: its database and table names,
/// and the server URL and default database of its client.
pub struct ConnectionView {
    pub database: Seq<char>,
    pub table: Seq<char>,
    pub url: Seq<char>,
    pub client_database: Option<Seq<char>>,
}

impl View for ClickhouseConnection {
    type V = ConnectionView;

    closed spec fn view(&self) -> ConnectionView {
        ConnectionView {
            database: self.database@,
            table: self.table@,
            url: client_url(self.client),
            client_database: client_database(self.client),
        }
    }
}

/// One row of the accounts table.
#[derive(Debug, Clone)]
pub struct AccountRow {
    pub slot: u64,
    pub pubkey: String,
    pub owner: String,
    pub lamports: u64,
    pub executable: u8,
    pub rent_epoch: u64,
    pub data: String,
    pub updated_at_unix_ms: i64,
    pub txn_signature: Option<String>,
    pub write_version: u64,
}

/// Failure of a ClickHouse operation.
#[derive(Debug)]
pub enum ClickhouseError {
    Operation(clickhouse::error::Error),
}

impl From<clickhouse::error::Error> for ClickhouseError {
    fn from(e: clickhouse::error::Error) -> (r: Self) {
        ClickhouseError::Operation(e)
    }
}

impl vstd::std_specs::convert::FromSpecImpl<clickhouse::error::Error> for ClickhouseError {
    open spec fn obeys_from_spec() -> bool {
        true
    }

    open spec fn from_spec(e: clickhouse::error::Error) -> Self {
        ClickhouseError::Operation(e)
    }
}

/// `CREATE DATABASE` statement for `database`.
pub open spec fn create_database_statement(database: Seq<char>) -> Seq<char> {
    "CREATE DATABASE IF NOT EXISTS "@ + database
}

/// Column list and engine clause of the accounts table.
pub open spec fn accounts_table_definition() -> Seq<char> {
    " (
                slot UInt64,
                pubkey String,
                owner String,
                lamports UInt64,
                executable UInt8,
                rent_epoch UInt64,
                data String,
                updated_at_unix_ms Int64,
                txn_signature Nullable(String),
                write_version UInt64
            ) ENGINE = ReplacingMergeTree(write_version)
            ORDER BY (pubkey, slot)"@
}

/// `database.table`, the name under which the table is addressed.
pub open spec fn qualified_table(database: Seq<char>, table: Seq<char>) -> Seq<char> {
    database + "."@ + table
}

/// `CREATE TABLE` statement for the accounts table `database.table`.
pub open spec fn create_table_statement(database: Seq<char>, table: Seq<char>) -> Seq<char> {
    "CREATE TABLE IF NOT EXISTS "@ + qualified_table(database, table)
        + accounts_table_definition()
}

/// The create-table statement names exactly the table that inserts go to:
/// after "CREATE TABLE IF NOT EXISTS " comes `database.table`, then the
/// column list.
pub proof fn lemma_create_table_names_insert_target(database: Seq<char>, table: Seq<char>)
    ensures
        qualified_table(database, table) == database + "."@ + table,
        create_table_statement(database, table) == "CREATE TABLE IF NOT EXISTS "@ + database
            + "."@ + table + accounts_table_definition(),
        create_table_statement(database, table).subrange(
            "CREATE TABLE IF NOT EXISTS "@.len() as int,
            ("CREATE TABLE IF NOT EXISTS "@.len() + database.len() + 1 + table.len()) as int,
        ) == database + "."@ + table,
        create_database_statement(database) == "CREATE DATABASE IF NOT EXISTS "@ + database,
{
    reveal_strlit(".");
    let pre = "CREATE TABLE IF NOT EXISTS "@;
    let s = create_table_statement(database, table);
    assert(s.subrange(pre.len() as int, (pre.len() + database.len() + 1 + table.len()) as int)
        =~= database + "."@ + table);
}

/// Calls `format!("{:?}", s)`: the `Debug` rendering of a string slice
/// (quoted and escaped). Its result is named, not spelled out.
#[verifier::external_body]
fn str_debug(s: &str) -> (r: String)
    ensures
        r@ == str_debug_view(s@),
{
    format!("{:?}", s)
}

/// What `Debug` renders a string slice as.
pub uninterp spec fn str_debug_view(s: Seq<char>) -> Seq<char>;

/// Text of a connection's debug rendering, given the debug renderings of
/// its database and table names.
pub open spec fn connection_debug_view(database_debug: Seq<char>, table_debug: Seq<char>) -> Seq<
    char,
> {
    "ClickhouseConnection { database: "@ + database_debug + ", table: "@ + table_debug + " }"@
}

/// Assembles a connection's debug rendering from the debug renderings of
/// its database and table names; the client is left out.
pub fn connection_debug_text(database_debug: &str, table_debug: &str) -> (s: String)
    ensures
        s@ == connection_debug_view(database_debug@, table_debug@),
{
    let mut s = String::from_str("ClickhouseConnection { database: ");
    s.append(database_debug);
    s.append(", table: ");
    s.append(table_debug);
    s.append(" }");
    s
}

impl ClickhouseConnection {
    /// A connection whose client talks to `clickhouse_url` with `database`
    /// as its default database, writing to `table`.
    pub fn new(clickhouse_url: &str, database: &str, table: &str) -> (c: Self)
        ensures
            c@.database == database@,
            c@.table == table@,
            c@.url == clickhouse_url@,
            c@.client_database == Some(database@),
    {
        let client = client_with_database(
            client_with_url(client_default(), clickhouse_url),
            database,
        );
        ClickhouseConnection {
            client,
            database: String::from_str(database),
            table: String::from_str(table),
        }
    }

    /// The database name.
    pub fn database(&self) -> (d: &String)
        ensures
            d@ == self@.database,
    {
        &self.database
    }

    /// The table name.
    pub fn table(&self) -> (t: &String)
        ensures
            t@ == self@.table,
    {
        &self.table
    }

    /// The statement that creates the database when it is missing.
    pub fn create_database_sql(&self) -> (sql: String)
        ensures
            sql@ == create_database_statement(self@.database),
            sql@ == "CREATE DATABASE IF NOT EXISTS "@ + self@.database,
    {
        let mut sql = String::from_str("CREATE DATABASE IF NOT EXISTS ");
        sql.append(self.database.as_str());
        sql
    }

    /// `database.table` for this connection.
    pub fn qualified_table_name(&self) -> (name: String)
        ensures
            name@ == qualified_table(self@.database, self@.table),
            name@ == self@.database + "."@ + self@.table,
    {
        let mut name = String::from_str(self.database.as_str());
        name.append(".");
        name.append(self.table.as_str());
        name
    }

    /// The statement that creates the accounts table when it is missing.
    pub fn create_table_sql(&self) -> (sql: String)
        ensures
            sql@ == create_table_statement(self@.database, self@.table),
            sql@ == "CREATE TABLE IF NOT EXISTS "@ + self@.database + "."@ + self@.table
                + accounts_table_definition(),
    {
        let mut sql = String::from_str("CREATE TABLE IF NOT EXISTS ");
        let name = self.qualified_table_name();
        sql.append(name.as_str());
        sql.append(
            " (
                slot UInt64,
                pubkey String,
                owner String,
                lamports UInt64,
                executable UInt8,
                rent_epoch UInt64,
                data String,
                updated_at_unix_ms Int64,
                txn_signature Nullable(String),
                write_version UInt64
            ) ENGINE = ReplacingMergeTree(write_version)
            ORDER BY (pubkey, slot)",
        );
        assert(sql@ =~= create_table_statement(self@.database, self@.table));
        sql
    }

    /// Where `rows` are to be inserted: nowhere when there are none (the
    /// server is not contacted), otherwise the table `database.table`.
    pub fn insert_target(&self, rows: &[AccountRow]) -> (target: Option<String>)
        ensures
            rows@.len() == 0 ==> target is None,
            rows@.len() > 0 ==> (target matches Some(t) && t@ == qualified_table(
                self@.database,
                self@.table,
            ) && t@ == self@.database + "."@ + self@.table),
    {
        if rows.len() == 0 {
            None
        } else {
            Some(self.qualified_table_name())
        }
    }

    /// The `Debug` rendering of the connection: its database and table,
    /// not its client.
    pub fn debug_repr(&self) -> (s: String)
        ensures
            s@ == connection_debug_view(
                str_debug_view(self@.database),
                str_debug_view(self@.table),
            ),
    {
        let d = str_debug(self.database.as_str());
        let t = str_debug(self.table.as_str());
        connection_debug_text(d.as_str(), t.as_str())
    }
}

} // verus!
