# solana_geyser_clickhouse

A Solana Geyser plugin that streams account updates into ClickHouse, with
its logic verified by Verus.

- `src/` is the verified library:
  - `text.rs`: the Unicode whitespace model behind `str::trim`, prefix
    tests, and the `tcp://` to `http://` endpoint rewriting;
  - `config.rs`: defaults, merging of a parsed configuration file
    (including the legacy `clickhouse` block) and validation;
  - `clickhouse_client.rs`: the connection handle, the table row, and the
    SQL that creates the database and table;
  - `worker.rs`: the batching rule of the writer (with the proofs that no
    update is lost or reordered and that closing the channel writes
    everything) and the retry rule with exponential backoff;
  - `plugin.rs`: turning an account notification into an update (hex
    encoding) and the accept/refuse decision.
- `app/` holds what talks to the outside world: reading the configuration
  file, the ClickHouse requests, the writer thread and the Geyser plugin
  interface.
- `tests/` exercises the library on concrete values.
