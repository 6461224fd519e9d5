//! Verified core of a Solana Geyser plugin that streams account updates
//! into ClickHouse: configuration, row shaping, SQL text, and the batching
//! and retry decisions of the background writer.
pub mod text;
pub mod config;
pub mod clickhouse_client;
pub mod worker;
pub mod plugin;
