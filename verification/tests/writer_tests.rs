use solana_geyser_clickhouse::clickhouse_client::{AccountRow, ClickhouseConnection};
use solana_geyser_clickhouse::worker::{
    row_for_update, rows_for_batch, AccountUpdate, Batcher, RetryDecision, RetryState,
    WorkerEvent,
};

fn update(n: u64) -> AccountUpdate {
    AccountUpdate {
        slot: n,
        pubkey: format!("pk{}", n),
        owner: "ow".to_string(),
        lamports: n * 10,
        executable: (n % 2) as u8,
        rent_epoch: 7,
        data: "00ff".to_string(),
        updated_at_unix_ms: -5,
        txn_signature: if n == 2 { Some("sig".to_string()) } else { None },
        write_version: n + 100,
    }
}

fn slots(batch: &[AccountUpdate]) -> Vec<u64> {
    batch.iter().map(|u| u.slot).collect()
}

#[test]
fn connection_keeps_database_and_table() {
    let conn = ClickhouseConnection::new("http://127.0.0.1:8123", "solana", "accounts");
    assert_eq!(conn.database(), "solana");
    assert_eq!(conn.table(), "accounts");
    assert_eq!(conn.qualified_table_name(), "solana.accounts");
}

#[test]
fn connection_client_uses_configured_database() {
    let conn = ClickhouseConnection::new("http://127.0.0.1:8123", "mainnet", "accounts");
    assert_eq!(conn.client.database(), Some("mainnet"));
}

#[test]
fn schema_statements() {
    let conn = ClickhouseConnection::new("http://127.0.0.1:8123", "solana", "accounts");
    assert_eq!(conn.create_database_sql(), "CREATE DATABASE IF NOT EXISTS solana");
    let expected = "CREATE TABLE IF NOT EXISTS solana.accounts (\n                slot UInt64,\n                pubkey String,\n                owner String,\n                lamports UInt64,\n                executable UInt8,\n                rent_epoch UInt64,\n                data String,\n                updated_at_unix_ms Int64,\n                txn_signature Nullable(String),\n                write_version UInt64\n            ) ENGINE = ReplacingMergeTree(write_version)\n            ORDER BY (pubkey, slot)";
    assert_eq!(conn.create_table_sql(), expected);
}

#[test]
fn empty_insert_needs_no_server() {
    let conn = ClickhouseConnection::new("http://127.0.0.1:8123", "db", "t");
    let rows: Vec<AccountRow> = Vec::new();
    assert_eq!(conn.insert_target(&rows), None);
    let rows = rows_for_batch(&[update(1)]);
    assert_eq!(conn.insert_target(&rows), Some("db.t".to_string()));
}

#[test]
fn debug_rendering_names_database_and_table() {
    let conn = ClickhouseConnection::new("http://127.0.0.1:8123", "solana", "acc\"ounts");
    assert_eq!(
        conn.debug_repr(),
        "ClickhouseConnection { database: \"solana\", table: \"acc\\\"ounts\" }"
    );
}

#[test]
fn row_copies_every_field() {
    let u = update(2);
    let r = row_for_update(&u);
    assert_eq!(r.slot, 2);
    assert_eq!(r.pubkey, "pk2");
    assert_eq!(r.owner, "ow");
    assert_eq!(r.lamports, 20);
    assert_eq!(r.executable, 0);
    assert_eq!(r.rent_epoch, 7);
    assert_eq!(r.data, "00ff");
    assert_eq!(r.updated_at_unix_ms, -5);
    assert_eq!(r.txn_signature, Some("sig".to_string()));
    assert_eq!(r.write_version, 102);
}

#[test]
fn rows_keep_batch_order() {
    let batch = vec![update(3), update(1), update(2)];
    let rows = rows_for_batch(&batch);
    let got: Vec<u64> = rows.iter().map(|r| r.slot).collect();
    assert_eq!(got, vec![3, 1, 2]);
    assert!(rows_for_batch(&[]).is_empty());
}

#[test]
fn batch_is_written_when_full() {
    let mut b = Batcher::new(2);
    let s = b.on_event(WorkerEvent::Received(update(1)));
    assert!(s.flush.is_none() && !s.stop);
    assert_eq!(b.pending_len(), 1);
    let s = b.on_event(WorkerEvent::Received(update(2)));
    assert_eq!(slots(&s.flush.unwrap()), vec![1, 2]);
    assert!(!s.stop);
    assert_eq!(b.pending_len(), 0);
}

#[test]
fn timeout_writes_partial_batch_only_when_non_empty() {
    let mut b = Batcher::new(10);
    let s = b.on_event(WorkerEvent::TimedOut);
    assert!(s.flush.is_none() && !s.stop);
    b.on_event(WorkerEvent::Received(update(4)));
    let s = b.on_event(WorkerEvent::TimedOut);
    assert_eq!(slots(&s.flush.unwrap()), vec![4]);
    assert!(!s.stop);
    assert_eq!(b.pending_len(), 0);
}

#[test]
fn close_drains_pending_and_stops() {
    let mut b = Batcher::new(3);
    let mut written = Vec::new();
    for n in 1..=5 {
        if let Some(batch) = b.on_event(WorkerEvent::Received(update(n))).flush {
            written.extend(slots(&batch));
        }
    }
    let s = b.on_event(WorkerEvent::Closed);
    assert!(s.stop);
    written.extend(slots(&s.flush.unwrap()));
    assert_eq!(written, vec![1, 2, 3, 4, 5]);
    assert_eq!(b.pending_len(), 0);
}

#[test]
fn close_with_nothing_pending_just_stops() {
    let mut b = Batcher::new(3);
    let s = b.on_event(WorkerEvent::Closed);
    assert!(s.flush.is_none());
    assert!(s.stop);
}

#[test]
fn zero_batch_size_writes_each_update() {
    let mut b = Batcher::new(0);
    let s = b.on_event(WorkerEvent::Received(update(9)));
    assert_eq!(slots(&s.flush.unwrap()), vec![9]);
}

#[test]
fn retries_back_off_exponentially_then_give_up() {
    let (mut s, d) = RetryState::start(3);
    assert_eq!(d, RetryDecision::Attempt);
    assert_eq!(s.on_outcome(false), RetryDecision::Backoff { delay_secs: 2 });
    assert_eq!(s.on_outcome(false), RetryDecision::Backoff { delay_secs: 4 });
    assert_eq!(s.on_outcome(false), RetryDecision::GaveUp);
    assert_eq!(s.retries(), 3);
    assert_eq!(s.on_outcome(true), RetryDecision::GaveUp);
}

#[test]
fn success_ends_retries() {
    let (mut s, _) = RetryState::start(3);
    assert_eq!(s.on_outcome(false), RetryDecision::Backoff { delay_secs: 2 });
    assert_eq!(s.on_outcome(true), RetryDecision::Succeeded);
    assert_eq!(s.retries(), 1);
}

#[test]
fn zero_retries_never_attempts() {
    let (_, d) = RetryState::start(0);
    assert_eq!(d, RetryDecision::GaveUp);
}

#[test]
fn single_retry_gives_up_without_sleeping() {
    let (mut s, d) = RetryState::start(1);
    assert_eq!(d, RetryDecision::Attempt);
    assert_eq!(s.on_outcome(false), RetryDecision::GaveUp);
}

#[test]
fn attempts_never_exceed_limit() {
    for max in 0..8u32 {
        let (mut s, mut d) = RetryState::start(max);
        let mut attempts = 0;
        while matches!(d, RetryDecision::Attempt | RetryDecision::Backoff { .. }) {
            attempts += 1;
            d = s.on_outcome(false);
        }
        assert_eq!(attempts, max);
    }
}
