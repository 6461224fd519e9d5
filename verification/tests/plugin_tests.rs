use solana_geyser_clickhouse::plugin::{
    account_update_from_replica, must_unload_before_load, route_account_update, ReplicaAccount,
    UpdateRejection,
};

#[test]
fn replica_becomes_hex_update() {
    let account = ReplicaAccount {
        pubkey: &[0x00, 0xab, 0x10],
        lamports: 42,
        owner: &[0xff],
        executable: true,
        rent_epoch: 9,
        data: &[],
        write_version: 77,
    };
    let u = account_update_from_replica(&account, 1234, 1_700_000_000_000);
    assert_eq!(u.pubkey, "00ab10");
    assert_eq!(u.owner, "ff");
    assert_eq!(u.data, "");
    assert_eq!(u.lamports, 42);
    assert_eq!(u.executable, 1);
    assert_eq!(u.rent_epoch, 9);
    assert_eq!(u.slot, 1234);
    assert_eq!(u.updated_at_unix_ms, 1_700_000_000_000);
    assert_eq!(u.txn_signature, None);
    assert_eq!(u.write_version, 77);
}

#[test]
fn non_executable_is_zero() {
    let account = ReplicaAccount {
        pubkey: &[1],
        lamports: 0,
        owner: &[2],
        executable: false,
        rent_epoch: 0,
        data: &[0x0f, 0xf0],
        write_version: 0,
    };
    let u = account_update_from_replica(&account, 0, 0);
    assert_eq!(u.executable, 0);
    assert_eq!(u.data, "0ff0");
    assert_eq!(u.data.len(), 4);
}

#[test]
fn routing_checks_initialization_first() {
    assert_eq!(route_account_update(false, false, true), Err(UpdateRejection::NotInitialized));
    assert_eq!(route_account_update(true, false, true), Err(UpdateRejection::UnsupportedVersion));
    assert_eq!(route_account_update(true, true, true), Ok(true));
    assert_eq!(route_account_update(true, true, false), Ok(false));
}

#[test]
fn rejection_messages() {
    assert_eq!(UpdateRejection::NotInitialized.message(), "plugin is not initialized");
    assert_eq!(
        UpdateRejection::UnsupportedVersion.message(),
        "unsupported replica account version"
    );
}

#[test]
fn reload_unloads_running_writer() {
    assert!(!must_unload_before_load(false, false));
    assert!(must_unload_before_load(true, false));
    assert!(must_unload_before_load(false, true));
}
