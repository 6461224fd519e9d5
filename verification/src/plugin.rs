//! Decisions of the Geyser plugin itself: whether an account notification
//! is accepted, how it becomes an [`AccountUpdate`], and whether a running
//! writer must be shut down before a (re)load.
use vstd::prelude::*;

use crate::worker::AccountUpdate;

verus! {

/// The lower-case hexadecimal digit for `n` (below 16).
pub open spec fn hex_digit(n: u8) -> char {
    if n < 10 {
        (48 + n) as char
    } else {
        (87 + n) as char
    }
}

/// Lower-case hexadecimal text of `bytes`: two digits per byte, high
/// nibble first.
pub open spec fn lower_hex(bytes: Seq<u8>) -> Seq<char>
    decreases bytes.len(),
{
    if bytes.len() == 0 {
        Seq::empty()
    } else {
        lower_hex(bytes.drop_last()) + seq![
            hex_digit(bytes.last() / 16),
            hex_digit(bytes.last() % 16),
        ]
    }
}

/// The hexadecimal text of `n` bytes has `2 * n` characters.
pub proof fn lemma_lower_hex_len(bytes: Seq<u8>)
    ensures
        lower_hex(bytes).len() == 2 * bytes.len(),
    decreases bytes.len(),
{
    if bytes.len() > 0 {
        lemma_lower_hex_len(bytes.drop_last());
    }
}

/// The digits are those of `0123456789abcdef`: the digit for `n` is the
/// `n`-th character of that table.
pub proof fn lemma_hex_digit_table(n: u8)
    requires
        n < 16,
    ensures
        hex_digit(n) == "0123456789abcdef"@[n as int],
{
    reveal_strlit("0123456789abcdef");
}

/// Byte `i` of the input is written as characters `2i` (high nibble) and
/// `2i + 1` (low nibble) of the text.
pub proof fn lemma_lower_hex_positions(bytes: Seq<u8>, i: int)
    requires
        0 <= i < bytes.len(),
    ensures
        lower_hex(bytes)[2 * i] == hex_digit(bytes[i] / 16),
        lower_hex(bytes)[2 * i + 1] == hex_digit(bytes[i] % 16),
    decreases bytes.len(),
{
    lemma_lower_hex_len(bytes.drop_last());
    if i < bytes.len() - 1 {
        lemma_lower_hex_positions(bytes.drop_last(), i);
    }
}

/// Calls `hex::encode`, which writes each byte as two lower-case
/// hexadecimal digits (`0123456789abcdef`), high nibble first.
#[verifier::external_body]
fn hex_encode(data: &[u8]) -> (s: String)
    ensures
        s@ == lower_hex(data@),
{
    hex::encode(data)
}

/// The fields of an account notification that the plugin records.
pub struct ReplicaAccount<'a> {
    pub pubkey: &'a [u8],
    pub lamports: u64,
    pub owner: &'a [u8],
    pub executable: bool,
    pub rent_epoch: u64,
    pub data: &'a [u8],
    pub write_version: u64,
}

/// The update recorded for `account` at `slot`, stamped with
/// `updated_at_unix_ms`: keys and data in lower-case hexadecimal,
/// `executable` as 1 or 0, no transaction signature.
pub open spec fn update_matches(
    u: AccountUpdate,
    account: ReplicaAccount,
    slot: u64,
    updated_at_unix_ms: i64,
) -> bool {
    &&& u.pubkey@ == lower_hex(account.pubkey@)
    &&& u.lamports == account.lamports
    &&& u.owner@ == lower_hex(account.owner@)
    &&& u.executable == (if account.executable {
        1u8
    } else {
        0u8
    })
    &&& u.rent_epoch == account.rent_epoch
    &&& u.data@ == lower_hex(account.data@)
    &&& u.slot == slot
    &&& u.updated_at_unix_ms == updated_at_unix_ms
    &&& u.txn_signature is None
    &&& u.write_version == account.write_version
}

/// The update that the plugin sends to the writer for `account` at `slot`,
/// stamped with the wall-clock time `updated_at_unix_ms`.
pub fn account_update_from_replica(
    account: &ReplicaAccount,
    slot: u64,
    updated_at_unix_ms: i64,
) -> (u: AccountUpdate)
    ensures
        update_matches(u, *account, slot, updated_at_unix_ms),
{
    AccountUpdate {
        pubkey: hex_encode(account.pubkey),
        lamports: account.lamports,
        owner: hex_encode(account.owner),
        executable: if account.executable {
            1
        } else {
            0
        },
        rent_epoch: account.rent_epoch,
        data: hex_encode(account.data),
        slot,
        updated_at_unix_ms,
        txn_signature: None,
        write_version: account.write_version,
    }
}

/// The recorded update marks a program account with 1 and any other with
/// 0, and its key texts are two characters per key byte.
pub proof fn lemma_update_records_account(
    u: AccountUpdate,
    account: ReplicaAccount,
    slot: u64,
    updated_at_unix_ms: i64,
)
    requires
        update_matches(u, account, slot, updated_at_unix_ms),
    ensures
        (u.executable == 1) == account.executable,
        u.executable <= 1,
        u.pubkey@.len() == 2 * account.pubkey@.len(),
        u.owner@.len() == 2 * account.owner@.len(),
        u.data@.len() == 2 * account.data@.len(),
        u.lamports == account.lamports && u.slot == slot && u.write_version
            == account.write_version,
{
    lemma_lower_hex_len(account.pubkey@);
    lemma_lower_hex_len(account.owner@);
    lemma_lower_hex_len(account.data@);
}

/// Why an account notification is refused.
#[derive(Debug, PartialEq, Eq, Structural)]
pub enum UpdateRejection {
    /// No configuration has been loaded yet.
    NotInitialized,
    /// The notification comes in a layout other than the supported one.
    UnsupportedVersion,
}

impl UpdateRejection {
    /// The message reported for the refusal.
    pub fn message(&self) -> (m: String)
        ensures
            m@ == (match self {
                UpdateRejection::NotInitialized => "plugin is not initialized"@,
                UpdateRejection::UnsupportedVersion => "unsupported replica account version"@,
            }),
    {
        match self {
            UpdateRejection::NotInitialized => String::from_str("plugin is not initialized"),
            UpdateRejection::UnsupportedVersion => String::from_str(
                "unsupported replica account version",
            ),
        }
    }
}

/// Whether an account notification is refused, and if not, whether it is
/// forwarded to the writer (`Ok(true)`) or dropped because no writer is
/// running (`Ok(false)`). A plugin without configuration refuses first;
/// then an unsupported layout is refused.
pub fn route_account_update(initialized: bool, version_supported: bool, has_sender: bool) -> (r:
    Result<bool, UpdateRejection>)
    ensures
        r == (if !initialized {
            Err(UpdateRejection::NotInitialized)
        } else if !version_supported {
            Err(UpdateRejection::UnsupportedVersion)
        } else {
            Ok(has_sender)
        }),
{
    if !initialized {
        Err(UpdateRejection::NotInitialized)
    } else if !version_supported {
        Err(UpdateRejection::UnsupportedVersion)
    } else {
        Ok(has_sender)
    }
}

/// Whether a (re)load must first shut down the running writer: it must
/// when a sender or a writer thread is still held.
pub fn must_unload_before_load(has_sender: bool, has_worker: bool) -> (b: bool)
    ensures
        b == (has_sender || has_worker),
{
    has_sender || has_worker
}

} // verus!
