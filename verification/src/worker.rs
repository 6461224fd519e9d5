//! Decisions of the background writer: how account updates are gathered
//! into batches, how a batch becomes table rows, and how failed inserts are
//! retried with exponential backoff.
use vstd::prelude::*;
use vstd::arithmetic::power2::pow2;

use crate::clickhouse_client::{AccountRow, ClickhouseError};

verus! {

broadcast use vstd::seq_lib::group_seq_properties;

/// One account change, as the plugin hands it to the writer.
#[derive(Debug)]
pub struct AccountUpdate {
    pub slot: u64,
    pub pubkey: String,
    pub owner: String,
    pub lamports: u64,
    pub executable: u8,
    pub rent_epoch: u64,
    pub data: String,
    pub updated_at_unix_ms: i64,
    pub txn_signature: Option<String>,
    pub write_version: u64,
}

/// Failure of the writer.
#[derive(Debug)]
pub enum WorkerError {
    Clickhouse(ClickhouseError),
}

impl From<ClickhouseError> for WorkerError {
    fn from(e: ClickhouseError) -> (r: Self) {
        WorkerError::Clickhouse(e)
    }
}

impl vstd::std_specs::convert::FromSpecImpl<ClickhouseError> for WorkerError {
    open spec fn obeys_from_spec() -> bool {
        true
    }

    open spec fn from_spec(e: ClickhouseError) -> Self {
        WorkerError::Clickhouse(e)
    }
}

/// The table row that records `u`: the same values, field by field.
pub open spec fn row_of(u: AccountUpdate) -> AccountRow {
    AccountRow {
        slot: u.slot,
        pubkey: u.pubkey,
        owner: u.owner,
        lamports: u.lamports,
        executable: u.executable,
        rent_epoch: u.rent_epoch,
        data: u.data,
        updated_at_unix_ms: u.updated_at_unix_ms,
        txn_signature: u.txn_signature,
        write_version: u.write_version,
    }
}

/// The table row that records `u`.
pub fn row_for_update(u: &AccountUpdate) -> (row: AccountRow)
    ensures
        row == row_of(*u),
        row.slot == u.slot,
        row.pubkey@ == u.pubkey@,
        row.owner@ == u.owner@,
        row.lamports == u.lamports,
        row.executable == u.executable,
        row.rent_epoch == u.rent_epoch,
        row.data@ == u.data@,
        row.updated_at_unix_ms == u.updated_at_unix_ms,
        row.txn_signature == u.txn_signature,
        row.write_version == u.write_version,
{
    let txn_signature = match &u.txn_signature {
        Some(s) => Some(s.clone()),
        None => None,
    };
    AccountRow {
        slot: u.slot,
        pubkey: u.pubkey.clone(),
        owner: u.owner.clone(),
        lamports: u.lamports,
        executable: u.executable,
        rent_epoch: u.rent_epoch,
        data: u.data.clone(),
        updated_at_unix_ms: u.updated_at_unix_ms,
        txn_signature,
        write_version: u.write_version,
    }
}

/// A row records its update field by field: every value of the update,
/// and nothing else, appears in the row.
pub proof fn lemma_row_records_update(u: AccountUpdate)
    ensures
        row_of(u).slot == u.slot,
        row_of(u).pubkey == u.pubkey,
        row_of(u).owner == u.owner,
        row_of(u).lamports == u.lamports,
        row_of(u).executable == u.executable,
        row_of(u).rent_epoch == u.rent_epoch,
        row_of(u).data == u.data,
        row_of(u).updated_at_unix_ms == u.updated_at_unix_ms,
        row_of(u).txn_signature == u.txn_signature,
        row_of(u).write_version == u.write_version,
{
}

/// The rows that record a batch, one per update, in the batch's order.
pub fn rows_for_batch(batch: &[AccountUpdate]) -> (rows: Vec<AccountRow>)
    ensures
        rows@ == batch@.map_values(|u: AccountUpdate| row_of(u)),
{
    let mut rows: Vec<AccountRow> = Vec::new();
    let mut i: usize = 0;
    while i < batch.len()
        invariant
            i <= batch@.len(),
            rows@ == batch@.subrange(0, i as int).map_values(|u: AccountUpdate| row_of(u)),
        decreases batch@.len() - i,
    {
        rows.push(row_for_update(&batch[i]));
        assert(batch@.subrange(0, i + 1) =~= batch@.subrange(0, i as int).push(batch@[i as int]));
        i = i + 1;
    }
    assert(batch@.subrange(0, i as int) =~= batch@);
    rows
}

// ---------------------------------------------------------------------------
// Batching
// ---------------------------------------------------------------------------

/// What the writer observed while waiting for the next update.
pub enum WorkerEvent {
    /// An update arrived on the channel.
    Received(AccountUpdate),
    /// The channel was closed: no update will arrive any more.
    Closed,
    /// The batch timeout elapsed with no update.
    TimedOut,
}

/// What the writer does after an event: insert the given batch, if any,
/// and then stop, or wait for the next event.
pub struct WorkerStep {
    pub flush: Option<Vec<AccountUpdate>>,
    pub stop: bool,
}

/// The batch being gathered and the size at which it is written.
pub struct Batcher {
    pending: Vec<AccountUpdate>,
    batch_size: usize,
}

/// The contents of an optional batch.
pub open spec fn batch_view(b: Option<Vec<AccountUpdate>>) -> Option<Seq<AccountUpdate>> {
    match b {
        Some(v) => Some(v@),
        None => None,
    }
}

/// One step of the batching rule, from the pending updates and an event
/// to the new pending updates, the batch to insert (if any), and whether
/// the writer stops. An arriving update is added, and the batch is written
/// once it holds `batch_size` updates; on a timeout a non-empty batch is
/// written; when the channel closes a non-empty batch is written and the
/// writer stops.
pub open spec fn batch_step(pending: Seq<AccountUpdate>, batch_size: usize, e: WorkerEvent) -> (
    Seq<AccountUpdate>,
    Option<Seq<AccountUpdate>>,
    bool,
) {
    match e {
        WorkerEvent::Received(u) => {
            let p = pending.push(u);
            if p.len() >= batch_size {
                (Seq::empty(), Some(p), false)
            } else {
                (p, None, false)
            }
        },
        WorkerEvent::Closed => {
            if pending.len() > 0 {
                (Seq::empty(), Some(pending), true)
            } else {
                (pending, None, true)
            }
        },
        WorkerEvent::TimedOut => {
            if pending.len() > 0 {
                (Seq::empty(), Some(pending), false)
            } else {
                (pending, None, false)
            }
        },
    }
}

/// Pending updates never reach the batch size (they would have been
/// written).
pub open spec fn pending_below_size(pending: Seq<AccountUpdate>, batch_size: usize) -> bool {
    pending.len() == 0 || pending.len() < batch_size
}

impl Batcher {
    /// The updates gathered and not yet written.
    pub closed spec fn pending_view(&self) -> Seq<AccountUpdate> {
        self.pending@
    }

    /// The size at which a batch is written.
    pub closed spec fn size(&self) -> usize {
        self.batch_size
    }

    /// An empty batch that is written once it holds `batch_size` updates.
    pub fn new(batch_size: usize) -> (b: Self)
        ensures
            b.pending_view() == Seq::<AccountUpdate>::empty(),
            b.size() == batch_size,
    {
        Batcher { pending: Vec::with_capacity(batch_size), batch_size }
    }

    /// Number of updates gathered and not yet written.
    pub fn pending_len(&self) -> (n: usize)
        ensures
            n == self.pending_view().len(),
    {
        self.pending.len()
    }

    /// Applies one event (see [`batch_step`]).
    pub fn on_event(&mut self, event: WorkerEvent) -> (step: WorkerStep)
        ensures
            final(self).size() == old(self).size(),
            (final(self).pending_view(), batch_view(step.flush), step.stop) == batch_step(
                old(self).pending_view(),
                old(self).size(),
                event,
            ),
            pending_below_size(final(self).pending_view(), final(self).size()),
            event matches WorkerEvent::Received(u) ==> {
                &&& !step.stop
                &&& old(self).pending_view().len() + 1 >= old(self).size() ==> {
                    &&& step.flush matches Some(b) && b@ == old(self).pending_view().push(u)
                    &&& final(self).pending_view().len() == 0
                }
                &&& old(self).pending_view().len() + 1 < old(self).size() ==> {
                    &&& step.flush is None
                    &&& final(self).pending_view() == old(self).pending_view().push(u)
                }
            },
            event is TimedOut ==> {
                &&& !step.stop
                &&& final(self).pending_view().len() == 0
                &&& (step.flush is Some <==> old(self).pending_view().len() > 0)
                &&& step.flush matches Some(b) ==> b@ == old(self).pending_view()
            },
            event is Closed ==> {
                &&& step.stop
                &&& final(self).pending_view().len() == 0
                &&& (step.flush is Some <==> old(self).pending_view().len() > 0)
                &&& step.flush matches Some(b) ==> b@ == old(self).pending_view()
            },
    {
        match event {
            WorkerEvent::Received(update) => {
                self.pending.push(update);
                if self.pending.len() >= self.batch_size {
                    let mut batch = Vec::new();
                    std::mem::swap(&mut batch, &mut self.pending);
                    WorkerStep { flush: Some(batch), stop: false }
                } else {
                    WorkerStep { flush: None, stop: false }
                }
            },
            WorkerEvent::Closed => {
                if self.pending.len() > 0 {
                    let mut batch = Vec::new();
                    std::mem::swap(&mut batch, &mut self.pending);
                    WorkerStep { flush: Some(batch), stop: true }
                } else {
                    WorkerStep { flush: None, stop: true }
                }
            },
            WorkerEvent::TimedOut => {
                if self.pending.len() > 0 {
                    let mut batch = Vec::new();
                    std::mem::swap(&mut batch, &mut self.pending);
                    WorkerStep { flush: Some(batch), stop: false }
                } else {
                    WorkerStep { flush: None, stop: false }
                }
            },
        }
    }
}

/// An arriving update triggers a write exactly when, with it, the pending
/// updates reach the batch size; the batch written is all of them (so it
/// holds at least `batch_size` updates) and nothing stays pending.
/// Otherwise the update joins the pending ones. The writer never stops on
/// an arrival.
pub proof fn lemma_arrival_writes_exactly_when_full(
    pending: Seq<AccountUpdate>,
    batch_size: usize,
    u: AccountUpdate,
)
    ensures
        ({
            let (p, flush, stop) = batch_step(pending, batch_size, WorkerEvent::Received(u));
            &&& !stop
            &&& (flush is Some <==> pending.len() + 1 >= batch_size)
            &&& pending.len() + 1 >= batch_size ==> flush == Some(pending.push(u)) && p.len() == 0
            &&& pending.len() + 1 < batch_size ==> p == pending.push(u)
            &&& flush matches Some(b) ==> b.len() >= batch_size && b.len() == pending.len() + 1
        }),
{
}

/// A timeout writes the pending updates when there are any and keeps
/// running; a closed channel does the same and stops. Either way nothing
/// stays pending.
pub proof fn lemma_timeout_and_close_write_pending(
    pending: Seq<AccountUpdate>,
    batch_size: usize,
    e: WorkerEvent,
)
    requires
        e is TimedOut || e is Closed,
    ensures
        ({
            let (p, flush, stop) = batch_step(pending, batch_size, e);
            &&& p.len() == 0
            &&& stop == (e is Closed)
            &&& (flush is Some <==> pending.len() > 0)
            &&& flush matches Some(b) ==> b == pending
        }),
{
}

/// The updates that arrive in `events`, in arrival order.
pub open spec fn received(events: Seq<WorkerEvent>) -> Seq<AccountUpdate>
    decreases events.len(),
{
    if events.len() == 0 {
        Seq::empty()
    } else {
        let before = received(events.drop_last());
        match events.last() {
            WorkerEvent::Received(u) => before.push(u),
            _ => before,
        }
    }
}

/// The pending updates and the batches written, in order, after the
/// batching rule has been applied to each of `events` in turn.
pub open spec fn run_batches(pending: Seq<AccountUpdate>, batch_size: usize, events: Seq<WorkerEvent>) -> (
    Seq<AccountUpdate>,
    Seq<Seq<AccountUpdate>>,
)
    decreases events.len(),
{
    if events.len() == 0 {
        (pending, Seq::empty())
    } else {
        let (p, written) = run_batches(pending, batch_size, events.drop_last());
        let (p2, flush, _) = batch_step(p, batch_size, events.last());
        (
            p2,
            match flush {
                Some(b) => written.push(b),
                None => written,
            },
        )
    }
}

/// No update is lost, duplicated or reordered: the batches written,
/// followed by what is still pending, are exactly the updates that were
/// pending at the start followed by those that arrived.
pub proof fn lemma_batches_preserve_updates(
    pending: Seq<AccountUpdate>,
    batch_size: usize,
    events: Seq<WorkerEvent>,
)
    ensures
        ({
            let (p, written) = run_batches(pending, batch_size, events);
            written.flatten() + p == pending + received(events)
        }),
    decreases events.len(),
{
    broadcast use Seq::lemma_flatten_push;

    if events.len() > 0 {
        lemma_batches_preserve_updates(pending, batch_size, events.drop_last());
        let (p, written) = run_batches(pending, batch_size, events.drop_last());
        let e = events.last();
        match e {
            WorkerEvent::Received(u) => {
                assert(written.flatten() + p.push(u) =~= (written.flatten() + p).push(u));
                assert(pending + received(events) =~= (pending + received(events.drop_last())).push(
                    u,
                ));
                if p.push(u).len() >= batch_size {
                    assert(written.push(p.push(u)).flatten() + Seq::empty() =~= written.flatten()
                        + p.push(u));
                }
            },
            _ => {
                assert(received(events) == received(events.drop_last()));
                if p.len() > 0 {
                    assert(written.push(p).flatten() + Seq::empty() =~= written.flatten() + p);
                }
            },
        }
    }
}

/// Every batch written is non-empty and holds at most `batch_size`
/// updates (one, when the size is zero), and the pending updates stay
/// below the size, provided they start below it.
pub proof fn lemma_batches_bounded(
    pending: Seq<AccountUpdate>,
    batch_size: usize,
    events: Seq<WorkerEvent>,
)
    requires
        pending_below_size(pending, batch_size),
    ensures
        ({
            let (p, written) = run_batches(pending, batch_size, events);
            &&& pending_below_size(p, batch_size)
            &&& forall|i: int|
                0 <= i < written.len() ==> 0 < (#[trigger] written[i]).len() && (written[i].len()
                    <= batch_size || written[i].len() == 1)
        }),
    decreases events.len(),
{
    if events.len() > 0 {
        lemma_batches_bounded(pending, batch_size, events.drop_last());
    }
}

/// When the channel closes, everything that was pending or arrived has
/// been written and nothing is left pending.
pub proof fn lemma_close_writes_everything(
    pending: Seq<AccountUpdate>,
    batch_size: usize,
    events: Seq<WorkerEvent>,
)
    requires
        events.len() > 0,
        events.last() is Closed,
    ensures
        ({
            let (p, written) = run_batches(pending, batch_size, events);
            &&& p.len() == 0
            &&& written.flatten() == pending + received(events)
        }),
{
    lemma_batches_preserve_updates(pending, batch_size, events);
    let (p, written) = run_batches(pending, batch_size, events);
    assert(written.flatten() + p =~= written.flatten());
}

// ---------------------------------------------------------------------------
// Retries
// ---------------------------------------------------------------------------

/// What to do next with a batch.
#[derive(Debug, PartialEq, Eq, Structural)]
pub enum RetryDecision {
    /// Insert the batch now.
    Attempt,
    /// Wait this many seconds, then insert the batch again.
    Backoff { delay_secs: u64 },
    /// The batch was inserted.
    Succeeded,
    /// Give the batch up.
    GaveUp,
}

/// Insert attempts made for one batch, against the limit.
pub struct RetryState {
    retries: u32,
    max_retries: u32,
}

/// One step of the retry rule, from the failures so far, the limit and the
/// outcome of an attempt to the new failure count and the decision. After
/// the k-th failure the batch is tried again after 2^k seconds while k is
/// below the limit; at the limit it is given up.
pub open spec fn retry_step(retries: u32, max_retries: u32, succeeded: bool) -> (u32, RetryDecision) {
    if retries >= max_retries {
        (retries, RetryDecision::GaveUp)
    } else if succeeded {
        (retries, RetryDecision::Succeeded)
    } else {
        let r = (retries + 1) as u32;
        if r < max_retries {
            (r, RetryDecision::Backoff { delay_secs: pow2(r as nat) as u64 })
        } else {
            (r, RetryDecision::GaveUp)
        }
    }
}

/// The backoff after a failure fits in 64-bit seconds (a shift by 64 or
/// more overflows).
pub open spec fn backoff_fits(retries: u32, max_retries: u32, succeeded: bool) -> bool {
    succeeded || retries >= max_retries || retries + 1 >= max_retries || retries + 1 < 64
}

impl RetryState {
    /// Failed attempts so far.
    pub closed spec fn failures(&self) -> u32 {
        self.retries
    }

    /// The most attempts that a batch gets.
    pub closed spec fn limit(&self) -> u32 {
        self.max_retries
    }

    /// The state of a fresh batch and the first decision: attempt it, or
    /// give it up at once when no attempt is allowed.
    pub fn start(max_retries: u32) -> (r: (RetryState, RetryDecision))
        ensures
            r.0.failures() == 0,
            r.0.limit() == max_retries,
            r.1 == (if max_retries > 0 {
                RetryDecision::Attempt
            } else {
                RetryDecision::GaveUp
            }),
    {
        let state = RetryState { retries: 0, max_retries };
        if max_retries > 0 {
            (state, RetryDecision::Attempt)
        } else {
            (state, RetryDecision::GaveUp)
        }
    }

    /// Failed attempts so far.
    pub fn retries(&self) -> (n: u32)
        ensures
            n == self.failures(),
    {
        self.retries
    }

    /// Records the outcome of an attempt and decides what follows (see
    /// [`retry_step`]).
    pub fn on_outcome(&mut self, succeeded: bool) -> (d: RetryDecision)
        requires
            backoff_fits(old(self).failures(), old(self).limit(), succeeded),
        ensures
            final(self).limit() == old(self).limit(),
            (final(self).failures(), d) == retry_step(
                old(self).failures(),
                old(self).limit(),
                succeeded,
            ),
            final(self).failures() <= final(self).limit() || final(self).failures() == old(
                self,
            ).failures(),
            !succeeded && old(self).failures() + 1 < old(self).limit() ==> (d
                == (RetryDecision::Backoff {
                delay_secs: pow2((old(self).failures() + 1) as nat) as u64,
            }) && final(self).failures() == old(self).failures() + 1),
            !succeeded && old(self).failures() + 1 == old(self).limit() ==> d
                == RetryDecision::GaveUp,
            succeeded && old(self).failures() < old(self).limit() ==> d
                == RetryDecision::Succeeded,
    {
        if self.retries >= self.max_retries {
            return RetryDecision::GaveUp;
        }
        if succeeded {
            return RetryDecision::Succeeded;
        }
        self.retries = self.retries + 1;
        if self.retries < self.max_retries {
            let shift: u64 = self.retries as u64;
            proof {
                vstd::bits::lemma_u64_pow2_no_overflow(shift as nat);
                vstd::bits::lemma_u64_shl_is_mul(1, shift);
            }
            RetryDecision::Backoff { delay_secs: 1u64 << shift }
        } else {
            RetryDecision::GaveUp
        }
    }
}

/// The first failure is followed by a 2-second wait.
pub proof fn lemma_first_backoff_is_two_seconds(max_retries: u32)
    requires
        max_retries > 1,
    ensures
        retry_step(0, max_retries, false) == (1u32, RetryDecision::Backoff { delay_secs: 2 }),
{
    vstd::arithmetic::power2::lemma2_to64();
}

/// Each wait lasts twice the one before: the wait after the (k+1)-th
/// failure is double the wait after the k-th, as long as both come before
/// the limit.
pub proof fn lemma_backoff_doubles(k: u32, max_retries: u32)
    requires
        1 <= k,
        k + 1 < max_retries,
        k + 1 < 64,
    ensures
        ({
            let (r1, d1) = retry_step((k - 1) as u32, max_retries, false);
            let (r2, d2) = retry_step(k, max_retries, false);
            &&& r1 == k
            &&& r2 == k + 1
            &&& d1 is Backoff
            &&& d2 is Backoff
            &&& d2->delay_secs == 2 * d1->delay_secs
        }),
{
    vstd::arithmetic::power2::lemma_pow2_unfold((k + 1) as nat);
    vstd::bits::lemma_u64_pow2_no_overflow((k + 1) as nat);
    vstd::bits::lemma_u64_pow2_no_overflow(k as nat);
}

/// The failure that reaches the limit gives the batch up, and a success
/// before the limit ends the retries without counting a failure.
pub proof fn lemma_limit_and_success(k: u32, max_retries: u32)
    requires
        k < max_retries,
    ensures
        k + 1 == max_retries ==> retry_step(k, max_retries, false) == (
            (k + 1) as u32,
            RetryDecision::GaveUp,
        ),
        retry_step(k, max_retries, true) == (k, RetryDecision::Succeeded),
{
}

/// Number of insert attempts made for a batch whose attempts come out as
/// `outcomes` (`true` for success), starting from `retries` failures.
pub open spec fn attempts_made(retries: u32, max_retries: u32, outcomes: Seq<bool>) -> nat
    decreases outcomes.len(),
{
    if retries >= max_retries || outcomes.len() == 0 {
        0
    } else {
        let (r, d) = retry_step(retries, max_retries, outcomes[0]);
        1 + match d {
            RetryDecision::Backoff { .. } => attempts_made(r, max_retries, outcomes.drop_first()),
            _ => 0,
        }
    }
}

/// A batch is attempted at most `max_retries` times, whatever the outcomes.
pub proof fn lemma_attempts_bounded(retries: u32, max_retries: u32, outcomes: Seq<bool>)
    requires
        retries <= max_retries,
    ensures
        attempts_made(retries, max_retries, outcomes) <= max_retries - retries,
    decreases outcomes.len(),
{
    if retries < max_retries && outcomes.len() > 0 {
        let (r, d) = retry_step(retries, max_retries, outcomes[0]);
        if d is Backoff {
            lemma_attempts_bounded(r, max_retries, outcomes.drop_first());
        }
    }
}

} // verus!
