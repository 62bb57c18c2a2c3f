//! The batch coordinator: bounded groups of transactions that are executed
//! as one unit, on demand or, once old enough, by force.

use crate::ident::{derive_id, i64_part, id_part, identifier_of, same_id, DomainTag};
use crate::registry::Transaction;
use vstd::bytes::spec_u64_to_le_bytes;
use vstd::prelude::*;

verus! {

/// Most transactions one batch may hold.
pub const MAX_BATCH_SIZE: u32 = 10;

/// Clock units a batch must have existed before it can be executed by force.
pub const MIN_BATCH_AGE_SECONDS: i64 = 30;

#[derive(Clone, Copy, Debug, PartialEq, Eq, Structural)]
pub enum BatchStatus {
    Pending,
    Processing,
    Completed,
    Failed,
}

#[derive(Clone, Debug, PartialEq, Eq)]
pub struct Batch {
    pub id: [u8; 32],
    pub authority: [u8; 32],
    pub transactions: Vec<[u8; 32]>,
    pub transaction_count: u32,
    pub total_value: u64,
    pub status: BatchStatus,
    pub created_at: i64,
    pub executed_at: Option<i64>,
    pub completed_at: Option<i64>,
    pub execution_time_ms: Option<u32>,
    pub batch_hash: [u8; 32],
}

impl Batch {
    /// The count matches the members, which are distinct and at most `MAX_BATCH_SIZE`.
    pub open spec fn wf(&self) -> bool {
        &&& self.transaction_count == self.transactions@.len()
        &&& self.transactions@.len() <= MAX_BATCH_SIZE
        &&& forall|i: int, j: int|
            0 <= i < j < self.transactions@.len() ==> #[trigger] self.transactions@[i]@
                != #[trigger] self.transactions@[j]@
    }
}

#[derive(Clone, Copy, Debug, PartialEq, Eq)]
pub struct BatchExecutionResult {
    pub batch_id: [u8; 32],
    pub successful_txs: u32,
    pub failed_txs: u32,
    pub total_savings: u64,
    pub execution_time_ms: u32,
}

#[derive(Clone, Copy, Debug, PartialEq, Eq)]
pub struct BatchCreated {
    pub batch_id: [u8; 32],
    pub timestamp: i64,
}

#[derive(Clone, Copy, Debug, PartialEq, Eq)]
pub struct BatchExecuted {
    pub batch_id: [u8; 32],
    pub transaction_count: u32,
    pub total_value: u64,
    pub execution_time_ms: u32,
    pub timestamp: i64,
}

#[derive(Clone, Copy, Debug, PartialEq, Eq)]
pub struct TransactionAddedToBatch {
    pub batch_id: [u8; 32],
    pub transaction_id: [u8; 32],
    pub timestamp: i64,
}

#[derive(Clone, Copy, Debug, PartialEq, Eq)]
pub struct BatchCancelled {
    pub batch_id: [u8; 32],
    pub timestamp: i64,
}

#[derive(Clone, Copy, Debug, PartialEq, Eq, Structural)]
pub enum ErrorCode {
    InvalidBatchId,
    BatchNotPending,
    BatchFull,
    EmptyBatch,
    BatchTooYoung,
    Unauthorized,
    InvalidTransactionId,
    DuplicateTransaction,
    ValueOverflow,
    AlreadyExists,
}

pub open spec fn batch_id_of(authority: Seq<u8>, timestamp: i64) -> Seq<u8> {
    identifier_of(seq![authority, spec_u64_to_le_bytes(timestamp as u64)], DomainTag::Batch)
}

pub open spec fn batch_hash_of(batch_id: Seq<u8>, executed_at: i64) -> Seq<u8> {
    identifier_of(seq![batch_id, spec_u64_to_le_bytes(executed_at as u64)], DomainTag::BatchSeal)
}

/// The estimated savings of a batch: 1% of the value it carries.
pub open spec fn batch_savings_of(total_value: u64) -> int {
    total_value * 10 / 1000
}

/// A batch leaves `Pending` once, to `Completed` or to `Failed`, and never changes after.
pub open spec fn batch_step(from: BatchStatus, to: BatchStatus) -> bool {
    from == to || (from == BatchStatus::Pending && (to == BatchStatus::Completed || to
        == BatchStatus::Failed))
}

/// Derives the identifier of a batch from its authority and creation time.
pub fn generate_batch_id(authority: &[u8; 32], timestamp: i64) -> (r: [u8; 32])
    ensures
        r@ == batch_id_of(authority@, timestamp),
{
    let parts: Vec<Vec<u8>> = vec![id_part(authority), i64_part(timestamp)];
    proof {
        assert(crate::ident::views_of(parts@) =~= seq![
            authority@,
            spec_u64_to_le_bytes(timestamp as u64),
        ]);
    }
    derive_id(&parts, DomainTag::Batch)
}

/// The integrity hash of an executed batch, from its identifier and execution time.
pub fn generate_batch_hash(batch_id: &[u8; 32], timestamp: i64) -> (r: [u8; 32])
    ensures
        r@ == batch_hash_of(batch_id@, timestamp),
{
    let parts: Vec<Vec<u8>> = vec![id_part(batch_id), i64_part(timestamp)];
    proof {
        assert(crate::ident::views_of(parts@) =~= seq![
            batch_id@,
            spec_u64_to_le_bytes(timestamp as u64),
        ]);
    }
    derive_id(&parts, DomainTag::BatchSeal)
}

/// Estimated savings of the batch (see `batch_savings_of`).
pub fn calculate_batch_savings(batch: &Batch) -> (r: u64)
    ensures
        r == batch_savings_of(batch.total_value),
{
    batch.total_value / 100
}

/// Creates an empty `Pending` batch managed by `authority` in an empty slot.
pub fn create_batch(slot: &mut Option<Batch>, authority: [u8; 32], now: i64) -> (r: Result<
    ([u8; 32], BatchCreated),
    ErrorCode,
>)
    ensures
        r is Err <==> (*old(slot)) is Some,
        r is Err ==> r == Err::<([u8; 32], BatchCreated), ErrorCode>(ErrorCode::AlreadyExists)
            && *final(slot) == *old(slot),
        r matches Ok((id, ev)) ==> {
            &&& id@ == batch_id_of(authority@, now)
            &&& ev == (BatchCreated { batch_id: id, timestamp: now })
            &&& (*final(slot)) matches Some(b) && b.wf() && b.transactions@.len() == 0 && b == (
            Batch {
                id,
                authority,
                transactions: b.transactions,
                transaction_count: 0,
                total_value: 0,
                status: BatchStatus::Pending,
                created_at: now,
                executed_at: None,
                completed_at: None,
                execution_time_ms: None,
                batch_hash: b.batch_hash,
            })
        },
{
    if slot.is_some() {
        return Err(ErrorCode::AlreadyExists);
    }
    let id = generate_batch_id(&authority, now);
    *slot = Some(
        Batch {
            id,
            authority,
            transactions: Vec::new(),
            transaction_count: 0,
            total_value: 0,
            status: BatchStatus::Pending,
            created_at: now,
            executed_at: None,
            completed_at: None,
            execution_time_ms: None,
            batch_hash: [0u8; 32],
        },
    );
    Ok((id, BatchCreated { batch_id: id, timestamp: now }))
}

/// Whether `id` is already a member of the batch.
fn holds(members: &Vec<[u8; 32]>, id: &[u8; 32]) -> (r: bool)
    ensures
        r == exists|i: int| 0 <= i < members@.len() && #[trigger] members@[i]@ == id@,
{
    let mut i: usize = 0;
    while i < members.len()
        invariant
            0 <= i <= members@.len(),
            forall|j: int| 0 <= j < i ==> #[trigger] members@[j]@ != id@,
        decreases members@.len() - i,
    {
        if same_id(&members[i], id) {
            return true;
        }
        i = i + 1;
    }
    false
}

pub open spec fn add_error(
    batch: Batch,
    caller: [u8; 32],
    batch_id: [u8; 32],
    transaction: Transaction,
    transaction_id: [u8; 32],
) -> Option<ErrorCode> {
    if batch.id@ != batch_id@ {
        Some(ErrorCode::InvalidBatchId)
    } else if caller@ != batch.authority@ {
        Some(ErrorCode::Unauthorized)
    } else if batch.status != BatchStatus::Pending {
        Some(ErrorCode::BatchNotPending)
    } else if batch.transaction_count >= MAX_BATCH_SIZE {
        Some(ErrorCode::BatchFull)
    } else if transaction.id@ != transaction_id@ {
        Some(ErrorCode::InvalidTransactionId)
    } else if exists|i: int|
        0 <= i < batch.transactions@.len() && #[trigger] batch.transactions@[i]@
            == transaction_id@ {
        Some(ErrorCode::DuplicateTransaction)
    } else if batch.total_value + transaction.input_amount > u64::MAX {
        Some(ErrorCode::ValueOverflow)
    } else {
        None
    }
}

/// Appends a transaction to a `Pending` batch that has room for it, and
/// adds its input amount to the batch's value.
pub fn add_to_batch(
    batch: &mut Batch,
    caller: [u8; 32],
    batch_id: [u8; 32],
    transaction: &Transaction,
    transaction_id: [u8; 32],
    now: i64,
) -> (r: Result<TransactionAddedToBatch, ErrorCode>)
    ensures
        r is Err <==> add_error(*old(batch), caller, batch_id, *transaction, transaction_id) is Some,
        r matches Err(e) ==> Some(e) == add_error(
            *old(batch),
            caller,
            batch_id,
            *transaction,
            transaction_id,
        ) && *final(batch) == *old(batch),
        r matches Ok(ev) ==> {
            &&& final(batch).transactions@ == old(batch).transactions@.push(transaction_id)
            &&& final(batch).transaction_count == old(batch).transaction_count + 1
            &&& final(batch).total_value == old(batch).total_value + transaction.input_amount
            &&& *final(batch) == (Batch {
                transactions: final(batch).transactions,
                transaction_count: final(batch).transaction_count,
                total_value: final(batch).total_value,
                ..*old(batch)
            })
            &&& ev == (TransactionAddedToBatch { batch_id, transaction_id, timestamp: now })
        },
        old(batch).wf() ==> final(batch).wf(),
        batch_step(old(batch).status, final(batch).status),
{
    if !same_id(&batch.id, &batch_id) {
        return Err(ErrorCode::InvalidBatchId);
    }
    if !same_id(&caller, &batch.authority) {
        return Err(ErrorCode::Unauthorized);
    }
    if batch.status != BatchStatus::Pending {
        return Err(ErrorCode::BatchNotPending);
    }
    if batch.transaction_count >= MAX_BATCH_SIZE {
        return Err(ErrorCode::BatchFull);
    }
    if !same_id(&transaction.id, &transaction_id) {
        return Err(ErrorCode::InvalidTransactionId);
    }
    if holds(&batch.transactions, &transaction_id) {
        return Err(ErrorCode::DuplicateTransaction);
    }
    if transaction.input_amount > u64::MAX - batch.total_value {
        return Err(ErrorCode::ValueOverflow);
    }
    let ghost before = *batch;
    batch.transactions.push(transaction_id);
    batch.transaction_count = batch.transaction_count + 1;
    batch.total_value = batch.total_value + transaction.input_amount;
    proof {
        if before.wf() {
            assert forall|i: int, j: int|
                0 <= i < j < batch.transactions@.len() implies #[trigger] batch.transactions@[i]@
                != #[trigger] batch.transactions@[j]@ by {
                if j == before.transactions@.len() {
                    assert(before.transactions@[i]@ != transaction_id@);
                }
            }
        }
    }
    Ok(TransactionAddedToBatch { batch_id, transaction_id, timestamp: now })
}

/// What executing a `Pending`, non-empty batch at `now` leaves and returns.
pub open spec fn executed(
    old_batch: Batch,
    new_batch: Batch,
    now: i64,
    res: BatchExecutionResult,
    ev: BatchExecuted,
) -> bool {
    &&& new_batch.batch_hash@ == batch_hash_of(old_batch.id@, now)
    &&& new_batch == (Batch {
        status: BatchStatus::Completed,
        executed_at: Some(now),
        completed_at: Some(now),
        execution_time_ms: Some(0),
        batch_hash: new_batch.batch_hash,
        ..old_batch
    })
    &&& res == (BatchExecutionResult {
        batch_id: old_batch.id,
        successful_txs: old_batch.transaction_count,
        failed_txs: 0,
        total_savings: batch_savings_of(old_batch.total_value) as u64,
        execution_time_ms: 0,
    })
    &&& ev == (BatchExecuted {
        batch_id: old_batch.id,
        transaction_count: old_batch.transaction_count,
        total_value: old_batch.total_value,
        execution_time_ms: 0,
        timestamp: now,
    })
}

/// Runs a batch through `Processing` to `Completed`; every member counts as
/// succeeded, and execution and completion share the clock reading `now`,
/// so the recorded duration is 0.
fn run_batch(batch: &mut Batch, now: i64) -> (r: (BatchExecutionResult, BatchExecuted))
    ensures
        executed(*old(batch), *final(batch), now, r.0, r.1),
{
    batch.status = BatchStatus::Processing;
    batch.executed_at = Some(now);
    let successful_txs = batch.transaction_count;
    let total_savings = calculate_batch_savings(batch);
    batch.status = BatchStatus::Completed;
    batch.completed_at = Some(now);
    batch.execution_time_ms = Some(0);
    batch.batch_hash = generate_batch_hash(&batch.id, now);
    let res = BatchExecutionResult {
        batch_id: batch.id,
        successful_txs,
        failed_txs: 0,
        total_savings,
        execution_time_ms: 0,
    };
    let ev = BatchExecuted {
        batch_id: batch.id,
        transaction_count: batch.transaction_count,
        total_value: batch.total_value,
        execution_time_ms: 0,
        timestamp: now,
    };
    (res, ev)
}

pub open spec fn execute_error(batch: Batch, caller: [u8; 32], batch_id: [u8; 32]) -> Option<
    ErrorCode,
> {
    if batch.id@ != batch_id@ {
        Some(ErrorCode::InvalidBatchId)
    } else if caller@ != batch.authority@ {
        Some(ErrorCode::Unauthorized)
    } else if batch.status != BatchStatus::Pending {
        Some(ErrorCode::BatchNotPending)
    } else if batch.transaction_count == 0 {
        Some(ErrorCode::EmptyBatch)
    } else {
        None
    }
}

/// Executes a `Pending`, non-empty batch.
pub fn execute_batch(batch: &mut Batch, caller: [u8; 32], batch_id: [u8; 32], now: i64) -> (r:
    Result<(BatchExecutionResult, BatchExecuted), ErrorCode>)
    ensures
        r is Err <==> execute_error(*old(batch), caller, batch_id) is Some,
        r matches Err(e) ==> Some(e) == execute_error(*old(batch), caller, batch_id)
            && *final(batch) == *old(batch),
        r matches Ok((res, ev)) ==> executed(*old(batch), *final(batch), now, res, ev),
        old(batch).wf() ==> final(batch).wf(),
        batch_step(old(batch).status, final(batch).status),
{
    if !same_id(&batch.id, &batch_id) {
        return Err(ErrorCode::InvalidBatchId);
    }
    if !same_id(&caller, &batch.authority) {
        return Err(ErrorCode::Unauthorized);
    }
    if batch.status != BatchStatus::Pending {
        return Err(ErrorCode::BatchNotPending);
    }
    if batch.transaction_count == 0 {
        return Err(ErrorCode::EmptyBatch);
    }
    Ok(run_batch(batch, now))
}

/// Whether the batch has existed for at least `MIN_BATCH_AGE_SECONDS` at `now`.
pub open spec fn old_enough(batch: Batch, now: i64) -> bool {
    now - batch.created_at >= MIN_BATCH_AGE_SECONDS
}

pub open spec fn force_error(batch: Batch, caller: [u8; 32], batch_id: [u8; 32], now: i64) -> Option<
    ErrorCode,
> {
    if batch.id@ != batch_id@ {
        Some(ErrorCode::InvalidBatchId)
    } else if caller@ != batch.authority@ {
        Some(ErrorCode::Unauthorized)
    } else if batch.status != BatchStatus::Pending {
        Some(ErrorCode::BatchNotPending)
    } else if !old_enough(batch, now) {
        Some(ErrorCode::BatchTooYoung)
    } else if batch.transaction_count == 0 {
        Some(ErrorCode::EmptyBatch)
    } else {
        None
    }
}

/// Executes a `Pending`, non-empty batch that is at least
/// `MIN_BATCH_AGE_SECONDS` old; a younger one is refused with `BatchTooYoung`.
pub fn force_execute_batch(
    batch: &mut Batch,
    caller: [u8; 32],
    batch_id: [u8; 32],
    now: i64,
) -> (r: Result<(BatchExecutionResult, BatchExecuted), ErrorCode>)
    ensures
        r is Err <==> force_error(*old(batch), caller, batch_id, now) is Some,
        r matches Err(e) ==> Some(e) == force_error(*old(batch), caller, batch_id, now)
            && *final(batch) == *old(batch),
        r matches Ok((res, ev)) ==> executed(*old(batch), *final(batch), now, res, ev),
        old(batch).wf() ==> final(batch).wf(),
        batch_step(old(batch).status, final(batch).status),
{
    if !same_id(&batch.id, &batch_id) {
        return Err(ErrorCode::InvalidBatchId);
    }
    if !same_id(&caller, &batch.authority) {
        return Err(ErrorCode::Unauthorized);
    }
    if batch.status != BatchStatus::Pending {
        return Err(ErrorCode::BatchNotPending);
    }
    let age: i128 = now as i128 - batch.created_at as i128;
    if age < MIN_BATCH_AGE_SECONDS as i128 {
        return Err(ErrorCode::BatchTooYoung);
    }
    if batch.transaction_count == 0 {
        return Err(ErrorCode::EmptyBatch);
    }
    Ok(run_batch(batch, now))
}

/// The status of the batch `batch_id`.
pub fn get_batch_status(batch: &Batch, batch_id: [u8; 32]) -> (r: Result<BatchStatus, ErrorCode>)
    ensures
        batch.id@ == batch_id@ ==> r == Ok::<BatchStatus, ErrorCode>(batch.status),
        batch.id@ != batch_id@ ==> r == Err::<BatchStatus, ErrorCode>(ErrorCode::InvalidBatchId),
{
    if !same_id(&batch.id, &batch_id) {
        return Err(ErrorCode::InvalidBatchId);
    }
    Ok(batch.status)
}

/// Cancels a `Pending` batch: it moves to `Failed` for good.
pub fn cancel_batch(batch: &mut Batch, caller: [u8; 32], batch_id: [u8; 32], now: i64) -> (r:
    Result<BatchCancelled, ErrorCode>)
    ensures
        r is Err <==> (batch_id@ != old(batch).id@ || caller@ != old(batch).authority@
            || old(batch).status != BatchStatus::Pending),
        r matches Err(e) ==> *final(batch) == *old(batch) && e == if batch_id@ != old(
            batch,
        ).id@ {
            ErrorCode::InvalidBatchId
        } else if caller@ != old(batch).authority@ {
            ErrorCode::Unauthorized
        } else {
            ErrorCode::BatchNotPending
        },
        r matches Ok(ev) ==> *final(batch) == (Batch { status: BatchStatus::Failed, ..*old(batch) })
            && ev == (BatchCancelled { batch_id, timestamp: now }),
        old(batch).wf() ==> final(batch).wf(),
        batch_step(old(batch).status, final(batch).status),
{
    if !same_id(&batch.id, &batch_id) {
        return Err(ErrorCode::InvalidBatchId);
    }
    if !same_id(&caller, &batch.authority) {
        return Err(ErrorCode::Unauthorized);
    }
    if batch.status != BatchStatus::Pending {
        return Err(ErrorCode::BatchNotPending);
    }
    batch.status = BatchStatus::Failed;
    Ok(BatchCancelled { batch_id, timestamp: now })
}

/// Along any run of accepted calls, a batch that has left `Pending` keeps
/// the status it left with.
pub proof fn lemma_batch_settles_once(trace: Seq<BatchStatus>, i: int, j: int)
    requires
        forall|k: int| 0 <= k < trace.len() - 1 ==> #[trigger] batch_step(trace[k], trace[k + 1]),
        0 <= i <= j < trace.len(),
        trace[i] != BatchStatus::Pending,
    ensures
        trace[j] == trace[i],
    decreases j - i,
{
    if i < j {
        lemma_batch_settles_once(trace, i, j - 1);
        let k = j - 1;
        assert(batch_step(trace[k], trace[k + 1]));
    }
}

} // verus!
