use zephyra::batch::{
    add_to_batch, calculate_batch_savings, cancel_batch, create_batch, execute_batch,
    force_execute_batch, generate_batch_hash, generate_batch_id, get_batch_status, Batch,
    BatchStatus, ErrorCode, MAX_BATCH_SIZE,
};
use zephyra::registry::{Transaction, TransactionStatus};

const AUTHORITY: [u8; 32] = [3u8; 32];

fn tx(n: u8, amount: u64) -> Transaction {
    Transaction {
        id: [n; 32],
        owner: [7u8; 32],
        input_token: [1u8; 32],
        output_token: [2u8; 32],
        input_amount: amount,
        output_amount: 0,
        risk_score: 0,
        selected_route: 0,
        status: TransactionStatus::Pending,
        proof_hash: [0u8; 32],
        batch_id: None,
        created_at: 0,
        completed_at: None,
    }
}

fn new_batch(now: i64) -> Batch {
    let mut slot = None;
    create_batch(&mut slot, AUTHORITY, now).unwrap();
    slot.unwrap()
}

#[test]
fn create_batch_is_empty_and_pending() {
    let mut slot = None;
    let (id, ev) = create_batch(&mut slot, AUTHORITY, 1_000).unwrap();
    assert_eq!(id, generate_batch_id(&AUTHORITY, 1_000));
    assert_eq!(ev.batch_id, id);
    assert_eq!(ev.timestamp, 1_000);
    let b = slot.clone().unwrap();
    assert_eq!(b.id, id);
    assert_eq!(b.status, BatchStatus::Pending);
    assert!(b.transactions.is_empty());
    assert_eq!(b.transaction_count, 0);
    assert_eq!(b.total_value, 0);
    assert_eq!(b.created_at, 1_000);
    assert_eq!(create_batch(&mut slot, AUTHORITY, 1_000), Err(ErrorCode::AlreadyExists));
}

#[test]
fn add_appends_in_order_and_sums_value() {
    let mut b = new_batch(0);
    let id = b.id;
    let ev = add_to_batch(&mut b, AUTHORITY, id, &tx(1, 100), [1u8; 32], 5).unwrap();
    assert_eq!(ev.transaction_id, [1u8; 32]);
    add_to_batch(&mut b, AUTHORITY, id, &tx(2, 250), [2u8; 32], 6).unwrap();
    assert_eq!(b.transactions, vec![[1u8; 32], [2u8; 32]]);
    assert_eq!(b.transaction_count, 2);
    assert_eq!(b.total_value, 350);
}

#[test]
fn eleventh_transaction_is_refused() {
    let mut b = new_batch(0);
    let id = b.id;
    for n in 1..=10u8 {
        add_to_batch(&mut b, AUTHORITY, id, &tx(n, 1), [n; 32], 1).unwrap();
    }
    assert_eq!(b.transaction_count, MAX_BATCH_SIZE);
    let r = add_to_batch(&mut b, AUTHORITY, id, &tx(11, 1), [11u8; 32], 2);
    assert_eq!(r, Err(ErrorCode::BatchFull));
    assert_eq!(b.transaction_count, 10);
    assert_eq!(b.transactions.len(), 10);
    assert_eq!(b.total_value, 10);
}

#[test]
fn add_errors_leave_batch_unchanged() {
    let mut b = new_batch(0);
    let id = b.id;
    assert_eq!(
        add_to_batch(&mut b, AUTHORITY, [0u8; 32], &tx(1, 1), [1u8; 32], 1),
        Err(ErrorCode::InvalidBatchId)
    );
    assert_eq!(
        add_to_batch(&mut b, [4u8; 32], id, &tx(1, 1), [1u8; 32], 1),
        Err(ErrorCode::Unauthorized)
    );
    assert_eq!(
        add_to_batch(&mut b, AUTHORITY, id, &tx(1, 1), [2u8; 32], 1),
        Err(ErrorCode::InvalidTransactionId)
    );
    add_to_batch(&mut b, AUTHORITY, id, &tx(1, 1), [1u8; 32], 1).unwrap();
    assert_eq!(
        add_to_batch(&mut b, AUTHORITY, id, &tx(1, 1), [1u8; 32], 1),
        Err(ErrorCode::DuplicateTransaction)
    );
    assert_eq!(
        add_to_batch(&mut b, AUTHORITY, id, &tx(2, u64::MAX), [2u8; 32], 1),
        Err(ErrorCode::ValueOverflow)
    );
    assert_eq!(b.transaction_count, 1);
    assert_eq!(b.total_value, 1);
}

#[test]
fn execute_completes_and_seals() {
    let mut b = new_batch(0);
    let id = b.id;
    add_to_batch(&mut b, AUTHORITY, id, &tx(1, 150_000), [1u8; 32], 1).unwrap();
    add_to_batch(&mut b, AUTHORITY, id, &tx(2, 50_000), [2u8; 32], 1).unwrap();
    let (res, ev) = execute_batch(&mut b, AUTHORITY, id, 10).unwrap();
    assert_eq!(res.batch_id, id);
    assert_eq!(res.successful_txs, 2);
    assert_eq!(res.failed_txs, 0);
    assert_eq!(res.total_savings, 2_000);
    assert_eq!(res.execution_time_ms, 0);
    assert_eq!(ev.transaction_count, 2);
    assert_eq!(ev.total_value, 200_000);
    assert_eq!(b.status, BatchStatus::Completed);
    assert_eq!(b.executed_at, Some(10));
    assert_eq!(b.completed_at, Some(10));
    assert_eq!(b.execution_time_ms, Some(0));
    assert_eq!(b.batch_hash, generate_batch_hash(&id, 10));
    assert_eq!(execute_batch(&mut b, AUTHORITY, id, 11), Err(ErrorCode::BatchNotPending));
    assert_eq!(
        add_to_batch(&mut b, AUTHORITY, id, &tx(3, 1), [3u8; 32], 12),
        Err(ErrorCode::BatchNotPending)
    );
}

#[test]
fn empty_batch_is_not_executed() {
    let mut b = new_batch(0);
    let id = b.id;
    assert_eq!(execute_batch(&mut b, AUTHORITY, id, 100), Err(ErrorCode::EmptyBatch));
    assert_eq!(force_execute_batch(&mut b, AUTHORITY, id, 100), Err(ErrorCode::EmptyBatch));
    assert_eq!(b.status, BatchStatus::Pending);
}

#[test]
fn force_execution_waits_for_minimum_age() {
    let mut b = new_batch(1_000);
    let id = b.id;
    add_to_batch(&mut b, AUTHORITY, id, &tx(1, 10), [1u8; 32], 1_001).unwrap();
    assert_eq!(force_execute_batch(&mut b, AUTHORITY, id, 1_029), Err(ErrorCode::BatchTooYoung));
    assert_eq!(b.status, BatchStatus::Pending);
    let (res, _) = force_execute_batch(&mut b, AUTHORITY, id, 1_030).unwrap();
    assert_eq!(res.successful_txs, 1);
    assert_eq!(b.status, BatchStatus::Completed);
    assert_eq!(b.batch_hash, generate_batch_hash(&id, 1_030));
}

#[test]
fn force_execution_handles_extreme_clocks() {
    let mut b = new_batch(i64::MIN);
    let id = b.id;
    add_to_batch(&mut b, AUTHORITY, id, &tx(1, 10), [1u8; 32], 0).unwrap();
    assert!(force_execute_batch(&mut b, AUTHORITY, id, i64::MAX).is_ok());
}

#[test]
fn cancel_is_final() {
    let mut b = new_batch(0);
    let id = b.id;
    assert_eq!(cancel_batch(&mut b, [9u8; 32], id, 1), Err(ErrorCode::Unauthorized));
    let ev = cancel_batch(&mut b, AUTHORITY, id, 2).unwrap();
    assert_eq!(ev.batch_id, id);
    assert_eq!(b.status, BatchStatus::Failed);
    assert_eq!(cancel_batch(&mut b, AUTHORITY, id, 3), Err(ErrorCode::BatchNotPending));
    assert_eq!(execute_batch(&mut b, AUTHORITY, id, 4), Err(ErrorCode::BatchNotPending));
}

#[test]
fn status_query_checks_identifier() {
    let b = new_batch(0);
    assert_eq!(get_batch_status(&b, b.id), Ok(BatchStatus::Pending));
    assert_eq!(get_batch_status(&b, [0u8; 32]), Err(ErrorCode::InvalidBatchId));
}

#[test]
fn batch_savings_is_one_percent() {
    let mut b = new_batch(0);
    b.total_value = 12_345;
    assert_eq!(calculate_batch_savings(&b), 123);
    b.total_value = u64::MAX;
    assert_eq!(calculate_batch_savings(&b), u64::MAX / 100);
}

#[test]
fn batch_and_transaction_namespaces_differ() {
    let batch_id = generate_batch_id(&[7u8; 32], 5);
    let hash = generate_batch_hash(&[7u8; 32], 5);
    assert_ne!(batch_id, hash);
}
