use zephyra::rollup::{
    commit_rollup, execute_in_rollup, generate_commit_proof, generate_commit_signature,
    generate_session_id, init_rollup_session, rollback_rollup, simulate_rollup_execution,
    update_state_hash, ErrorCode, RollupSession, RollupStatus,
};

const TX: [u8; 32] = [6u8; 32];

fn session(now: i64) -> RollupSession {
    let mut slot = None;
    init_rollup_session(&mut slot, TX, now).unwrap();
    slot.unwrap()
}

#[test]
fn init_opens_active_session() {
    let mut slot = None;
    let (id, ev) = init_rollup_session(&mut slot, TX, 1_000).unwrap();
    assert_eq!(id, generate_session_id(&TX, 1_000));
    assert_eq!(ev.session_id, id);
    assert_eq!(ev.transaction_id, TX);
    let s = slot.unwrap();
    assert_eq!(s.status, RollupStatus::Active);
    assert_eq!(s.expires_at, 1_300);
    assert_eq!(s.instructions_executed, 0);
    assert_eq!(s.state_hash, [0u8; 32]);
    assert_eq!(init_rollup_session(&mut slot, TX, 1_001), Err(ErrorCode::AlreadyExists));
    let mut late = None;
    assert_eq!(init_rollup_session(&mut late, TX, i64::MAX - 299), Err(ErrorCode::TimestampOverflow));
}

#[test]
fn simulated_engine() {
    let r = simulate_rollup_execution(&vec![1, 2, 3]);
    assert!(r.success);
    assert_eq!(r.output_data, vec![1, 2, 3]);
    assert_eq!(r.execution_time_ms, 13);
    assert_eq!(r.gas_used, 3_000);
    let empty = simulate_rollup_execution(&vec![]);
    assert!(!empty.success);
    assert_eq!(empty.execution_time_ms, 10);
}

#[test]
fn instructions_fold_into_state_in_order() {
    let mut s = session(0);
    let id = s.id;
    let a = vec![1u8, 2];
    let b = vec![3u8];
    let (res, ev) = execute_in_rollup(&mut s, id, &a, simulate_rollup_execution(&a), 1).unwrap();
    assert!(res.success);
    assert_eq!(res.gas_used, 2_000);
    assert_eq!(ev.instruction_data, a);
    execute_in_rollup(&mut s, id, &b, simulate_rollup_execution(&b), 2).unwrap();
    assert_eq!(s.instructions_executed, 2);
    let expected = update_state_hash(update_state_hash([0u8; 32], &a, true), &b, true);
    assert_eq!(s.state_hash, expected);
    let swapped = update_state_hash(update_state_hash([0u8; 32], &b, true), &a, true);
    assert_ne!(s.state_hash, swapped);
}

#[test]
fn execution_is_refused_when_not_open() {
    let mut s = session(0);
    let id = s.id;
    let data = vec![1u8];
    let out = simulate_rollup_execution(&data);
    assert_eq!(execute_in_rollup(&mut s, [0u8; 32], &data, out.clone(), 1), Err(ErrorCode::InvalidSessionId));
    assert_eq!(execute_in_rollup(&mut s, id, &data, out.clone(), 300), Err(ErrorCode::SessionExpired));
    let big = vec![0u8; 1_001];
    assert_eq!(execute_in_rollup(&mut s, id, &big, out.clone(), 1), Err(ErrorCode::InvalidInstructionData));
    assert_eq!(s.instructions_executed, 0);
    commit_rollup(&mut s, id, 2).unwrap();
    assert_eq!(execute_in_rollup(&mut s, id, &data, out, 3), Err(ErrorCode::SessionNotActive));
}

#[test]
fn commit_binds_state_and_count() {
    let mut s = session(0);
    let id = s.id;
    let data = vec![9u8; 4];
    execute_in_rollup(&mut s, id, &data, simulate_rollup_execution(&data), 1).unwrap();
    let state = s.state_hash;
    let (p, ev) = commit_rollup(&mut s, id, 5).unwrap();
    assert_eq!(p, generate_commit_proof(&state, 1, 5));
    assert_eq!(p.state_hash, state);
    assert_eq!(p.instructions_executed, 1);
    assert_eq!(p.signature, generate_commit_signature(&p.hash));
    assert_eq!(ev.commit_proof, p.hash);
    assert_eq!(s.status, RollupStatus::Committed);
    assert_eq!(s.committed_at, Some(5));
    assert_eq!(commit_rollup(&mut s, id, 6), Err(ErrorCode::SessionNotActive));
    assert_eq!(rollback_rollup(&mut s, id, "late".to_string(), 7), Err(ErrorCode::SessionNotActive));
}

#[test]
fn rollback_records_reason() {
    let mut s = session(0);
    let id = s.id;
    let ev = rollback_rollup(&mut s, id, "venue down".to_string(), 9).unwrap();
    assert_eq!(ev.reason, "venue down");
    assert_eq!(ev.timestamp, 9);
    assert_eq!(s.status, RollupStatus::RolledBack);
    assert_eq!(s.rolled_back_at, Some(9));
    assert_eq!(rollback_rollup(&mut s, id, "again".to_string(), 10), Err(ErrorCode::SessionNotActive));
    assert_eq!(commit_rollup(&mut s, id, 11), Err(ErrorCode::SessionNotActive));
}

#[test]
fn expired_session_cannot_commit() {
    let mut s = session(0);
    let id = s.id;
    assert_eq!(commit_rollup(&mut s, id, 300), Err(ErrorCode::SessionExpired));
    assert_eq!(rollback_rollup(&mut s, id, "x".to_string(), 301), Err(ErrorCode::SessionExpired));
    assert_eq!(s.status, RollupStatus::Active);
}

#[test]
fn session_ids_differ_from_transaction_ids() {
    assert_ne!(generate_session_id(&TX, 0), generate_session_id(&TX, 1));
    assert_ne!(generate_commit_signature(&TX)[..32], generate_commit_signature(&[5u8; 32])[..32]);
}
