//! Ephemeral execution sessions: short-lived scratch state that folds every
//! accepted instruction into a running hash and ends in a commit or a rollback.

use crate::ident::{derive_id, i64_part, id_part, identifier_of, same_id, seal, seal_of, DomainTag};
use vstd::bytes::{spec_u32_to_le_bytes, spec_u64_to_le_bytes, u32_to_le_bytes};
use vstd::prelude::*;
use vstd::slice::slice_to_vec;

verus! {

/// Clock units a session stays open after it is created.
pub const ROLLUP_SESSION_TIMEOUT: i64 = 300;

/// Longest instruction a session accepts, in bytes.
pub const MAX_INSTRUCTION_BYTES: usize = 1000;

pub type RollupSessionId = [u8; 32];

#[derive(Clone, Copy, Debug, PartialEq, Eq, Structural)]
pub enum RollupStatus {
    Active,
    Committed,
    RolledBack,
    Expired,
}

#[derive(Clone, Copy, Debug, PartialEq, Eq)]
pub struct RollupSession {
    pub id: RollupSessionId,
    pub transaction_id: [u8; 32],
    pub status: RollupStatus,
    pub created_at: i64,
    pub expires_at: i64,
    pub instructions_executed: u32,
    pub state_hash: [u8; 32],
    pub committed_at: Option<i64>,
    pub rolled_back_at: Option<i64>,
}

/// What the execution engine reported for one instruction.
#[derive(Clone, Debug, PartialEq, Eq)]
pub struct ExecutionResult {
    pub success: bool,
    pub output_data: Vec<u8>,
    pub execution_time_ms: u32,
    pub gas_used: u64,
}

#[derive(Clone, Debug, PartialEq, Eq)]
pub struct RollupResult {
    pub success: bool,
    pub output_data: Vec<u8>,
    pub execution_time_ms: u32,
    pub gas_used: u64,
}

/// The artifact of a commit: it binds the final state hash and the
/// number of instructions.
#[derive(Clone, Copy, Debug, PartialEq, Eq)]
pub struct CommitProof {
    pub hash: [u8; 32],
    pub state_hash: [u8; 32],
    pub instructions_executed: u32,
    pub timestamp: i64,
    pub signature: [u8; 64],
}

#[derive(Clone, Copy, Debug, PartialEq, Eq)]
pub struct RollupSessionInitialized {
    pub session_id: RollupSessionId,
    pub transaction_id: [u8; 32],
    pub timestamp: i64,
}

#[derive(Clone, Debug, PartialEq, Eq)]
pub struct InstructionExecuted {
    pub session_id: RollupSessionId,
    pub instruction_data: Vec<u8>,
    pub success: bool,
    pub execution_time_ms: u32,
    pub timestamp: i64,
}

#[derive(Clone, Copy, Debug, PartialEq, Eq)]
pub struct RollupCommitted {
    pub session_id: RollupSessionId,
    pub state_hash: [u8; 32],
    pub instructions_executed: u32,
    pub commit_proof: [u8; 32],
    pub timestamp: i64,
}

#[derive(Clone, Debug, PartialEq, Eq)]
pub struct RollupRolledBack {
    pub session_id: RollupSessionId,
    pub reason: String,
    pub timestamp: i64,
}

#[derive(Clone, Copy, Debug, PartialEq, Eq, Structural)]
pub enum ErrorCode {
    InvalidSessionId,
    SessionNotActive,
    SessionExpired,
    ExecutionFailed,
    InvalidInstructionData,
    AlreadyExists,
    TimestampOverflow,
    CounterOverflow,
}

pub open spec fn session_id_of(transaction_id: Seq<u8>, timestamp: i64) -> Seq<u8> {
    identifier_of(
        seq![transaction_id, spec_u64_to_le_bytes(timestamp as u64)],
        DomainTag::Session,
    )
}

/// The running hash after one more instruction: order-dependent, it folds
/// the previous hash, the instruction bytes and the outcome.
pub open spec fn fold_state(current: Seq<u8>, instruction: Seq<u8>, success: bool) -> Seq<u8> {
    identifier_of(
        seq![current, instruction, seq![if success { 1u8 } else { 0u8 }]],
        DomainTag::StateFold,
    )
}

pub open spec fn commit_hash_of(state_hash: Seq<u8>, instructions: u32, timestamp: i64) -> Seq<
    u8,
> {
    identifier_of(
        seq![
            state_hash,
            spec_u32_to_le_bytes(instructions),
            spec_u64_to_le_bytes(timestamp as u64),
        ],
        DomainTag::CommitProof,
    )
}

pub open spec fn commit_signature_of(hash: Seq<u8>) -> Seq<u8> {
    seal_of(seq![hash], DomainTag::CommitSeal)
}

/// The session accepts work at `now`: it is active and has not expired.
pub open spec fn session_open(s: RollupSession, now: i64) -> bool {
    s.status == RollupStatus::Active && now < s.expires_at
}

/// Refusal of a mutation of `s` addressed as `session_id` at `now`, if any.
pub open spec fn session_error(s: RollupSession, session_id: [u8; 32], now: i64) -> Option<
    ErrorCode,
> {
    if s.id@ != session_id@ {
        Some(ErrorCode::InvalidSessionId)
    } else if s.status != RollupStatus::Active {
        Some(ErrorCode::SessionNotActive)
    } else if now >= s.expires_at {
        Some(ErrorCode::SessionExpired)
    } else {
        None
    }
}

/// Derives the identifier of a session from its transaction and creation time.
pub fn generate_session_id(transaction_id: &[u8; 32], timestamp: i64) -> (r: RollupSessionId)
    ensures
        r@ == session_id_of(transaction_id@, timestamp),
{
    let parts: Vec<Vec<u8>> = vec![id_part(transaction_id), i64_part(timestamp)];
    proof {
        assert(crate::ident::views_of(parts@) =~= seq![
            transaction_id@,
            spec_u64_to_le_bytes(timestamp as u64),
        ]);
    }
    derive_id(&parts, DomainTag::Session)
}

/// The built-in stand-in for the execution engine: an instruction succeeds
/// when it is not empty, takes `10 + len % 50` ms, echoes its bytes and
/// costs 1000 gas per byte.
pub fn simulate_rollup_execution(instruction_data: &Vec<u8>) -> (r: ExecutionResult)
    requires
        instruction_data@.len() <= MAX_INSTRUCTION_BYTES,
    ensures
        r.success == (instruction_data@.len() > 0),
        r.output_data@ == instruction_data@,
        r.execution_time_ms == 10 + instruction_data@.len() % 50,
        r.gas_used == instruction_data@.len() * 1000,
{
    let len = instruction_data.len();
    ExecutionResult {
        success: len > 0,
        output_data: slice_to_vec(instruction_data.as_slice()),
        execution_time_ms: 10 + (len % 50) as u32,
        gas_used: len as u64 * 1000,
    }
}

/// Folds one instruction into the running state hash (see `fold_state`).
pub fn update_state_hash(current_hash: [u8; 32], instruction_data: &Vec<u8>, success: bool) -> (r:
    [u8; 32])
    ensures
        r@ == fold_state(current_hash@, instruction_data@, success),
{
    let flag: u8 = if success {
        1
    } else {
        0
    };
    let mut flag_part: Vec<u8> = Vec::new();
    flag_part.push(flag);
    let parts: Vec<Vec<u8>> = vec![
        id_part(&current_hash),
        slice_to_vec(instruction_data.as_slice()),
        flag_part,
    ];
    proof {
        assert(parts@[2]@ =~= seq![if success { 1u8 } else { 0u8 }]);
        assert(crate::ident::views_of(parts@) =~= seq![
            current_hash@,
            instruction_data@,
            seq![if success { 1u8 } else { 0u8 }],
        ]);
    }
    derive_id(&parts, DomainTag::StateFold)
}

/// The 64-byte seal over a commit hash.
pub fn generate_commit_signature(hash: &[u8; 32]) -> (r: [u8; 64])
    ensures
        r@ == commit_signature_of(hash@),
{
    let parts: Vec<Vec<u8>> = vec![id_part(hash)];
    proof {
        assert(crate::ident::views_of(parts@) =~= seq![hash@]);
    }
    seal(&parts, DomainTag::CommitSeal)
}

/// Builds the commit artifact for a final state hash and instruction count.
pub fn generate_commit_proof(state_hash: &[u8; 32], instructions_executed: u32, timestamp: i64) -> (r:
    CommitProof)
    ensures
        r.hash@ == commit_hash_of(state_hash@, instructions_executed, timestamp),
        r.state_hash == *state_hash,
        r.instructions_executed == instructions_executed,
        r.timestamp == timestamp,
        r.signature@ == commit_signature_of(r.hash@),
{
    let parts: Vec<Vec<u8>> = vec![
        id_part(state_hash),
        u32_to_le_bytes(instructions_executed),
        i64_part(timestamp),
    ];
    proof {
        assert(crate::ident::views_of(parts@) =~= seq![
            state_hash@,
            spec_u32_to_le_bytes(instructions_executed),
            spec_u64_to_le_bytes(timestamp as u64),
        ]);
    }
    let hash = derive_id(&parts, DomainTag::CommitProof);
    let signature = generate_commit_signature(&hash);
    CommitProof {
        hash,
        state_hash: *state_hash,
        instructions_executed,
        timestamp,
        signature,
    }
}

/// Opens an `Active` session for a transaction in an empty slot; it
/// expires `ROLLUP_SESSION_TIMEOUT` clock units after `now`.
pub fn init_rollup_session(slot: &mut Option<RollupSession>, transaction_id: [u8; 32], now: i64) -> (r:
    Result<(RollupSessionId, RollupSessionInitialized), ErrorCode>)
    ensures
        r is Err <==> ((*old(slot)) is Some || now + ROLLUP_SESSION_TIMEOUT > i64::MAX),
        r matches Err(e) ==> *final(slot) == *old(slot) && e == if (*old(slot)) is Some {
            ErrorCode::AlreadyExists
        } else {
            ErrorCode::TimestampOverflow
        },
        r matches Ok((id, ev)) ==> {
            &&& id@ == session_id_of(transaction_id@, now)
            &&& (*final(slot)) matches Some(s) && s.state_hash@ == Seq::new(32, |_i: int| 0u8)
                && s == (RollupSession {
                id,
                transaction_id,
                status: RollupStatus::Active,
                created_at: now,
                expires_at: (now + ROLLUP_SESSION_TIMEOUT) as i64,
                instructions_executed: 0,
                state_hash: s.state_hash,
                committed_at: None,
                rolled_back_at: None,
            })
            &&& ev == (RollupSessionInitialized { session_id: id, transaction_id, timestamp: now })
        },
{
    if slot.is_some() {
        return Err(ErrorCode::AlreadyExists);
    }
    if now > i64::MAX - ROLLUP_SESSION_TIMEOUT {
        return Err(ErrorCode::TimestampOverflow);
    }
    let id = generate_session_id(&transaction_id, now);
    let zero: [u8; 32] = [0u8; 32];
    proof {
        assert(zero@ =~= Seq::new(32, |_i: int| 0u8));
    }
    *slot = Some(
        RollupSession {
            id,
            transaction_id,
            status: RollupStatus::Active,
            created_at: now,
            expires_at: now + ROLLUP_SESSION_TIMEOUT,
            instructions_executed: 0,
            state_hash: zero,
            committed_at: None,
            rolled_back_at: None,
        },
    );
    Ok((id, RollupSessionInitialized { session_id: id, transaction_id, timestamp: now }))
}

pub open spec fn instruction_error(
    s: RollupSession,
    session_id: [u8; 32],
    instruction: Seq<u8>,
    now: i64,
) -> Option<ErrorCode> {
    if session_error(s, session_id, now) is Some {
        session_error(s, session_id, now)
    } else if instruction.len() > MAX_INSTRUCTION_BYTES {
        Some(ErrorCode::InvalidInstructionData)
    } else if s.instructions_executed == u32::MAX {
        Some(ErrorCode::CounterOverflow)
    } else {
        None
    }
}

/// Accepts one instruction into an open session, given what the engine
/// reported for it: the counter goes up by one and the state hash folds
/// the instruction in.
pub fn execute_in_rollup(
    session: &mut RollupSession,
    session_id: RollupSessionId,
    instruction_data: &Vec<u8>,
    outcome: ExecutionResult,
    now: i64,
) -> (r: Result<(RollupResult, InstructionExecuted), ErrorCode>)
    ensures
        r is Err <==> instruction_error(*old(session), session_id, instruction_data@, now) is Some,
        r matches Err(e) ==> Some(e) == instruction_error(
            *old(session),
            session_id,
            instruction_data@,
            now,
        ) && *final(session) == *old(session),
        r matches Ok((res, ev)) ==> {
            &&& final(session).state_hash@ == fold_state(
                old(session).state_hash@,
                instruction_data@,
                outcome.success,
            )
            &&& *final(session) == (RollupSession {
                instructions_executed: (old(session).instructions_executed + 1) as u32,
                state_hash: final(session).state_hash,
                ..*old(session)
            })
            &&& res.success == outcome.success
            &&& res.output_data@ == outcome.output_data@
            &&& res.execution_time_ms == outcome.execution_time_ms
            &&& res.gas_used == outcome.gas_used
            &&& ev.session_id == session_id
            &&& ev.instruction_data@ == instruction_data@
            &&& ev.success == outcome.success
            &&& ev.execution_time_ms == outcome.execution_time_ms
            &&& ev.timestamp == now
        },
{
    if !same_id(&session.id, &session_id) {
        return Err(ErrorCode::InvalidSessionId);
    }
    if session.status != RollupStatus::Active {
        return Err(ErrorCode::SessionNotActive);
    }
    if now >= session.expires_at {
        return Err(ErrorCode::SessionExpired);
    }
    if instruction_data.len() > MAX_INSTRUCTION_BYTES {
        return Err(ErrorCode::InvalidInstructionData);
    }
    if session.instructions_executed == u32::MAX {
        return Err(ErrorCode::CounterOverflow);
    }
    session.instructions_executed = session.instructions_executed + 1;
    session.state_hash = update_state_hash(session.state_hash, instruction_data, outcome.success);
    let ev = InstructionExecuted {
        session_id,
        instruction_data: slice_to_vec(instruction_data.as_slice()),
        success: outcome.success,
        execution_time_ms: outcome.execution_time_ms,
        timestamp: now,
    };
    let res = RollupResult {
        success: outcome.success,
        output_data: outcome.output_data,
        execution_time_ms: outcome.execution_time_ms,
        gas_used: outcome.gas_used,
    };
    Ok((res, ev))
}

/// Ends an open session by committing it, and returns the artifact that
/// binds its final state.
pub fn commit_rollup(session: &mut RollupSession, session_id: RollupSessionId, now: i64) -> (r:
    Result<(CommitProof, RollupCommitted), ErrorCode>)
    ensures
        r is Err <==> session_error(*old(session), session_id, now) is Some,
        r matches Err(e) ==> Some(e) == session_error(*old(session), session_id, now)
            && *final(session) == *old(session),
        r matches Ok((p, ev)) ==> {
            &&& p.hash@ == commit_hash_of(
                old(session).state_hash@,
                old(session).instructions_executed,
                now,
            )
            &&& p.state_hash == old(session).state_hash
            &&& p.instructions_executed == old(session).instructions_executed
            &&& p.timestamp == now
            &&& p.signature@ == commit_signature_of(p.hash@)
            &&& *final(session) == (RollupSession {
                status: RollupStatus::Committed,
                committed_at: Some(now),
                ..*old(session)
            })
            &&& ev == (RollupCommitted {
                session_id,
                state_hash: old(session).state_hash,
                instructions_executed: old(session).instructions_executed,
                commit_proof: p.hash,
                timestamp: now,
            })
        },
{
    if !same_id(&session.id, &session_id) {
        return Err(ErrorCode::InvalidSessionId);
    }
    if session.status != RollupStatus::Active {
        return Err(ErrorCode::SessionNotActive);
    }
    if now >= session.expires_at {
        return Err(ErrorCode::SessionExpired);
    }
    let p = generate_commit_proof(&session.state_hash, session.instructions_executed, now);
    session.status = RollupStatus::Committed;
    session.committed_at = Some(now);
    let ev = RollupCommitted {
        session_id,
        state_hash: session.state_hash,
        instructions_executed: session.instructions_executed,
        commit_proof: p.hash,
        timestamp: now,
    };
    Ok((p, ev))
}

/// Ends an open session by rolling it back, for the reason the caller gives.
pub fn rollback_rollup(
    session: &mut RollupSession,
    session_id: RollupSessionId,
    reason: String,
    now: i64,
) -> (r: Result<RollupRolledBack, ErrorCode>)
    ensures
        r is Err <==> session_error(*old(session), session_id, now) is Some,
        r matches Err(e) ==> Some(e) == session_error(*old(session), session_id, now)
            && *final(session) == *old(session),
        r matches Ok(ev) ==> {
            &&& *final(session) == (RollupSession {
                status: RollupStatus::RolledBack,
                rolled_back_at: Some(now),
                ..*old(session)
            })
            &&& ev.session_id == session_id
            &&& ev.reason@ == reason@
            &&& ev.timestamp == now
        },
{
    if !same_id(&session.id, &session_id) {
        return Err(ErrorCode::InvalidSessionId);
    }
    if session.status != RollupStatus::Active {
        return Err(ErrorCode::SessionNotActive);
    }
    if now >= session.expires_at {
        return Err(ErrorCode::SessionExpired);
    }
    session.status = RollupStatus::RolledBack;
    session.rolled_back_at = Some(now);
    Ok(RollupRolledBack { session_id, reason, timestamp: now })
}

/// The status of a session as seen at `now`: an active session whose
/// time is up reads as `Expired`; nothing is stored.
pub fn session_status(session: &RollupSession, now: i64) -> (r: RollupStatus)
    ensures
        r == if session.status == RollupStatus::Active && now >= session.expires_at {
            RollupStatus::Expired
        } else {
            session.status
        },
{
    if session.status == RollupStatus::Active && now >= session.expires_at {
        RollupStatus::Expired
    } else {
        session.status
    }
}

} // verus!
