//! The protection registry: one profile per owner with its counters and
//! policy, and the lifecycle of every submitted transaction.

use crate::ident::{derive_id, i64_part, id_part, identifier_of, same_id, DomainTag};
use crate::route_proof::MEVAttackType;
use vstd::bytes::{spec_u64_to_le_bytes, u64_to_le_bytes};
use vstd::prelude::*;

verus! {

/// Slippage bound, in basis points, that a profile may be set to at most.
pub const MAX_SLIPPAGE_BPS: u16 = 1000;

/// Largest valid risk score.
pub const MAX_RISK_SCORE: u8 = 100;

#[derive(Clone, Copy, Debug, PartialEq, Eq)]
pub struct ProtectionSettings {
    pub max_slippage_bps: u16,
    pub max_mev_risk_score: u8,
    pub auto_execute: bool,
    pub batch_enabled: bool,
}

#[derive(Clone, Copy, Debug, PartialEq, Eq)]
pub struct ProtectionAccount {
    pub owner: [u8; 32],
    pub total_transactions: u64,
    pub total_savings: u64,
    pub mev_attacks_blocked: u32,
    pub settings: ProtectionSettings,
}

impl ProtectionAccount {
    /// The policy settings lie within their bounds.
    pub open spec fn wf(&self) -> bool {
        &&& self.settings.max_slippage_bps <= MAX_SLIPPAGE_BPS
        &&& self.settings.max_mev_risk_score <= MAX_RISK_SCORE
    }
}

#[derive(Clone, Copy, Debug, PartialEq, Eq, Structural)]
pub enum TransactionStatus {
    Pending,
    Simulating,
    Analyzing,
    Executing,
    Completed,
    Failed,
}

impl TransactionStatus {
    /// Position in the lifecycle `Pending → Simulating → Analyzing → Executing → Completed`.
    pub open spec fn rank(self) -> int {
        match self {
            TransactionStatus::Pending => 0,
            TransactionStatus::Simulating => 1,
            TransactionStatus::Analyzing => 2,
            TransactionStatus::Executing => 3,
            TransactionStatus::Completed => 4,
            TransactionStatus::Failed => 5,
        }
    }

    pub open spec fn is_terminal(self) -> bool {
        self == TransactionStatus::Completed || self == TransactionStatus::Failed
    }

    pub fn terminal(&self) -> (r: bool)
        ensures
            r == self.is_terminal(),
    {
        *self == TransactionStatus::Completed || *self == TransactionStatus::Failed
    }
}

/// The status may move from `from` to `to`: it stays, or it leaves a
/// non-terminal state forwards or to `Failed`.
pub open spec fn status_step(from: TransactionStatus, to: TransactionStatus) -> bool {
    from == to || (!from.is_terminal() && (to == TransactionStatus::Failed || from.rank()
        <= to.rank()))
}

#[derive(Clone, Copy, Debug, PartialEq, Eq)]
pub struct Transaction {
    pub id: [u8; 32],
    pub owner: [u8; 32],
    pub input_token: [u8; 32],
    pub output_token: [u8; 32],
    pub input_amount: u64,
    pub output_amount: u64,
    pub risk_score: u8,
    pub selected_route: u8,
    pub status: TransactionStatus,
    pub proof_hash: [u8; 32],
    pub batch_id: Option<[u8; 32]>,
    pub created_at: i64,
    pub completed_at: Option<i64>,
}

#[derive(Clone, Copy, Debug, PartialEq, Eq, Structural)]
pub enum ErrorCode {
    InvalidTransactionId,
    InvalidSlippage,
    InvalidRiskScore,
    TransactionNotFound,
    Unauthorized,
    AlreadyExists,
    InvalidStatus,
    CounterOverflow,
}

#[derive(Clone, Copy, Debug, PartialEq, Eq)]
pub struct ProtectionInitialized {
    pub owner: [u8; 32],
    pub timestamp: i64,
}

#[derive(Clone, Copy, Debug, PartialEq, Eq)]
pub struct TransactionSubmitted {
    pub transaction_id: [u8; 32],
    pub owner: [u8; 32],
    pub input_token: [u8; 32],
    pub output_token: [u8; 32],
    pub input_amount: u64,
    pub timestamp: i64,
}

#[derive(Clone, Copy, Debug, PartialEq, Eq)]
pub struct TransactionCompleted {
    pub transaction_id: [u8; 32],
    pub output_amount: u64,
    pub savings: u64,
    pub risk_score: u8,
    pub timestamp: i64,
}

#[derive(Clone, Copy, Debug, PartialEq, Eq)]
pub struct TransactionFailed {
    pub transaction_id: [u8; 32],
    pub timestamp: i64,
}

#[derive(Clone, Copy, Debug, PartialEq, Eq)]
pub struct MEVDetected {
    pub transaction_id: [u8; 32],
    pub attack_type: MEVAttackType,
    pub risk_score: u8,
    pub timestamp: i64,
}

#[derive(Clone, Copy, Debug, PartialEq, Eq)]
pub struct SettingsUpdated {
    pub owner: [u8; 32],
    pub max_slippage_bps: u16,
    pub max_mev_risk_score: u8,
    pub timestamp: i64,
}

/// The settings a new profile starts with: 1% slippage, risk threshold 50.
pub open spec fn default_settings() -> ProtectionSettings {
    ProtectionSettings {
        max_slippage_bps: 100,
        max_mev_risk_score: 50,
        auto_execute: true,
        batch_enabled: true,
    }
}

pub open spec fn transaction_id_of(
    owner: Seq<u8>,
    input_token: Seq<u8>,
    output_token: Seq<u8>,
    input_amount: u64,
    timestamp: i64,
) -> Seq<u8> {
    identifier_of(
        seq![
            owner,
            input_token,
            output_token,
            spec_u64_to_le_bytes(input_amount),
            spec_u64_to_le_bytes(timestamp as u64),
        ],
        DomainTag::Transaction,
    )
}

/// What the owner gains on a completion: the output above the input, never less than zero.
pub open spec fn savings_of(input_amount: u64, output_amount: u64) -> int {
    if output_amount > input_amount {
        output_amount - input_amount
    } else {
        0
    }
}

/// Every byte of the identifier is zero: no value has been set yet.
pub open spec fn is_zero_id(a: [u8; 32]) -> bool {
    forall|i: int| 0 <= i < 32 ==> a@[i] == 0
}

/// The record `tx` is the transaction `id` of the profile's owner.
pub open spec fn addresses(profile: ProtectionAccount, tx: Transaction, id: [u8; 32]) -> bool {
    tx.id@ == id@ && tx.owner@ == profile.owner@
}

/// Creates the profile of `wallet_address` in an empty slot.
pub fn initialize_protection(
    slot: &mut Option<ProtectionAccount>,
    wallet_address: [u8; 32],
    now: i64,
) -> (r: Result<ProtectionInitialized, ErrorCode>)
    ensures
        r is Err <==> (*old(slot)) is Some,
        r is Err ==> r == Err::<ProtectionInitialized, ErrorCode>(ErrorCode::AlreadyExists)
            && *final(slot) == *old(slot),
        r is Ok ==> {
            &&& *final(slot) == Some(
                (ProtectionAccount {
                    owner: wallet_address,
                    total_transactions: 0,
                    total_savings: 0,
                    mev_attacks_blocked: 0,
                    settings: default_settings(),
                }),
            )
            &&& r == Ok::<ProtectionInitialized, ErrorCode>(
                (ProtectionInitialized { owner: wallet_address, timestamp: now }),
            )
        },
{
    if slot.is_some() {
        return Err(ErrorCode::AlreadyExists);
    }
    *slot = Some(
        ProtectionAccount {
            owner: wallet_address,
            total_transactions: 0,
            total_savings: 0,
            mev_attacks_blocked: 0,
            settings: ProtectionSettings {
                max_slippage_bps: 100,
                max_mev_risk_score: 50,
                auto_execute: true,
                batch_enabled: true,
            },
        },
    );
    Ok(ProtectionInitialized { owner: wallet_address, timestamp: now })
}

/// Derives the identifier of a submission from its owner, assets, amount and time.
pub fn generate_transaction_id(
    owner: &[u8; 32],
    input_token: &[u8; 32],
    output_token: &[u8; 32],
    input_amount: u64,
    timestamp: i64,
) -> (r: [u8; 32])
    ensures
        r@ == transaction_id_of(owner@, input_token@, output_token@, input_amount, timestamp),
{
    let parts: Vec<Vec<u8>> = vec![
        id_part(owner),
        id_part(input_token),
        id_part(output_token),
        u64_to_le_bytes(input_amount),
        i64_part(timestamp),
    ];
    let r = derive_id(&parts, DomainTag::Transaction);
    proof {
        assert(crate::ident::views_of(parts@) =~= seq![
            owner@,
            input_token@,
            output_token@,
            spec_u64_to_le_bytes(input_amount),
            spec_u64_to_le_bytes(timestamp as u64),
        ]);
    }
    r
}

pub open spec fn submit_error(
    profile: ProtectionAccount,
    slot: Option<Transaction>,
    caller: [u8; 32],
) -> Option<ErrorCode> {
    if caller@ != profile.owner@ {
        Some(ErrorCode::Unauthorized)
    } else if slot is Some {
        Some(ErrorCode::AlreadyExists)
    } else if profile.total_transactions == u64::MAX {
        Some(ErrorCode::CounterOverflow)
    } else {
        None
    }
}

/// Admits a new transaction of the profile's owner into the empty slot at
/// its derived identifier, and counts it on the profile.
pub fn submit_transaction(
    profile: &mut ProtectionAccount,
    slot: &mut Option<Transaction>,
    caller: [u8; 32],
    input_token: [u8; 32],
    output_token: [u8; 32],
    input_amount: u64,
    _min_output_amount: u64,
    now: i64,
) -> (r: Result<([u8; 32], TransactionSubmitted), ErrorCode>)
    ensures
        r is Err <==> submit_error(*old(profile), *old(slot), caller) is Some,
        r matches Err(e) ==> Some(e) == submit_error(*old(profile), *old(slot), caller)
            && *final(profile) == *old(profile) && *final(slot) == *old(slot),
        r matches Ok((id, ev)) ==> {
            &&& id@ == transaction_id_of(
                old(profile).owner@,
                input_token@,
                output_token@,
                input_amount,
                now,
            )
            &&& *final(profile) == (ProtectionAccount {
                total_transactions: (old(profile).total_transactions + 1) as u64,
                ..*old(profile)
            })
            &&& (*final(slot)) matches Some(t) && is_zero_id(t.proof_hash) && t == (Transaction {
                    id,
                    owner: old(profile).owner,
                    input_token,
                    output_token,
                    input_amount,
                    output_amount: 0,
                    risk_score: 0,
                    selected_route: 0,
                    status: TransactionStatus::Pending,
                    proof_hash: t.proof_hash,
                    batch_id: None,
                    created_at: now,
                    completed_at: None,
                })
            &&& ev == (TransactionSubmitted {
                transaction_id: id,
                owner: old(profile).owner,
                input_token,
                output_token,
                input_amount,
                timestamp: now,
            })
        },
{
    if !same_id(&caller, &profile.owner) {
        return Err(ErrorCode::Unauthorized);
    }
    if slot.is_some() {
        return Err(ErrorCode::AlreadyExists);
    }
    if profile.total_transactions == u64::MAX {
        return Err(ErrorCode::CounterOverflow);
    }
    let id = generate_transaction_id(
        &profile.owner,
        &input_token,
        &output_token,
        input_amount,
        now,
    );
    *slot = Some(
        Transaction {
            id,
            owner: profile.owner,
            input_token,
            output_token,
            input_amount,
            output_amount: 0,
            risk_score: 0,
            selected_route: 0,
            status: TransactionStatus::Pending,
            proof_hash: [0u8; 32],
            batch_id: None,
            created_at: now,
            completed_at: None,
        },
    );
    profile.total_transactions = profile.total_transactions + 1;
    let ev = TransactionSubmitted {
        transaction_id: id,
        owner: profile.owner,
        input_token,
        output_token,
        input_amount,
        timestamp: now,
    };
    Ok((id, ev))
}

/// The status of the transaction `transaction_id`, read from its record.
pub fn get_transaction_status(tx: &Transaction, transaction_id: [u8; 32]) -> (r: Result<
    TransactionStatus,
    ErrorCode,
>)
    ensures
        tx.id@ == transaction_id@ ==> r == Ok::<TransactionStatus, ErrorCode>(tx.status),
        tx.id@ != transaction_id@ ==> r == Err::<TransactionStatus, ErrorCode>(
            ErrorCode::InvalidTransactionId,
        ),
{
    if !same_id(&tx.id, &transaction_id) {
        return Err(ErrorCode::InvalidTransactionId);
    }
    Ok(tx.status)
}

pub open spec fn settings_error(
    profile: ProtectionAccount,
    caller: [u8; 32],
    max_slippage: u16,
    max_mev_risk: u8,
) -> Option<ErrorCode> {
    if caller@ != profile.owner@ {
        Some(ErrorCode::Unauthorized)
    } else if max_slippage > MAX_SLIPPAGE_BPS {
        Some(ErrorCode::InvalidSlippage)
    } else if max_mev_risk > MAX_RISK_SCORE {
        Some(ErrorCode::InvalidRiskScore)
    } else {
        None
    }
}

/// Sets the owner's slippage bound and risk threshold after checking both bounds.
pub fn update_settings(
    profile: &mut ProtectionAccount,
    caller: [u8; 32],
    max_slippage: u16,
    max_mev_risk: u8,
    now: i64,
) -> (r: Result<SettingsUpdated, ErrorCode>)
    ensures
        r is Err <==> settings_error(*old(profile), caller, max_slippage, max_mev_risk) is Some,
        r matches Err(e) ==> Some(e) == settings_error(
            *old(profile),
            caller,
            max_slippage,
            max_mev_risk,
        ) && *final(profile) == *old(profile),
        r matches Ok(ev) ==> {
            &&& *final(profile) == (ProtectionAccount {
                settings: ProtectionSettings {
                    max_slippage_bps: max_slippage,
                    max_mev_risk_score: max_mev_risk,
                    ..old(profile).settings
                },
                ..*old(profile)
            })
            &&& final(profile).wf()
            &&& ev == (SettingsUpdated {
                owner: old(profile).owner,
                max_slippage_bps: max_slippage,
                max_mev_risk_score: max_mev_risk,
                timestamp: now,
            })
        },
{
    if !same_id(&caller, &profile.owner) {
        return Err(ErrorCode::Unauthorized);
    }
    if max_slippage > MAX_SLIPPAGE_BPS {
        return Err(ErrorCode::InvalidSlippage);
    }
    if max_mev_risk > MAX_RISK_SCORE {
        return Err(ErrorCode::InvalidRiskScore);
    }
    profile.settings.max_slippage_bps = max_slippage;
    profile.settings.max_mev_risk_score = max_mev_risk;
    Ok(
        SettingsUpdated {
            owner: profile.owner,
            max_slippage_bps: max_slippage,
            max_mev_risk_score: max_mev_risk,
            timestamp: now,
        },
    )
}

/// Risk analysis is accepted while the transaction has not gone past `Analyzing`.
pub open spec fn analysis_open(status: TransactionStatus) -> bool {
    status.rank() <= TransactionStatus::Analyzing.rank()
}

pub open spec fn analysis_error(
    profile: ProtectionAccount,
    tx: Transaction,
    transaction_id: [u8; 32],
    risk_score: u8,
    mev_detected: bool,
) -> Option<ErrorCode> {
    if !addresses(profile, tx, transaction_id) {
        Some(ErrorCode::InvalidTransactionId)
    } else if risk_score > MAX_RISK_SCORE {
        Some(ErrorCode::InvalidRiskScore)
    } else if !analysis_open(tx.status) {
        Some(ErrorCode::InvalidStatus)
    } else if mev_detected && profile.mev_attacks_blocked == u32::MAX {
        Some(ErrorCode::CounterOverflow)
    } else {
        None
    }
}

/// Records the risk score of a transaction and moves it to `Analyzing`; a
/// flagged attack is counted on the profile and reported.
pub fn update_risk_analysis(
    profile: &mut ProtectionAccount,
    tx: &mut Transaction,
    transaction_id: [u8; 32],
    risk_score: u8,
    mev_detected: bool,
    now: i64,
) -> (r: Result<Option<MEVDetected>, ErrorCode>)
    ensures
        r is Err <==> analysis_error(*old(profile), *old(tx), transaction_id, risk_score, mev_detected)
            is Some,
        r matches Err(e) ==> Some(e) == analysis_error(
            *old(profile),
            *old(tx),
            transaction_id,
            risk_score,
            mev_detected,
        ) && *final(profile) == *old(profile) && *final(tx) == *old(tx),
        r matches Ok(ev) ==> {
            &&& *final(tx) == (Transaction {
                risk_score,
                status: TransactionStatus::Analyzing,
                ..*old(tx)
            })
            &&& *final(profile) == (ProtectionAccount {
                mev_attacks_blocked: if mev_detected {
                    (old(profile).mev_attacks_blocked + 1) as u32
                } else {
                    old(profile).mev_attacks_blocked
                },
                ..*old(profile)
            })
            &&& ev == if mev_detected {
                Some(
                    MEVDetected {
                        transaction_id,
                        attack_type: MEVAttackType::SandwichAttack,
                        risk_score,
                        timestamp: now,
                    },
                )
            } else {
                None
            }
        },
        status_step(old(tx).status, final(tx).status),
{
    if !same_id(&tx.id, &transaction_id) || !same_id(&tx.owner, &profile.owner) {
        return Err(ErrorCode::InvalidTransactionId);
    }
    if risk_score > MAX_RISK_SCORE {
        return Err(ErrorCode::InvalidRiskScore);
    }
    let open = match tx.status {
        TransactionStatus::Pending | TransactionStatus::Simulating
        | TransactionStatus::Analyzing => true,
        _ => false,
    };
    if !open {
        return Err(ErrorCode::InvalidStatus);
    }
    if mev_detected && profile.mev_attacks_blocked == u32::MAX {
        return Err(ErrorCode::CounterOverflow);
    }
    tx.risk_score = risk_score;
    tx.status = TransactionStatus::Analyzing;
    if mev_detected {
        profile.mev_attacks_blocked = profile.mev_attacks_blocked + 1;
        Ok(
            Some(
                MEVDetected {
                    transaction_id,
                    attack_type: MEVAttackType::SandwichAttack,
                    risk_score,
                    timestamp: now,
                },
            ),
        )
    } else {
        Ok(None)
    }
}

pub open spec fn completion_error(
    profile: ProtectionAccount,
    tx: Transaction,
    caller: [u8; 32],
    transaction_id: [u8; 32],
    output_amount: u64,
) -> Option<ErrorCode> {
    if caller@ != profile.owner@ {
        Some(ErrorCode::Unauthorized)
    } else if !addresses(profile, tx, transaction_id) {
        Some(ErrorCode::InvalidTransactionId)
    } else if tx.status.is_terminal() {
        Some(ErrorCode::InvalidStatus)
    } else if profile.total_savings + savings_of(tx.input_amount, output_amount) > u64::MAX {
        Some(ErrorCode::CounterOverflow)
    } else {
        None
    }
}

/// Closes a transaction with its output and proof fingerprint, and adds
/// what the owner saved to the profile.
pub fn complete_transaction(
    profile: &mut ProtectionAccount,
    tx: &mut Transaction,
    caller: [u8; 32],
    transaction_id: [u8; 32],
    output_amount: u64,
    proof_hash: [u8; 32],
    now: i64,
) -> (r: Result<TransactionCompleted, ErrorCode>)
    ensures
        r is Err <==> completion_error(*old(profile), *old(tx), caller, transaction_id, output_amount)
            is Some,
        r matches Err(e) ==> Some(e) == completion_error(
            *old(profile),
            *old(tx),
            caller,
            transaction_id,
            output_amount,
        ) && *final(profile) == *old(profile) && *final(tx) == *old(tx),
        r matches Ok(ev) ==> {
            &&& *final(tx) == (Transaction {
                output_amount,
                proof_hash,
                status: TransactionStatus::Completed,
                completed_at: Some(now),
                ..*old(tx)
            })
            &&& final(profile).total_savings == old(profile).total_savings + savings_of(
                old(tx).input_amount,
                output_amount,
            )
            &&& *final(profile) == (ProtectionAccount {
                total_savings: final(profile).total_savings,
                ..*old(profile)
            })
            &&& ev == (TransactionCompleted {
                transaction_id,
                output_amount,
                savings: savings_of(old(tx).input_amount, output_amount) as u64,
                risk_score: old(tx).risk_score,
                timestamp: now,
            })
        },
        final(profile).total_savings >= old(profile).total_savings,
        status_step(old(tx).status, final(tx).status),
{
    if !same_id(&caller, &profile.owner) {
        return Err(ErrorCode::Unauthorized);
    }
    if !same_id(&tx.id, &transaction_id) || !same_id(&tx.owner, &profile.owner) {
        return Err(ErrorCode::InvalidTransactionId);
    }
    if tx.status.terminal() {
        return Err(ErrorCode::InvalidStatus);
    }
    let savings: u64 = if output_amount > tx.input_amount {
        output_amount - tx.input_amount
    } else {
        0
    };
    if savings > u64::MAX - profile.total_savings {
        return Err(ErrorCode::CounterOverflow);
    }
    tx.output_amount = output_amount;
    tx.proof_hash = proof_hash;
    tx.status = TransactionStatus::Completed;
    tx.completed_at = Some(now);
    profile.total_savings = profile.total_savings + savings;
    Ok(
        TransactionCompleted {
            transaction_id,
            output_amount,
            savings,
            risk_score: tx.risk_score,
            timestamp: now,
        },
    )
}

pub open spec fn failure_error(
    profile: ProtectionAccount,
    tx: Transaction,
    caller: [u8; 32],
    transaction_id: [u8; 32],
) -> Option<ErrorCode> {
    if caller@ != profile.owner@ {
        Some(ErrorCode::Unauthorized)
    } else if !addresses(profile, tx, transaction_id) {
        Some(ErrorCode::InvalidTransactionId)
    } else if tx.status.is_terminal() {
        Some(ErrorCode::InvalidStatus)
    } else {
        None
    }
}

/// Moves a transaction that has not finished to `Failed`, for good.
pub fn fail_transaction(
    profile: &ProtectionAccount,
    tx: &mut Transaction,
    caller: [u8; 32],
    transaction_id: [u8; 32],
    now: i64,
) -> (r: Result<TransactionFailed, ErrorCode>)
    ensures
        r is Err <==> failure_error(*profile, *old(tx), caller, transaction_id) is Some,
        r matches Err(e) ==> Some(e) == failure_error(*profile, *old(tx), caller, transaction_id)
            && *final(tx) == *old(tx),
        r matches Ok(ev) ==> {
            &&& *final(tx) == (Transaction {
                status: TransactionStatus::Failed,
                completed_at: Some(now),
                ..*old(tx)
            })
            &&& ev == (TransactionFailed { transaction_id, timestamp: now })
        },
        status_step(old(tx).status, final(tx).status),
{
    if !same_id(&caller, &profile.owner) {
        return Err(ErrorCode::Unauthorized);
    }
    if !same_id(&tx.id, &transaction_id) || !same_id(&tx.owner, &profile.owner) {
        return Err(ErrorCode::InvalidTransactionId);
    }
    if tx.status.terminal() {
        return Err(ErrorCode::InvalidStatus);
    }
    tx.status = TransactionStatus::Failed;
    tx.completed_at = Some(now);
    Ok(TransactionFailed { transaction_id, timestamp: now })
}

/// Along any run of accepted calls, each of which moves the status by an
/// allowed step, the lifecycle position never decreases up to any point
/// where the transaction has not failed.
pub proof fn lemma_status_never_regresses(trace: Seq<TransactionStatus>, i: int, j: int)
    requires
        forall|k: int| 0 <= k < trace.len() - 1 ==> #[trigger] status_step(trace[k], trace[k + 1]),
        0 <= i <= j < trace.len(),
        trace[j] != TransactionStatus::Failed,
    ensures
        trace[i].rank() <= trace[j].rank(),
    decreases j - i,
{
    if i < j {
        let k = j - 1;
        assert(status_step(trace[k], trace[k + 1]));
        lemma_status_never_regresses(trace, i, j - 1);
    }
}

/// A completion adds exactly the non-negative savings to the running total.
pub proof fn lemma_savings_non_negative(input_amount: u64, output_amount: u64)
    ensures
        savings_of(input_amount, output_amount) >= 0,
        savings_of(input_amount, output_amount) == if output_amount >= input_amount {
            output_amount - input_amount
        } else {
            0
        },
{
}

} // verus!
