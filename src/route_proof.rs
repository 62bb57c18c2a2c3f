//! Proof-of-route records: the decision behind a route choice, bound by a
//! fingerprint, with the audit trail that accumulates after it.

use crate::ident::{derive_id, i64_part, id_part, identifier_of, same_id, DomainTag};
use crate::route::{risks_valid, RouteOption, DEX, MAX_ROUTES};
use vstd::bytes::{
    spec_u16_to_le_bytes,
    spec_u64_to_le_bytes,
    u16_to_le_bytes,
    u64_to_le_bytes,
};
use vstd::prelude::*;
use vstd::slice::slice_to_vec;
use vstd::utf8::encode_utf8;

verus! {

/// Most detection events one proof may hold.
pub const MAX_DETECTIONS: usize = 20;

/// Longest reasoning text, in UTF-8 bytes.
pub const MAX_REASONING_BYTES: usize = 500;

#[derive(Clone, Copy, Debug, PartialEq, Eq, Structural)]
pub enum MEVAttackType {
    SandwichAttack,
    FrontRunning,
    BackRunning,
    Arbitrage,
}

#[derive(Clone, Copy, Debug, PartialEq, Eq)]
pub struct MEVDetection {
    pub attack_type: MEVAttackType,
    pub probability: u8,
    pub detected_at: i64,
}

#[derive(Clone, Debug, PartialEq, Eq)]
pub struct ProofOfRoute {
    pub proof_hash: [u8; 32],
    pub transaction_id: [u8; 32],
    pub routes_considered: Vec<RouteOption>,
    pub selected_route: DEX,
    pub selection_reasoning: String,
    pub mev_detection_log: Vec<MEVDetection>,
    pub simulation_time: u32,
    pub route_selection_time: u32,
    pub execution_time: u32,
    pub total_time: u32,
    pub blockchain_signature: Option<[u8; 64]>,
    pub created_at: i64,
}

impl ProofOfRoute {
    /// The fingerprint binds the decision fields, the bounded lists stay
    /// within their bounds and the total time is the sum of the phases.
    pub open spec fn wf(&self) -> bool {
        &&& self.proof_hash@ == fingerprint_of(
            self.transaction_id@,
            self.routes_considered@,
            self.selected_route,
            self.selection_reasoning@,
            self.created_at,
        )
        &&& self.routes_considered@.len() <= MAX_ROUTES
        &&& self.mev_detection_log@.len() <= MAX_DETECTIONS
        &&& self.total_time == self.simulation_time + self.route_selection_time
            + self.execution_time
    }
}

/// Everything a proof holds, as handed out to readers.
#[derive(Clone, Debug, PartialEq, Eq)]
pub struct ProofData {
    pub proof_hash: [u8; 32],
    pub transaction_id: [u8; 32],
    pub routes_considered: Vec<RouteOption>,
    pub selected_route: DEX,
    pub selection_reasoning: String,
    pub mev_detection_log: Vec<MEVDetection>,
    pub simulation_time: u32,
    pub route_selection_time: u32,
    pub execution_time: u32,
    pub total_time: u32,
    pub blockchain_signature: Option<[u8; 64]>,
    pub created_at: i64,
}

#[derive(Clone, Copy, Debug, PartialEq, Eq)]
pub struct ProofGenerated {
    pub proof_hash: [u8; 32],
    pub transaction_id: [u8; 32],
    pub routes_count: u8,
    pub timestamp: i64,
}

#[derive(Clone, Copy, Debug, PartialEq, Eq)]
pub struct ProofVerified {
    pub proof_hash: [u8; 32],
    pub valid: bool,
    pub timestamp: i64,
}

#[derive(Clone, Copy, Debug, PartialEq, Eq)]
pub struct MEVDetectionAdded {
    pub proof_hash: [u8; 32],
    pub attack_type: MEVAttackType,
    pub probability: u8,
    pub timestamp: i64,
}

#[derive(Clone, Copy, Debug, PartialEq, Eq)]
pub struct ExecutionTimingUpdated {
    pub proof_hash: [u8; 32],
    pub total_time: u32,
    pub timestamp: i64,
}

#[derive(Clone, Copy, Debug, PartialEq, Eq)]
pub struct BlockchainSignatureSet {
    pub proof_hash: [u8; 32],
    pub signature: [u8; 64],
    pub timestamp: i64,
}

#[derive(Clone, Copy, Debug, PartialEq, Eq, Structural)]
pub enum ErrorCode {
    InvalidProofHash,
    InvalidProbability,
    ProofNotFound,
    InvalidTiming,
    ProofAlreadyExists,
    TooManyRoutes,
    InvalidRiskScore,
    ReasoningTooLong,
    DetectionLogFull,
}

/// The encoding of one option: venue byte, output, price impact, risk, depth.
pub open spec fn route_bytes(o: RouteOption) -> Seq<u8> {
    seq![o.dex.spec_code()] + spec_u64_to_le_bytes(o.estimated_output) + spec_u16_to_le_bytes(
        o.price_impact_bps,
    ) + seq![o.mev_risk_score] + spec_u64_to_le_bytes(o.liquidity_depth)
}

pub open spec fn routes_bytes(routes: Seq<RouteOption>) -> Seq<u8>
    decreases routes.len(),
{
    if routes.len() == 0 {
        Seq::empty()
    } else {
        routes_bytes(routes.drop_last()) + route_bytes(routes.last())
    }
}

/// The fingerprint of a route decision.
pub open spec fn fingerprint_of(
    transaction_id: Seq<u8>,
    routes: Seq<RouteOption>,
    selected: DEX,
    reasoning: Seq<char>,
    timestamp: i64,
) -> Seq<u8> {
    identifier_of(
        seq![
            transaction_id,
            routes_bytes(routes),
            seq![selected.spec_code()],
            encode_utf8(reasoning),
            spec_u64_to_le_bytes(timestamp as u64),
        ],
        DomainTag::Proof,
    )
}

/// The decision fields and the fingerprint are as they were.
pub open spec fn decision_kept(before: ProofOfRoute, after: ProofOfRoute) -> bool {
    &&& after.proof_hash == before.proof_hash
    &&& after.transaction_id == before.transaction_id
    &&& after.routes_considered@ == before.routes_considered@
    &&& after.selected_route == before.selected_route
    &&& after.selection_reasoning@ == before.selection_reasoning@
    &&& after.created_at == before.created_at
}

fn encode_routes(routes: &Vec<RouteOption>) -> (r: Vec<u8>)
    ensures
        r@ == routes_bytes(routes@),
{
    let mut out: Vec<u8> = Vec::new();
    let mut i: usize = 0;
    while i < routes.len()
        invariant
            0 <= i <= routes@.len(),
            out@ == routes_bytes(routes@.take(i as int)),
        decreases routes@.len() - i,
    {
        let o = routes[i];
        out.push(o.dex.to_bytes()[0]);
        let mut output = u64_to_le_bytes(o.estimated_output);
        let mut impact = u16_to_le_bytes(o.price_impact_bps);
        let mut depth = u64_to_le_bytes(o.liquidity_depth);
        out.append(&mut output);
        out.append(&mut impact);
        out.push(o.mev_risk_score);
        out.append(&mut depth);
        proof {
            assert(routes@.take(i + 1).drop_last() =~= routes@.take(i as int));
            assert(routes@.take(i + 1).last() == o);
            assert(out@ =~= routes_bytes(routes@.take(i + 1)));
        }
        i = i + 1;
    }
    proof {
        assert(routes@.take(routes@.len() as int) =~= routes@);
    }
    out
}

/// Computes the fingerprint of a route decision (see `fingerprint_of`).
pub fn generate_proof_hash(
    transaction_id: &[u8; 32],
    routes_considered: &Vec<RouteOption>,
    selected_route: &DEX,
    reasoning: &String,
    timestamp: i64,
) -> (r: [u8; 32])
    ensures
        r@ == fingerprint_of(
            transaction_id@,
            routes_considered@,
            *selected_route,
            reasoning@,
            timestamp,
        ),
{
    let venue = selected_route.to_bytes();
    let parts: Vec<Vec<u8>> = vec![
        id_part(transaction_id),
        encode_routes(routes_considered),
        slice_to_vec(venue.as_slice()),
        slice_to_vec(reasoning.as_str().as_bytes()),
        i64_part(timestamp),
    ];
    proof {
        assert(crate::ident::views_of(parts@) =~= seq![
            transaction_id@,
            routes_bytes(routes_considered@),
            seq![selected_route.spec_code()],
            encode_utf8(reasoning@),
            spec_u64_to_le_bytes(timestamp as u64),
        ]);
    }
    derive_id(&parts, DomainTag::Proof)
}

pub open spec fn generation_error(
    slot: Option<ProofOfRoute>,
    routes: Seq<RouteOption>,
    reasoning: Seq<char>,
) -> Option<ErrorCode> {
    if slot is Some {
        Some(ErrorCode::ProofAlreadyExists)
    } else if routes.len() > MAX_ROUTES {
        Some(ErrorCode::TooManyRoutes)
    } else if !risks_valid(routes) {
        Some(ErrorCode::InvalidRiskScore)
    } else if encode_utf8(reasoning).len() > MAX_REASONING_BYTES {
        Some(ErrorCode::ReasoningTooLong)
    } else {
        None
    }
}

/// Stores the proof of a route decision in the empty slot of its
/// transaction and returns its fingerprint; a transaction has one proof.
pub fn generate_proof(
    slot: &mut Option<ProofOfRoute>,
    transaction_id: [u8; 32],
    routes_considered: Vec<RouteOption>,
    selected_route: DEX,
    reasoning: String,
    now: i64,
) -> (r: Result<([u8; 32], ProofGenerated), ErrorCode>)
    ensures
        r is Err <==> generation_error(*old(slot), routes_considered@, reasoning@) is Some,
        r matches Err(e) ==> Some(e) == generation_error(
            *old(slot),
            routes_considered@,
            reasoning@,
        ) && *final(slot) == *old(slot),
        r matches Ok((hash, ev)) ==> {
            &&& hash@ == fingerprint_of(
                transaction_id@,
                routes_considered@,
                selected_route,
                reasoning@,
                now,
            )
            &&& (*final(slot)) matches Some(p) && {
                &&& p.wf()
                &&& p.proof_hash == hash
                &&& p.transaction_id == transaction_id
                &&& p.routes_considered@ == routes_considered@
                &&& p.selected_route == selected_route
                &&& p.selection_reasoning@ == reasoning@
                &&& p.mev_detection_log@.len() == 0
                &&& p.simulation_time == 50
                &&& p.route_selection_time == 30
                &&& p.execution_time == 20
                &&& p.total_time == 100
                &&& p.blockchain_signature is None
                &&& p.created_at == now
            }
            &&& ev == (ProofGenerated {
                proof_hash: hash,
                transaction_id,
                routes_count: routes_considered@.len() as u8,
                timestamp: now,
            })
        },
{
    if slot.is_some() {
        return Err(ErrorCode::ProofAlreadyExists);
    }
    if routes_considered.len() > MAX_ROUTES {
        return Err(ErrorCode::TooManyRoutes);
    }
    let mut k: usize = 0;
    while k < routes_considered.len()
        invariant
            0 <= k <= routes_considered@.len(),
            routes_considered@.len() <= MAX_ROUTES,
            *slot == *old(slot),
            (*old(slot)) is None,
            forall|j: int| 0 <= j < k ==> #[trigger] routes_considered@[j].mev_risk_score <= 100,
        decreases routes_considered@.len() - k,
    {
        if routes_considered[k].mev_risk_score > 100 {
            proof {
                assert(!(routes_considered@[k as int].mev_risk_score <= 100));
                assert(!risks_valid(routes_considered@));
            }
            return Err(ErrorCode::InvalidRiskScore);
        }
        k = k + 1;
    }
    proof {
        assert(risks_valid(routes_considered@));
    }
    let text: &[u8] = reasoning.as_str().as_bytes();
    if text.len() > MAX_REASONING_BYTES {
        return Err(ErrorCode::ReasoningTooLong);
    }
    let proof_hash = generate_proof_hash(
        &transaction_id,
        &routes_considered,
        &selected_route,
        &reasoning,
        now,
    );
    let routes_count = routes_considered.len() as u8;
    *slot = Some(
        ProofOfRoute {
            proof_hash,
            transaction_id,
            routes_considered,
            selected_route,
            selection_reasoning: reasoning,
            mev_detection_log: Vec::new(),
            simulation_time: 50,
            route_selection_time: 30,
            execution_time: 20,
            total_time: 100,
            blockchain_signature: None,
            created_at: now,
        },
    );
    Ok(
        (
            proof_hash,
            ProofGenerated { proof_hash, transaction_id, routes_count, timestamp: now },
        ),
    )
}

/// A proof, once stored, refuses a second generation for its transaction.
pub proof fn lemma_proof_write_once(
    stored: ProofOfRoute,
    routes: Seq<RouteOption>,
    reasoning: Seq<char>,
)
    ensures
        generation_error(Some(stored), routes, reasoning) == Some(ErrorCode::ProofAlreadyExists),
{
}

/// Checks a fingerprint and transaction against the stored proof; the
/// outcome is reported whichever it is, and nothing changes.
pub fn verify_proof(proof: &ProofOfRoute, proof_hash: [u8; 32], transaction_id: [u8; 32], now: i64) -> (r: (
    bool,
    ProofVerified,
))
    ensures
        r.0 == (proof.proof_hash@ == proof_hash@ && proof.transaction_id@ == transaction_id@),
        r.1 == (ProofVerified { proof_hash, valid: r.0, timestamp: now }),
{
    let valid = same_id(&proof.proof_hash, &proof_hash) && same_id(
        &proof.transaction_id,
        &transaction_id,
    );
    (valid, ProofVerified { proof_hash, valid, timestamp: now })
}

fn copy_routes(v: &Vec<RouteOption>) -> (r: Vec<RouteOption>)
    ensures
        r@ == v@,
{
    let mut out: Vec<RouteOption> = Vec::new();
    let mut i: usize = 0;
    while i < v.len()
        invariant
            0 <= i <= v@.len(),
            out@ == v@.take(i as int),
        decreases v@.len() - i,
    {
        out.push(v[i]);
        proof {
            assert(v@.take(i + 1) =~= v@.take(i as int).push(v@[i as int]));
        }
        i = i + 1;
    }
    proof {
        assert(v@.take(v@.len() as int) =~= v@);
    }
    out
}

fn copy_detections(v: &Vec<MEVDetection>) -> (r: Vec<MEVDetection>)
    ensures
        r@ == v@,
{
    let mut out: Vec<MEVDetection> = Vec::new();
    let mut i: usize = 0;
    while i < v.len()
        invariant
            0 <= i <= v@.len(),
            out@ == v@.take(i as int),
        decreases v@.len() - i,
    {
        out.push(v[i]);
        proof {
            assert(v@.take(i + 1) =~= v@.take(i as int).push(v@[i as int]));
        }
        i = i + 1;
    }
    proof {
        assert(v@.take(v@.len() as int) =~= v@);
    }
    out
}

/// Hands out everything the proof holds, given its fingerprint.
pub fn get_proof_data(proof: &ProofOfRoute, proof_hash: [u8; 32]) -> (r: Result<
    ProofData,
    ErrorCode,
>)
    ensures
        proof.proof_hash@ != proof_hash@ ==> r == Err::<ProofData, ErrorCode>(
            ErrorCode::InvalidProofHash,
        ),
        proof.proof_hash@ == proof_hash@ ==> (r matches Ok(d) && {
            &&& d.proof_hash == proof_hash
            &&& d.transaction_id == proof.transaction_id
            &&& d.routes_considered@ == proof.routes_considered@
            &&& d.selected_route == proof.selected_route
            &&& d.selection_reasoning@ == proof.selection_reasoning@
            &&& d.mev_detection_log@ == proof.mev_detection_log@
            &&& d.simulation_time == proof.simulation_time
            &&& d.route_selection_time == proof.route_selection_time
            &&& d.execution_time == proof.execution_time
            &&& d.total_time == proof.total_time
            &&& d.blockchain_signature == proof.blockchain_signature
            &&& d.created_at == proof.created_at
        }),
{
    if !same_id(&proof.proof_hash, &proof_hash) {
        return Err(ErrorCode::InvalidProofHash);
    }
    Ok(
        ProofData {
            proof_hash,
            transaction_id: proof.transaction_id,
            routes_considered: copy_routes(&proof.routes_considered),
            selected_route: proof.selected_route,
            selection_reasoning: proof.selection_reasoning.clone(),
            mev_detection_log: copy_detections(&proof.mev_detection_log),
            simulation_time: proof.simulation_time,
            route_selection_time: proof.route_selection_time,
            execution_time: proof.execution_time,
            total_time: proof.total_time,
            blockchain_signature: proof.blockchain_signature,
            created_at: proof.created_at,
        },
    )
}

pub open spec fn detection_error(proof: ProofOfRoute, proof_hash: [u8; 32], probability: u8) -> Option<
    ErrorCode,
> {
    if proof.proof_hash@ != proof_hash@ {
        Some(ErrorCode::InvalidProofHash)
    } else if probability > 100 {
        Some(ErrorCode::InvalidProbability)
    } else if proof.mev_detection_log@.len() >= MAX_DETECTIONS {
        Some(ErrorCode::DetectionLogFull)
    } else {
        None
    }
}

/// Appends a detection event to the proof's log.
pub fn add_mev_detection(
    proof: &mut ProofOfRoute,
    proof_hash: [u8; 32],
    attack_type: MEVAttackType,
    probability: u8,
    now: i64,
) -> (r: Result<MEVDetectionAdded, ErrorCode>)
    ensures
        r is Err <==> detection_error(*old(proof), proof_hash, probability) is Some,
        r matches Err(e) ==> Some(e) == detection_error(*old(proof), proof_hash, probability)
            && *final(proof) == *old(proof),
        r matches Ok(ev) ==> {
            &&& final(proof).mev_detection_log@ == old(proof).mev_detection_log@.push(
                (MEVDetection { attack_type, probability, detected_at: now }),
            )
            &&& *final(proof) == (ProofOfRoute {
                mev_detection_log: final(proof).mev_detection_log,
                ..*old(proof)
            })
            &&& ev == (MEVDetectionAdded { proof_hash, attack_type, probability, timestamp: now })
        },
        decision_kept(*old(proof), *final(proof)),
        old(proof).wf() ==> final(proof).wf(),
{
    if !same_id(&proof.proof_hash, &proof_hash) {
        return Err(ErrorCode::InvalidProofHash);
    }
    if probability > 100 {
        return Err(ErrorCode::InvalidProbability);
    }
    if proof.mev_detection_log.len() >= MAX_DETECTIONS {
        return Err(ErrorCode::DetectionLogFull);
    }
    proof.mev_detection_log.push(MEVDetection { attack_type, probability, detected_at: now });
    Ok(MEVDetectionAdded { proof_hash, attack_type, probability, timestamp: now })
}

pub open spec fn timing_error(
    proof: ProofOfRoute,
    proof_hash: [u8; 32],
    simulation_time: u32,
    route_selection_time: u32,
    execution_time: u32,
) -> Option<ErrorCode> {
    if proof.proof_hash@ != proof_hash@ {
        Some(ErrorCode::InvalidProofHash)
    } else if simulation_time + route_selection_time + execution_time > u32::MAX {
        Some(ErrorCode::InvalidTiming)
    } else {
        None
    }
}

/// Overwrites the three phase timings; the total is their exact sum.
pub fn update_execution_timing(
    proof: &mut ProofOfRoute,
    proof_hash: [u8; 32],
    simulation_time: u32,
    route_selection_time: u32,
    execution_time: u32,
    now: i64,
) -> (r: Result<ExecutionTimingUpdated, ErrorCode>)
    ensures
        r is Err <==> timing_error(
            *old(proof),
            proof_hash,
            simulation_time,
            route_selection_time,
            execution_time,
        ) is Some,
        r matches Err(e) ==> Some(e) == timing_error(
            *old(proof),
            proof_hash,
            simulation_time,
            route_selection_time,
            execution_time,
        ) && *final(proof) == *old(proof),
        r matches Ok(ev) ==> {
            &&& final(proof).total_time == simulation_time + route_selection_time + execution_time
            &&& *final(proof) == (ProofOfRoute {
                simulation_time,
                route_selection_time,
                execution_time,
                total_time: final(proof).total_time,
                ..*old(proof)
            })
            &&& ev == (ExecutionTimingUpdated {
                proof_hash,
                total_time: final(proof).total_time,
                timestamp: now,
            })
        },
        decision_kept(*old(proof), *final(proof)),
        old(proof).wf() ==> final(proof).wf(),
{
    if !same_id(&proof.proof_hash, &proof_hash) {
        return Err(ErrorCode::InvalidProofHash);
    }
    if route_selection_time > u32::MAX - simulation_time || execution_time > u32::MAX
        - simulation_time - route_selection_time {
        return Err(ErrorCode::InvalidTiming);
    }
    let total = simulation_time + route_selection_time + execution_time;
    proof.simulation_time = simulation_time;
    proof.route_selection_time = route_selection_time;
    proof.execution_time = execution_time;
    proof.total_time = total;
    Ok(ExecutionTimingUpdated { proof_hash, total_time: total, timestamp: now })
}

/// Records the signature under which the proof was committed elsewhere.
pub fn set_blockchain_signature(
    proof: &mut ProofOfRoute,
    proof_hash: [u8; 32],
    signature: [u8; 64],
    now: i64,
) -> (r: Result<BlockchainSignatureSet, ErrorCode>)
    ensures
        r is Err <==> old(proof).proof_hash@ != proof_hash@,
        r is Err ==> r == Err::<BlockchainSignatureSet, ErrorCode>(ErrorCode::InvalidProofHash)
            && *final(proof) == *old(proof),
        r matches Ok(ev) ==> *final(proof) == (ProofOfRoute {
            blockchain_signature: Some(signature),
            ..*old(proof)
        }) && ev == (BlockchainSignatureSet { proof_hash, signature, timestamp: now }),
        decision_kept(*old(proof), *final(proof)),
        old(proof).wf() ==> final(proof).wf(),
{
    if !same_id(&proof.proof_hash, &proof_hash) {
        return Err(ErrorCode::InvalidProofHash);
    }
    proof.blockchain_signature = Some(signature);
    Ok(BlockchainSignatureSet { proof_hash, signature, timestamp: now })
}

} // verus!
