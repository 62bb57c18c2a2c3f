//! Venue options, the scoring rule that picks among them, and the receipt
//! of a swap executed on the chosen venue.

use crate::ident::{id_part, same_id, seal, seal_of, DomainTag};
use crate::registry::Transaction;
use vstd::bytes::{spec_u64_to_le_bytes, u64_to_le_bytes};
use vstd::prelude::*;

verus! {

/// Most candidate venues a selection or a proof may consider.
pub const MAX_ROUTES: usize = 10;

#[derive(Clone, Copy, Debug, PartialEq, Eq, Structural)]
pub enum DEX {
    Jupiter,
    Raydium,
    Orca,
}

impl DEX {
    pub open spec fn spec_code(self) -> u8 {
        match self {
            DEX::Jupiter => 0,
            DEX::Raydium => 1,
            DEX::Orca => 2,
        }
    }

    /// The one-byte encoding of the venue.
    pub fn to_bytes(&self) -> (r: [u8; 1])
        ensures
            r@ == seq![self.spec_code()],
    {
        let r: [u8; 1] = match self {
            DEX::Jupiter => [0u8],
            DEX::Raydium => [1u8],
            DEX::Orca => [2u8],
        };
        proof {
            assert(r@ =~= seq![self.spec_code()]);
        }
        r
    }

    pub open spec fn spec_name(self) -> Seq<char> {
        match self {
            DEX::Jupiter => "Jupiter"@,
            DEX::Raydium => "Raydium"@,
            DEX::Orca => "Orca"@,
        }
    }

    pub fn name(&self) -> (r: &'static str)
        ensures
            r@ == self.spec_name(),
    {
        match self {
            DEX::Jupiter => "Jupiter",
            DEX::Raydium => "Raydium",
            DEX::Orca => "Orca",
        }
    }
}

#[derive(Clone, Copy, Debug, PartialEq, Eq)]
pub struct RouteOption {
    pub dex: DEX,
    pub estimated_output: u64,
    pub price_impact_bps: u16,
    pub mev_risk_score: u8,
    pub liquidity_depth: u64,
}

#[derive(Clone, Debug, PartialEq, Eq)]
pub struct RouteSelection {
    pub selected_dex: DEX,
    pub estimated_output: u64,
    pub reasoning: String,
}

#[derive(Clone, Copy, Debug, PartialEq, Eq)]
pub struct ExecutionProof {
    pub pre_balance: u64,
    pub post_balance: u64,
    pub signature: [u8; 64],
    pub timestamp: i64,
}

/// The receipt of one swap executed for a transaction.
#[derive(Clone, Copy, Debug, PartialEq, Eq)]
pub struct RouteExecution {
    pub transaction_id: [u8; 32],
    pub dex: DEX,
    pub input_amount: u64,
    pub output_amount: u64,
    pub price_impact_bps: u16,
    pub mev_risk_score: u8,
    pub executed_at: i64,
    pub proof: ExecutionProof,
}

#[derive(Clone, Copy, Debug, PartialEq, Eq)]
pub struct RouteExecuted {
    pub transaction_id: [u8; 32],
    pub dex: DEX,
    pub input_amount: u64,
    pub output_amount: u64,
    pub execution_time_ms: u32,
    pub timestamp: i64,
}

#[derive(Clone, Debug, PartialEq, Eq)]
pub struct RouteSelected {
    pub transaction_id: [u8; 32],
    pub selected_dex: DEX,
    pub alternatives_count: u8,
    pub reasoning: String,
}

#[derive(Clone, Copy, Debug, PartialEq, Eq, Structural)]
pub enum ErrorCode {
    SlippageExceeded,
    NoRoutesProvided,
    TooManyRoutes,
    InvalidRouteData,
    ExecutionFailed,
    InvalidRiskScore,
    InvalidTransactionId,
    AlreadyExists,
}

/// Expected output discounted by the risk: `output * (100 - risk) / 100`.
pub open spec fn route_score(o: RouteOption) -> int {
    o.estimated_output * (100 - o.mev_risk_score) / 100
}

/// Every option carries a risk score within 0..=100.
pub open spec fn risks_valid(routes: Seq<RouteOption>) -> bool {
    forall|i: int| 0 <= i < routes.len() ==> #[trigger] routes[i].mev_risk_score <= 100
}

/// The first option, in input order, with the highest score.
pub open spec fn best_index(routes: Seq<RouteOption>) -> int
    decreases routes.len(),
{
    if routes.len() <= 1 {
        0
    } else {
        let b = best_index(routes.drop_last());
        if route_score(routes.last()) > route_score(routes[b]) {
            routes.len() - 1
        } else {
            b
        }
    }
}

/// Decimal digits of a number, most significant first.
pub open spec fn decimal(n: nat) -> Seq<char>
    decreases n,
{
    if n < 10 {
        seq![digit_char(n)]
    } else {
        decimal(n / 10) + seq![digit_char(n % 10)]
    }
}

pub open spec fn digit_char(d: nat) -> char {
    if d == 0 {
        '0'
    } else if d == 1 {
        '1'
    } else if d == 2 {
        '2'
    } else if d == 3 {
        '3'
    } else if d == 4 {
        '4'
    } else if d == 5 {
        '5'
    } else if d == 6 {
        '6'
    } else if d == 7 {
        '7'
    } else if d == 8 {
        '8'
    } else {
        '9'
    }
}

/// The explanation stored with a selection.
pub open spec fn reasoning_text(o: RouteOption) -> Seq<char> {
    "Selected "@ + o.dex.spec_name() + " due to optimal MEV risk ("@ + decimal(
        o.mev_risk_score as nat,
    ) + ") and output amount ("@ + decimal(o.estimated_output as nat) + ")"@
}

/// Price impact in basis points: `(input - output) / input` scaled by
/// 10000, rounded half up and clamped to 0..=10000; 0 when `input` is 0.
pub open spec fn price_impact_of(input: u64, output: u64) -> int {
    if input == 0 || output >= input {
        0
    } else {
        let r = (2 * (input - output) * 10000 + input) / (2 * input);
        if r > 10000 {
            10000
        } else {
            r
        }
    }
}

pub open spec fn execution_signature_of(transaction_id: Seq<u8>, output_amount: u64) -> Seq<u8> {
    seal_of(seq![transaction_id, spec_u64_to_le_bytes(output_amount)], DomainTag::ExecutionSeal)
}

/// Scores one option; the risk score must lie within 0..=100.
pub fn calculate_route_score(route: &RouteOption) -> (r: u64)
    requires
        route.mev_risk_score <= 100,
    ensures
        r == route_score(*route),
{
    let out = route.estimated_output as u128;
    let keep = (100 - route.mev_risk_score) as u128;
    proof {
        assert(out * keep <= out * 100) by (nonlinear_arith)
            requires
                keep <= 100,
        ;
        assert(out * keep / 100 <= out) by (nonlinear_arith)
            requires
                out * keep <= out * 100,
        ;
    }
    (out * keep / 100) as u64
}

fn digit_str(d: u64) -> (r: &'static str)
    requires
        d < 10,
    ensures
        r@ == seq![digit_char(d as nat)],
{
    proof {
        reveal_strlit("0");
        reveal_strlit("1");
        reveal_strlit("2");
        reveal_strlit("3");
        reveal_strlit("4");
        reveal_strlit("5");
        reveal_strlit("6");
        reveal_strlit("7");
        reveal_strlit("8");
        reveal_strlit("9");
    }
    if d == 0 {
        "0"
    } else if d == 1 {
        "1"
    } else if d == 2 {
        "2"
    } else if d == 3 {
        "3"
    } else if d == 4 {
        "4"
    } else if d == 5 {
        "5"
    } else if d == 6 {
        "6"
    } else if d == 7 {
        "7"
    } else if d == 8 {
        "8"
    } else {
        "9"
    }
}

/// Appends the decimal digits of `n`.
pub fn append_decimal(s: &mut String, n: u64)
    ensures
        final(s)@ == old(s)@ + decimal(n as nat),
    decreases n,
{
    if n >= 10 {
        append_decimal(s, n / 10);
    }
    s.append(digit_str(n % 10));
}

/// Writes the explanation of why `o` was selected.
pub fn selection_reasoning(o: &RouteOption) -> (r: String)
    ensures
        r@ == reasoning_text(*o),
{
    let mut s = String::from_str("Selected ");
    s.append(o.dex.name());
    s.append(" due to optimal MEV risk (");
    append_decimal(&mut s, o.mev_risk_score as u64);
    s.append(") and output amount (");
    append_decimal(&mut s, o.estimated_output);
    s.append(")");
    s
}

pub open spec fn selection_error(routes: Seq<RouteOption>) -> Option<ErrorCode> {
    if routes.len() == 0 {
        Some(ErrorCode::NoRoutesProvided)
    } else if routes.len() > MAX_ROUTES {
        Some(ErrorCode::TooManyRoutes)
    } else if !risks_valid(routes) {
        Some(ErrorCode::InvalidRiskScore)
    } else {
        None
    }
}

/// Picks the option with the highest score, the first one on a tie, and
/// explains the choice.
pub fn select_best_route(transaction: &Transaction, routes: &Vec<RouteOption>) -> (r: Result<
    (RouteSelection, RouteSelected),
    ErrorCode,
>)
    ensures
        r is Err <==> selection_error(routes@) is Some,
        r matches Err(e) ==> Some(e) == selection_error(routes@),
        r matches Ok((sel, ev)) ==> {
            let best = routes@[best_index(routes@)];
            &&& sel.selected_dex == best.dex
            &&& sel.estimated_output == best.estimated_output
            &&& sel.reasoning@ == reasoning_text(best)
            &&& ev.transaction_id == transaction.id
            &&& ev.selected_dex == best.dex
            &&& ev.alternatives_count == routes@.len()
            &&& ev.reasoning@ == reasoning_text(best)
        },
{
    if routes.len() == 0 {
        return Err(ErrorCode::NoRoutesProvided);
    }
    if routes.len() > MAX_ROUTES {
        return Err(ErrorCode::TooManyRoutes);
    }
    let mut k: usize = 0;
    while k < routes.len()
        invariant
            0 <= k <= routes@.len(),
            1 <= routes@.len() <= MAX_ROUTES,
            forall|j: int| 0 <= j < k ==> #[trigger] routes@[j].mev_risk_score <= 100,
        decreases routes@.len() - k,
    {
        if routes[k].mev_risk_score > 100 {
            proof {
                assert(!(routes@[k as int].mev_risk_score <= 100));
                assert(!risks_valid(routes@));
            }
            return Err(ErrorCode::InvalidRiskScore);
        }
        k = k + 1;
    }
    let mut best: usize = 0;
    let mut best_score = calculate_route_score(&routes[0]);
    let mut i: usize = 1;
    while i < routes.len()
        invariant
            1 <= i <= routes@.len(),
            routes@.len() <= MAX_ROUTES,
            risks_valid(routes@),
            best as int == best_index(routes@.take(i as int)),
            0 <= best < i,
            best_score == route_score(routes@[best as int]),
        decreases routes@.len() - i,
    {
        let score = calculate_route_score(&routes[i]);
        proof {
            let t = routes@.take(i + 1);
            assert(t.drop_last() =~= routes@.take(i as int));
            assert(t.last() == routes@[i as int]);
            assert(t[best as int] == routes@[best as int]);
        }
        if score > best_score {
            best = i;
            best_score = score;
        }
        i = i + 1;
    }
    proof {
        assert(routes@.take(routes@.len() as int) =~= routes@);
    }
    let chosen = routes[best];
    let reasoning = selection_reasoning(&chosen);
    let selection = RouteSelection {
        selected_dex: chosen.dex,
        estimated_output: chosen.estimated_output,
        reasoning: reasoning.clone(),
    };
    let ev = RouteSelected {
        transaction_id: transaction.id,
        selected_dex: chosen.dex,
        alternatives_count: routes.len() as u8,
        reasoning,
    };
    Ok((selection, ev))
}

/// The option that the selection returns scores at least as high as every
/// other option, and strictly higher than every option before it.
pub proof fn lemma_best_index_is_first_maximum(routes: Seq<RouteOption>)
    requires
        routes.len() >= 1,
    ensures
        0 <= best_index(routes) < routes.len(),
        forall|j: int|
            0 <= j < routes.len() ==> route_score(#[trigger] routes[j]) <= route_score(
                routes[best_index(routes)],
            ),
        forall|j: int|
            0 <= j < best_index(routes) ==> route_score(#[trigger] routes[j]) < route_score(
                routes[best_index(routes)],
            ),
    decreases routes.len(),
{
    if routes.len() > 1 {
        let init = routes.drop_last();
        let n = routes.len() - 1;
        lemma_best_index_is_first_maximum(init);
        let b = best_index(init);
        assert(init[b] == routes[b]);
        assert forall|j: int| 0 <= j < n implies route_score(#[trigger] routes[j]) <= route_score(
            routes[b],
        ) by {
            assert(init[j] == routes[j]);
        }
        assert forall|j: int| 0 <= j < b implies route_score(#[trigger] routes[j]) < route_score(
            routes[b],
        ) by {
            assert(init[j] == routes[j]);
        }
    }
}

/// Price impact of a swap in basis points (see `price_impact_of`).
pub fn calculate_price_impact(input_amount: u64, output_amount: u64) -> (r: u16)
    ensures
        r == price_impact_of(input_amount, output_amount),
{
    if input_amount == 0 || output_amount >= input_amount {
        return 0;
    }
    let diff = (input_amount - output_amount) as u128;
    let input = input_amount as u128;
    let rounded = (2 * diff * 10000 + input) / (2 * input);
    if rounded > 10000 {
        10000
    } else {
        rounded as u16
    }
}

/// The 64-byte seal that binds an execution receipt to its transaction and output.
pub fn generate_execution_signature(transaction_id: &[u8; 32], output_amount: u64) -> (r: [u8; 64])
    ensures
        r@ == execution_signature_of(transaction_id@, output_amount),
{
    let parts: Vec<Vec<u8>> = vec![id_part(transaction_id), u64_to_le_bytes(output_amount)];
    proof {
        assert(crate::ident::views_of(parts@) =~= seq![
            transaction_id@,
            spec_u64_to_le_bytes(output_amount),
        ]);
    }
    seal(&parts, DomainTag::ExecutionSeal)
}

pub open spec fn execution_error(
    slot: Option<RouteExecution>,
    transaction: Transaction,
    transaction_id: [u8; 32],
    venue_output: u64,
    mev_risk_score: u8,
    min_output: u64,
) -> Option<ErrorCode> {
    if transaction.id@ != transaction_id@ {
        Some(ErrorCode::InvalidTransactionId)
    } else if slot is Some {
        Some(ErrorCode::AlreadyExists)
    } else if mev_risk_score > 100 {
        Some(ErrorCode::InvalidRiskScore)
    } else if venue_output < min_output {
        Some(ErrorCode::SlippageExceeded)
    } else {
        None
    }
}

/// The nominal execution time reported for a venue, in milliseconds.
pub open spec fn venue_time_ms(dex: DEX) -> u32 {
    match dex {
        DEX::Jupiter => 50,
        DEX::Raydium => 75,
        DEX::Orca => 60,
    }
}

/// What a swap on `dex` did to the receipt slot and what it returned,
/// given what the venue paid out (`venue_output`) and the risk score of the venue.
pub open spec fn swap_outcome(
    dex: DEX,
    old_slot: Option<RouteExecution>,
    new_slot: Option<RouteExecution>,
    transaction: Transaction,
    transaction_id: [u8; 32],
    venue_output: u64,
    mev_risk_score: u8,
    min_output: u64,
    now: i64,
    r: Result<(u64, RouteExecuted), ErrorCode>,
) -> bool {
    let err = execution_error(
        old_slot,
        transaction,
        transaction_id,
        venue_output,
        mev_risk_score,
        min_output,
    );
    &&& (r is Err <==> err is Some)
    &&& r matches Err(e) ==> Some(e) == err && new_slot == old_slot
    &&& r matches Ok((out, ev)) ==> {
        &&& out == venue_output
        &&& new_slot matches Some(x) && x.proof.signature@ == execution_signature_of(
            transaction_id@,
            venue_output,
        ) && x == (RouteExecution {
            transaction_id,
            dex,
            input_amount: transaction.input_amount,
            output_amount: venue_output,
            price_impact_bps: price_impact_of(transaction.input_amount, venue_output) as u16,
            mev_risk_score,
            executed_at: now,
            proof: ExecutionProof {
                pre_balance: transaction.input_amount,
                post_balance: venue_output,
                signature: x.proof.signature,
                timestamp: now,
            },
        })
        &&& ev == (RouteExecuted {
            transaction_id,
            dex,
            input_amount: transaction.input_amount,
            output_amount: venue_output,
            execution_time_ms: venue_time_ms(dex),
            timestamp: now,
        })
    }
}

fn execute_swap(
    dex: DEX,
    slot: &mut Option<RouteExecution>,
    transaction: &Transaction,
    transaction_id: [u8; 32],
    venue_output: u64,
    mev_risk_score: u8,
    min_output: u64,
    now: i64,
) -> (r: Result<(u64, RouteExecuted), ErrorCode>)
    ensures
        swap_outcome(
            dex,
            *old(slot),
            *final(slot),
            *transaction,
            transaction_id,
            venue_output,
            mev_risk_score,
            min_output,
            now,
            r,
        ),
{
    if !same_id(&transaction.id, &transaction_id) {
        return Err(ErrorCode::InvalidTransactionId);
    }
    if slot.is_some() {
        return Err(ErrorCode::AlreadyExists);
    }
    if mev_risk_score > 100 {
        return Err(ErrorCode::InvalidRiskScore);
    }
    if venue_output < min_output {
        return Err(ErrorCode::SlippageExceeded);
    }
    let input_amount = transaction.input_amount;
    let signature = generate_execution_signature(&transaction_id, venue_output);
    *slot = Some(
        RouteExecution {
            transaction_id,
            dex,
            input_amount,
            output_amount: venue_output,
            price_impact_bps: calculate_price_impact(input_amount, venue_output),
            mev_risk_score,
            executed_at: now,
            proof: ExecutionProof {
                pre_balance: input_amount,
                post_balance: venue_output,
                signature,
                timestamp: now,
            },
        },
    );
    let time_ms: u32 = match dex {
        DEX::Jupiter => 50,
        DEX::Raydium => 75,
        DEX::Orca => 60,
    };
    let ev = RouteExecuted {
        transaction_id,
        dex,
        input_amount,
        output_amount: venue_output,
        execution_time_ms: time_ms,
        timestamp: now,
    };
    Ok((venue_output, ev))
}

/// Records a swap that Jupiter paid `venue_output` for; fails with
/// `SlippageExceeded` when that is below `min_output`.
pub fn execute_jupiter_swap(
    slot: &mut Option<RouteExecution>,
    transaction: &Transaction,
    transaction_id: [u8; 32],
    venue_output: u64,
    mev_risk_score: u8,
    min_output: u64,
    now: i64,
) -> (r: Result<(u64, RouteExecuted), ErrorCode>)
    ensures
        swap_outcome(
            DEX::Jupiter,
            *old(slot),
            *final(slot),
            *transaction,
            transaction_id,
            venue_output,
            mev_risk_score,
            min_output,
            now,
            r,
        ),
{
    execute_swap(
        DEX::Jupiter,
        slot,
        transaction,
        transaction_id,
        venue_output,
        mev_risk_score,
        min_output,
        now,
    )
}

/// Records a swap that Raydium paid `venue_output` for; fails with
/// `SlippageExceeded` when that is below `min_output`.
pub fn execute_raydium_swap(
    slot: &mut Option<RouteExecution>,
    transaction: &Transaction,
    transaction_id: [u8; 32],
    venue_output: u64,
    mev_risk_score: u8,
    min_output: u64,
    now: i64,
) -> (r: Result<(u64, RouteExecuted), ErrorCode>)
    ensures
        swap_outcome(
            DEX::Raydium,
            *old(slot),
            *final(slot),
            *transaction,
            transaction_id,
            venue_output,
            mev_risk_score,
            min_output,
            now,
            r,
        ),
{
    execute_swap(
        DEX::Raydium,
        slot,
        transaction,
        transaction_id,
        venue_output,
        mev_risk_score,
        min_output,
        now,
    )
}

/// Records a swap that Orca paid `venue_output` for; fails with
/// `SlippageExceeded` when that is below `min_output`.
pub fn execute_orca_swap(
    slot: &mut Option<RouteExecution>,
    transaction: &Transaction,
    transaction_id: [u8; 32],
    venue_output: u64,
    mev_risk_score: u8,
    min_output: u64,
    now: i64,
) -> (r: Result<(u64, RouteExecuted), ErrorCode>)
    ensures
        swap_outcome(
            DEX::Orca,
            *old(slot),
            *final(slot),
            *transaction,
            transaction_id,
            venue_output,
            mev_risk_score,
            min_output,
            now,
            r,
        ),
{
    execute_swap(
        DEX::Orca,
        slot,
        transaction,
        transaction_id,
        venue_output,
        mev_risk_score,
        min_output,
        now,
    )
}

} // verus!
