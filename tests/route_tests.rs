use zephyra::registry::{Transaction, TransactionStatus};
use zephyra::route::{
    calculate_price_impact, calculate_route_score, execute_jupiter_swap, execute_orca_swap,
    execute_raydium_swap, generate_execution_signature, select_best_route, selection_reasoning,
    ErrorCode, RouteOption, DEX,
};

fn option(dex: DEX, output: u64, risk: u8) -> RouteOption {
    RouteOption {
        dex,
        estimated_output: output,
        price_impact_bps: 0,
        mev_risk_score: risk,
        liquidity_depth: 0,
    }
}

fn tx(amount: u64) -> Transaction {
    Transaction {
        id: [5u8; 32],
        owner: [7u8; 32],
        input_token: [1u8; 32],
        output_token: [2u8; 32],
        input_amount: amount,
        output_amount: 0,
        risk_score: 0,
        selected_route: 0,
        status: TransactionStatus::Pending,
        proof_hash: [0u8; 32],
        batch_id: None,
        created_at: 0,
        completed_at: None,
    }
}

#[test]
fn scores_discount_output_by_risk() {
    assert_eq!(calculate_route_score(&option(DEX::Jupiter, 100, 50)), 50);
    assert_eq!(calculate_route_score(&option(DEX::Raydium, 90, 10)), 81);
    assert_eq!(calculate_route_score(&option(DEX::Orca, u64::MAX, 0)), u64::MAX);
    assert_eq!(calculate_route_score(&option(DEX::Orca, 1_000, 100)), 0);
}

#[test]
fn safer_route_wins_in_either_order() {
    let t = tx(100);
    let a = option(DEX::Jupiter, 100, 50);
    let b = option(DEX::Raydium, 90, 10);
    let (sel, ev) = select_best_route(&t, &vec![a, b]).unwrap();
    assert_eq!(sel.selected_dex, DEX::Raydium);
    assert_eq!(sel.estimated_output, 90);
    assert_eq!(ev.alternatives_count, 2);
    assert_eq!(ev.transaction_id, [5u8; 32]);
    let (sel, _) = select_best_route(&t, &vec![b, a]).unwrap();
    assert_eq!(sel.selected_dex, DEX::Raydium);
}

#[test]
fn tie_goes_to_first_candidate() {
    let t = tx(100);
    let a = option(DEX::Orca, 100, 20);
    let b = option(DEX::Jupiter, 80, 0);
    let (sel, _) = select_best_route(&t, &vec![a, b]).unwrap();
    assert_eq!(sel.selected_dex, DEX::Orca);
    let (sel, _) = select_best_route(&t, &vec![b, a]).unwrap();
    assert_eq!(sel.selected_dex, DEX::Jupiter);
}

#[test]
fn selection_explains_choice() {
    let t = tx(100);
    let (sel, ev) =
        select_best_route(&t, &vec![option(DEX::Jupiter, 100, 50), option(DEX::Raydium, 90, 10)])
            .unwrap();
    let text = "Selected Raydium due to optimal MEV risk (10) and output amount (90)";
    assert_eq!(sel.reasoning, text);
    assert_eq!(ev.reasoning, text);
    assert_eq!(
        selection_reasoning(&option(DEX::Orca, 1_234_567_890, 0)),
        "Selected Orca due to optimal MEV risk (0) and output amount (1234567890)"
    );
}

#[test]
fn selection_rejects_bad_candidate_lists() {
    let t = tx(100);
    assert_eq!(select_best_route(&t, &vec![]), Err(ErrorCode::NoRoutesProvided));
    let many = vec![option(DEX::Jupiter, 1, 0); 11];
    assert_eq!(select_best_route(&t, &many), Err(ErrorCode::TooManyRoutes));
    let ten = vec![option(DEX::Jupiter, 1, 0); 10];
    assert!(select_best_route(&t, &ten).is_ok());
    let risky = vec![option(DEX::Jupiter, 1, 0), option(DEX::Orca, 1, 101)];
    assert_eq!(select_best_route(&t, &risky), Err(ErrorCode::InvalidRiskScore));
}

#[test]
fn price_impact_rounds_and_clamps() {
    assert_eq!(calculate_price_impact(0, 10), 0);
    assert_eq!(calculate_price_impact(1_000, 1_100), 0);
    assert_eq!(calculate_price_impact(1_000, 1_000), 0);
    assert_eq!(calculate_price_impact(1_000, 990), 100);
    assert_eq!(calculate_price_impact(3, 2), 3_333);
    assert_eq!(calculate_price_impact(3, 1), 6_667);
    assert_eq!(calculate_price_impact(1_000, 0), 10_000);
    assert_eq!(calculate_price_impact(u64::MAX, 0), 10_000);
}

#[test]
fn swap_records_receipt() {
    let t = tx(1_000);
    let mut slot = None;
    let (out, ev) = execute_jupiter_swap(&mut slot, &t, t.id, 990, 12, 950, 77).unwrap();
    assert_eq!(out, 990);
    assert_eq!(ev.dex, DEX::Jupiter);
    assert_eq!(ev.execution_time_ms, 50);
    assert_eq!(ev.input_amount, 1_000);
    let rec = slot.unwrap();
    assert_eq!(rec.output_amount, 990);
    assert_eq!(rec.price_impact_bps, 100);
    assert_eq!(rec.mev_risk_score, 12);
    assert_eq!(rec.executed_at, 77);
    assert_eq!(rec.proof.pre_balance, 1_000);
    assert_eq!(rec.proof.post_balance, 990);
    assert_eq!(rec.proof.signature, generate_execution_signature(&t.id, 990));
    assert_ne!(rec.proof.signature, generate_execution_signature(&t.id, 991));
}

#[test]
fn swap_below_minimum_is_refused() {
    let t = tx(1_000);
    let mut slot = None;
    assert_eq!(
        execute_raydium_swap(&mut slot, &t, t.id, 949, 12, 950, 77),
        Err(ErrorCode::SlippageExceeded)
    );
    assert!(slot.is_none());
    let (_, ev) = execute_orca_swap(&mut slot, &t, t.id, 950, 12, 950, 77).unwrap();
    assert_eq!(ev.execution_time_ms, 60);
    assert_eq!(
        execute_orca_swap(&mut slot, &t, t.id, 990, 12, 950, 78),
        Err(ErrorCode::AlreadyExists)
    );
}

#[test]
fn swap_checks_identifier_and_risk() {
    let t = tx(1_000);
    let mut slot = None;
    assert_eq!(
        execute_raydium_swap(&mut slot, &t, [0u8; 32], 990, 12, 950, 77),
        Err(ErrorCode::InvalidTransactionId)
    );
    assert_eq!(
        execute_raydium_swap(&mut slot, &t, t.id, 990, 101, 950, 77),
        Err(ErrorCode::InvalidRiskScore)
    );
    let (_, ev) = execute_raydium_swap(&mut slot, &t, t.id, 990, 100, 950, 77).unwrap();
    assert_eq!(ev.execution_time_ms, 75);
}

#[test]
fn venue_bytes() {
    assert_eq!(DEX::Jupiter.to_bytes(), [0]);
    assert_eq!(DEX::Raydium.to_bytes(), [1]);
    assert_eq!(DEX::Orca.to_bytes(), [2]);
    assert_eq!(DEX::Orca.name(), "Orca");
}
