use deed_solana::errors::DeedError;
use deed_solana::tier::{calculate_total_cost, Tier};

fn schedule(pairs: &[(u64, u64)]) -> Vec<Tier> {
    let mut v = Vec::new();
    for &(amount, price) in pairs {
        v.push(Tier { amount, price });
    }
    v
}

#[test]
fn single_tier_cost() {
    let tiers = schedule(&[(100, 1000)]);
    assert_eq!(calculate_total_cost(&tiers, 0, 10), Ok(10000));
}

#[test]
fn straddling_tiers_cost() {
    // 10 units left at 100, then 10 units at 200.
    let tiers = schedule(&[(50, 100), (50, 200)]);
    assert_eq!(calculate_total_cost(&tiers, 40, 20), Ok(3000));
}

#[test]
fn exact_exhaustion_cost() {
    let tiers = schedule(&[(10, 1), (10, 2), (10, 3)]);
    assert_eq!(calculate_total_cost(&tiers, 0, 30), Ok(60));
    assert_eq!(
        calculate_total_cost(&tiers, 30, 1),
        Err(DeedError::MaxSupplyExceeded)
    );
}

#[test]
fn over_schedule_fails() {
    let tiers = schedule(&[(10, 1), (10, 2)]);
    assert_eq!(
        calculate_total_cost(&tiers, 0, 21),
        Err(DeedError::MaxSupplyExceeded)
    );
}

#[test]
fn cost_overflow_fails() {
    let tiers = schedule(&[(u64::MAX, u64::MAX)]);
    assert_eq!(
        calculate_total_cost(&tiers, 0, 2),
        Err(DeedError::MathOverflow)
    );
}

#[test]
fn accumulated_cost_overflow_fails() {
    // Each tier term fits in u64 but their sum does not.
    let tiers = schedule(&[(1, u64::MAX), (1, u64::MAX)]);
    assert_eq!(
        calculate_total_cost(&tiers, 0, 2),
        Err(DeedError::MathOverflow)
    );
}

#[test]
fn pricer_is_deterministic_and_mutates_nothing() {
    let tiers = schedule(&[(10, 7), (20, 11), (30, 13)]);
    let before = tiers.clone();
    let first = calculate_total_cost(&tiers, 5, 40);
    let second = calculate_total_cost(&tiers, 5, 40);
    assert_eq!(first, second);
    assert_eq!(tiers.len(), before.len());
    for i in 0..tiers.len() {
        assert_eq!(tiers[i].amount, before[i].amount);
        assert_eq!(tiers[i].price, before[i].price);
    }
}

#[test]
fn cost_is_path_independent() {
    // Any split point of a 30-unit buy over three tiers prices the same.
    let tiers = schedule(&[(10, 1), (10, 2), (10, 3)]);
    let whole = calculate_total_cost(&tiers, 0, 30).unwrap();
    for split in 1..30u64 {
        let first = calculate_total_cost(&tiers, 0, split).unwrap();
        let second = calculate_total_cost(&tiers, split, 30 - split).unwrap();
        assert_eq!(first + second, whole);
    }
}

#[test]
fn zero_amount_costs_nothing() {
    let tiers = schedule(&[(10, 5)]);
    assert_eq!(calculate_total_cost(&tiers, 3, 0), Ok(0));
}

#[test]
fn skips_sold_out_tiers() {
    let tiers = schedule(&[(10, 1), (10, 2), (10, 3)]);
    assert_eq!(calculate_total_cost(&tiers, 20, 5), Ok(15));
}

#[test]
fn reward_share_floors() {
    assert_eq!(deed_solana::split::reward_share(1_010), Ok(252));
    assert_eq!(deed_solana::split::reward_share(0), Ok(0));
    assert_eq!(
        deed_solana::split::reward_share(u64::MAX),
        Err(deed_solana::errors::DeedError::MathOverflow)
    );
}
