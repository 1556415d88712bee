use anchor_lang::prelude::Pubkey;
use legasi::errors::LegasiError;
use legasi::lending::initialize_position;
use legasi::market::{Market, MarketParams};
use legasi::registry::{create_market, initialize_price_feed};
use legasi::risk::{
    borrow_usd, calculate_total_borrow_usd, calculate_total_collateral_usd, check_borrow,
    check_withdraw, collateral_usd, covers, deposit_usd, effective_max_ltv_bps, ltv_bps,
};
use legasi::state::{AssetType, BorrowedAmount, CollateralDeposit, Position, PriceFeed};

const SOL: u64 = 1_000_000_000;
const USD: u64 = 1_000_000;

fn key(n: u8) -> Pubkey {
    Pubkey::new_from_array([n; 32])
}

fn market() -> Market {
    let params = MarketParams {
        name: String::from("SOL/USDC"),
        base_max_ltv_bps: 5000,
        emode_max_ltv_bps: 9000,
        gad_soft_threshold_bps: 8000,
        gad_hard_threshold_bps: 9000,
        liquidation_bonus_bps: 500,
        base_interest_rate_bps: 200,
        slope1_bps: 400,
        slope2_bps: 6000,
        optimal_utilization_bps: 8000,
        emode_category: 1,
        supply_cap: u64::MAX,
        borrow_cap: u64::MAX,
        min_borrow: 0,
    };
    create_market(1, AssetType::SOL, key(10), AssetType::USDC, key(11), params, 0, 254).unwrap()
}

fn feed(price: u64) -> PriceFeed {
    initialize_price_feed(AssetType::SOL, price, 0, 253)
}

fn dep(asset_type: AssetType, amount: u64) -> CollateralDeposit {
    CollateralDeposit { asset_type, amount }
}

fn debt(asset_type: AssetType, amount: u64, accrued_interest: u64) -> BorrowedAmount {
    BorrowedAmount { asset_type, amount, accrued_interest }
}

fn position(collaterals: Vec<CollateralDeposit>, borrows: Vec<BorrowedAmount>) -> Position {
    let mut p = initialize_position(key(1), 0, 255);
    p.collaterals = collaterals;
    p.borrows = borrows;
    p
}

#[test]
fn ten_native_tokens_at_one_hundred_dollars_are_one_thousand() {
    let p = position(vec![dep(AssetType::SOL, 10 * SOL)], vec![]);
    assert_eq!(calculate_total_collateral_usd(&p, &feed(100 * USD)), Ok(1_000 * USD));
}

#[test]
fn collateral_value_rounds_down_per_entry() {
    assert_eq!(deposit_usd(&dep(AssetType::SOL, 1), 999_999_999), Some(0));
    assert_eq!(deposit_usd(&dep(AssetType::SOL, 1), 1_000_000_000), Some(1));
    assert_eq!(deposit_usd(&dep(AssetType::SOL, 1_500_000_001), 3), Some(4));
    assert_eq!(deposit_usd(&dep(AssetType::SOL, 0), u64::MAX), Some(0));
    assert_eq!(deposit_usd(&dep(AssetType::JitoSOL, 5 * SOL), 100 * USD), Some(0));
    assert_eq!(deposit_usd(&dep(AssetType::SOL, u64::MAX), 1_000_000_000), Some(u64::MAX));
    assert_eq!(deposit_usd(&dep(AssetType::SOL, u64::MAX), 1_000_000_001), None);
}

#[test]
fn only_the_native_token_is_priced() {
    let entries = vec![
        dep(AssetType::CbBTC, 7),
        dep(AssetType::SOL, 2 * SOL),
        dep(AssetType::JitoSOL, 3 * SOL),
        dep(AssetType::MSOL, 4 * SOL),
        dep(AssetType::USDC, 5 * USD),
    ];
    assert_eq!(collateral_usd(&entries, 150 * USD), Ok(300 * USD));
    assert_eq!(collateral_usd(&Vec::new(), 150 * USD), Ok(0));
}

#[test]
fn collateral_value_overflow_is_reported() {
    let p = position(vec![dep(AssetType::SOL, u64::MAX)], vec![]);
    assert_eq!(calculate_total_collateral_usd(&p, &feed(u64::MAX)), Err(LegasiError::MathOverflow));
    assert_eq!(calculate_total_collateral_usd(&p, &feed(SOL)), Ok(u64::MAX));
}

#[test]
fn stablecoin_debts_count_principal_and_interest() {
    let entries = vec![
        debt(AssetType::USDC, 40 * USD, 15 * USD),
        debt(AssetType::SOL, 9 * SOL, 1),
        debt(AssetType::USDT, 1, 2),
        debt(AssetType::EURC, 3, 0),
        debt(AssetType::CbBTC, 100, 100),
    ];
    assert_eq!(borrow_usd(&entries), Ok(55 * USD + 6));
    let p = position(vec![], entries);
    assert_eq!(calculate_total_borrow_usd(&p), Ok(55 * USD + 6));
    assert_eq!(borrow_usd(&Vec::new()), Ok(0));
}

#[test]
fn debt_value_overflow_is_reported() {
    assert_eq!(borrow_usd(&vec![debt(AssetType::USDC, u64::MAX, 1)]), Err(LegasiError::MathOverflow));
    assert_eq!(
        borrow_usd(&vec![debt(AssetType::USDC, u64::MAX, 0), debt(AssetType::USDT, 1, 0)]),
        Err(LegasiError::MathOverflow)
    );
    assert_eq!(borrow_usd(&vec![debt(AssetType::SOL, u64::MAX, 1)]), Ok(0));
    assert_eq!(borrow_usd(&vec![debt(AssetType::USDC, u64::MAX - 1, 1)]), Ok(u64::MAX));
}

#[test]
fn effective_bound_is_base_or_emode_plus_bonus() {
    let m = market();
    let mut p = position(vec![], vec![]);
    assert_eq!(effective_max_ltv_bps(&p, &m), 5000);
    p.reputation.successful_repayments = 2;
    assert_eq!(effective_max_ltv_bps(&p, &m), 5100);
    p.reputation.successful_repayments = 4;
    assert_eq!(effective_max_ltv_bps(&p, &m), 5300);
    p.reputation.successful_repayments = 8;
    assert_eq!(effective_max_ltv_bps(&p, &m), 5500);
    p.emode_category = 2;
    assert_eq!(effective_max_ltv_bps(&p, &m), 5500);
    p.emode_category = 1;
    assert_eq!(effective_max_ltv_bps(&p, &m), 9500);
    p.reputation.gad_events = 9;
    assert_eq!(effective_max_ltv_bps(&p, &m), 9000);
}

#[test]
fn unselected_emode_never_matches() {
    let mut m = market();
    m.emode_category = 0;
    let p = position(vec![], vec![]);
    assert_eq!(effective_max_ltv_bps(&p, &m), 5000);
}

#[test]
fn covers_compares_by_cross_multiplication() {
    assert!(covers(500 * USD, 1_000 * USD, 5000));
    assert!(!covers(500 * USD + 1, 1_000 * USD, 5000));
    assert!(covers(0, 0, 5000));
    assert!(!covers(1, 0, 5000));
    assert!(covers(1, 2, 5000));
    assert!(!covers(1, 1, 9999));
    assert!(covers(1, 1, 10_000));
    assert!(covers(u64::MAX, u64::MAX, 10_000));
    assert!(!covers(u64::MAX, u64::MAX - 1, 10_000));
}

#[test]
fn check_borrow_returns_the_new_debt() {
    let m = market();
    let p = position(vec![dep(AssetType::SOL, 10 * SOL)], vec![debt(AssetType::USDC, 100 * USD, 5)]);
    assert_eq!(check_borrow(&p, &m, 300 * USD, &feed(100 * USD)), Ok(400 * USD + 5));
    assert_eq!(check_borrow(&p, &m, 400 * USD - 5, &feed(100 * USD)), Ok(500 * USD));
    assert_eq!(check_borrow(&p, &m, 400 * USD - 4, &feed(100 * USD)), Err(LegasiError::ExceedsLTV));
    assert_eq!(check_borrow(&p, &m, u64::MAX, &feed(100 * USD)), Err(LegasiError::MathOverflow));
    assert_eq!(check_borrow(&p, &m, 0, &feed(100 * USD)), Ok(100 * USD + 5));
}

#[test]
fn check_withdraw_applies_the_withdrawal_before_the_bound() {
    let m = market();
    let f = feed(100 * USD);
    let p = position(
        vec![dep(AssetType::CbBTC, 1), dep(AssetType::SOL, 10 * SOL)],
        vec![debt(AssetType::USDC, 250 * USD, 0)],
    );
    assert_eq!(
        check_withdraw(&p, &m, AssetType::SOL, 5 * SOL, &f),
        Ok(vec![dep(AssetType::CbBTC, 1), dep(AssetType::SOL, 5 * SOL)])
    );
    assert_eq!(check_withdraw(&p, &m, AssetType::SOL, 5 * SOL + 1, &f), Err(LegasiError::ExceedsLTV));
    assert_eq!(
        check_withdraw(&p, &m, AssetType::SOL, 10 * SOL + 1, &f),
        Err(LegasiError::InsufficientCollateral)
    );
    assert_eq!(check_withdraw(&p, &m, AssetType::SOL, 0, &f), Err(LegasiError::InvalidAmount));
    assert_eq!(
        check_withdraw(&p, &m, AssetType::MSOL, 1, &f),
        Err(LegasiError::InsufficientCollateral)
    );
    assert_eq!(
        check_withdraw(&p, &m, AssetType::CbBTC, 1, &f),
        Ok(vec![dep(AssetType::SOL, 10 * SOL)])
    );
    let free = position(vec![dep(AssetType::SOL, 10 * SOL)], vec![]);
    assert_eq!(check_withdraw(&free, &m, AssetType::SOL, 10 * SOL, &f), Ok(vec![]));
}

#[test]
fn check_withdraw_reports_overflow_only_with_debt() {
    let m = market();
    let f = feed(u64::MAX);
    let rich = position(vec![dep(AssetType::SOL, u64::MAX)], vec![debt(AssetType::SOL, 1, 0)]);
    assert_eq!(check_withdraw(&rich, &m, AssetType::SOL, 1, &f), Err(LegasiError::MathOverflow));
    let free = position(vec![dep(AssetType::SOL, u64::MAX)], vec![]);
    assert_eq!(
        check_withdraw(&free, &m, AssetType::SOL, 1, &f),
        Ok(vec![dep(AssetType::SOL, u64::MAX - 1)])
    );
}

#[test]
fn ltv_is_debt_over_collateral_in_basis_points() {
    assert_eq!(ltv_bps(790 * USD, 1_000 * USD), Some(7900));
    assert_eq!(ltv_bps(790 * USD, 950 * USD), Some(8315));
    assert_eq!(ltv_bps(0, 1), Some(0));
    assert_eq!(ltv_bps(1, 0), None);
    assert_eq!(ltv_bps(0, 0), None);
    assert_eq!(ltv_bps(u64::MAX, 1), None);
    assert_eq!(ltv_bps(u64::MAX, 10_000), Some(u64::MAX));
}
