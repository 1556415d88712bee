use anchor_lang::prelude::Pubkey;
use legasi::errors::LegasiError;
use legasi::gad::{classify, crank, find_target, require_breach, GadAction, GadState};
use legasi::lending::initialize_position;
use legasi::market::{Market, MarketParams};
use legasi::registry::{create_market, initialize_price_feed};
use legasi::state::{AssetType, BorrowedAmount, CollateralDeposit, Position, PriceFeed};

const SOL: u64 = 1_000_000_000;
const USD: u64 = 1_000_000;
const COOLDOWN: i64 = 3_600;

fn key(n: u8) -> Pubkey {
    Pubkey::new_from_array([n; 32])
}

fn market() -> Market {
    let params = MarketParams {
        name: String::from("SOL/USDC"),
        base_max_ltv_bps: 7500,
        emode_max_ltv_bps: 9000,
        gad_soft_threshold_bps: 8000,
        gad_hard_threshold_bps: 9000,
        liquidation_bonus_bps: 500,
        base_interest_rate_bps: 200,
        slope1_bps: 400,
        slope2_bps: 6000,
        optimal_utilization_bps: 8000,
        emode_category: 1,
        supply_cap: u64::MAX,
        borrow_cap: u64::MAX,
        min_borrow: 0,
    };
    create_market(1, AssetType::SOL, key(10), AssetType::USDC, key(11), params, 0, 254).unwrap()
}

fn feed_at(price: u64, at: i64) -> PriceFeed {
    initialize_price_feed(AssetType::SOL, price, at, 253)
}

fn feed(price: u64) -> PriceFeed {
    feed_at(price, COOLDOWN)
}

fn debt(asset_type: AssetType, amount: u64, accrued_interest: u64) -> BorrowedAmount {
    BorrowedAmount { asset_type, amount, accrued_interest }
}

fn position(sol: u64, borrows: Vec<BorrowedAmount>) -> Position {
    let mut p = initialize_position(key(1), 0, 255);
    if sol > 0 {
        p.collaterals.push(CollateralDeposit { asset_type: AssetType::SOL, amount: sol });
    }
    p.borrows = borrows;
    p
}

#[test]
fn bands_are_split_at_the_thresholds() {
    let mut m = market();
    assert_eq!(classify(790 * USD, 1_000 * USD, &m), GadState::Healthy);
    assert_eq!(classify(800 * USD - 1, 1_000 * USD, &m), GadState::Healthy);
    assert_eq!(classify(800 * USD, 1_000 * USD, &m), GadState::SoftBreach);
    assert_eq!(classify(790 * USD, 950 * USD, &m), GadState::SoftBreach);
    assert_eq!(classify(900 * USD - 1, 1_000 * USD, &m), GadState::SoftBreach);
    assert_eq!(classify(900 * USD, 1_000 * USD, &m), GadState::HardBreach);
    assert_eq!(classify(1, 0, &m), GadState::HardBreach);
    assert_eq!(classify(0, 0, &m), GadState::Healthy);
    assert_eq!(classify(0, 1_000 * USD, &m), GadState::Healthy);
    assert_eq!(classify(u64::MAX, u64::MAX, &m), GadState::HardBreach);
}

#[test]
fn precheck_fails_below_the_soft_threshold() {
    let mut m = market();
    let p = position(10 * SOL, vec![debt(AssetType::USDC, 790 * USD, 0)]);
    assert_eq!(require_breach(&p, &m, &feed(100 * USD)), Err(LegasiError::LtvBelowGadThreshold));
    assert_eq!(require_breach(&p, &m, &feed(95 * USD)), Ok(GadState::SoftBreach));
    assert_eq!(require_breach(&p, &m, &feed(80 * USD)), Ok(GadState::HardBreach));
    let huge = position(u64::MAX, vec![debt(AssetType::USDC, 790 * USD, 0)]);
    assert_eq!(require_breach(&huge, &m, &feed(u64::MAX)), Err(LegasiError::MathOverflow));
}

#[test]
fn target_is_the_stablecoin_debt_with_most_interest() {
    assert_eq!(find_target(&Vec::new()), None);
    assert_eq!(find_target(&vec![debt(AssetType::SOL, 5, 100), debt(AssetType::CbBTC, 1, 1)]), None);
    let entries = vec![
        debt(AssetType::SOL, 5, 100),
        debt(AssetType::USDC, 10, 7),
        debt(AssetType::USDT, 10, 9),
        debt(AssetType::EURC, 10, 9),
    ];
    assert_eq!(find_target(&entries), Some(2));
    assert_eq!(find_target(&vec![debt(AssetType::USDT, 1, 0), debt(AssetType::USDC, 9, 0)]), Some(0));
}

#[test]
fn healthy_position_then_price_drop_then_soft_deleverage() {
    let mut m = market();
    let mut p = position(10 * SOL, vec![debt(AssetType::USDC, 790 * USD, 0)]);
    m.total_borrowed = 790 * USD;
    m.total_collateral = 10 * SOL;
    let before = (p.clone(), m.clone());
    assert_eq!(crank(&mut p, &mut m, &feed(100 * USD), COOLDOWN), Err(LegasiError::NothingToLiquidate));
    assert_eq!((p.clone(), m.clone()), before);
    let action = crank(&mut p, &mut m, &feed(95 * USD), COOLDOWN).unwrap();
    assert_eq!(
        action,
        GadAction {
            state: GadState::SoftBreach,
            asset_type: AssetType::USDC,
            repaid_usd: 79 * USD,
            seized_sol: 873_157_894,
        }
    );
    assert_eq!(p.borrows, vec![debt(AssetType::USDC, 711 * USD, 0)]);
    assert_eq!(
        p.collaterals,
        vec![CollateralDeposit { asset_type: AssetType::SOL, amount: 9_126_842_106 }]
    );
    assert_eq!(p.reputation.gad_events, 1);
    assert_eq!(p.total_gad_liquidated_usd, 79 * USD);
    assert_eq!(p.last_gad_crank, COOLDOWN);
    assert_eq!(p.last_update, COOLDOWN);
    assert_eq!(p.reputation.successful_repayments, 0);
    assert_eq!(m.total_borrowed, 711 * USD);
    assert_eq!(m.total_collateral, 9_126_842_106);
}

#[test]
fn hard_breach_repays_up_to_the_collateral_floor() {
    let mut m = market();
    let mut p = position(10 * SOL, vec![debt(AssetType::USDC, 700 * USD, 90 * USD)]);
    let action = crank(&mut p, &mut m, &feed(80 * USD), COOLDOWN).unwrap();
    assert_eq!(
        action,
        GadAction {
            state: GadState::HardBreach,
            asset_type: AssetType::USDC,
            repaid_usd: 760_952_380,
            seized_sol: 9_987_499_987,
        }
    );
    assert_eq!(p.borrows, vec![debt(AssetType::USDC, 29_047_620, 0)]);
    assert_eq!(p.collaterals, vec![CollateralDeposit { asset_type: AssetType::SOL, amount: 12_500_013 }]);
    assert_eq!(p.total_gad_liquidated_usd, 760_952_380);
    assert_eq!(m.total_borrowed, 0);
    assert_eq!(m.total_collateral, 0);
}

#[test]
fn hard_breach_repays_the_whole_debt_where_collateral_allows() {
    let mut m = market();
    let mut p = position(
        10 * SOL,
        vec![debt(AssetType::SOL, 3, 0), debt(AssetType::USDC, 790 * USD, 0)],
    );
    let action = crank(&mut p, &mut m, &feed_at(85 * USD, 2 * COOLDOWN), 2 * COOLDOWN).unwrap();
    assert_eq!(action.state, GadState::HardBreach);
    assert_eq!(action.repaid_usd, 790 * USD);
    assert_eq!(action.seized_sol, 9_758_823_529);
    assert_eq!(p.borrows, vec![debt(AssetType::SOL, 3, 0)]);
    assert_eq!(p.collaterals[0].amount, 241_176_471);
    assert_eq!(p.last_gad_crank, 2 * COOLDOWN);
}

#[test]
fn crank_before_cooldown_is_too_soon_and_changes_nothing() {
    let mut m = market();
    let mut p = position(10 * SOL, vec![debt(AssetType::USDC, 790 * USD, 0)]);
    p.last_gad_crank = 1_000;
    let before = p.clone();
    assert_eq!(crank(&mut p, &mut m, &feed(80 * USD), 1_000 + COOLDOWN - 1), Err(LegasiError::CrankTooSoon));
    assert_eq!(crank(&mut p, &mut m, &feed(80 * USD), 1_000), Err(LegasiError::CrankTooSoon));
    assert_eq!(crank(&mut p, &mut m, &feed(80 * USD), 0), Err(LegasiError::CrankTooSoon));
    assert_eq!(crank(&mut p, &mut m, &feed(80 * USD), i64::MIN), Err(LegasiError::CrankTooSoon));
    p.gad_enabled = false;
    assert_eq!(crank(&mut p, &mut m, &feed(80 * USD), 1_000), Err(LegasiError::CrankTooSoon));
    p.gad_enabled = true;
    assert_eq!(p, before);
    assert!(crank(&mut p, &mut m, &feed_at(80 * USD, 4_400), 1_000 + COOLDOWN).is_ok());
    assert_eq!(
        crank(&mut p, &mut m, &feed(80 * USD), 1_000 + COOLDOWN + 1),
        Err(LegasiError::CrankTooSoon)
    );
}

#[test]
fn crank_refusals_in_order() {
    let mut m = market();
    let mut p = position(10 * SOL, vec![]);
    p.gad_enabled = false;
    m.gad_soft_threshold_bps = 9_500;
    assert_eq!(crank(&mut p, &mut m, &feed(80 * USD), COOLDOWN), Err(LegasiError::GadDisabled));
    p.gad_enabled = true;
    assert_eq!(crank(&mut p, &mut m, &feed(80 * USD), COOLDOWN), Err(LegasiError::NoDebtToDeleverage));
    p.borrows.push(debt(AssetType::USDC, 790 * USD, 0));
    assert_eq!(crank(&mut p, &mut m, &feed(80 * USD), COOLDOWN), Err(LegasiError::InvalidGadConfig));
    m.gad_soft_threshold_bps = 8_000;
    assert_eq!(
        crank(&mut p, &mut m, &feed_at(u64::MAX, COOLDOWN - 301), COOLDOWN),
        Err(LegasiError::StalePriceFeed)
    );
    assert_eq!(
        crank(&mut p, &mut m, &initialize_price_feed(AssetType::MSOL, 80 * USD, COOLDOWN, 1), COOLDOWN),
        Err(LegasiError::InvalidOracle)
    );
    assert_eq!(
        crank(&mut p, &mut m, &feed_at(u64::MAX, COOLDOWN - 300), COOLDOWN),
        Err(LegasiError::MathOverflow)
    );
    assert_eq!(crank(&mut p, &mut m, &feed(100 * USD), COOLDOWN), Err(LegasiError::NothingToLiquidate));
    assert_eq!(p.reputation.gad_events, 0);
    assert_eq!(p.last_gad_crank, 0);
}

#[test]
fn crank_reports_overflowing_aggregates() {
    let mut m = market();
    let mut p = position(u64::MAX, vec![debt(AssetType::USDC, 790 * USD, 0)]);
    let before = p.clone();
    assert_eq!(crank(&mut p, &mut m, &feed(u64::MAX), COOLDOWN), Err(LegasiError::MathOverflow));
    assert_eq!(p, before);
}

#[test]
fn crank_stops_at_the_collateral_floor() {
    let mut m = market();
    let mut bare = position(0, vec![debt(AssetType::USDC, 790 * USD, 0)]);
    let before = bare.clone();
    assert_eq!(crank(&mut bare, &mut m, &feed(80 * USD), COOLDOWN), Err(LegasiError::BelowCollateralFloor));
    assert_eq!(bare, before);
    let mut thin = position(SOL / 100, vec![debt(AssetType::USDC, 790 * USD, 0)]);
    assert_eq!(crank(&mut thin, &mut m, &feed(100 * USD), COOLDOWN), Err(LegasiError::BelowCollateralFloor));
    let mut just = position(SOL / 100 + 20, vec![debt(AssetType::USDC, 790 * USD, 0)]);
    let action = crank(&mut just, &mut m, &feed(100 * USD), COOLDOWN).unwrap();
    assert_eq!(action.repaid_usd, 1);
    assert_eq!(action.seized_sol, 10);
    assert_eq!(just.borrows[0].amount, 790 * USD - 1);
}

#[test]
fn unpriced_debt_alone_is_healthy() {
    let mut m = market();
    let mut p = position(SOL, vec![debt(AssetType::CbBTC, u64::MAX, 0)]);
    assert_eq!(crank(&mut p, &mut m, &feed(1), COOLDOWN), Err(LegasiError::NothingToLiquidate));
}

#[test]
fn gad_events_lower_the_score() {
    let mut m = market();
    let mut p = position(10 * SOL, vec![debt(AssetType::USDC, 790 * USD, 0)]);
    p.reputation.successful_repayments = 8;
    assert_eq!(p.reputation.get_score(), 400);
    crank(&mut p, &mut m, &feed(95 * USD), COOLDOWN).unwrap();
    assert_eq!(p.reputation.get_score(), 300);
    assert_eq!(p.reputation.get_ltv_bonus_bps(), 300);
    p.reputation.gad_events = u32::MAX;
    p.total_gad_liquidated_usd = u64::MAX;
    crank(&mut p, &mut m, &feed_at(90 * USD, 2 * COOLDOWN), 2 * COOLDOWN).unwrap();
    assert_eq!(p.reputation.gad_events, u32::MAX);
    assert_eq!(p.total_gad_liquidated_usd, u64::MAX);
}
