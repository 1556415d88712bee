use anchor_lang::prelude::Pubkey;
use legasi::errors::LegasiError;
use legasi::interest::{accrue_debt, accrue_interest};
use legasi::lending::initialize_position;
use legasi::state::{AssetType, BorrowedAmount};

const USD: u64 = 1_000_000;
const YEAR: u64 = 31_536_000;

fn debt(asset_type: AssetType, amount: u64, accrued_interest: u64) -> BorrowedAmount {
    BorrowedAmount { asset_type, amount, accrued_interest }
}

#[test]
fn a_year_at_five_percent_on_one_thousand_is_fifty() {
    assert_eq!(
        accrue_debt(&debt(AssetType::USDC, 1_000 * USD, 0), 500, YEAR),
        Ok(debt(AssetType::USDC, 1_000 * USD, 50 * USD))
    );
    assert_eq!(
        accrue_debt(&debt(AssetType::USDC, 1_000 * USD, 7), 500, YEAR / 2),
        Ok(debt(AssetType::USDC, 1_000 * USD, 25 * USD + 7))
    );
}

#[test]
fn accrual_rounds_down_and_can_be_nothing() {
    assert_eq!(accrue_debt(&debt(AssetType::USDC, 1_000 * USD, 3), 500, 0), Ok(debt(AssetType::USDC, 1_000 * USD, 3)));
    assert_eq!(accrue_debt(&debt(AssetType::USDC, 1_000 * USD, 3), 0, YEAR), Ok(debt(AssetType::USDC, 1_000 * USD, 3)));
    // 1_000_000_000 * 500 * 1 / 31_536_000 / 10_000 = 1.58
    assert_eq!(accrue_debt(&debt(AssetType::USDC, 1_000 * USD, 0), 500, 1), Ok(debt(AssetType::USDC, 1_000 * USD, 1)));
    assert_eq!(accrue_debt(&debt(AssetType::USDC, 630, 0), 500, YEAR), Ok(debt(AssetType::USDC, 630, 31)));
    assert_eq!(accrue_debt(&debt(AssetType::USDC, 19, 0), 500, YEAR), Ok(debt(AssetType::USDC, 19, 0)));
}

#[test]
fn accrual_overflow_is_reported() {
    assert_eq!(
        accrue_debt(&debt(AssetType::USDC, u64::MAX, 0), u64::MAX, 2),
        Err(LegasiError::MathOverflow)
    );
    assert_eq!(
        accrue_debt(&debt(AssetType::USDC, 1_000 * USD, u64::MAX - 50 * USD + 1), 500, YEAR),
        Err(LegasiError::MathOverflow)
    );
    assert_eq!(
        accrue_debt(&debt(AssetType::USDC, 1_000 * USD, u64::MAX - 50 * USD), 500, YEAR),
        Ok(debt(AssetType::USDC, 1_000 * USD, u64::MAX))
    );
}

#[test]
fn position_accrues_on_every_debt_since_last_update() {
    let mut p = initialize_position(Pubkey::new_from_array([1; 32]), 1_000, 255);
    p.borrows = vec![debt(AssetType::USDC, 1_000 * USD, 0), debt(AssetType::SOL, 2_000 * USD, 5)];
    assert_eq!(accrue_interest(&mut p, 500, 1_000 + YEAR as i64), Ok(()));
    assert_eq!(
        p.borrows,
        vec![debt(AssetType::USDC, 1_000 * USD, 50 * USD), debt(AssetType::SOL, 2_000 * USD, 100 * USD + 5)]
    );
    assert_eq!(p.last_update, 1_000 + YEAR as i64);
    let before = p.borrows.clone();
    assert_eq!(accrue_interest(&mut p, 500, 5), Ok(()));
    assert_eq!(p.borrows, before);
    assert_eq!(p.last_update, 5);
}

#[test]
fn position_accrual_is_all_or_nothing() {
    let mut p = initialize_position(Pubkey::new_from_array([1; 32]), 0, 255);
    p.borrows = vec![debt(AssetType::USDC, 1_000 * USD, 0), debt(AssetType::USDT, 1_000 * USD, u64::MAX)];
    let before = p.clone();
    assert_eq!(accrue_interest(&mut p, 500, YEAR as i64), Err(LegasiError::MathOverflow));
    assert_eq!(p, before);
}
