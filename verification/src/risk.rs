//! The risk engine: USD valuation of a position, its loan-to-value bound,
//! and the pass/fail decisions taken before a loan or a withdrawal.
//!
//! Nothing here changes state. Only the native token is priced as
//! collateral, and only stablecoin debts are counted, one for one, as USD:
//! every other asset contributes nothing to either side.

use vstd::prelude::*;
use crate::constants::{BPS_DENOMINATOR, LAMPORTS_PER_SOL};
use crate::errors::LegasiError;
use crate::ledger::{debit_entries, debit_refusal, debited};
use crate::market::Market;
use crate::state::{
    collaterals_wf, AssetType, BorrowedAmount, CollateralDeposit, Position, PriceFeed,
};

verus! {

/// The sum of a list of numbers.
pub open spec fn sum(values: Seq<nat>) -> nat
    decreases values.len(),
{
    if values.len() == 0 {
        0
    } else {
        sum(values.drop_last()) + values.last()
    }
}

/// USD value, with six decimals, of one collateral balance at a native
/// token price of `sol_price`.
pub open spec fn deposit_value_usd(deposit: CollateralDeposit, sol_price: u64) -> nat {
    if deposit.asset_type == AssetType::SOL {
        (deposit.amount as nat) * (sol_price as nat) / (LAMPORTS_PER_SOL as nat)
    } else {
        0
    }
}

/// USD value of a collateral list: the sum of its entries' values.
pub open spec fn collateral_value_usd(entries: Seq<CollateralDeposit>, sol_price: u64) -> nat {
    sum(entries.map_values(|d: CollateralDeposit| deposit_value_usd(d, sol_price)))
}

/// USD value of one debt: principal and accrued interest of a stablecoin
/// debt, nothing for another asset.
pub open spec fn debt_value_usd(debt: BorrowedAmount) -> nat {
    if debt.asset_type.spec_is_stablecoin() {
        (debt.amount + debt.accrued_interest) as nat
    } else {
        0
    }
}

/// USD value of a debt list: the sum of its entries' values.
pub open spec fn borrow_value_usd(entries: Seq<BorrowedAmount>) -> nat {
    sum(entries.map_values(|b: BorrowedAmount| debt_value_usd(b)))
}

/// The loan-to-value bound of a market before any bonus: the eMode bound
/// where the position has selected the market's category, else the base
/// bound. Category 0 means that none is selected.
pub open spec fn base_ltv_bps(emode_category: u8, market: &Market) -> nat {
    if emode_category != 0 && emode_category == market.emode_category {
        market.emode_max_ltv_bps as nat
    } else {
        market.base_max_ltv_bps as nat
    }
}

/// The bound that applies to a position in a market: the base bound plus
/// the reputation bonus.
pub open spec fn effective_ltv_bps(position: &Position, market: &Market) -> nat {
    base_ltv_bps(position.emode_category, market) + position.reputation.spec_ltv_bonus_bps()
}

/// Whether a debt of `borrow_usd` is covered by `collateral_usd` at a bound
/// of `ltv_bps` basis points.
pub open spec fn within_ltv(borrow_usd: nat, collateral_usd: nat, ltv_bps: nat) -> bool {
    borrow_usd * 10_000 <= collateral_usd * ltv_bps
}

/// Whether a position respects its loan-to-value bound in a market at a
/// native token price.
pub open spec fn position_within_ltv(position: &Position, market: &Market, sol_price: u64) -> bool {
    within_ltv(
        borrow_value_usd(position.borrows@),
        collateral_value_usd(position.collaterals@, sol_price),
        effective_ltv_bps(position, market),
    )
}

/// Appending a number adds it to the sum.
pub proof fn lemma_sum_push(values: Seq<nat>, x: nat)
    ensures
        sum(values.push(x)) == sum(values) + x,
{
    assert(values.push(x).drop_last() == values);
}

/// The sum of a prefix does not exceed the sum of the whole list.
pub proof fn lemma_sum_prefix(values: Seq<nat>, k: int)
    requires
        0 <= k <= values.len(),
    ensures
        sum(values.take(k)) <= sum(values),
    decreases values.len(),
{
    if k == values.len() {
        assert(values.take(k) == values);
    } else {
        lemma_sum_prefix(values.drop_last(), k);
        assert(values.drop_last().take(k) == values.take(k));
    }
}

/// Replacing one number changes the sum by the difference.
pub proof fn lemma_sum_update(values: Seq<nat>, i: int, x: nat)
    requires
        0 <= i < values.len(),
    ensures
        sum(values.update(i, x)) + values[i] == sum(values) + x,
    decreases values.len(),
{
    if i == values.len() - 1 {
        assert(values.update(i, x).drop_last() == values.drop_last());
    } else {
        lemma_sum_update(values.drop_last(), i, x);
        assert(values.update(i, x).drop_last() == values.drop_last().update(i, x));
    }
}

/// Removing one number takes it from the sum.
pub proof fn lemma_sum_remove(values: Seq<nat>, i: int)
    requires
        0 <= i < values.len(),
    ensures
        sum(values.remove(i)) + values[i] == sum(values),
    decreases values.len(),
{
    if i == values.len() - 1 {
        assert(values.remove(i) == values.drop_last());
    } else {
        lemma_sum_remove(values.drop_last(), i);
        assert(values.remove(i).drop_last() == values.drop_last().remove(i));
        assert(values.remove(i).last() == values.last());
    }
}

/// USD value of one collateral balance, where it fits in 64 bits.
pub fn deposit_usd(deposit: &CollateralDeposit, sol_price: u64) -> (value: Option<u64>)
    ensures
        match value {
            Some(v) => v == deposit_value_usd(*deposit, sol_price),
            None => deposit_value_usd(*deposit, sol_price) > u64::MAX,
        },
{
    match deposit.asset_type {
        AssetType::SOL => {
            assert((deposit.amount as nat) * (sol_price as nat) <= 0xFFFF_FFFF_FFFF_FFFF
                * 0xFFFF_FFFF_FFFF_FFFF) by (nonlinear_arith)
                requires
                    deposit.amount <= 0xFFFF_FFFF_FFFF_FFFF,
                    sol_price <= 0xFFFF_FFFF_FFFF_FFFF,
            ;
            let scaled: u128 = (deposit.amount as u128) * (sol_price as u128);
            let value: u128 = scaled / (LAMPORTS_PER_SOL as u128);
            if value > u64::MAX as u128 {
                None
            } else {
                Some(value as u64)
            }
        },
        _ => Some(0),
    }
}

/// USD value of a collateral list at a native token price.
///
/// Fails with `MathOverflow` exactly where the value does not fit in 64
/// bits.
pub fn collateral_usd(entries: &Vec<CollateralDeposit>, sol_price: u64) -> (total: Result<
    u64,
    LegasiError,
>)
    ensures
        match total {
            Ok(v) => v == collateral_value_usd(entries@, sol_price),
            Err(e) => e == LegasiError::MathOverflow && collateral_value_usd(entries@, sol_price)
                > u64::MAX,
        },
{
    let ghost values = entries@.map_values(|d: CollateralDeposit| deposit_value_usd(d, sol_price));
    let mut total_usd: u64 = 0;
    let mut i: usize = 0;
    while i < entries.len()
        invariant
            i <= entries.len(),
            values == entries@.map_values(|d: CollateralDeposit| deposit_value_usd(d, sol_price)),
            total_usd == sum(values.take(i as int)),
        decreases entries.len() - i,
    {
        proof {
            assert(values.take(i + 1) == values.take(i as int).push(values[i as int]));
            lemma_sum_push(values.take(i as int), values[i as int]);
            lemma_sum_prefix(values, i + 1);
        }
        match deposit_usd(&entries[i], sol_price) {
            Some(value) => {
                if total_usd > u64::MAX - value {
                    return Err(LegasiError::MathOverflow);
                }
                total_usd = total_usd + value;
            },
            None => {
                return Err(LegasiError::MathOverflow);
            },
        }
        i += 1;
    }
    assert(values.take(entries.len() as int) == values);
    Ok(total_usd)
}

/// USD value of a debt list.
///
/// Fails with `MathOverflow` exactly where the value does not fit in 64
/// bits.
pub fn borrow_usd(entries: &Vec<BorrowedAmount>) -> (total: Result<u64, LegasiError>)
    ensures
        match total {
            Ok(v) => v == borrow_value_usd(entries@),
            Err(e) => e == LegasiError::MathOverflow && borrow_value_usd(entries@) > u64::MAX,
        },
{
    let ghost values = entries@.map_values(|b: BorrowedAmount| debt_value_usd(b));
    let mut total_usd: u64 = 0;
    let mut i: usize = 0;
    while i < entries.len()
        invariant
            i <= entries.len(),
            values == entries@.map_values(|b: BorrowedAmount| debt_value_usd(b)),
            total_usd == sum(values.take(i as int)),
        decreases entries.len() - i,
    {
        proof {
            assert(values.take(i + 1) == values.take(i as int).push(values[i as int]));
            lemma_sum_push(values.take(i as int), values[i as int]);
            lemma_sum_prefix(values, i + 1);
        }
        let debt: BorrowedAmount = entries[i];
        if debt.asset_type.is_stablecoin() {
            if debt.amount > u64::MAX - debt.accrued_interest {
                return Err(LegasiError::MathOverflow);
            }
            let value: u64 = debt.amount + debt.accrued_interest;
            if total_usd > u64::MAX - value {
                return Err(LegasiError::MathOverflow);
            }
            total_usd = total_usd + value;
        }
        i += 1;
    }
    assert(values.take(entries.len() as int) == values);
    Ok(total_usd)
}

/// USD value of a position's collateral at the price of a feed.
///
/// Fails with `MathOverflow` exactly where the value does not fit in 64
/// bits.
pub fn calculate_total_collateral_usd(position: &Position, sol_price_feed: &PriceFeed) -> (total:
    Result<u64, LegasiError>)
    ensures
        match total {
            Ok(v) => v == collateral_value_usd(
                position.collaterals@,
                sol_price_feed.price_usd_6dec,
            ),
            Err(e) => e == LegasiError::MathOverflow && collateral_value_usd(
                position.collaterals@,
                sol_price_feed.price_usd_6dec,
            ) > u64::MAX,
        },
{
    collateral_usd(&position.collaterals, sol_price_feed.price_usd_6dec)
}

/// USD value of a position's debts.
///
/// Fails with `MathOverflow` exactly where the value does not fit in 64
/// bits.
pub fn calculate_total_borrow_usd(position: &Position) -> (total: Result<u64, LegasiError>)
    ensures
        match total {
            Ok(v) => v == borrow_value_usd(position.borrows@),
            Err(e) => e == LegasiError::MathOverflow && borrow_value_usd(position.borrows@)
                > u64::MAX,
        },
{
    borrow_usd(&position.borrows)
}

/// The loan-to-value bound, in basis points, of a position in a market.
pub fn effective_max_ltv_bps(position: &Position, market: &Market) -> (bound: u64)
    ensures
        bound == effective_ltv_bps(position, market),
        bound <= 65_535 + 500,
{
    let base: u64 = if position.emode_category != 0 && position.emode_category
        == market.emode_category {
        market.emode_max_ltv_bps as u64
    } else {
        market.base_max_ltv_bps as u64
    };
    base + position.reputation.get_ltv_bonus_bps() as u64
}

/// Whether `borrow_usd` is covered by `collateral_usd` at `ltv_bps`.
pub fn covers(borrow_usd: u64, collateral_usd: u64, ltv_bps: u64) -> (covered: bool)
    ensures
        covered == within_ltv(borrow_usd as nat, collateral_usd as nat, ltv_bps as nat),
{
    assert((borrow_usd as nat) * 10_000 <= 0xFFFF_FFFF_FFFF_FFFF * 10_000) by (nonlinear_arith)
        requires
            borrow_usd <= 0xFFFF_FFFF_FFFF_FFFF,
    ;
    assert((collateral_usd as nat) * (ltv_bps as nat) <= 0xFFFF_FFFF_FFFF_FFFF
        * 0xFFFF_FFFF_FFFF_FFFF) by (nonlinear_arith)
        requires
            collateral_usd <= 0xFFFF_FFFF_FFFF_FFFF,
            ltv_bps <= 0xFFFF_FFFF_FFFF_FFFF,
    ;
    let scaled_debt: u128 = (borrow_usd as u128) * (BPS_DENOMINATOR as u128);
    let weighted: u128 = (collateral_usd as u128) * (ltv_bps as u128);
    scaled_debt <= weighted
}

/// Loan-to-value of a debt against a collateral value, in basis points,
/// rounded down; zero where there is no collateral.
pub open spec fn ltv_bps_of(borrow_usd: nat, collateral_usd: nat) -> nat {
    if collateral_usd == 0 {
        0
    } else {
        borrow_usd * 10_000 / collateral_usd
    }
}

/// Why a loan of `requested_amount` is refused by the risk engine, if it
/// is: an aggregate that overflows, or a debt that would pass the bound.
pub open spec fn borrow_check_refusal(
    position: &Position,
    market: &Market,
    requested_amount: u64,
    sol_price: u64,
) -> Option<LegasiError> {
    let collateral = collateral_value_usd(position.collaterals@, sol_price);
    let debt = borrow_value_usd(position.borrows@) + requested_amount as nat;
    if collateral > u64::MAX || debt > u64::MAX {
        Some(LegasiError::MathOverflow)
    } else if !within_ltv(debt, collateral, effective_ltv_bps(position, market)) {
        Some(LegasiError::ExceedsLTV)
    } else {
        None
    }
}

/// Decides whether a position may borrow `requested_amount` more USD, and
/// returns the debt it would then have.
///
/// Fails with `MathOverflow` where collateral value or new debt do not fit
/// in 64 bits, and with `ExceedsLTV` where the new debt times 10000 exceeds
/// the collateral value times the effective bound. With no collateral every
/// positive loan fails.
pub fn check_borrow(
    position: &Position,
    market: &Market,
    requested_amount: u64,
    sol_price_feed: &PriceFeed,
) -> (decision: Result<u64, LegasiError>)
    ensures
        match decision {
            Ok(new_borrow_usd) => borrow_check_refusal(
                position,
                market,
                requested_amount,
                sol_price_feed.price_usd_6dec,
            ) is None && new_borrow_usd == borrow_value_usd(position.borrows@) + requested_amount,
            Err(e) => borrow_check_refusal(
                position,
                market,
                requested_amount,
                sol_price_feed.price_usd_6dec,
            ) == Some(e),
        },
{
    let collateral: u64 = match calculate_total_collateral_usd(position, sol_price_feed) {
        Ok(v) => v,
        Err(e) => {
            return Err(e);
        },
    };
    let current: u64 = match calculate_total_borrow_usd(position) {
        Ok(v) => v,
        Err(e) => {
            return Err(e);
        },
    };
    if current > u64::MAX - requested_amount {
        return Err(LegasiError::MathOverflow);
    }
    let new_borrow_usd: u64 = current + requested_amount;
    let bound: u64 = effective_max_ltv_bps(position, market);
    if !covers(new_borrow_usd, collateral, bound) {
        return Err(LegasiError::ExceedsLTV);
    }
    Ok(new_borrow_usd)
}

/// Why a withdrawal is refused, if it is: a zero amount, more than is
/// held, or, for a position in debt, what is left not covering the debt.
pub open spec fn withdraw_check_refusal(
    position: &Position,
    market: &Market,
    asset_type: AssetType,
    requested_amount: u64,
    sol_price: u64,
) -> Option<LegasiError> {
    if debit_refusal(position.collaterals@, asset_type, requested_amount) is Some {
        debit_refusal(position.collaterals@, asset_type, requested_amount)
    } else if position.borrows@.len() == 0 {
        None
    } else {
        let collateral = collateral_value_usd(
            debited(position.collaterals@, asset_type, requested_amount),
            sol_price,
        );
        let debt = borrow_value_usd(position.borrows@);
        if collateral > u64::MAX || debt > u64::MAX {
            Some(LegasiError::MathOverflow)
        } else if !within_ltv(debt, collateral, effective_ltv_bps(position, market)) {
            Some(LegasiError::ExceedsLTV)
        } else {
            None
        }
    }
}

/// Decides whether a position may withdraw `requested_amount` of
/// `asset_type`, and returns the collateral list it would then have.
///
/// Fails with `InvalidAmount` on a zero amount and with
/// `InsufficientCollateral` where less is held. Where the position has any
/// debt, the bound is checked against the collateral that would be left:
/// `MathOverflow` where an aggregate does not fit in 64 bits, `ExceedsLTV`
/// where the debt would no longer be covered.
pub fn check_withdraw(
    position: &Position,
    market: &Market,
    asset_type: AssetType,
    requested_amount: u64,
    sol_price_feed: &PriceFeed,
) -> (decision: Result<Vec<CollateralDeposit>, LegasiError>)
    requires
        collaterals_wf(position.collaterals@),
    ensures
        match decision {
            Ok(left) => withdraw_check_refusal(
                position,
                market,
                asset_type,
                requested_amount,
                sol_price_feed.price_usd_6dec,
            ) is None && left@ == debited(position.collaterals@, asset_type, requested_amount)
                && collaterals_wf(left@),
            Err(e) => withdraw_check_refusal(
                position,
                market,
                asset_type,
                requested_amount,
                sol_price_feed.price_usd_6dec,
            ) == Some(e),
        },
{
    let left: Vec<CollateralDeposit> = match debit_entries(
        &position.collaterals,
        asset_type,
        requested_amount,
    ) {
        Ok(list) => list,
        Err(e) => {
            return Err(e);
        },
    };
    if position.borrows.len() > 0 {
        let collateral: u64 = match collateral_usd(&left, sol_price_feed.price_usd_6dec) {
            Ok(v) => v,
            Err(e) => {
                return Err(e);
            },
        };
        let debt: u64 = match calculate_total_borrow_usd(position) {
            Ok(v) => v,
            Err(e) => {
                return Err(e);
            },
        };
        let bound: u64 = effective_max_ltv_bps(position, market);
        if !covers(debt, collateral, bound) {
            return Err(LegasiError::ExceedsLTV);
        }
    }
    Ok(left)
}

/// Loan-to-value of a debt against a collateral value, in basis points,
/// rounded down; `None` where there is no collateral or the ratio does not
/// fit in 64 bits.
pub fn ltv_bps(borrow_usd: u64, collateral_usd: u64) -> (ratio: Option<u64>)
    ensures
        match ratio {
            Some(r) => collateral_usd > 0 && r == ltv_bps_of(
                borrow_usd as nat,
                collateral_usd as nat,
            ),
            None => collateral_usd == 0 || ltv_bps_of(borrow_usd as nat, collateral_usd as nat)
                > u64::MAX,
        },
{
    if collateral_usd == 0 {
        return None;
    }
    assert((borrow_usd as nat) * 10_000 <= 0xFFFF_FFFF_FFFF_FFFF * 10_000) by (nonlinear_arith)
        requires
            borrow_usd <= 0xFFFF_FFFF_FFFF_FFFF,
    ;
    let scaled: u128 = (borrow_usd as u128) * (BPS_DENOMINATOR as u128);
    let ratio: u128 = scaled / (collateral_usd as u128);
    if ratio > u64::MAX as u128 {
        None
    } else {
        Some(ratio as u64)
    }
}

} // verus!
