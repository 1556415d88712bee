//! The lending operations on a position: open, deposit, borrow, repay,
//! withdraw and the eMode switch.
//!
//! Each operation validates first and commits last. An operation that
//! fails leaves the position and the market exactly as they were. Moving
//! tokens is the host's part: it transfers what an accepted operation
//! reports.

use vstd::prelude::*;
use anchor_lang::prelude::Pubkey;
use crate::constants::MAX_PRICE_AGE_SECONDS;
use crate::errors::LegasiError;
use crate::laws::{law_deposit_keeps_ltv, law_no_debt_is_within_ltv, law_repay_keeps_ltv};
use crate::ledger::{
    credit_entries, credit_refusal, credited, debited, debt_entries, debt_refusal, repay_entries,
    repay_refusal, repayment_of, with_debt, with_repayment, Repayment,
};
use crate::market::Market;
use crate::registry::{feed_refusal, read_price};
use crate::risk::{
    borrow_check_refusal, borrow_value_usd, calculate_total_collateral_usd, check_borrow,
    check_withdraw, collateral_value_usd, debt_value_usd, deposit_usd, deposit_value_usd,
    effective_ltv_bps, lemma_sum_push, lemma_sum_update, ltv_bps, ltv_bps_of, position_within_ltv,
    withdraw_check_refusal,
};
use crate::state::{
    borrow_index, borrows_wf, holds_borrow, AssetType, Borrowable, BorrowedAmount, Collateral,
    CollateralDeposit, Position, PriceFeed, Reputation,
};

verus! {

/// Opens an empty position for `owner`: no balances, deleveraging enabled,
/// no eMode category, a fresh reputation.
pub fn initialize_position(owner: Pubkey, now: i64, bump: u8) -> (position: Position)
    ensures
        position.owner == owner,
        position.collaterals@.len() == 0,
        position.borrows@.len() == 0,
        position.last_update == now,
        position.last_gad_crank == now,
        position.gad_enabled,
        position.total_gad_liquidated_usd == 0,
        position.reputation == (Reputation {
            successful_repayments: 0,
            total_repaid_usd: 0,
            gad_events: 0,
            account_age_days: 0,
        }),
        position.emode_category == 0,
        position.emode_entered_at == 0,
        position.bump == bump,
        position.wf(),
{
    Position {
        owner,
        collaterals: Vec::new(),
        borrows: Vec::new(),
        last_update: now,
        last_gad_crank: now,
        gad_enabled: true,
        total_gad_liquidated_usd: 0,
        reputation: Reputation::default(),
        emode_category: 0,
        emode_entered_at: 0,
        bump,
    }
}

/// Selects the eMode category of a position; category 0 leaves eMode.
///
/// Refused with `CannotChangeEModeWithActivePositions` exactly where the
/// position has any debt, whatever collateral it holds. A position that
/// was switched is within its bound in every market, for it owes nothing.
pub fn set_emode(position: &mut Position, emode_category: u8, now: i64) -> (outcome: Result<
    (),
    LegasiError,
>)
    ensures
        outcome is Err <==> old(position).borrows@.len() > 0,
        match outcome {
            Ok(_) => *final(position) == (Position {
                emode_category,
                emode_entered_at: if emode_category == 0 {
                    0
                } else {
                    now
                },
                last_update: now,
                ..*old(position)
            }),
            Err(e) => e == LegasiError::CannotChangeEModeWithActivePositions && *final(position)
                == *old(position),
        },
        outcome is Ok ==> forall|market: Market, sol_price: u64| #[trigger]
            position_within_ltv(final(position), &market, sol_price),
{
    if position.borrows.len() > 0 {
        return Err(LegasiError::CannotChangeEModeWithActivePositions);
    }
    position.emode_category = emode_category;
    position.emode_entered_at = if emode_category == 0 {
        0
    } else {
        now
    };
    position.last_update = now;
    proof {
        assert forall|market: Market, sol_price: u64| #[trigger]
            position_within_ltv(&*position, &market, sol_price) by {
            law_no_debt_is_within_ltv(*position, market, sol_price);
        }
    }
    Ok(())
}

/// Why a deposit of `amount` of `asset` through `market` is refused, if it
/// is: first the amount, then the market's switches and supply cap, then
/// the ledger, then a USD value that does not fit in 64 bits.
pub open spec fn deposit_refusal(
    position: &Position,
    market: &Market,
    asset: AssetType,
    amount: u64,
    sol_price: u64,
) -> Option<LegasiError> {
    if amount == 0 {
        Some(LegasiError::InvalidAmount)
    } else if market.supply_refusal(amount) is Some {
        market.supply_refusal(amount)
    } else if credit_refusal(position.collaterals@, asset, amount) is Some {
        credit_refusal(position.collaterals@, asset, amount)
    } else if deposit_value_usd(CollateralDeposit { asset_type: asset, amount }, sol_price)
        > u64::MAX {
        Some(LegasiError::MathOverflow)
    } else {
        None
    }
}

/// Deposits `amount` of the native token as collateral and returns the USD
/// value of the deposit at the feed's price.
///
/// On success the native-token balance of the position and the market's
/// collateral total both grow by `amount`, and nothing else changes but
/// `last_update`. A position that was within its bound stays within it.
pub fn deposit_sol(
    position: &mut Position,
    market: &mut Market,
    sol_price_feed: &PriceFeed,
    amount: u64,
    now: i64,
) -> (outcome: Result<u64, LegasiError>)
    requires
        old(position).wf(),
    ensures
        match outcome {
            Ok(value_usd) => {
                &&& deposit_refusal(
                    old(position),
                    old(market),
                    AssetType::SOL,
                    amount,
                    sol_price_feed.price_usd_6dec,
                ) is None
                &&& final(position).collaterals@ == credited(
                    old(position).collaterals@,
                    AssetType::SOL,
                    amount,
                )
                &&& *final(position) == (Position {
                    collaterals: final(position).collaterals,
                    last_update: now,
                    ..*old(position)
                })
                &&& *final(market) == (Market {
                    total_collateral: (old(market).total_collateral + amount) as u64,
                    ..*old(market)
                })
                &&& value_usd == deposit_value_usd(
                    CollateralDeposit { asset_type: AssetType::SOL, amount },
                    sol_price_feed.price_usd_6dec,
                )
                &&& final(position).wf()
                &&& position_within_ltv(
                    old(position),
                    old(market),
                    sol_price_feed.price_usd_6dec,
                ) ==> position_within_ltv(
                    final(position),
                    final(market),
                    sol_price_feed.price_usd_6dec,
                )
            },
            Err(e) => {
                &&& deposit_refusal(
                    old(position),
                    old(market),
                    AssetType::SOL,
                    amount,
                    sol_price_feed.price_usd_6dec,
                ) == Some(e)
                &&& *final(position) == *old(position)
                &&& *final(market) == *old(market)
            },
        },
{
    if amount == 0 {
        return Err(LegasiError::InvalidAmount);
    }
    match market.check_supply(amount) {
        Ok(_) => {},
        Err(e) => {
            return Err(e);
        },
    }
    let list: Vec<CollateralDeposit> = match credit_entries(
        &position.collaterals,
        AssetType::SOL,
        amount,
    ) {
        Ok(list) => list,
        Err(e) => {
            return Err(e);
        },
    };
    let deposit = CollateralDeposit { asset_type: AssetType::SOL, amount };
    let value_usd: u64 = match deposit_usd(&deposit, sol_price_feed.price_usd_6dec) {
        Some(v) => v,
        None => {
            return Err(LegasiError::MathOverflow);
        },
    };
    let ghost before = *position;
    let ghost before_market = *market;
    position.collaterals = list;
    position.last_update = now;
    market.total_collateral = market.total_collateral + amount;
    proof {
        if position_within_ltv(&before, &before_market, sol_price_feed.price_usd_6dec) {
            law_deposit_keeps_ltv(
                before,
                *position,
                before_market,
                AssetType::SOL,
                amount,
                sol_price_feed.price_usd_6dec,
            );
        }
    }
    Ok(value_usd)
}

/// Why a token deposit is refused, if it is: first the amount, then an
/// inactive asset, then the ledger, then a running total that would pass
/// `u64::MAX`.
pub open spec fn token_deposit_refusal(
    position: &Position,
    collateral_config: &Collateral,
    amount: u64,
) -> Option<LegasiError> {
    if amount == 0 {
        Some(LegasiError::InvalidAmount)
    } else if !collateral_config.is_active {
        Some(LegasiError::AssetNotActive)
    } else if credit_refusal(position.collaterals@, collateral_config.asset_type, amount)
        is Some {
        credit_refusal(position.collaterals@, collateral_config.asset_type, amount)
    } else if collateral_config.total_deposited + amount > u64::MAX {
        Some(LegasiError::MathOverflow)
    } else {
        None
    }
}

/// Deposits `amount` of the asset that `collateral_config` describes.
///
/// On success the position's balance of that asset and the asset's running
/// total both grow by `amount`, and nothing else changes but `last_update`.
/// A position that was within its bound in a market stays within it.
pub fn deposit_token(
    position: &mut Position,
    collateral_config: &mut Collateral,
    amount: u64,
    now: i64,
) -> (outcome: Result<(), LegasiError>)
    requires
        old(position).wf(),
    ensures
        match outcome {
            Ok(_) => {
                &&& token_deposit_refusal(old(position), old(collateral_config), amount) is None
                &&& final(position).collaterals@ == credited(
                    old(position).collaterals@,
                    old(collateral_config).asset_type,
                    amount,
                )
                &&& *final(position) == (Position {
                    collaterals: final(position).collaterals,
                    last_update: now,
                    ..*old(position)
                })
                &&& *final(collateral_config) == (Collateral {
                    total_deposited: (old(collateral_config).total_deposited + amount) as u64,
                    ..*old(collateral_config)
                })
                &&& final(position).wf()
                &&& forall|market: Market, sol_price: u64|
                    position_within_ltv(old(position), &market, sol_price) ==> #[trigger]
                    position_within_ltv(final(position), &market, sol_price)
            },
            Err(e) => {
                &&& token_deposit_refusal(old(position), old(collateral_config), amount) == Some(e)
                &&& *final(position) == *old(position)
                &&& *final(collateral_config) == *old(collateral_config)
            },
        },
{
    if amount == 0 {
        return Err(LegasiError::InvalidAmount);
    }
    if !collateral_config.is_active {
        return Err(LegasiError::AssetNotActive);
    }
    let list: Vec<CollateralDeposit> = match credit_entries(
        &position.collaterals,
        collateral_config.asset_type,
        amount,
    ) {
        Ok(list) => list,
        Err(e) => {
            return Err(e);
        },
    };
    if collateral_config.total_deposited > u64::MAX - amount {
        return Err(LegasiError::MathOverflow);
    }
    let ghost before = *position;
    position.collaterals = list;
    position.last_update = now;
    proof {
        assert forall|market: Market, sol_price: u64|
            position_within_ltv(&before, &market, sol_price) implies #[trigger]
            position_within_ltv(&*position, &market, sol_price) by {
            law_deposit_keeps_ltv(
                before,
                *position,
                market,
                collateral_config.asset_type,
                amount,
                sol_price,
            );
        }
    }
    collateral_config.total_deposited = collateral_config.total_deposited + amount;
    Ok(())
}

/// Why a loan is refused, if it is. The checks come in this order: the
/// amount, the asset's switch, the market's switches, minimum and cap, the
/// vault's liquidity, the price feed, the risk engine, the ledger.
pub open spec fn borrow_refusal(
    position: &Position,
    market: &Market,
    borrowable_config: &Borrowable,
    sol_price_feed: &PriceFeed,
    vault_balance: u64,
    amount: u64,
    now: i64,
) -> Option<LegasiError> {
    let sol_price = sol_price_feed.price_usd_6dec;
    if amount == 0 {
        Some(LegasiError::InvalidAmount)
    } else if !borrowable_config.is_active {
        Some(LegasiError::AssetNotActive)
    } else if market.borrow_refusal(amount) is Some {
        market.borrow_refusal(amount)
    } else if vault_balance < amount {
        Some(LegasiError::InsufficientLiquidity)
    } else if feed_refusal(sol_price_feed, AssetType::SOL, now, MAX_PRICE_AGE_SECONDS) is Some {
        feed_refusal(sol_price_feed, AssetType::SOL, now, MAX_PRICE_AGE_SECONDS)
    } else if borrow_check_refusal(position, market, amount, sol_price) is Some {
        borrow_check_refusal(position, market, amount, sol_price)
    } else {
        debt_refusal(position.borrows@, borrowable_config.asset_type, amount)
    }
}

/// The value of a debt list after a loan: it grows by the amount where the
/// asset is a stablecoin, and stays where it is not.
pub proof fn lemma_value_with_debt(entries: Seq<BorrowedAmount>, asset: AssetType, amount: u64)
    requires
        borrows_wf(entries),
        debt_refusal(entries, asset, amount) is None,
    ensures
        borrow_value_usd(with_debt(entries, asset, amount)) == borrow_value_usd(entries) + (
        if asset.spec_is_stablecoin() {
            amount as nat
        } else {
            0
        }),
{
    let value = |b: BorrowedAmount| debt_value_usd(b);
    let values = entries.map_values(value);
    if holds_borrow(entries, asset) {
        let i = borrow_index(entries, asset);
        let grown = BorrowedAmount {
            asset_type: asset,
            amount: (entries[i].amount + amount) as u64,
            accrued_interest: entries[i].accrued_interest,
        };
        assert(entries.update(i, grown).map_values(value) == values.update(i, value(grown)));
        lemma_sum_update(values, i, value(grown));
    } else {
        let added = BorrowedAmount { asset_type: asset, amount, accrued_interest: 0 };
        assert(entries.push(added).map_values(value) == values.push(value(added)));
        lemma_sum_push(values, value(added));
    }
}

/// Borrows `amount` of the asset that `borrowable_config` describes and
/// returns the position's new loan-to-value in basis points.
///
/// `amount` is counted as USD against the bound, and the price must be
/// the native token's and no older than `MAX_PRICE_AGE_SECONDS`. On
/// success the debt in that asset and the market's borrowed total both
/// grow by `amount`, nothing else changes but `last_update`, and the
/// position respects its bound.
pub fn borrow(
    position: &mut Position,
    market: &mut Market,
    borrowable_config: &Borrowable,
    sol_price_feed: &PriceFeed,
    vault_balance: u64,
    amount: u64,
    now: i64,
) -> (outcome: Result<u64, LegasiError>)
    requires
        old(position).wf(),
    ensures
        match outcome {
            Ok(new_ltv_bps) => {
                &&& borrow_refusal(
                    old(position),
                    old(market),
                    borrowable_config,
                    sol_price_feed,
                    vault_balance,
                    amount,
                    now,
                ) is None
                &&& final(position).borrows@ == with_debt(
                    old(position).borrows@,
                    borrowable_config.asset_type,
                    amount,
                )
                &&& *final(position) == (Position {
                    borrows: final(position).borrows,
                    last_update: now,
                    ..*old(position)
                })
                &&& *final(market) == (Market {
                    total_borrowed: (old(market).total_borrowed + amount) as u64,
                    ..*old(market)
                })
                &&& new_ltv_bps == ltv_bps_of(
                    borrow_value_usd(old(position).borrows@) + amount as nat,
                    collateral_value_usd(
                        old(position).collaterals@,
                        sol_price_feed.price_usd_6dec,
                    ),
                )
                &&& final(position).wf()
                &&& position_within_ltv(
                    final(position),
                    final(market),
                    sol_price_feed.price_usd_6dec,
                )
            },
            Err(e) => {
                &&& borrow_refusal(
                    old(position),
                    old(market),
                    borrowable_config,
                    sol_price_feed,
                    vault_balance,
                    amount,
                    now,
                ) == Some(e)
                &&& *final(position) == *old(position)
                &&& *final(market) == *old(market)
            },
        },
{
    if amount == 0 {
        return Err(LegasiError::InvalidAmount);
    }
    if !borrowable_config.is_active {
        return Err(LegasiError::AssetNotActive);
    }
    match market.check_borrow_limits(amount) {
        Ok(_) => {},
        Err(e) => {
            return Err(e);
        },
    }
    if vault_balance < amount {
        return Err(LegasiError::InsufficientLiquidity);
    }
    match read_price(sol_price_feed, AssetType::SOL, now, MAX_PRICE_AGE_SECONDS) {
        Ok(_) => {},
        Err(e) => {
            return Err(e);
        },
    }
    let new_borrow_usd: u64 = match check_borrow(position, market, amount, sol_price_feed) {
        Ok(v) => v,
        Err(e) => {
            return Err(e);
        },
    };
    let list: Vec<BorrowedAmount> = match debt_entries(
        &position.borrows,
        borrowable_config.asset_type,
        amount,
    ) {
        Ok(list) => list,
        Err(e) => {
            return Err(e);
        },
    };
    let collateral: u64 = match calculate_total_collateral_usd(
        position,
        sol_price_feed,
    ) {
        Ok(v) => v,
        Err(e) => {
            return Err(e);
        },
    };
    proof {
        let bound = effective_ltv_bps(position, market);
        assert(new_borrow_usd >= 1);
        assert(collateral > 0 && new_borrow_usd * 10_000 / (collateral as int) <= bound)
            by (nonlinear_arith)
            requires
                new_borrow_usd * 10_000 <= collateral * bound,
                new_borrow_usd >= 1,
                bound <= 66_035,
                collateral >= 0,
        ;
        lemma_value_with_debt(position.borrows@, borrowable_config.asset_type, amount);
    }
    // An accepted loan has collateral under it and a ratio within the bound.
    let new_ltv_bps: u64 = match ltv_bps(new_borrow_usd, collateral) {
        Some(r) => r,
        None => {
            return Err(LegasiError::MathOverflow);
        },
    };
    position.borrows = list;
    position.last_update = now;
    market.total_borrowed = market.total_borrowed + amount;
    Ok(new_ltv_bps)
}

/// The reputation after a repayment of `paid`: one more successful
/// repayment and `paid` more repaid, both held at the largest number the
/// field can take.
pub open spec fn reputation_after_repayment(reputation: Reputation, paid: u64) -> Reputation {
    Reputation {
        successful_repayments: if reputation.successful_repayments == u32::MAX {
            u32::MAX
        } else {
            (reputation.successful_repayments + 1) as u32
        },
        total_repaid_usd: if reputation.total_repaid_usd + paid > u64::MAX {
            u64::MAX
        } else {
            (reputation.total_repaid_usd + paid) as u64
        },
        ..reputation
    }
}

/// What is left of `total` after `amount` is taken, never below zero.
pub open spec fn less(total: u64, amount: u64) -> u64 {
    if total >= amount {
        (total - amount) as u64
    } else {
        0
    }
}

/// Repays up to `amount` on the debt in the asset that `borrowable_config`
/// describes, interest before principal, and returns how the payment was
/// applied.
///
/// On success the debt shrinks by what was paid and leaves the list when
/// nothing is owed any more, the reputation counts one more repayment, the
/// market's borrowed total shrinks by the principal paid, and nothing else
/// changes but `last_update`. A position that was within its bound stays
/// within it.
pub fn repay(
    position: &mut Position,
    market: &mut Market,
    borrowable_config: &Borrowable,
    amount: u64,
    now: i64,
) -> (outcome: Result<Repayment, LegasiError>)
    requires
        old(position).wf(),
    ensures
        match outcome {
            Ok(split) => {
                &&& repay_refusal(old(position).borrows@, borrowable_config.asset_type, amount)
                    is None
                &&& split == repayment_of(
                    old(position).borrows@[borrow_index(
                        old(position).borrows@,
                        borrowable_config.asset_type,
                    )],
                    amount,
                )
                &&& final(position).borrows@ == with_repayment(
                    old(position).borrows@,
                    borrowable_config.asset_type,
                    amount,
                )
                &&& *final(position) == (Position {
                    borrows: final(position).borrows,
                    reputation: reputation_after_repayment(old(position).reputation, split.paid),
                    last_update: now,
                    ..*old(position)
                })
                &&& *final(market) == (Market {
                    total_borrowed: less(old(market).total_borrowed, split.principal_paid),
                    ..*old(market)
                })
                &&& final(position).wf()
                &&& forall|sol_price: u64|
                    position_within_ltv(old(position), old(market), sol_price) ==> #[trigger]
                    position_within_ltv(final(position), final(market), sol_price)
            },
            Err(e) => {
                &&& repay_refusal(old(position).borrows@, borrowable_config.asset_type, amount)
                    == Some(e)
                &&& *final(position) == *old(position)
                &&& *final(market) == *old(market)
            },
        },
{
    let (list, split) = match repay_entries(
        &position.borrows,
        borrowable_config.asset_type,
        amount,
    ) {
        Ok(pair) => pair,
        Err(e) => {
            return Err(e);
        },
    };
    let ghost before = *position;
    let ghost before_market = *market;
    position.borrows = list;
    position.reputation.successful_repayments =
        position.reputation.successful_repayments.saturating_add(1);
    position.reputation.total_repaid_usd = position.reputation.total_repaid_usd.saturating_add(
        split.paid,
    );
    position.last_update = now;
    market.total_borrowed = market.total_borrowed.saturating_sub(split.principal_paid);
    proof {
        assert forall|sol_price: u64|
            position_within_ltv(&before, &before_market, sol_price) implies #[trigger]
            position_within_ltv(&*position, &*market, sol_price) by {
            law_repay_keeps_ltv(
                before,
                *position,
                before_market,
                borrowable_config.asset_type,
                amount,
                sol_price,
            );
        }
    }
    Ok(split)
}

/// Why a withdrawal of the native token is refused, if it is: a zero
/// amount; for a position in debt, a price feed that is another asset's or
/// too old; else what the risk engine decides.
pub open spec fn withdraw_refusal(
    position: &Position,
    market: &Market,
    sol_price_feed: &PriceFeed,
    amount: u64,
    now: i64,
) -> Option<LegasiError> {
    if amount == 0 {
        Some(LegasiError::InvalidAmount)
    } else if position.borrows@.len() > 0 && feed_refusal(
        sol_price_feed,
        AssetType::SOL,
        now,
        MAX_PRICE_AGE_SECONDS,
    ) is Some {
        feed_refusal(sol_price_feed, AssetType::SOL, now, MAX_PRICE_AGE_SECONDS)
    } else {
        withdraw_check_refusal(
            position,
            market,
            AssetType::SOL,
            amount,
            sol_price_feed.price_usd_6dec,
        )
    }
}

/// Withdraws `amount` of the native token.
///
/// A position without debt needs no price. On success the balance shrinks by
/// `amount` and leaves the list when it reaches zero, the market's
/// collateral total shrinks by `amount`, nothing else changes but
/// `last_update`, and the position respects its bound.
pub fn withdraw_sol(
    position: &mut Position,
    market: &mut Market,
    sol_price_feed: &PriceFeed,
    amount: u64,
    now: i64,
) -> (outcome: Result<(), LegasiError>)
    requires
        old(position).wf(),
    ensures
        match outcome {
            Ok(_) => {
                &&& withdraw_refusal(old(position), old(market), sol_price_feed, amount, now)
                    is None
                &&& final(position).collaterals@ == debited(
                    old(position).collaterals@,
                    AssetType::SOL,
                    amount,
                )
                &&& *final(position) == (Position {
                    collaterals: final(position).collaterals,
                    last_update: now,
                    ..*old(position)
                })
                &&& *final(market) == (Market {
                    total_collateral: less(old(market).total_collateral, amount),
                    ..*old(market)
                })
                &&& final(position).wf()
                &&& position_within_ltv(
                    final(position),
                    final(market),
                    sol_price_feed.price_usd_6dec,
                )
            },
            Err(e) => {
                &&& withdraw_refusal(old(position), old(market), sol_price_feed, amount, now)
                    == Some(e)
                &&& *final(position) == *old(position)
                &&& *final(market) == *old(market)
            },
        },
{
    if amount == 0 {
        return Err(LegasiError::InvalidAmount);
    }
    if position.borrows.len() > 0 {
        match read_price(sol_price_feed, AssetType::SOL, now, MAX_PRICE_AGE_SECONDS) {
            Ok(_) => {},
            Err(e) => {
                return Err(e);
            },
        }
    }
    let left: Vec<CollateralDeposit> = match check_withdraw(
        position,
        market,
        AssetType::SOL,
        amount,
        sol_price_feed,
    ) {
        Ok(list) => list,
        Err(e) => {
            return Err(e);
        },
    };
    proof {
        if position.borrows@.len() == 0 {
            assert(position.borrows@.map_values(|b: BorrowedAmount| debt_value_usd(b)).len() == 0);
        }
    }
    position.collaterals = left;
    position.last_update = now;
    market.total_collateral = market.total_collateral.saturating_sub(amount);
    Ok(())
}

} // verus!
