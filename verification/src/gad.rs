//! Gradual auto-deleveraging: a cooldown-gated crank that repays part of
//! an unsafe position's debt out of its collateral.
//!
//! A position is healthy below the market's soft threshold, in soft breach
//! from there to the hard threshold, and in hard breach from the hard
//! threshold on. One crank repays a tenth of the chosen debt in a soft
//! breach and all of it in a hard breach, never seizing collateral below
//! the floor.

use vstd::prelude::*;
use crate::constants::{
    BPS_DENOMINATOR, GAD_COLLATERAL_FLOOR_USD, GAD_COOLDOWN_SECONDS, GAD_SOFT_REPAY_BPS,
    LAMPORTS_PER_SOL, MAX_PRICE_AGE_SECONDS,
};
use crate::errors::LegasiError;
use crate::ledger::{
    drain_entries, drained, find_collateral, lemma_borrow_index, repay_entries, repayment_of,
    with_repayment,
};
use crate::lending::less;
use crate::market::Market;
use crate::registry::{feed_refusal, read_price};
use crate::risk::{
    borrow_value_usd, calculate_total_borrow_usd, calculate_total_collateral_usd,
    collateral_value_usd, debt_value_usd, lemma_sum_remove, sum,
};
use crate::state::{
    collateral_balance, AssetType, BorrowedAmount, CollateralDeposit, Position, PriceFeed,
    Reputation,
};

verus! {

/// The loan-to-value band of a position.
#[derive(Clone, Copy, Debug, PartialEq, Eq, Structural)]
pub enum GadState {
    /// Below the soft threshold, or without debt.
    Healthy,
    /// From the soft threshold up to the hard threshold.
    SoftBreach,
    /// From the hard threshold on.
    HardBreach,
}

/// The band of a debt against a collateral value. The ratio is compared
/// by cross-multiplication, so no rounding is involved.
pub open spec fn state_of(debt_usd: nat, collateral_usd: nat, market: &Market) -> GadState {
    if debt_usd == 0 || debt_usd * 10_000 < collateral_usd * (
    market.gad_soft_threshold_bps as nat) {
        GadState::Healthy
    } else if debt_usd * 10_000 < collateral_usd * (market.gad_hard_threshold_bps as nat) {
        GadState::SoftBreach
    } else {
        GadState::HardBreach
    }
}

/// The band of a debt against a collateral value.
pub fn classify(debt_usd: u64, collateral_usd: u64, market: &Market) -> (state: GadState)
    ensures
        state == state_of(debt_usd as nat, collateral_usd as nat, market),
{
    assert((debt_usd as nat) * 10_000 <= 0xFFFF_FFFF_FFFF_FFFF * 10_000) by (nonlinear_arith)
        requires
            debt_usd <= 0xFFFF_FFFF_FFFF_FFFF,
    ;
    assert((collateral_usd as nat) * (market.gad_soft_threshold_bps as nat) <= 0xFFFF_FFFF_FFFF_FFFF
        * 65_535) by (nonlinear_arith)
        requires
            collateral_usd <= 0xFFFF_FFFF_FFFF_FFFF,
            market.gad_soft_threshold_bps <= 65_535,
    ;
    assert((collateral_usd as nat) * (market.gad_hard_threshold_bps as nat) <= 0xFFFF_FFFF_FFFF_FFFF
        * 65_535) by (nonlinear_arith)
        requires
            collateral_usd <= 0xFFFF_FFFF_FFFF_FFFF,
            market.gad_hard_threshold_bps <= 65_535,
    ;
    let scaled: u128 = (debt_usd as u128) * (BPS_DENOMINATOR as u128);
    let soft: u128 = (collateral_usd as u128) * (market.gad_soft_threshold_bps as u128);
    let hard: u128 = (collateral_usd as u128) * (market.gad_hard_threshold_bps as u128);
    if debt_usd == 0 || scaled < soft {
        GadState::Healthy
    } else if scaled < hard {
        GadState::SoftBreach
    } else {
        GadState::HardBreach
    }
}

/// The band of a position in a market at a native token price.
pub open spec fn position_state(position: &Position, market: &Market, sol_price: u64) -> GadState {
    state_of(
        borrow_value_usd(position.borrows@),
        collateral_value_usd(position.collaterals@, sol_price),
        market,
    )
}

/// Whether a USD aggregate of the position does not fit in 64 bits.
pub open spec fn aggregates_overflow(position: &Position, sol_price: u64) -> bool {
    collateral_value_usd(position.collaterals@, sol_price) > u64::MAX || borrow_value_usd(
        position.borrows@,
    ) > u64::MAX
}

/// The check a caller makes before it submits a crank: the band of the
/// position, which must not be healthy.
///
/// Fails with `MathOverflow` where an aggregate does not fit in 64 bits,
/// else with `LtvBelowGadThreshold` exactly where the position is healthy.
pub fn require_breach(position: &Position, market: &Market, sol_price_feed: &PriceFeed) -> (state:
    Result<GadState, LegasiError>)
    ensures
        match state {
            Ok(s) => !aggregates_overflow(position, sol_price_feed.price_usd_6dec) && s
                == position_state(position, market, sol_price_feed.price_usd_6dec) && s
                != GadState::Healthy,
            Err(e) => if aggregates_overflow(position, sol_price_feed.price_usd_6dec) {
                e == LegasiError::MathOverflow
            } else {
                e == LegasiError::LtvBelowGadThreshold && position_state(
                    position,
                    market,
                    sol_price_feed.price_usd_6dec,
                ) == GadState::Healthy
            },
        },
{
    let collateral: u64 = match calculate_total_collateral_usd(position, sol_price_feed) {
        Ok(v) => v,
        Err(e) => {
            return Err(e);
        },
    };
    let debt: u64 = match calculate_total_borrow_usd(position) {
        Ok(v) => v,
        Err(e) => {
            return Err(e);
        },
    };
    match classify(debt, collateral, market) {
        GadState::Healthy => Err(LegasiError::LtvBelowGadThreshold),
        GadState::SoftBreach => Ok(GadState::SoftBreach),
        GadState::HardBreach => Ok(GadState::HardBreach),
    }
}

/// Whether the debt at place `i` is the one a crank repays: the
/// stablecoin debt with the most accrued interest, the first of them
/// where several have as much.
pub open spec fn is_target(entries: Seq<BorrowedAmount>, i: int) -> bool {
    &&& 0 <= i < entries.len()
    &&& entries[i].asset_type.spec_is_stablecoin()
    &&& forall|j: int|
        0 <= j < entries.len() && (#[trigger] entries[j]).asset_type.spec_is_stablecoin() ==> (j < i
            ==> entries[j].accrued_interest < entries[i].accrued_interest) && (j > i
            ==> entries[j].accrued_interest <= entries[i].accrued_interest)
}

/// The place of the debt that a crank repays.
pub open spec fn target_index(entries: Seq<BorrowedAmount>) -> int {
    choose|i: int| is_target(entries, i)
}

/// A list has at most one target.
pub proof fn lemma_target_unique(entries: Seq<BorrowedAmount>, i: int)
    requires
        is_target(entries, i),
    ensures
        target_index(entries) == i,
{
    let k = target_index(entries);
    assert(is_target(entries, k));
    if k < i {
        assert(entries[k].accrued_interest < entries[i].accrued_interest);
        assert(entries[i].accrued_interest <= entries[k].accrued_interest);
    } else if i < k {
        assert(entries[i].accrued_interest < entries[k].accrued_interest);
        assert(entries[k].accrued_interest <= entries[i].accrued_interest);
    }
}

/// A list of zeros sums to zero.
pub proof fn lemma_sum_of_zeros(values: Seq<nat>)
    requires
        forall|i: int| 0 <= i < values.len() ==> values[i] == 0,
    ensures
        sum(values) == 0,
    decreases values.len(),
{
    if values.len() > 0 {
        lemma_sum_of_zeros(values.drop_last());
    }
}

/// Finds the debt that a crank repays; there is none exactly where no
/// debt is in a stablecoin, and then the debts are worth nothing.
pub fn find_target(entries: &Vec<BorrowedAmount>) -> (found: Option<usize>)
    ensures
        match found {
            Some(i) => is_target(entries@, i as int) && i == target_index(entries@),
            None => borrow_value_usd(entries@) == 0 && forall|j: int|
                0 <= j < entries.len() ==> !(#[trigger] entries[j]).asset_type.spec_is_stablecoin(),
        },
{
    let mut best: Option<usize> = None;
    let mut i: usize = 0;
    while i < entries.len()
        invariant
            i <= entries.len(),
            match best {
                Some(b) => b < i && entries[b as int].asset_type.spec_is_stablecoin() && forall|
                    j: int,
                |
                    0 <= j < i && (#[trigger] entries[j]).asset_type.spec_is_stablecoin() ==> (j < b
                        ==> entries[j].accrued_interest < entries[b as int].accrued_interest) && (j
                        > b ==> entries[j].accrued_interest <= entries[b as int].accrued_interest),
                None => forall|j: int|
                    0 <= j < i ==> !(#[trigger] entries[j]).asset_type.spec_is_stablecoin(),
            },
        decreases entries.len() - i,
    {
        let debt: BorrowedAmount = entries[i];
        if debt.asset_type.is_stablecoin() {
            match best {
                Some(b) => {
                    if entries[b].accrued_interest < debt.accrued_interest {
                        best = Some(i);
                    }
                },
                None => {
                    best = Some(i);
                },
            }
        }
        i += 1;
    }
    proof {
        match best {
            Some(b) => {
                lemma_target_unique(entries@, b as int);
            },
            None => {
                lemma_sum_of_zeros(entries@.map_values(|b: BorrowedAmount| debt_value_usd(b)));
            },
        }
    }
    best
}

/// The smaller of two numbers.
pub open spec fn least(a: nat, b: nat) -> nat {
    if a <= b {
        a
    } else {
        b
    }
}

/// What a crank would like to repay of a debt of `owed`: all of it in a
/// hard breach, a tenth, rounded up, in a soft breach.
pub open spec fn wanted_repay(state: GadState, owed: nat) -> nat {
    if state == GadState::HardBreach {
        owed
    } else {
        (owed * (GAD_SOFT_REPAY_BPS as nat) + 9_999) / 10_000
    }
}

/// The largest repayment whose seizure, bonus included, leaves the
/// collateral value at or above the floor.
pub open spec fn repay_budget(collateral_usd: nat, bonus_bps: nat) -> nat {
    if collateral_usd <= GAD_COLLATERAL_FLOOR_USD {
        0
    } else {
        ((collateral_usd - GAD_COLLATERAL_FLOOR_USD) * 10_000) as nat / (10_000 + bonus_bps)
    }
}

/// Native tokens seized for a repayment of `repay_usd`: its value plus the
/// liquidation bonus at the given price, at most the balance held.
pub open spec fn seized_for(repay_usd: nat, bonus_bps: nat, sol_price: nat, balance: nat) -> nat {
    if sol_price == 0 {
        0
    } else {
        least(
            (repay_usd + repay_usd * bonus_bps / 10_000) * (LAMPORTS_PER_SOL as nat) / sol_price,
            balance,
        )
    }
}

/// What a crank did.
#[derive(Clone, Copy, Debug, PartialEq, Eq, Structural)]
pub struct GadAction {
    /// The band the position was found in.
    pub state: GadState,
    /// The asset of the debt that was repaid.
    pub asset_type: AssetType,
    /// What was repaid of it, in USD with six decimals.
    pub repaid_usd: u64,
    /// Native tokens seized from the collateral, bonus included.
    pub seized_sol: u64,
}

/// What a crank repays on a position that it does not refuse.
pub open spec fn planned_repay(position: &Position, market: &Market, sol_price: u64) -> nat {
    let target = position.borrows@[target_index(position.borrows@)];
    least(
        wanted_repay(
            position_state(position, market, sol_price),
            (target.amount + target.accrued_interest) as nat,
        ),
        repay_budget(
            collateral_value_usd(position.collaterals@, sol_price),
            market.liquidation_bonus_bps as nat,
        ),
    )
}

/// What a crank does on a position that it does not refuse.
pub open spec fn planned_action(position: &Position, market: &Market, sol_price: u64) -> GadAction {
    let repay = planned_repay(position, market, sol_price);
    GadAction {
        state: position_state(position, market, sol_price),
        asset_type: position.borrows@[target_index(position.borrows@)].asset_type,
        repaid_usd: repay as u64,
        seized_sol: seized_for(
            repay,
            market.liquidation_bonus_bps as nat,
            sol_price as nat,
            collateral_balance(position.collaterals@, AssetType::SOL),
        ) as u64,
    }
}

/// Why a crank is refused, if it is. In this order: the cooldown has not
/// elapsed; the owner has opted out; there is no debt; the market's
/// thresholds are out of order; the price feed is another asset's or too
/// old; an aggregate overflows; the position is healthy; nothing can be
/// repaid without seizing collateral below the floor.
pub open spec fn crank_refusal(
    position: &Position,
    market: &Market,
    sol_price_feed: &PriceFeed,
    now: i64,
) -> Option<LegasiError> {
    let sol_price = sol_price_feed.price_usd_6dec;
    if now - position.last_gad_crank < GAD_COOLDOWN_SECONDS {
        Some(LegasiError::CrankTooSoon)
    } else if !position.gad_enabled {
        Some(LegasiError::GadDisabled)
    } else if position.borrows@.len() == 0 {
        Some(LegasiError::NoDebtToDeleverage)
    } else if !market.wf() {
        Some(LegasiError::InvalidGadConfig)
    } else if feed_refusal(sol_price_feed, AssetType::SOL, now, MAX_PRICE_AGE_SECONDS) is Some {
        feed_refusal(sol_price_feed, AssetType::SOL, now, MAX_PRICE_AGE_SECONDS)
    } else if aggregates_overflow(position, sol_price) {
        Some(LegasiError::MathOverflow)
    } else if position_state(position, market, sol_price) == GadState::Healthy {
        Some(LegasiError::NothingToLiquidate)
    } else if planned_repay(position, market, sol_price) == 0 {
        Some(LegasiError::BelowCollateralFloor)
    } else {
        None
    }
}

/// The reputation after a deleveraging event: one more event, held at the
/// largest number the field can take.
pub open spec fn reputation_after_gad(reputation: Reputation) -> Reputation {
    Reputation {
        gad_events: if reputation.gad_events == u32::MAX {
            u32::MAX
        } else {
            (reputation.gad_events + 1) as u32
        },
        ..reputation
    }
}

/// Native tokens to seize for a repayment.
fn seize_amount(repay_usd: u64, bonus_bps: u16, sol_price: u64, balance: u64) -> (seized: u64)
    ensures
        seized == seized_for(repay_usd as nat, bonus_bps as nat, sol_price as nat, balance as nat),
        seized <= balance,
{
    if sol_price == 0 {
        return 0;
    }
    assert((repay_usd as nat) * (bonus_bps as nat) <= 0xFFFF_FFFF_FFFF_FFFF * 65_535)
        by (nonlinear_arith)
        requires
            repay_usd <= 0xFFFF_FFFF_FFFF_FFFF,
            bonus_bps <= 65_535,
    ;
    let weighted: u128 = (repay_usd as u128) * (bonus_bps as u128);
    let bonus: u128 = weighted / (BPS_DENOMINATOR as u128);
    let value: u128 = repay_usd as u128 + bonus;
    assert(weighted <= 0xFFFF_FFFF_FFFF_FFFF * 65_535);
    assert(bonus == weighted / 10_000);
    assert(bonus <= 0xFFFF_FFFF_FFFF_FFFF * 7);
    assert(value * 1_000_000_000 <= 0xFFFF_FFFF_FFFF_FFFF * 8 * 1_000_000_000);
    let tokens: u128 = value * (LAMPORTS_PER_SOL as u128) / (sol_price as u128);
    if tokens <= balance as u128 {
        tokens as u64
    } else {
        balance
    }
}

/// What a crank may repay.
fn repay_amount(state: GadState, owed: u64, collateral_usd: u64, bonus_bps: u16) -> (repay: u64)
    ensures
        repay == least(
            wanted_repay(state, owed as nat),
            repay_budget(collateral_usd as nat, bonus_bps as nat),
        ),
        repay <= owed,
{
    let wanted: u128 = match state {
        GadState::HardBreach => owed as u128,
        _ => {
            let part: u128 = ((owed as u128) * (GAD_SOFT_REPAY_BPS as u128) + 9_999u128) / (
            BPS_DENOMINATOR as u128);
            part
        },
    };
    let budget: u128 = if collateral_usd <= GAD_COLLATERAL_FLOOR_USD {
        0
    } else {
        ((collateral_usd - GAD_COLLATERAL_FLOOR_USD) as u128) * (BPS_DENOMINATOR as u128) / (
        BPS_DENOMINATOR as u128 + bonus_bps as u128)
    };
    if wanted <= budget {
        wanted as u64
    } else {
        budget as u64
    }
}

/// Turns the deleveraging crank on a position.
///
/// A crank that is refused changes nothing. One that is accepted repays
/// the planned amount on the stablecoin debt with the most accrued
/// interest, interest first, takes the matching native tokens with the
/// liquidation bonus out of the collateral, counts one more deleveraging
/// event, adds the repayment to the liquidated total, and records `now`
/// as the time of the last crank. The market's totals shrink by the
/// principal repaid and by the native tokens seized, held at zero.
pub fn crank(
    position: &mut Position,
    market: &mut Market,
    sol_price_feed: &PriceFeed,
    now: i64,
) -> (outcome: Result<GadAction, LegasiError>)
    requires
        old(position).wf(),
    ensures
        match outcome {
            Ok(action) => {
                &&& crank_refusal(old(position), old(market), sol_price_feed, now) is None
                &&& action == planned_action(
                    old(position),
                    old(market),
                    sol_price_feed.price_usd_6dec,
                )
                &&& final(position).borrows@ == with_repayment(
                    old(position).borrows@,
                    action.asset_type,
                    action.repaid_usd,
                )
                &&& final(position).collaterals@ == drained(
                    old(position).collaterals@,
                    AssetType::SOL,
                    action.seized_sol,
                )
                &&& *final(position) == (Position {
                    borrows: final(position).borrows,
                    collaterals: final(position).collaterals,
                    reputation: reputation_after_gad(old(position).reputation),
                    total_gad_liquidated_usd: if old(position).total_gad_liquidated_usd
                        + action.repaid_usd > u64::MAX {
                        u64::MAX
                    } else {
                        (old(position).total_gad_liquidated_usd + action.repaid_usd) as u64
                    },
                    last_gad_crank: now,
                    last_update: now,
                    ..*old(position)
                })
                &&& *final(market) == (Market {
                    total_borrowed: less(
                        old(market).total_borrowed,
                        repayment_of(
                            old(position).borrows@[target_index(old(position).borrows@)],
                            action.repaid_usd,
                        ).principal_paid,
                    ),
                    total_collateral: less(old(market).total_collateral, action.seized_sol),
                    ..*old(market)
                })
                &&& final(position).wf()
            },
            Err(e) => {
                &&& crank_refusal(old(position), old(market), sol_price_feed, now) == Some(e)
                &&& *final(position) == *old(position)
                &&& *final(market) == *old(market)
            },
        },
{
    let elapsed: i128 = now as i128 - position.last_gad_crank as i128;
    if elapsed < GAD_COOLDOWN_SECONDS as i128 {
        return Err(LegasiError::CrankTooSoon);
    }
    if !position.gad_enabled {
        return Err(LegasiError::GadDisabled);
    }
    if position.borrows.len() == 0 {
        return Err(LegasiError::NoDebtToDeleverage);
    }
    if !(market.gad_soft_threshold_bps <= market.gad_hard_threshold_bps
        && market.gad_hard_threshold_bps <= 10_000) {
        return Err(LegasiError::InvalidGadConfig);
    }
    match read_price(sol_price_feed, AssetType::SOL, now, MAX_PRICE_AGE_SECONDS) {
        Ok(_) => {},
        Err(e) => {
            return Err(e);
        },
    }
    let collateral: u64 = match calculate_total_collateral_usd(position, sol_price_feed) {
        Ok(v) => v,
        Err(e) => {
            return Err(e);
        },
    };
    let debt: u64 = match calculate_total_borrow_usd(position) {
        Ok(v) => v,
        Err(e) => {
            return Err(e);
        },
    };
    let state: GadState = classify(debt, collateral, market);
    if state == GadState::Healthy {
        return Err(LegasiError::NothingToLiquidate);
    }
    // A breach means that some stablecoin debt is owed, so there is a target.
    let at: usize = match find_target(&position.borrows) {
        Some(i) => i,
        None => {
            return Err(LegasiError::NothingToLiquidate);
        },
    };
    let target: BorrowedAmount = position.borrows[at];
    proof {
        let values = position.borrows@.map_values(|b: BorrowedAmount| debt_value_usd(b));
        lemma_sum_remove(values, at as int);
        assert(values[at as int] == debt_value_usd(target));
        lemma_borrow_index(position.borrows@, target.asset_type, at as int);
    }
    let owed: u64 = target.amount + target.accrued_interest;
    let repay: u64 = repay_amount(state, owed, collateral, market.liquidation_bonus_bps);
    if repay == 0 {
        return Err(LegasiError::BelowCollateralFloor);
    }
    // The repayment is positive and no more than the target owes: the ledger accepts it.
    let (list, split) = match repay_entries(&position.borrows, target.asset_type, repay) {
        Ok(pair) => pair,
        Err(e) => {
            return Err(e);
        },
    };
    let balance: u64 = match find_collateral(&position.collaterals, AssetType::SOL) {
        Some(i) => position.collaterals[i].amount,
        None => 0,
    };
    let seized: u64 = seize_amount(
        repay,
        market.liquidation_bonus_bps,
        sol_price_feed.price_usd_6dec,
        balance,
    );
    let left: Vec<CollateralDeposit> = drain_entries(&position.collaterals, AssetType::SOL, seized);
    position.borrows = list;
    position.collaterals = left;
    position.reputation.gad_events = position.reputation.gad_events.saturating_add(1);
    position.total_gad_liquidated_usd = position.total_gad_liquidated_usd.saturating_add(repay);
    position.last_gad_crank = now;
    position.last_update = now;
    market.total_borrowed = market.total_borrowed.saturating_sub(split.principal_paid);
    market.total_collateral = market.total_collateral.saturating_sub(seized);
    Ok(GadAction { state, asset_type: target.asset_type, repaid_usd: repay, seized_sol: seized })
}

} // verus!
