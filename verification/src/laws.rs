//! What holds of the operations taken together: the loan-to-value bound
//! across operations, the deposit and withdraw round trip, how the
//! reputation moves, and when the deleveraging crank refuses.

use vstd::prelude::*;
use vstd::arithmetic::div_mod::{lemma_div_is_ordered, lemma_fundamental_div_mod};
use crate::constants::{GAD_COOLDOWN_SECONDS, MAX_PRICE_AGE_SECONDS};
use crate::errors::LegasiError;
use crate::gad::{
    aggregates_overflow, crank_refusal, position_state, reputation_after_gad, GadState,
};
use crate::ledger::{
    after_repayment, credit_refusal, credited, debit_refusal, debited, lemma_collateral_index,
    repay_refusal, repayment_of, with_repayment,
};
use crate::lending::{less, reputation_after_repayment};
use crate::market::Market;
use crate::registry::feed_refusal;
use crate::risk::{
    borrow_value_usd, collateral_value_usd, debt_value_usd, deposit_value_usd, effective_ltv_bps,
    lemma_sum_push, lemma_sum_remove, lemma_sum_update, position_within_ltv, within_ltv,
    withdraw_check_refusal,
};
use crate::state::{
    borrow_index, borrows_wf, collateral_index, collaterals_wf, holds_collateral, ltv_bonus_of,
    score_of, AssetType, BorrowedAmount, CollateralDeposit, Position, PriceFeed, Reputation,
};

verus! {

/// The bound in its two forms: the debt times 10000 is at most the
/// collateral value times the bound exactly where the debt is at most the
/// collateral value times the bound over 10000, rounded down.
pub proof fn law_within_ltv_is_max_borrow(borrow_usd: nat, collateral_usd: nat, ltv_bps: nat)
    ensures
        within_ltv(borrow_usd, collateral_usd, ltv_bps) <==> borrow_usd <= collateral_usd * ltv_bps
            / 10_000,
{
    let x = (collateral_usd * ltv_bps) as int;
    let q = x / 10_000;
    lemma_fundamental_div_mod(x, 10_000);
    assert(x == 10_000 * q + x % 10_000);
    assert(0 <= x % 10_000 < 10_000);
    if borrow_usd <= q {
        assert(borrow_usd * 10_000 <= x);
    } else {
        assert(borrow_usd >= q + 1);
        assert(borrow_usd * 10_000 > x);
    }
}

/// A deposit never lowers the value of the collateral.
pub proof fn law_deposit_raises_collateral_value(
    entries: Seq<CollateralDeposit>,
    asset: AssetType,
    amount: u64,
    sol_price: u64,
)
    requires
        collaterals_wf(entries),
        credit_refusal(entries, asset, amount) is None,
    ensures
        collateral_value_usd(credited(entries, asset, amount), sol_price) >= collateral_value_usd(
            entries,
            sol_price,
        ),
{
    let value = |d: CollateralDeposit| deposit_value_usd(d, sol_price);
    let values = entries.map_values(value);
    if holds_collateral(entries, asset) {
        let i = collateral_index(entries, asset);
        let grown = CollateralDeposit {
            asset_type: asset,
            amount: (entries[i].amount + amount) as u64,
        };
        assert(entries.update(i, grown).map_values(value) == values.update(i, value(grown)));
        lemma_sum_update(values, i, value(grown));
        if asset == AssetType::SOL {
            let a = entries[i].amount as int;
            let b = grown.amount as int;
            let p = sol_price as int;
            assert(a * p <= b * p) by (nonlinear_arith)
                requires
                    a <= b,
                    p >= 0,
            ;
            lemma_div_is_ordered(a * p, b * p, 1_000_000_000);
        }
    } else {
        let added = CollateralDeposit { asset_type: asset, amount };
        assert(entries.push(added).map_values(value) == values.push(value(added)));
        lemma_sum_push(values, value(added));
    }
}

/// A deposit keeps a position within its loan-to-value bound: the debt is
/// as it was and the collateral is worth no less.
pub proof fn law_deposit_keeps_ltv(
    before: Position,
    after: Position,
    market: Market,
    asset: AssetType,
    amount: u64,
    sol_price: u64,
)
    requires
        before.wf(),
        credit_refusal(before.collaterals@, asset, amount) is None,
        after.collaterals@ == credited(before.collaterals@, asset, amount),
        after.borrows@ == before.borrows@,
        after.reputation == before.reputation,
        after.emode_category == before.emode_category,
        position_within_ltv(&before, &market, sol_price),
    ensures
        position_within_ltv(&after, &market, sol_price),
{
    law_deposit_raises_collateral_value(before.collaterals@, asset, amount, sol_price);
    let debt = borrow_value_usd(before.borrows@);
    let bound = effective_ltv_bps(&before, &market);
    let low = collateral_value_usd(before.collaterals@, sol_price);
    let high = collateral_value_usd(after.collaterals@, sol_price);
    assert(low * bound <= high * bound) by (nonlinear_arith)
        requires
            low <= high,
            bound >= 0,
    ;
}

/// A repayment never raises the value of the debts.
pub proof fn law_repayment_lowers_debt_value(
    entries: Seq<BorrowedAmount>,
    asset: AssetType,
    amount: u64,
)
    requires
        borrows_wf(entries),
        repay_refusal(entries, asset, amount) is None,
    ensures
        borrow_value_usd(with_repayment(entries, asset, amount)) <= borrow_value_usd(entries),
{
    let value = |b: BorrowedAmount| debt_value_usd(b);
    let values = entries.map_values(value);
    let i = borrow_index(entries, asset);
    let rest = after_repayment(entries[i], amount);
    if rest.amount == 0 && rest.accrued_interest == 0 {
        assert(entries.remove(i).map_values(value) == values.remove(i));
        lemma_sum_remove(values, i);
    } else {
        assert(entries.update(i, rest).map_values(value) == values.update(i, value(rest)));
        lemma_sum_update(values, i, value(rest));
    }
}

/// A repayment keeps a position within its loan-to-value bound: the debt
/// is worth no more, and the reputation bonus is no smaller.
pub proof fn law_repay_keeps_ltv(
    before: Position,
    after: Position,
    market: Market,
    asset: AssetType,
    amount: u64,
    sol_price: u64,
)
    requires
        before.wf(),
        repay_refusal(before.borrows@, asset, amount) is None,
        after.borrows@ == with_repayment(before.borrows@, asset, amount),
        after.collaterals@ == before.collaterals@,
        after.reputation == reputation_after_repayment(
            before.reputation,
            repayment_of(before.borrows@[borrow_index(before.borrows@, asset)], amount).paid,
        ),
        after.emode_category == before.emode_category,
        position_within_ltv(&before, &market, sol_price),
    ensures
        position_within_ltv(&after, &market, sol_price),
{
    law_repayment_lowers_debt_value(before.borrows@, asset, amount);
    law_repayment_never_lowers_score(
        before.reputation,
        repayment_of(before.borrows@[borrow_index(before.borrows@, asset)], amount).paid,
    );
    let value = collateral_value_usd(before.collaterals@, sol_price);
    let low = effective_ltv_bps(&before, &market);
    let high = effective_ltv_bps(&after, &market);
    assert(value * low <= value * high) by (nonlinear_arith)
        requires
            low <= high,
            value >= 0,
    ;
}

/// A position without debt is within every loan-to-value bound, so the
/// eMode switch, which is only open to such a position, cannot leave it.
pub proof fn law_no_debt_is_within_ltv(position: Position, market: Market, sol_price: u64)
    requires
        position.borrows@.len() == 0,
    ensures
        position_within_ltv(&position, &market, sol_price),
{
    assert(position.borrows@.map_values(|b: BorrowedAmount| debt_value_usd(b)).len() == 0);
}

/// Depositing an amount and withdrawing the same amount gives back the
/// collateral list, entry for entry, and with it the collateral value; a
/// running total that grew by the amount is back where it was.
pub proof fn law_deposit_withdraw_round_trip(
    entries: Seq<CollateralDeposit>,
    asset: AssetType,
    amount: u64,
    sol_price: u64,
    total: u64,
)
    requires
        collaterals_wf(entries),
        credit_refusal(entries, asset, amount) is None,
        total + amount <= u64::MAX,
    ensures
        collaterals_wf(credited(entries, asset, amount)),
        debit_refusal(credited(entries, asset, amount), asset, amount) is None,
        debited(credited(entries, asset, amount), asset, amount) == entries,
        collateral_value_usd(debited(credited(entries, asset, amount), asset, amount), sol_price)
            == collateral_value_usd(entries, sol_price),
        less((total + amount) as u64, amount) == total,
{
    let mid = credited(entries, asset, amount);
    if holds_collateral(entries, asset) {
        let i = collateral_index(entries, asset);
        assert(collaterals_wf(mid));
        lemma_collateral_index(mid, asset, i);
        assert(debited(mid, asset, amount) == entries);
    } else {
        let i = entries.len() as int;
        assert(collaterals_wf(mid));
        lemma_collateral_index(mid, asset, i);
        assert(debited(mid, asset, amount) == entries);
    }
}

/// After a deposit into a position that has no debt, or that is within
/// its bound with aggregates that fit in 64 bits, the withdrawal of the
/// same amount is accepted.
pub proof fn law_withdraw_after_deposit_is_accepted(
    before: Position,
    mid: Position,
    market: Market,
    asset: AssetType,
    amount: u64,
    sol_price: u64,
)
    requires
        before.wf(),
        credit_refusal(before.collaterals@, asset, amount) is None,
        mid.collaterals@ == credited(before.collaterals@, asset, amount),
        mid.borrows@ == before.borrows@,
        mid.reputation == before.reputation,
        mid.emode_category == before.emode_category,
        before.borrows@.len() == 0 || (position_within_ltv(&before, &market, sol_price)
            && !aggregates_overflow(&before, sol_price)),
    ensures
        withdraw_check_refusal(&mid, &market, asset, amount, sol_price) is None,
{
    law_deposit_withdraw_round_trip(before.collaterals@, asset, amount, sol_price, 0);
}

/// A pool's receipt-token total covers the stakes recorded against it
/// across a wrap and an unwrap: where it covered this user's stake and the
/// stakes of all `others` before, it covers them after.
pub proof fn law_pool_covers_stakes(
    stake_tokens: u64,
    total_stake_tokens: u64,
    others: nat,
    amount: u64,
)
    requires
        stake_tokens + others <= total_stake_tokens,
    ensures
        total_stake_tokens + amount <= u64::MAX ==> (stake_tokens + amount) + others
            <= total_stake_tokens + amount,
        amount <= stake_tokens ==> (stake_tokens - amount) + others <= less(
            total_stake_tokens,
            amount,
        ),
{
}

/// One more repayment never lowers the score, and one more deleveraging
/// event never raises it: it takes 100 points, or all where fewer are
/// left.
pub proof fn law_score_moves(repayments: nat, age_days: nat, gad_events: nat)
    ensures
        score_of(repayments + 1, age_days, gad_events) >= score_of(
            repayments,
            age_days,
            gad_events,
        ),
        score_of(repayments, age_days, gad_events + 1) <= score_of(
            repayments,
            age_days,
            gad_events,
        ),
        score_of(repayments, age_days, gad_events + 1) == (if score_of(
            repayments,
            age_days,
            gad_events,
        ) >= 100 {
            (score_of(repayments, age_days, gad_events) - 100) as nat
        } else {
            0
        }),
{
}

/// The bonus tiers begin at 100, 200 and 400 points, each boundary
/// included, and a higher score never earns a smaller bonus.
pub proof fn law_bonus_tiers(score: nat, higher: nat)
    requires
        score <= higher,
    ensures
        ltv_bonus_of(score) == 0 <==> score < 100,
        ltv_bonus_of(score) == 100 <==> 100 <= score < 200,
        ltv_bonus_of(score) == 300 <==> 200 <= score < 400,
        ltv_bonus_of(score) == 500 <==> 400 <= score,
        ltv_bonus_of(score) <= ltv_bonus_of(higher),
{
}

/// The reputation after a repayment scores no lower and earns no smaller
/// bonus than before.
pub proof fn law_repayment_never_lowers_score(reputation: Reputation, paid: u64)
    ensures
        reputation_after_repayment(reputation, paid).spec_score() >= reputation.spec_score(),
        reputation_after_repayment(reputation, paid).spec_ltv_bonus_bps()
            >= reputation.spec_ltv_bonus_bps(),
{
    if reputation.successful_repayments < u32::MAX {
        law_score_moves(
            reputation.successful_repayments as nat,
            reputation.account_age_days as nat,
            reputation.gad_events as nat,
        );
    }
}

/// The reputation after a deleveraging event scores no higher and earns
/// no larger bonus than before.
pub proof fn law_gad_event_never_raises_score(reputation: Reputation)
    ensures
        reputation_after_gad(reputation).spec_score() <= reputation.spec_score(),
        reputation_after_gad(reputation).spec_ltv_bonus_bps() <= reputation.spec_ltv_bonus_bps(),
{
    if reputation.gad_events < u32::MAX {
        law_score_moves(
            reputation.successful_repayments as nat,
            reputation.account_age_days as nat,
            reputation.gad_events as nat,
        );
    }
}

/// A crank before the cooldown has elapsed is refused as too soon,
/// whatever else holds of the position and the market.
pub proof fn law_crank_before_cooldown(
    position: Position,
    market: Market,
    sol_price_feed: PriceFeed,
    now: i64,
)
    requires
        now - position.last_gad_crank < GAD_COOLDOWN_SECONDS,
    ensures
        crank_refusal(&position, &market, &sol_price_feed, now) == Some(LegasiError::CrankTooSoon),
{
}

/// A crank on a healthy position is refused as having nothing to
/// liquidate, once the cooldown has elapsed, where deleveraging is enabled,
/// the position has debt, the market's thresholds are in order, the price
/// is accepted and the aggregates fit in 64 bits.
pub proof fn law_crank_on_healthy_position(
    position: Position,
    market: Market,
    sol_price_feed: PriceFeed,
    now: i64,
)
    requires
        position_state(&position, &market, sol_price_feed.price_usd_6dec) == GadState::Healthy,
        now - position.last_gad_crank >= GAD_COOLDOWN_SECONDS,
        position.gad_enabled,
        position.borrows@.len() > 0,
        market.wf(),
        feed_refusal(&sol_price_feed, AssetType::SOL, now, MAX_PRICE_AGE_SECONDS) is None,
        !aggregates_overflow(&position, sol_price_feed.price_usd_6dec),
    ensures
        crank_refusal(&position, &market, &sol_price_feed, now) == Some(
            LegasiError::NothingToLiquidate,
        ),
{
}

} // verus!
