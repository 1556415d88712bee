//! Interest accrual: what a debt earns the lenders between two updates
//! of a position, at an annual rate in basis points.

use vstd::prelude::*;
use crate::constants::{BPS_DENOMINATOR, SECONDS_PER_YEAR};
use crate::errors::LegasiError;
use crate::state::{BorrowedAmount, Position};

verus! {

/// Interest on `amount` at `rate_bps` a year over `elapsed` seconds,
/// rounded down after each division.
pub open spec fn interest_due(amount: u64, rate_bps: u64, elapsed: u64) -> nat {
    (amount as nat) * (rate_bps as nat) * (elapsed as nat) / (SECONDS_PER_YEAR as nat) / (
    BPS_DENOMINATOR as nat)
}

/// Whether accruing on `debt` leaves the range of the arithmetic: the
/// product does not fit in 128 bits, or the accrued interest would pass
/// `u64::MAX`.
pub open spec fn accrual_overflows(debt: BorrowedAmount, rate_bps: u64, elapsed: u64) -> bool {
    (debt.amount as nat) * (rate_bps as nat) * (elapsed as nat) > u128::MAX
        || debt.accrued_interest + interest_due(debt.amount, rate_bps, elapsed) > u64::MAX
}

/// The debt after interest for `elapsed` seconds was added to it.
pub open spec fn accrued(debt: BorrowedAmount, rate_bps: u64, elapsed: u64) -> BorrowedAmount {
    BorrowedAmount {
        accrued_interest: (debt.accrued_interest + interest_due(debt.amount, rate_bps, elapsed))
            as u64,
        ..debt
    }
}

/// The seconds from `last_update` to `now`; none where `now` is not later.
pub open spec fn elapsed_between(last_update: i64, now: i64) -> u64 {
    if now > last_update {
        (now - last_update) as u64
    } else {
        0
    }
}

/// Adds the interest of `elapsed` seconds at `rate_bps` a year to a debt.
///
/// Fails with `MathOverflow` exactly where the arithmetic leaves its range.
pub fn accrue_debt(debt: &BorrowedAmount, rate_bps: u64, elapsed: u64) -> (outcome: Result<
    BorrowedAmount,
    LegasiError,
>)
    ensures
        match outcome {
            Ok(grown) => !accrual_overflows(*debt, rate_bps, elapsed) && grown == accrued(
                *debt,
                rate_bps,
                elapsed,
            ),
            Err(e) => e == LegasiError::MathOverflow && accrual_overflows(*debt, rate_bps, elapsed),
        },
{
    assert((debt.amount as nat) * (rate_bps as nat) <= 0xFFFF_FFFF_FFFF_FFFF
        * 0xFFFF_FFFF_FFFF_FFFF) by (nonlinear_arith)
        requires
            debt.amount <= 0xFFFF_FFFF_FFFF_FFFF,
            rate_bps <= 0xFFFF_FFFF_FFFF_FFFF,
    ;
    let yearly: u128 = (debt.amount as u128) * (rate_bps as u128);
    let weighted: u128 = match yearly.checked_mul(elapsed as u128) {
        Some(w) => w,
        None => {
            return Err(LegasiError::MathOverflow);
        },
    };
    let due: u128 = weighted / (SECONDS_PER_YEAR as u128) / (BPS_DENOMINATOR as u128);
    if due > (u64::MAX - debt.accrued_interest) as u128 {
        return Err(LegasiError::MathOverflow);
    }
    Ok(
        BorrowedAmount {
            asset_type: debt.asset_type,
            amount: debt.amount,
            accrued_interest: debt.accrued_interest + due as u64,
        },
    )
}

/// Adds to every debt of a position the interest since its last update,
/// at `rate_bps` a year, and records `now` as the time of the update.
///
/// Fails with `MathOverflow`, and changes nothing, exactly where the
/// arithmetic leaves its range for one of the debts.
pub fn accrue_interest(position: &mut Position, rate_bps: u64, now: i64) -> (outcome: Result<
    (),
    LegasiError,
>)
    requires
        old(position).wf(),
    ensures
        match outcome {
            Ok(_) => {
                &&& forall|i: int|
                    0 <= i < old(position).borrows@.len() ==> !accrual_overflows(
                        #[trigger] old(position).borrows@[i],
                        rate_bps,
                        elapsed_between(old(position).last_update, now),
                    )
                &&& final(position).borrows@ == old(position).borrows@.map_values(
                    |b: BorrowedAmount|
                        accrued(b, rate_bps, elapsed_between(old(position).last_update, now)),
                )
                &&& *final(position) == (Position {
                    borrows: final(position).borrows,
                    last_update: now,
                    ..*old(position)
                })
                &&& final(position).wf()
            },
            Err(e) => {
                &&& e == LegasiError::MathOverflow
                &&& exists|i: int|
                    0 <= i < old(position).borrows@.len() && accrual_overflows(
                        #[trigger] old(position).borrows@[i],
                        rate_bps,
                        elapsed_between(old(position).last_update, now),
                    )
                &&& *final(position) == *old(position)
            },
        },
{
    let elapsed: u64 = if now > position.last_update {
        (now as i128 - position.last_update as i128) as u64
    } else {
        0
    };
    let ghost before = position.borrows@;
    assert(elapsed == elapsed_between(position.last_update, now));
    let mut list: Vec<BorrowedAmount> = Vec::new();
    let mut i: usize = 0;
    while i < position.borrows.len()
        invariant
            i <= position.borrows.len(),
            position.borrows@ == before,
            *position == *old(position),
            list@.len() == i,
            before == old(position).borrows@,
            elapsed == elapsed_between(old(position).last_update, now),
            forall|j: int|
                0 <= j < i ==> !accrual_overflows(#[trigger] before[j], rate_bps, elapsed)
                    && list@[j] == accrued(before[j], rate_bps, elapsed),
        decreases position.borrows.len() - i,
    {
        match accrue_debt(&position.borrows[i], rate_bps, elapsed) {
            Ok(grown) => {
                list.push(grown);
            },
            Err(e) => {
                assert(accrual_overflows(before[i as int], rate_bps, elapsed));
                return Err(e);
            },
        }
        i += 1;
    }
    assert(list@ == before.map_values(|b: BorrowedAmount| accrued(b, rate_bps, elapsed)));
    position.borrows = list;
    position.last_update = now;
    Ok(())
}

} // verus!
