//! The position ledger: find-or-insert and remove-when-empty bookkeeping
//! on the two bounded lists of a position.
//!
//! Every function here builds the new list beside the old one, so a caller
//! can validate the outcome before it commits anything.

use vstd::prelude::*;

use crate::constants::{MAX_BORROW_TYPES, MAX_COLLATERAL_TYPES};
use crate::errors::LegasiError;
use crate::state::{
    borrow_index, borrows_wf, collateral_balance, collateral_index, collaterals_wf, holds_borrow,
    holds_collateral, AssetType, BorrowedAmount, CollateralDeposit,
};

verus! {

/// The list after `amount` of `asset` was added: on the asset's entry where
/// there is one, else as a new last entry.
pub open spec fn credited(entries: Seq<CollateralDeposit>, asset: AssetType, amount: u64) -> Seq<
    CollateralDeposit,
> {
    if holds_collateral(entries, asset) {
        let i = collateral_index(entries, asset);
        entries.update(
            i,
            CollateralDeposit { asset_type: asset, amount: (entries[i].amount + amount) as u64 },
        )
    } else {
        entries.push(CollateralDeposit { asset_type: asset, amount })
    }
}

/// The list after `amount` of `asset` was taken: the entry shrinks, and
/// leaves the list when nothing remains of it.
pub open spec fn debited(entries: Seq<CollateralDeposit>, asset: AssetType, amount: u64) -> Seq<
    CollateralDeposit,
> {
    let i = collateral_index(entries, asset);
    if entries[i].amount == amount {
        entries.remove(i)
    } else {
        entries.update(
            i,
            CollateralDeposit { asset_type: asset, amount: (entries[i].amount - amount) as u64 },
        )
    }
}

/// The list after up to `amount` of `asset` was taken: an entry that holds
/// no more than `amount` leaves the list, a larger one shrinks, and a list
/// without the asset stays as it is.
pub open spec fn drained(entries: Seq<CollateralDeposit>, asset: AssetType, amount: u64) -> Seq<
    CollateralDeposit,
> {
    if !holds_collateral(entries, asset) {
        entries
    } else {
        let i = collateral_index(entries, asset);
        if entries[i].amount <= amount {
            entries.remove(i)
        } else {
            entries.update(
                i,
                CollateralDeposit { asset_type: asset, amount: (entries[i].amount - amount) as u64 },
            )
        }
    }
}

/// Why adding `amount` of `asset` is refused, if it is.
pub open spec fn credit_refusal(entries: Seq<CollateralDeposit>, asset: AssetType, amount: u64)
    -> Option<LegasiError> {
    if amount == 0 {
        Some(LegasiError::InvalidAmount)
    } else if holds_collateral(entries, asset) {
        if collateral_balance(entries, asset) + amount > u64::MAX {
            Some(LegasiError::MathOverflow)
        } else {
            None
        }
    } else if entries.len() >= MAX_COLLATERAL_TYPES {
        Some(LegasiError::MaxCollateralTypesReached)
    } else {
        None
    }
}

/// Why taking `amount` of `asset` is refused, if it is.
pub open spec fn debit_refusal(entries: Seq<CollateralDeposit>, asset: AssetType, amount: u64)
    -> Option<LegasiError> {
    if amount == 0 {
        Some(LegasiError::InvalidAmount)
    } else if collateral_balance(entries, asset) < amount {
        Some(LegasiError::InsufficientCollateral)
    } else {
        None
    }
}

/// The debt list after `amount` of `asset` was lent: added to the principal
/// of the asset's entry where there is one, else a new last entry without
/// interest.
pub open spec fn with_debt(entries: Seq<BorrowedAmount>, asset: AssetType, amount: u64) -> Seq<
    BorrowedAmount,
> {
    if holds_borrow(entries, asset) {
        let i = borrow_index(entries, asset);
        entries.update(
            i,
            BorrowedAmount {
                asset_type: asset,
                amount: (entries[i].amount + amount) as u64,
                accrued_interest: entries[i].accrued_interest,
            },
        )
    } else {
        entries.push(BorrowedAmount { asset_type: asset, amount, accrued_interest: 0 })
    }
}

/// Why lending `amount` of `asset` is refused by the ledger, if it is.
pub open spec fn debt_refusal(entries: Seq<BorrowedAmount>, asset: AssetType, amount: u64)
    -> Option<LegasiError> {
    if amount == 0 {
        Some(LegasiError::InvalidAmount)
    } else if holds_borrow(entries, asset) {
        if entries[borrow_index(entries, asset)].amount + amount > u64::MAX {
            Some(LegasiError::MathOverflow)
        } else {
            None
        }
    } else if entries.len() >= MAX_BORROW_TYPES {
        Some(LegasiError::MaxBorrowTypesReached)
    } else {
        None
    }
}

/// How a repayment was applied.
#[derive(Clone, Copy, Debug, PartialEq, Eq, Structural)]
pub struct Repayment {
    /// What was taken from the payer: the offered amount, capped at what
    /// was owed.
    pub paid: u64,
    /// The part of `paid` that went to accrued interest.
    pub interest_paid: u64,
    /// The part of `paid` that went to principal.
    pub principal_paid: u64,
}

/// Interest first, then principal: how `amount` is applied to `debt`.
pub open spec fn repayment_of(debt: BorrowedAmount, amount: u64) -> Repayment {
    let owed = debt.amount + debt.accrued_interest;
    let paid = if amount <= owed { amount as int } else { owed };
    let interest_paid = if paid <= debt.accrued_interest {
        paid
    } else {
        debt.accrued_interest as int
    };
    Repayment {
        paid: paid as u64,
        interest_paid: interest_paid as u64,
        principal_paid: (paid - interest_paid) as u64,
    }
}

/// The debt that remains after `amount` was applied to `debt`.
pub open spec fn after_repayment(debt: BorrowedAmount, amount: u64) -> BorrowedAmount {
    let split = repayment_of(debt, amount);
    BorrowedAmount {
        asset_type: debt.asset_type,
        amount: (debt.amount - split.principal_paid) as u64,
        accrued_interest: (debt.accrued_interest - split.interest_paid) as u64,
    }
}

/// The debt list after `amount` was repaid on the debt in `asset`; a debt
/// that is paid off leaves the list.
pub open spec fn with_repayment(entries: Seq<BorrowedAmount>, asset: AssetType, amount: u64) -> Seq<
    BorrowedAmount,
> {
    let i = borrow_index(entries, asset);
    let rest = after_repayment(entries[i], amount);
    if rest.amount == 0 && rest.accrued_interest == 0 {
        entries.remove(i)
    } else {
        entries.update(i, rest)
    }
}

/// Why repaying `amount` on the debt in `asset` is refused, if it is.
pub open spec fn repay_refusal(entries: Seq<BorrowedAmount>, asset: AssetType, amount: u64)
    -> Option<LegasiError> {
    if amount == 0 {
        Some(LegasiError::InvalidAmount)
    } else if !holds_borrow(entries, asset) {
        Some(LegasiError::PositionNotFound)
    } else {
        let debt = entries[borrow_index(entries, asset)];
        if debt.amount + debt.accrued_interest > u64::MAX {
            Some(LegasiError::MathOverflow)
        } else {
            None
        }
    }
}

/// In a list without repeated assets, an entry's place is the place that
/// `collateral_index` names.
pub proof fn lemma_collateral_index(entries: Seq<CollateralDeposit>, asset: AssetType, i: int)
    requires
        collaterals_wf(entries),
        0 <= i < entries.len(),
        entries[i].asset_type == asset,
    ensures
        holds_collateral(entries, asset),
        collateral_index(entries, asset) == i,
        collateral_balance(entries, asset) == entries[i].amount,
{
    let j = collateral_index(entries, asset);
    assert(0 <= j < entries.len() && entries[j].asset_type == asset);
    if j < i {
        assert(entries[j].asset_type != entries[i].asset_type);
    } else if i < j {
        assert(entries[i].asset_type != entries[j].asset_type);
    }
}

/// In a list without repeated assets, an entry's place is the place that
/// `borrow_index` names.
pub proof fn lemma_borrow_index(entries: Seq<BorrowedAmount>, asset: AssetType, i: int)
    requires
        borrows_wf(entries),
        0 <= i < entries.len(),
        entries[i].asset_type == asset,
    ensures
        holds_borrow(entries, asset),
        borrow_index(entries, asset) == i,
{
    let j = borrow_index(entries, asset);
    assert(0 <= j < entries.len() && entries[j].asset_type == asset);
    if j < i {
        assert(entries[j].asset_type != entries[i].asset_type);
    } else if i < j {
        assert(entries[i].asset_type != entries[j].asset_type);
    }
}

/// The place of the entry of `asset`, if the list has one.
pub fn find_collateral(entries: &Vec<CollateralDeposit>, asset: AssetType) -> (found: Option<usize>)
    requires
        collaterals_wf(entries@),
    ensures
        match found {
            Some(i) => holds_collateral(entries@, asset) && i == collateral_index(entries@, asset)
                && i < entries.len() && entries[i as int].asset_type == asset,
            None => !holds_collateral(entries@, asset),
        },
{
    let mut i: usize = 0;
    while i < entries.len()
        invariant
            i <= entries.len(),
            collaterals_wf(entries@),
            forall|j: int| 0 <= j < i ==> (#[trigger] entries[j]).asset_type != asset,
        decreases entries.len() - i,
    {
        if entries[i].asset_type == asset {
            proof {
                lemma_collateral_index(entries@, asset, i as int);
            }
            return Some(i);
        }
        i += 1;
    }
    None
}

/// The place of the debt in `asset`, if the list has one.
pub fn find_borrow(entries: &Vec<BorrowedAmount>, asset: AssetType) -> (found: Option<usize>)
    requires
        borrows_wf(entries@),
    ensures
        match found {
            Some(i) => holds_borrow(entries@, asset) && i == borrow_index(entries@, asset) && i
                < entries.len() && entries[i as int].asset_type == asset,
            None => !holds_borrow(entries@, asset),
        },
{
    let mut i: usize = 0;
    while i < entries.len()
        invariant
            i <= entries.len(),
            borrows_wf(entries@),
            forall|j: int| 0 <= j < i ==> (#[trigger] entries[j]).asset_type != asset,
        decreases entries.len() - i,
    {
        if entries[i].asset_type == asset {
            proof {
                lemma_borrow_index(entries@, asset, i as int);
            }
            return Some(i);
        }
        i += 1;
    }
    None
}

/// A copy of a collateral list.
pub fn copy_collaterals(entries: &Vec<CollateralDeposit>) -> (copy: Vec<CollateralDeposit>)
    ensures
        copy@ == entries@,
{
    let mut copy: Vec<CollateralDeposit> = Vec::new();
    let mut i: usize = 0;
    while i < entries.len()
        invariant
            i <= entries.len(),
            copy@ == entries@.take(i as int),
        decreases entries.len() - i,
    {
        copy.push(entries[i]);
        assert(entries@.take(i + 1) == entries@.take(i as int).push(entries[i as int]));
        i += 1;
    }
    assert(entries@.take(entries.len() as int) == entries@);
    copy
}

/// A copy of a debt list.
pub fn copy_borrows(entries: &Vec<BorrowedAmount>) -> (copy: Vec<BorrowedAmount>)
    ensures
        copy@ == entries@,
{
    let mut copy: Vec<BorrowedAmount> = Vec::new();
    let mut i: usize = 0;
    while i < entries.len()
        invariant
            i <= entries.len(),
            copy@ == entries@.take(i as int),
        decreases entries.len() - i,
    {
        copy.push(entries[i]);
        assert(entries@.take(i + 1) == entries@.take(i as int).push(entries[i as int]));
        i += 1;
    }
    assert(entries@.take(entries.len() as int) == entries@);
    copy
}

/// Adds `amount` of `asset` to a collateral list.
///
/// Fails with `InvalidAmount` on a zero amount, `MathOverflow` where the
/// balance would pass `u64::MAX`, and `MaxCollateralTypesReached` where a
/// new entry is needed and the list is full.
pub fn credit_entries(entries: &Vec<CollateralDeposit>, asset: AssetType, amount: u64) -> (outcome:
    Result<Vec<CollateralDeposit>, LegasiError>)
    requires
        collaterals_wf(entries@),
    ensures
        match outcome {
            Ok(list) => credit_refusal(entries@, asset, amount) is None && list@ == credited(
                entries@,
                asset,
                amount,
            ) && collaterals_wf(list@),
            Err(e) => credit_refusal(entries@, asset, amount) == Some(e),
        },
{
    if amount == 0 {
        return Err(LegasiError::InvalidAmount);
    }
    match find_collateral(entries, asset) {
        Some(i) => {
            let held: u64 = entries[i].amount;
            if held > u64::MAX - amount {
                return Err(LegasiError::MathOverflow);
            }
            let mut list = copy_collaterals(entries);
            list.set(i, CollateralDeposit { asset_type: asset, amount: held + amount });
            Ok(list)
        },
        None => {
            if entries.len() >= MAX_COLLATERAL_TYPES {
                return Err(LegasiError::MaxCollateralTypesReached);
            }
            let mut list = copy_collaterals(entries);
            list.push(CollateralDeposit { asset_type: asset, amount });
            Ok(list)
        },
    }
}

/// Takes `amount` of `asset` from a collateral list.
///
/// Fails with `InvalidAmount` on a zero amount and with
/// `InsufficientCollateral` where the list holds less than `amount`.
pub fn debit_entries(entries: &Vec<CollateralDeposit>, asset: AssetType, amount: u64) -> (outcome:
    Result<Vec<CollateralDeposit>, LegasiError>)
    requires
        collaterals_wf(entries@),
    ensures
        match outcome {
            Ok(list) => debit_refusal(entries@, asset, amount) is None && list@ == debited(
                entries@,
                asset,
                amount,
            ) && collaterals_wf(list@),
            Err(e) => debit_refusal(entries@, asset, amount) == Some(e),
        },
{
    if amount == 0 {
        return Err(LegasiError::InvalidAmount);
    }
    match find_collateral(entries, asset) {
        Some(i) => {
            let held: u64 = entries[i].amount;
            if held < amount {
                return Err(LegasiError::InsufficientCollateral);
            }
            let mut list = copy_collaterals(entries);
            if held == amount {
                list.remove(i);
            } else {
                list.set(i, CollateralDeposit { asset_type: asset, amount: held - amount });
            }
            Ok(list)
        },
        None => Err(LegasiError::InsufficientCollateral),
    }
}

/// Takes up to `amount` of `asset` from a collateral list: all of the
/// balance where it is smaller.
pub fn drain_entries(entries: &Vec<CollateralDeposit>, asset: AssetType, amount: u64) -> (list:
    Vec<CollateralDeposit>)
    requires
        collaterals_wf(entries@),
    ensures
        list@ == drained(entries@, asset, amount),
        collaterals_wf(list@),
{
    let mut list = copy_collaterals(entries);
    match find_collateral(entries, asset) {
        Some(i) => {
            let held: u64 = entries[i].amount;
            if held <= amount {
                list.remove(i);
            } else {
                list.set(i, CollateralDeposit { asset_type: asset, amount: held - amount });
            }
        },
        None => {},
    }
    list
}

/// Adds a loan of `amount` of `asset` to a debt list.
///
/// Fails with `InvalidAmount` on a zero amount, `MathOverflow` where the
/// principal would pass `u64::MAX`, and `MaxBorrowTypesReached` where a new
/// entry is needed and the list is full.
pub fn debt_entries(entries: &Vec<BorrowedAmount>, asset: AssetType, amount: u64) -> (outcome:
    Result<Vec<BorrowedAmount>, LegasiError>)
    requires
        borrows_wf(entries@),
    ensures
        match outcome {
            Ok(list) => debt_refusal(entries@, asset, amount) is None && list@ == with_debt(
                entries@,
                asset,
                amount,
            ) && borrows_wf(list@),
            Err(e) => debt_refusal(entries@, asset, amount) == Some(e),
        },
{
    if amount == 0 {
        return Err(LegasiError::InvalidAmount);
    }
    match find_borrow(entries, asset) {
        Some(i) => {
            let debt: BorrowedAmount = entries[i];
            if debt.amount > u64::MAX - amount {
                return Err(LegasiError::MathOverflow);
            }
            let mut list = copy_borrows(entries);
            list.set(
                i,
                BorrowedAmount {
                    asset_type: asset,
                    amount: debt.amount + amount,
                    accrued_interest: debt.accrued_interest,
                },
            );
            Ok(list)
        },
        None => {
            if entries.len() >= MAX_BORROW_TYPES {
                return Err(LegasiError::MaxBorrowTypesReached);
            }
            let mut list = copy_borrows(entries);
            list.push(BorrowedAmount { asset_type: asset, amount, accrued_interest: 0 });
            Ok(list)
        },
    }
}

/// Applies `amount` to one debt, interest first, and returns what is left
/// of the debt and how the payment was applied.
pub fn split_repayment(debt: &BorrowedAmount, amount: u64) -> (outcome: (
    BorrowedAmount,
    Repayment,
))
    ensures
        outcome.0 == after_repayment(*debt, amount),
        outcome.1 == repayment_of(*debt, amount),
        outcome.1.paid == outcome.1.interest_paid + outcome.1.principal_paid,
        outcome.1.paid <= amount,
        outcome.0.amount + outcome.0.accrued_interest + outcome.1.paid == debt.amount
            + debt.accrued_interest,
{
    let owed: u128 = debt.amount as u128 + debt.accrued_interest as u128;
    let paid: u64 = if amount as u128 <= owed {
        amount
    } else {
        owed as u64
    };
    let interest_paid: u64 = if paid <= debt.accrued_interest {
        paid
    } else {
        debt.accrued_interest
    };
    let principal_paid: u64 = paid - interest_paid;
    (
        BorrowedAmount {
            asset_type: debt.asset_type,
            amount: debt.amount - principal_paid,
            accrued_interest: debt.accrued_interest - interest_paid,
        },
        Repayment { paid, interest_paid, principal_paid },
    )
}

/// Repays `amount` on the debt in `asset`, at most what is owed, interest
/// before principal.
///
/// Fails with `InvalidAmount` on a zero amount, `PositionNotFound` where
/// there is no debt in `asset`, and `MathOverflow` where principal and
/// interest together pass `u64::MAX`.
pub fn repay_entries(entries: &Vec<BorrowedAmount>, asset: AssetType, amount: u64) -> (outcome:
    Result<(Vec<BorrowedAmount>, Repayment), LegasiError>)
    requires
        borrows_wf(entries@),
    ensures
        match outcome {
            Ok((list, split)) => repay_refusal(entries@, asset, amount) is None && list@
                == with_repayment(entries@, asset, amount) && split == repayment_of(
                entries@[borrow_index(entries@, asset)],
                amount,
            ) && borrows_wf(list@),
            Err(e) => repay_refusal(entries@, asset, amount) == Some(e),
        },
{
    if amount == 0 {
        return Err(LegasiError::InvalidAmount);
    }
    match find_borrow(entries, asset) {
        Some(i) => {
            let debt: BorrowedAmount = entries[i];
            if debt.amount > u64::MAX - debt.accrued_interest {
                return Err(LegasiError::MathOverflow);
            }
            let (rest, split) = split_repayment(&debt, amount);
            let mut list = copy_borrows(entries);
            if rest.amount == 0 && rest.accrued_interest == 0 {
                list.remove(i);
            } else {
                list.set(i, rest);
            }
            Ok((list, split))
        },
        None => Err(LegasiError::PositionNotFound),
    }
}

} // verus!
