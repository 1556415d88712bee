//! The single-asset credit line: native-token collateral against a USD
//! stablecoin debt, at a fixed price of $100 per native token and a fixed
//! bound of 50%.

use vstd::prelude::*;
use anchor_lang::prelude::Pubkey;

verus! {

/// Why a credit operation was refused.
#[derive(Clone, Copy, Debug, PartialEq, Eq, Structural)]
pub enum ErrorCode {
    InvalidAmount,
    MathOverflow,
    ExceedsLTV,
    InsufficientCollateral,
}

impl ErrorCode {
    /// The message of each failure, for use in contracts.
    pub open spec fn message_of(e: ErrorCode) -> &'static str {
        match e {
            ErrorCode::InvalidAmount => "Invalid amount",
            ErrorCode::MathOverflow => "Math overflow",
            ErrorCode::ExceedsLTV => "Exceeds maximum LTV (50%)",
            ErrorCode::InsufficientCollateral => "Insufficient collateral",
        }
    }

    /// The message shown to a user for this failure.
    pub fn message(&self) -> (text: &'static str)
        ensures
            text@ == Self::message_of(*self)@,
    {
        match self {
            ErrorCode::InvalidAmount => "Invalid amount",
            ErrorCode::MathOverflow => "Math overflow",
            ErrorCode::ExceedsLTV => "Exceeds maximum LTV (50%)",
            ErrorCode::InsufficientCollateral => "Insufficient collateral",
        }
    }
}

/// A credit position: one collateral balance in the native token's
/// smallest unit, one debt in USD with six decimals.
#[derive(Clone, Debug, PartialEq, Eq)]
pub struct Position {
    pub owner: Pubkey,
    pub collateral_amount: u64,
    pub borrowed_amount: u64,
    pub last_update: i64,
    pub bump: u8,
}

/// The price of the native token that the credit line assumes: $100, with
/// six decimals.
pub const FIXED_SOL_PRICE_USD: u64 = 100_000_000;

/// The largest debt that `collateral_amount` allows: half of its USD value
/// at the fixed price, each division rounded down.
pub open spec fn max_borrow_for(collateral_amount: u64) -> nat {
    (collateral_amount as nat) * 100_000_000 / 1_000_000_000 * 50 / 100
}

/// The largest debt that `collateral_amount` allows.
pub fn max_borrow(collateral_amount: u64) -> (limit: u64)
    ensures
        limit == max_borrow_for(collateral_amount),
{
    let value: u128 = (collateral_amount as u128) * (FIXED_SOL_PRICE_USD as u128)
        / 1_000_000_000u128;
    let limit: u128 = value * 50u128 / 100u128;
    limit as u64
}

/// Opens an empty credit position for `owner`.
pub fn initialize_position(owner: Pubkey, now: i64, bump: u8) -> (position: Position)
    ensures
        position == (Position {
            owner,
            collateral_amount: 0,
            borrowed_amount: 0,
            last_update: now,
            bump,
        }),
{
    Position { owner, collateral_amount: 0, borrowed_amount: 0, last_update: now, bump }
}

/// Adds `amount` to the collateral.
///
/// Fails with `InvalidAmount` on a zero amount and with `MathOverflow`
/// where the balance would pass `u64::MAX`.
pub fn deposit_collateral(position: &mut Position, amount: u64, now: i64) -> (outcome: Result<
    (),
    ErrorCode,
>)
    ensures
        match outcome {
            Ok(_) => amount > 0 && old(position).collateral_amount + amount <= u64::MAX
                && *final(position) == (Position {
                collateral_amount: (old(position).collateral_amount + amount) as u64,
                last_update: now,
                ..*old(position)
            }),
            Err(e) => *final(position) == *old(position) && (if amount == 0 {
                e == ErrorCode::InvalidAmount
            } else {
                e == ErrorCode::MathOverflow && old(position).collateral_amount + amount
                    > u64::MAX
            }),
        },
{
    if amount == 0 {
        return Err(ErrorCode::InvalidAmount);
    }
    if position.collateral_amount > u64::MAX - amount {
        return Err(ErrorCode::MathOverflow);
    }
    position.collateral_amount = position.collateral_amount + amount;
    position.last_update = now;
    Ok(())
}

/// Why a loan of `amount` is refused, if it is.
pub open spec fn borrow_refusal(position: &Position, amount: u64) -> Option<ErrorCode> {
    if amount == 0 {
        Some(ErrorCode::InvalidAmount)
    } else if position.borrowed_amount + amount > u64::MAX {
        Some(ErrorCode::MathOverflow)
    } else if position.borrowed_amount + amount > max_borrow_for(position.collateral_amount) {
        Some(ErrorCode::ExceedsLTV)
    } else {
        None
    }
}

/// Borrows `amount` against the collateral.
///
/// On success the debt grows by `amount` and stays within half of the
/// collateral's value.
pub fn borrow(position: &mut Position, amount: u64, now: i64) -> (outcome: Result<(), ErrorCode>)
    ensures
        match outcome {
            Ok(_) => borrow_refusal(old(position), amount) is None && *final(position) == (
            Position {
                borrowed_amount: (old(position).borrowed_amount + amount) as u64,
                last_update: now,
                ..*old(position)
            }) && final(position).borrowed_amount <= max_borrow_for(
                final(position).collateral_amount,
            ),
            Err(e) => borrow_refusal(old(position), amount) == Some(e) && *final(position) == *old(
                position,
            ),
        },
{
    if amount == 0 {
        return Err(ErrorCode::InvalidAmount);
    }
    let limit: u64 = max_borrow(position.collateral_amount);
    if position.borrowed_amount > u64::MAX - amount {
        return Err(ErrorCode::MathOverflow);
    }
    let new_borrowed: u64 = position.borrowed_amount + amount;
    if new_borrowed > limit {
        return Err(ErrorCode::ExceedsLTV);
    }
    position.borrowed_amount = new_borrowed;
    position.last_update = now;
    Ok(())
}

/// Repays up to `amount` of the debt and returns what was repaid: the
/// smaller of `amount` and the debt.
///
/// Fails with `InvalidAmount` exactly on a zero amount.
pub fn repay(position: &mut Position, amount: u64, now: i64) -> (outcome: Result<u64, ErrorCode>)
    ensures
        match outcome {
            Ok(repaid) => amount > 0 && repaid == (if amount <= old(position).borrowed_amount {
                amount
            } else {
                old(position).borrowed_amount
            }) && *final(position) == (Position {
                borrowed_amount: (old(position).borrowed_amount - repaid) as u64,
                last_update: now,
                ..*old(position)
            }),
            Err(e) => amount == 0 && e == ErrorCode::InvalidAmount && *final(position) == *old(
                position,
            ),
        },
{
    if amount == 0 {
        return Err(ErrorCode::InvalidAmount);
    }
    let repay_amount: u64 = if amount <= position.borrowed_amount {
        amount
    } else {
        position.borrowed_amount
    };
    position.borrowed_amount = position.borrowed_amount - repay_amount;
    position.last_update = now;
    Ok(repay_amount)
}

/// Why a withdrawal of `amount` is refused, if it is.
pub open spec fn withdraw_refusal(position: &Position, amount: u64) -> Option<ErrorCode> {
    if amount == 0 {
        Some(ErrorCode::InvalidAmount)
    } else if amount > position.collateral_amount {
        Some(ErrorCode::InsufficientCollateral)
    } else if position.borrowed_amount > 0 && position.borrowed_amount > max_borrow_for(
        (position.collateral_amount - amount) as u64,
    ) {
        Some(ErrorCode::ExceedsLTV)
    } else {
        None
    }
}

/// Withdraws `amount` of the collateral, if what is left still covers the
/// debt.
pub fn withdraw_collateral(position: &mut Position, amount: u64, now: i64) -> (outcome: Result<
    (),
    ErrorCode,
>)
    ensures
        match outcome {
            Ok(_) => withdraw_refusal(old(position), amount) is None && *final(position) == (
            Position {
                collateral_amount: (old(position).collateral_amount - amount) as u64,
                last_update: now,
                ..*old(position)
            }) && final(position).borrowed_amount <= max_borrow_for(
                final(position).collateral_amount,
            ),
            Err(e) => withdraw_refusal(old(position), amount) == Some(e) && *final(position)
                == *old(position),
        },
{
    if amount == 0 {
        return Err(ErrorCode::InvalidAmount);
    }
    if amount > position.collateral_amount {
        return Err(ErrorCode::InsufficientCollateral);
    }
    let remaining_collateral: u64 = position.collateral_amount - amount;
    if position.borrowed_amount > 0 {
        let limit: u64 = max_borrow(remaining_collateral);
        if position.borrowed_amount > limit {
            return Err(ErrorCode::ExceedsLTV);
        }
    }
    position.collateral_amount = remaining_collateral;
    position.last_update = now;
    Ok(())
}

} // verus!
