//! Staking conversion: native-token collateral is wrapped into a
//! yield-bearing receipt token and unwrapped again at the provider's
//! exchange rate, with the position, the user's stake record and the pool
//! totals updated together.

use vstd::prelude::*;
use anchor_lang::prelude::Pubkey;
use crate::constants::USD_MULTIPLIER;
use crate::errors::LegasiError;
use crate::ledger::{
    credit_entries, credit_refusal, credited, debit_entries, debit_refusal, debited, drain_entries,
    drained,
};
use crate::lending::less;
use crate::state::{AssetType, CollateralDeposit, Position};

verus! {

/// The staking provider behind a pool.
#[derive(Clone, Copy, Debug, PartialEq, Eq, Structural)]
pub enum StakingProvider {
    Jito,
    Marinade,
}

/// Staking pool configuration and totals.
#[derive(Clone, Debug, PartialEq, Eq)]
pub struct StakingPool {
    pub protocol: Pubkey,
    /// The provider's pool address.
    pub stake_pool: Pubkey,
    /// The receipt token's mint.
    pub stake_token_mint: Pubkey,
    pub total_staked_sol: u64,
    pub total_stake_tokens: u64,
    pub last_update: i64,
    pub staking_provider: StakingProvider,
    pub is_active: bool,
    pub bump: u8,
}

/// What one user has wrapped.
#[derive(Clone, Debug, PartialEq, Eq)]
pub struct UserStake {
    pub owner: Pubkey,
    pub position: Pubkey,
    /// Receipt tokens held.
    pub stake_tokens: u64,
    /// Native tokens originally wrapped.
    pub original_sol: u64,
    /// Accumulated rewards.
    pub rewards_earned: u64,
    pub last_claim: i64,
    pub bump: u8,
}

/// The receipt token that a provider issues.
pub open spec fn receipt_asset(provider: StakingProvider) -> AssetType {
    match provider {
        StakingProvider::Jito => AssetType::JitoSOL,
        StakingProvider::Marinade => AssetType::MSOL,
    }
}

/// The receipt token that a provider issues.
pub fn receipt_token(provider: StakingProvider) -> (asset: AssetType)
    ensures
        asset == receipt_asset(provider),
{
    match provider {
        StakingProvider::Jito => AssetType::JitoSOL,
        StakingProvider::Marinade => AssetType::MSOL,
    }
}

/// Opens an active pool for a provider, with nothing staked.
pub fn initialize_staking_pool(
    protocol: Pubkey,
    stake_pool: Pubkey,
    stake_token_mint: Pubkey,
    provider: StakingProvider,
    now: i64,
    bump: u8,
) -> (pool: StakingPool)
    ensures
        pool == (StakingPool {
            protocol,
            stake_pool,
            stake_token_mint,
            total_staked_sol: 0,
            total_stake_tokens: 0,
            last_update: now,
            staking_provider: provider,
            is_active: true,
            bump,
        }),
{
    StakingPool {
        protocol,
        stake_pool,
        stake_token_mint,
        total_staked_sol: 0,
        total_stake_tokens: 0,
        last_update: now,
        staking_provider: provider,
        is_active: true,
        bump,
    }
}

/// Why wrapping `sol_amount` is refused, if it is. In this order: a zero
/// amount, an inactive pool, too little native-token collateral, a stake
/// record that would overflow, a receipt balance that cannot be credited,
/// pool totals that would overflow.
pub open spec fn stake_refusal(
    pool: &StakingPool,
    user_stake: &UserStake,
    position: &Position,
    sol_amount: u64,
) -> Option<LegasiError> {
    if sol_amount == 0 {
        Some(LegasiError::InvalidAmount)
    } else if !pool.is_active {
        Some(LegasiError::AssetNotActive)
    } else if debit_refusal(position.collaterals@, AssetType::SOL, sol_amount) is Some {
        Some(LegasiError::InsufficientCollateral)
    } else if user_stake.stake_tokens + sol_amount > u64::MAX || user_stake.original_sol
        + sol_amount > u64::MAX {
        Some(LegasiError::MathOverflow)
    } else if credit_refusal(
        debited(position.collaterals@, AssetType::SOL, sol_amount),
        receipt_asset(pool.staking_provider),
        sol_amount,
    ) is Some {
        credit_refusal(
            debited(position.collaterals@, AssetType::SOL, sol_amount),
            receipt_asset(pool.staking_provider),
            sol_amount,
        )
    } else if pool.total_staked_sol + sol_amount > u64::MAX || pool.total_stake_tokens
        + sol_amount > u64::MAX {
        Some(LegasiError::MathOverflow)
    } else {
        None
    }
}

/// Wraps `sol_amount` of a position's native-token collateral into the
/// pool's receipt token, one for one, and returns the receipt tokens
/// received.
///
/// On success the position loses `sol_amount` of the native token and
/// gains as much of the receipt token, the stake record and the pool
/// totals grow by the same amount, and the record is bound to `owner` and
/// `position_key`.
pub fn stake_collateral(
    pool: &mut StakingPool,
    user_stake: &mut UserStake,
    position: &mut Position,
    owner: Pubkey,
    position_key: Pubkey,
    sol_amount: u64,
    now: i64,
    bump: u8,
) -> (outcome: Result<u64, LegasiError>)
    requires
        old(position).wf(),
    ensures
        match outcome {
            Ok(stake_tokens_received) => {
                &&& stake_refusal(old(pool), old(user_stake), old(position), sol_amount) is None
                &&& stake_tokens_received == sol_amount
                &&& final(position).collaterals@ == credited(
                    debited(old(position).collaterals@, AssetType::SOL, sol_amount),
                    receipt_asset(old(pool).staking_provider),
                    sol_amount,
                )
                &&& *final(position) == (Position {
                    collaterals: final(position).collaterals,
                    last_update: now,
                    ..*old(position)
                })
                &&& *final(user_stake) == (UserStake {
                    owner,
                    position: position_key,
                    stake_tokens: (old(user_stake).stake_tokens + sol_amount) as u64,
                    original_sol: (old(user_stake).original_sol + sol_amount) as u64,
                    last_claim: now,
                    bump,
                    ..*old(user_stake)
                })
                &&& *final(pool) == (StakingPool {
                    total_staked_sol: (old(pool).total_staked_sol + sol_amount) as u64,
                    total_stake_tokens: (old(pool).total_stake_tokens + sol_amount) as u64,
                    last_update: now,
                    ..*old(pool)
                })
                &&& final(position).wf()
            },
            Err(e) => {
                &&& stake_refusal(old(pool), old(user_stake), old(position), sol_amount) == Some(e)
                &&& *final(position) == *old(position)
                &&& *final(user_stake) == *old(user_stake)
                &&& *final(pool) == *old(pool)
            },
        },
{
    if sol_amount == 0 {
        return Err(LegasiError::InvalidAmount);
    }
    if !pool.is_active {
        return Err(LegasiError::AssetNotActive);
    }
    let without_sol: Vec<CollateralDeposit> = match debit_entries(
        &position.collaterals,
        AssetType::SOL,
        sol_amount,
    ) {
        Ok(list) => list,
        Err(_) => {
            return Err(LegasiError::InsufficientCollateral);
        },
    };
    let stake_tokens_received: u64 = sol_amount;
    if user_stake.stake_tokens > u64::MAX - stake_tokens_received || user_stake.original_sol
        > u64::MAX - sol_amount {
        return Err(LegasiError::MathOverflow);
    }
    let list: Vec<CollateralDeposit> = match credit_entries(
        &without_sol,
        receipt_token(pool.staking_provider),
        stake_tokens_received,
    ) {
        Ok(list) => list,
        Err(e) => {
            return Err(e);
        },
    };
    if pool.total_staked_sol > u64::MAX - sol_amount || pool.total_stake_tokens > u64::MAX
        - stake_tokens_received {
        return Err(LegasiError::MathOverflow);
    }
    user_stake.owner = owner;
    user_stake.position = position_key;
    user_stake.stake_tokens = user_stake.stake_tokens + stake_tokens_received;
    user_stake.original_sol = user_stake.original_sol + sol_amount;
    user_stake.last_claim = now;
    user_stake.bump = bump;
    position.collaterals = list;
    position.last_update = now;
    pool.total_staked_sol = pool.total_staked_sol + sol_amount;
    pool.total_stake_tokens = pool.total_stake_tokens + stake_tokens_received;
    pool.last_update = now;
    Ok(stake_tokens_received)
}

/// Native tokens returned for `stake_token_amount` receipt tokens at an
/// exchange rate with six decimals.
pub open spec fn returned_sol(stake_token_amount: u64, exchange_rate: u64) -> nat {
    (stake_token_amount as nat) * (exchange_rate as nat) / (USD_MULTIPLIER as nat)
}

/// The share of the originally wrapped native tokens that
/// `stake_token_amount` of the `held` receipt tokens stands for.
pub open spec fn cost_basis(original_sol: u64, held: u64, stake_token_amount: u64) -> nat {
    (stake_token_amount as nat) * (original_sol as nat) / (held as nat)
}

/// The rewards realised by an unwrap: what is returned above the cost
/// basis, never below zero.
pub open spec fn rewards_of(user_stake: &UserStake, stake_token_amount: u64, exchange_rate: u64)
    -> nat {
    let back = returned_sol(stake_token_amount, exchange_rate);
    let basis = cost_basis(user_stake.original_sol, user_stake.stake_tokens, stake_token_amount);
    if back >= basis {
        (back - basis) as nat
    } else {
        0
    }
}

/// Why unwrapping `stake_token_amount` is refused, if it is. In this
/// order: a zero amount, more than the record holds, a return that does
/// not fit in 64 bits, a native-token balance that cannot be credited.
pub open spec fn unstake_refusal(
    pool: &StakingPool,
    user_stake: &UserStake,
    position: &Position,
    stake_token_amount: u64,
    exchange_rate: u64,
) -> Option<LegasiError> {
    if stake_token_amount == 0 {
        Some(LegasiError::InvalidAmount)
    } else if user_stake.stake_tokens < stake_token_amount {
        Some(LegasiError::InsufficientCollateral)
    } else if returned_sol(stake_token_amount, exchange_rate) > u64::MAX {
        Some(LegasiError::MathOverflow)
    } else if returned_sol(stake_token_amount, exchange_rate) == 0 {
        None
    } else {
        credit_refusal(
            drained(
                position.collaterals@,
                receipt_asset(pool.staking_provider),
                stake_token_amount,
            ),
            AssetType::SOL,
            returned_sol(stake_token_amount, exchange_rate) as u64,
        )
    }
}

/// The collateral list after an unwrap: the receipt balance drained by
/// `stake_token_amount`, and what is returned, if anything, credited as
/// native token.
pub open spec fn unstaked_collaterals(
    entries: Seq<CollateralDeposit>,
    receipt: AssetType,
    stake_token_amount: u64,
    sol_to_return: u64,
) -> Seq<CollateralDeposit> {
    let without = drained(entries, receipt, stake_token_amount);
    if sol_to_return == 0 {
        without
    } else {
        credited(without, AssetType::SOL, sol_to_return)
    }
}

/// What an unwrap gave back.
#[derive(Clone, Copy, Debug, PartialEq, Eq, Structural)]
pub struct Unstaked {
    /// Native tokens credited to the position.
    pub sol_returned: u64,
    /// The part of them counted as rewards.
    pub rewards: u64,
}

/// Unwraps `stake_token_amount` receipt tokens at `exchange_rate` (six
/// decimals) into native-token collateral.
///
/// On success the position's receipt balance is drained by the amount and
/// its native-token balance grows by what is returned; the stake record
/// loses the tokens and counts what is returned above its cost basis as
/// rewards; the pool totals shrink, held at zero.
pub fn unstake_collateral(
    pool: &mut StakingPool,
    user_stake: &mut UserStake,
    position: &mut Position,
    stake_token_amount: u64,
    exchange_rate: u64,
    now: i64,
) -> (outcome: Result<Unstaked, LegasiError>)
    requires
        old(position).wf(),
    ensures
        match outcome {
            Ok(back) => {
                &&& unstake_refusal(
                    old(pool),
                    old(user_stake),
                    old(position),
                    stake_token_amount,
                    exchange_rate,
                ) is None
                &&& back.sol_returned == returned_sol(stake_token_amount, exchange_rate)
                &&& back.rewards == rewards_of(old(user_stake), stake_token_amount, exchange_rate)
                &&& final(position).collaterals@ == unstaked_collaterals(
                    old(position).collaterals@,
                    receipt_asset(old(pool).staking_provider),
                    stake_token_amount,
                    back.sol_returned,
                )
                &&& *final(position) == (Position {
                    collaterals: final(position).collaterals,
                    last_update: now,
                    ..*old(position)
                })
                &&& *final(user_stake) == (UserStake {
                    stake_tokens: (old(user_stake).stake_tokens - stake_token_amount) as u64,
                    rewards_earned: if old(user_stake).rewards_earned + back.rewards > u64::MAX {
                        u64::MAX
                    } else {
                        (old(user_stake).rewards_earned + back.rewards) as u64
                    },
                    last_claim: now,
                    ..*old(user_stake)
                })
                &&& *final(pool) == (StakingPool {
                    total_stake_tokens: less(old(pool).total_stake_tokens, stake_token_amount),
                    total_staked_sol: less(old(pool).total_staked_sol, back.sol_returned),
                    last_update: now,
                    ..*old(pool)
                })
                &&& final(position).wf()
            },
            Err(e) => {
                &&& unstake_refusal(
                    old(pool),
                    old(user_stake),
                    old(position),
                    stake_token_amount,
                    exchange_rate,
                ) == Some(e)
                &&& *final(position) == *old(position)
                &&& *final(user_stake) == *old(user_stake)
                &&& *final(pool) == *old(pool)
            },
        },
{
    if stake_token_amount == 0 {
        return Err(LegasiError::InvalidAmount);
    }
    if user_stake.stake_tokens < stake_token_amount {
        return Err(LegasiError::InsufficientCollateral);
    }
    assert((stake_token_amount as nat) * (exchange_rate as nat) <= 0xFFFF_FFFF_FFFF_FFFF
        * 0xFFFF_FFFF_FFFF_FFFF) by (nonlinear_arith)
        requires
            stake_token_amount <= 0xFFFF_FFFF_FFFF_FFFF,
            exchange_rate <= 0xFFFF_FFFF_FFFF_FFFF,
    ;
    let scaled: u128 = (stake_token_amount as u128) * (exchange_rate as u128);
    let wide_return: u128 = scaled / (USD_MULTIPLIER as u128);
    if wide_return > u64::MAX as u128 {
        return Err(LegasiError::MathOverflow);
    }
    let sol_to_return: u64 = wide_return as u64;
    let held: u64 = user_stake.stake_tokens;
    assert((stake_token_amount as nat) * (user_stake.original_sol as nat) <= (held as nat) * (
    user_stake.original_sol as nat)) by (nonlinear_arith)
        requires
            stake_token_amount <= held,
    ;
    assert((held as nat) * (user_stake.original_sol as nat) <= 0xFFFF_FFFF_FFFF_FFFF
        * 0xFFFF_FFFF_FFFF_FFFF) by (nonlinear_arith)
        requires
            held <= 0xFFFF_FFFF_FFFF_FFFF,
            user_stake.original_sol <= 0xFFFF_FFFF_FFFF_FFFF,
    ;
    let share: u128 = (stake_token_amount as u128) * (user_stake.original_sol as u128);
    let basis: u128 = share / (held as u128);
    let rewards: u64 = if wide_return >= basis {
        (wide_return - basis) as u64
    } else {
        0
    };
    let receipt: AssetType = receipt_token(pool.staking_provider);
    let without: Vec<CollateralDeposit> = drain_entries(
        &position.collaterals,
        receipt,
        stake_token_amount,
    );
    let list: Vec<CollateralDeposit> = if sol_to_return == 0 {
        without
    } else {
        match credit_entries(&without, AssetType::SOL, sol_to_return) {
            Ok(list) => list,
            Err(e) => {
                return Err(e);
            },
        }
    };
    user_stake.stake_tokens = held - stake_token_amount;
    user_stake.rewards_earned = user_stake.rewards_earned.saturating_add(rewards);
    user_stake.last_claim = now;
    position.collaterals = list;
    position.last_update = now;
    pool.total_stake_tokens = pool.total_stake_tokens.saturating_sub(stake_token_amount);
    pool.total_staked_sol = pool.total_staked_sol.saturating_sub(sol_to_return);
    pool.last_update = now;
    Ok(Unstaked { sol_returned: sol_to_return, rewards })
}

/// The yield of a provider, in basis points a year.
pub open spec fn apy_of(provider: StakingProvider) -> u64 {
    match provider {
        StakingProvider::Jito => 700,
        StakingProvider::Marinade => 650,
    }
}

/// The current staking yield of a pool's provider, in basis points a year.
pub fn get_staking_apy(pool: &StakingPool) -> (apy_bps: u64)
    ensures
        apy_bps == apy_of(pool.staking_provider),
{
    match pool.staking_provider {
        StakingProvider::Jito => 700,
        StakingProvider::Marinade => 650,
    }
}

} // verus!
