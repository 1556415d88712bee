use anchor_lang::prelude::Pubkey;
use legasi::errors::LegasiError;
use legasi::lending::initialize_position;
use legasi::staking::{
    get_staking_apy, initialize_staking_pool, receipt_token, stake_collateral, unstake_collateral,
    StakingPool, StakingProvider, Unstaked, UserStake,
};
use legasi::state::{AssetType, CollateralDeposit, Position};

const SOL: u64 = 1_000_000_000;

fn key(n: u8) -> Pubkey {
    Pubkey::new_from_array([n; 32])
}

fn pool(provider: StakingProvider) -> StakingPool {
    initialize_staking_pool(key(1), key(2), key(3), provider, 100, 250)
}

fn blank_stake() -> UserStake {
    UserStake {
        owner: Pubkey::default(),
        position: Pubkey::default(),
        stake_tokens: 0,
        original_sol: 0,
        rewards_earned: 0,
        last_claim: 0,
        bump: 0,
    }
}

fn dep(asset_type: AssetType, amount: u64) -> CollateralDeposit {
    CollateralDeposit { asset_type, amount }
}

fn position(collaterals: Vec<CollateralDeposit>) -> Position {
    let mut p = initialize_position(key(7), 0, 255);
    p.collaterals = collaterals;
    p
}

#[test]
fn new_pool_is_active_and_empty() {
    let p = pool(StakingProvider::Marinade);
    assert_eq!(
        p,
        StakingPool {
            protocol: key(1),
            stake_pool: key(2),
            stake_token_mint: key(3),
            total_staked_sol: 0,
            total_stake_tokens: 0,
            last_update: 100,
            staking_provider: StakingProvider::Marinade,
            is_active: true,
            bump: 250,
        }
    );
}

#[test]
fn providers_issue_their_own_receipt_token_and_yield() {
    assert_eq!(receipt_token(StakingProvider::Jito), AssetType::JitoSOL);
    assert_eq!(receipt_token(StakingProvider::Marinade), AssetType::MSOL);
    assert_eq!(get_staking_apy(&pool(StakingProvider::Jito)), 700);
    assert_eq!(get_staking_apy(&pool(StakingProvider::Marinade)), 650);
}

#[test]
fn staking_moves_collateral_one_for_one() {
    let mut pl = pool(StakingProvider::Jito);
    let mut us = blank_stake();
    let mut p = position(vec![dep(AssetType::SOL, 10 * SOL)]);
    assert_eq!(
        stake_collateral(&mut pl, &mut us, &mut p, key(7), key(8), 4 * SOL, 500, 9),
        Ok(4 * SOL)
    );
    assert_eq!(p.collaterals, vec![dep(AssetType::SOL, 6 * SOL), dep(AssetType::JitoSOL, 4 * SOL)]);
    assert_eq!(p.last_update, 500);
    assert_eq!(
        us,
        UserStake {
            owner: key(7),
            position: key(8),
            stake_tokens: 4 * SOL,
            original_sol: 4 * SOL,
            rewards_earned: 0,
            last_claim: 500,
            bump: 9,
        }
    );
    assert_eq!(pl.total_staked_sol, 4 * SOL);
    assert_eq!(pl.total_stake_tokens, 4 * SOL);
    assert_eq!(pl.last_update, 500);
    assert_eq!(
        stake_collateral(&mut pl, &mut us, &mut p, key(7), key(8), 6 * SOL, 600, 9),
        Ok(6 * SOL)
    );
    assert_eq!(p.collaterals, vec![dep(AssetType::JitoSOL, 10 * SOL)]);
    assert_eq!(us.stake_tokens, 10 * SOL);
    assert_eq!(pl.total_stake_tokens, 10 * SOL);
}

#[test]
fn staking_with_marinade_credits_msol() {
    let mut pl = pool(StakingProvider::Marinade);
    let mut us = blank_stake();
    let mut p = position(vec![dep(AssetType::JitoSOL, 1), dep(AssetType::SOL, 2)]);
    assert_eq!(stake_collateral(&mut pl, &mut us, &mut p, key(7), key(8), 2, 500, 9), Ok(2));
    assert_eq!(p.collaterals, vec![dep(AssetType::JitoSOL, 1), dep(AssetType::MSOL, 2)]);
}

#[test]
fn stake_refusals_leave_everything_unchanged() {
    let mut pl = pool(StakingProvider::Jito);
    let mut us = blank_stake();
    let mut p = position(vec![dep(AssetType::SOL, 10 * SOL)]);
    let before = (pl.clone(), us.clone(), p.clone());
    assert_eq!(
        stake_collateral(&mut pl, &mut us, &mut p, key(7), key(8), 0, 500, 9),
        Err(LegasiError::InvalidAmount)
    );
    assert_eq!(
        stake_collateral(&mut pl, &mut us, &mut p, key(7), key(8), 10 * SOL + 1, 500, 9),
        Err(LegasiError::InsufficientCollateral)
    );
    assert_eq!((pl.clone(), us.clone(), p.clone()), before);
    pl.is_active = false;
    assert_eq!(
        stake_collateral(&mut pl, &mut us, &mut p, key(7), key(8), 1, 500, 9),
        Err(LegasiError::AssetNotActive)
    );
    pl.is_active = true;
    let mut none = position(vec![dep(AssetType::MSOL, 10 * SOL)]);
    assert_eq!(
        stake_collateral(&mut pl, &mut us, &mut none, key(7), key(8), 1, 500, 9),
        Err(LegasiError::InsufficientCollateral)
    );
    us.original_sol = u64::MAX;
    assert_eq!(
        stake_collateral(&mut pl, &mut us, &mut p, key(7), key(8), 1, 500, 9),
        Err(LegasiError::MathOverflow)
    );
    us.original_sol = 0;
    pl.total_staked_sol = u64::MAX;
    assert_eq!(
        stake_collateral(&mut pl, &mut us, &mut p, key(7), key(8), 1, 500, 9),
        Err(LegasiError::MathOverflow)
    );
    pl.total_staked_sol = 0;
    let mut full = position(vec![dep(AssetType::SOL, 5), dep(AssetType::JitoSOL, u64::MAX)]);
    assert_eq!(
        stake_collateral(&mut pl, &mut us, &mut full, key(7), key(8), 1, 500, 9),
        Err(LegasiError::MathOverflow)
    );
    assert_eq!((pl, us, p), before);
}

#[test]
fn unstaking_returns_native_tokens_at_the_exchange_rate() {
    let mut pl = pool(StakingProvider::Jito);
    let mut us = blank_stake();
    let mut p = position(vec![dep(AssetType::SOL, 10 * SOL)]);
    stake_collateral(&mut pl, &mut us, &mut p, key(7), key(8), 4 * SOL, 500, 9).unwrap();
    assert_eq!(
        unstake_collateral(&mut pl, &mut us, &mut p, 2 * SOL, 1_050_000, 900),
        Ok(Unstaked { sol_returned: 2_100_000_000, rewards: 100_000_000 })
    );
    assert_eq!(
        p.collaterals,
        vec![dep(AssetType::SOL, 8_100_000_000), dep(AssetType::JitoSOL, 2 * SOL)]
    );
    assert_eq!(us.stake_tokens, 2 * SOL);
    assert_eq!(us.original_sol, 4 * SOL);
    assert_eq!(us.rewards_earned, 100_000_000);
    assert_eq!(us.last_claim, 900);
    assert_eq!(pl.total_stake_tokens, 2 * SOL);
    assert_eq!(pl.total_staked_sol, 1_900_000_000);
    assert_eq!(pl.last_update, 900);
    assert_eq!(p.last_update, 900);
    assert_eq!(
        unstake_collateral(&mut pl, &mut us, &mut p, 2 * SOL, 1_050_000, 950),
        Ok(Unstaked { sol_returned: 2_100_000_000, rewards: 0 })
    );
    assert_eq!(p.collaterals, vec![dep(AssetType::SOL, 10_200_000_000)]);
    assert_eq!(us.stake_tokens, 0);
    assert_eq!(us.rewards_earned, 100_000_000);
    assert_eq!(pl.total_stake_tokens, 0);
    assert_eq!(pl.total_staked_sol, 0);
}

#[test]
fn unstaking_into_a_position_without_native_tokens_appends_them() {
    let mut pl = pool(StakingProvider::Marinade);
    let mut us = blank_stake();
    let mut p = position(vec![dep(AssetType::SOL, 3)]);
    stake_collateral(&mut pl, &mut us, &mut p, key(7), key(8), 3, 500, 9).unwrap();
    assert_eq!(p.collaterals, vec![dep(AssetType::MSOL, 3)]);
    assert_eq!(
        unstake_collateral(&mut pl, &mut us, &mut p, 1, 1_000_000, 900),
        Ok(Unstaked { sol_returned: 1, rewards: 0 })
    );
    assert_eq!(p.collaterals, vec![dep(AssetType::MSOL, 2), dep(AssetType::SOL, 1)]);
    assert_eq!(
        unstake_collateral(&mut pl, &mut us, &mut p, 1, 999_999, 901),
        Ok(Unstaked { sol_returned: 0, rewards: 0 })
    );
    assert_eq!(p.collaterals, vec![dep(AssetType::MSOL, 1), dep(AssetType::SOL, 1)]);
    assert_eq!(us.stake_tokens, 1);
}

#[test]
fn unstaking_drains_a_smaller_receipt_balance() {
    let mut pl = pool(StakingProvider::Jito);
    let mut us = blank_stake();
    us.stake_tokens = 10;
    us.original_sol = 10;
    let mut p = position(vec![dep(AssetType::JitoSOL, 4)]);
    assert_eq!(
        unstake_collateral(&mut pl, &mut us, &mut p, 6, 1_000_000, 900),
        Ok(Unstaked { sol_returned: 6, rewards: 0 })
    );
    assert_eq!(p.collaterals, vec![dep(AssetType::SOL, 6)]);
    assert_eq!(us.stake_tokens, 4);
}

#[test]
fn unstake_refusals_leave_everything_unchanged() {
    let mut pl = pool(StakingProvider::Jito);
    let mut us = blank_stake();
    let mut p = position(vec![dep(AssetType::SOL, 10 * SOL)]);
    stake_collateral(&mut pl, &mut us, &mut p, key(7), key(8), 4 * SOL, 500, 9).unwrap();
    let before = (pl.clone(), us.clone(), p.clone());
    assert_eq!(
        unstake_collateral(&mut pl, &mut us, &mut p, 0, 1_050_000, 900),
        Err(LegasiError::InvalidAmount)
    );
    assert_eq!(
        unstake_collateral(&mut pl, &mut us, &mut p, 4 * SOL + 1, 1_050_000, 900),
        Err(LegasiError::InsufficientCollateral)
    );
    assert_eq!(
        unstake_collateral(&mut pl, &mut us, &mut p, 4 * SOL, u64::MAX, 900),
        Err(LegasiError::MathOverflow)
    );
    p.collaterals[0].amount = u64::MAX;
    let before2 = (pl.clone(), us.clone(), p.clone());
    assert_eq!(
        unstake_collateral(&mut pl, &mut us, &mut p, 1, 1_000_000, 900),
        Err(LegasiError::MathOverflow)
    );
    assert_eq!((pl.clone(), us.clone(), p.clone()), before2);
    p.collaterals[0].amount = 6 * SOL;
    assert_eq!((pl, us, p), before);
}
