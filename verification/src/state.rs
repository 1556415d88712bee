//! The records the protocol keeps: asset configuration, price feeds,
//! positions and the reputation attached to each position.

use vstd::prelude::*;
use anchor_lang::prelude::Pubkey;
use crate::constants::{MAX_BORROW_TYPES, MAX_COLLATERAL_TYPES};

verus! {

/// `anchor_lang::prelude::Pubkey`, the account address of the host chain,
/// declared as an opaque type: the library stores addresses and hands them
/// back, and nothing is claimed of what one holds.
#[verifier::external_type_specification]
#[verifier::external_body]
pub struct ExPubkey(anchor_lang::prelude::Pubkey);

/// `<Pubkey as Clone>::clone`, derived in solana-program for a `Copy`
/// wrapper of 32 bytes. Believed without proof: the clone equals the
/// address it was made from.
pub assume_specification[ <anchor_lang::prelude::Pubkey as Clone>::clone ](
    key: &anchor_lang::prelude::Pubkey,
) -> (copy: anchor_lang::prelude::Pubkey)
    ensures
        copy == *key,
;

/// Supported asset types.
#[derive(Clone, Copy, Debug, PartialEq, Eq, Structural)]
pub enum AssetType {
    /// The native chain token.
    SOL,
    /// USD stablecoin.
    USDC,
    /// USD stablecoin.
    USDT,
    /// Wrapped BTC.
    CbBTC,
    /// Liquid-staking receipt token.
    JitoSOL,
    /// Liquid-staking receipt token.
    MSOL,
    /// Euro stablecoin.
    EURC,
}

impl AssetType {
    /// Whether amounts of this asset are counted as USD one for one.
    pub open spec fn spec_is_stablecoin(self) -> bool {
        self == AssetType::USDC || self == AssetType::USDT || self == AssetType::EURC
    }

    /// Whether amounts of this asset are counted as USD one for one.
    #[verifier::when_used_as_spec(spec_is_stablecoin)]
    pub fn is_stablecoin(self) -> (stable: bool)
        ensures
            stable == self.spec_is_stablecoin(),
    {
        match self {
            AssetType::USDC | AssetType::USDT | AssetType::EURC => true,
            _ => false,
        }
    }

    /// The dense key of each asset type.
    pub open spec fn spec_code(self) -> u8 {
        match self {
            AssetType::SOL => 0,
            AssetType::USDC => 1,
            AssetType::USDT => 2,
            AssetType::CbBTC => 3,
            AssetType::JitoSOL => 4,
            AssetType::MSOL => 5,
            AssetType::EURC => 6,
        }
    }

    /// The dense key of this asset type, used to address per-asset records.
    #[verifier::when_used_as_spec(spec_code)]
    pub fn code(self) -> (key: u8)
        ensures
            key == self.spec_code(),
    {
        match self {
            AssetType::SOL => 0,
            AssetType::USDC => 1,
            AssetType::USDT => 2,
            AssetType::CbBTC => 3,
            AssetType::JitoSOL => 4,
            AssetType::MSOL => 5,
            AssetType::EURC => 6,
        }
    }
}

/// Protocol global state.
#[derive(Clone, Debug, PartialEq, Eq)]
pub struct Protocol {
    pub admin: Pubkey,
    pub treasury: Pubkey,
    pub insurance_fund: u64,
    /// Six decimals.
    pub total_collateral_usd: u64,
    /// Six decimals.
    pub total_borrowed_usd: u64,
    pub paused: bool,
    pub bump: u8,
}

/// Collateral asset configuration.
#[derive(Clone, Debug, PartialEq, Eq)]
pub struct Collateral {
    pub mint: Pubkey,
    pub oracle: Pubkey,
    /// Max loan-to-value, in basis points.
    pub max_ltv_bps: u16,
    /// Deleveraging starts here.
    pub liquidation_threshold_bps: u16,
    /// Bonus for liquidators.
    pub liquidation_bonus_bps: u16,
    pub decimals: u8,
    pub is_active: bool,
    pub total_deposited: u64,
    pub asset_type: AssetType,
    pub bump: u8,
}

impl Collateral {
    /// Every ratio is at most 100%, and liquidation does not start below
    /// the lending bound.
    pub open spec fn wf(&self) -> bool {
        &&& self.max_ltv_bps <= self.liquidation_threshold_bps
        &&& self.liquidation_threshold_bps <= 10_000
        &&& self.liquidation_bonus_bps <= 10_000
    }
}

/// Borrowable asset configuration.
#[derive(Clone, Debug, PartialEq, Eq)]
pub struct Borrowable {
    pub mint: Pubkey,
    pub oracle: Pubkey,
    /// Annual interest rate.
    pub interest_rate_bps: u16,
    pub decimals: u8,
    pub is_active: bool,
    pub total_borrowed: u64,
    pub total_available: u64,
    pub asset_type: AssetType,
    pub bump: u8,
}

/// A published price of one asset.
#[derive(Clone, Debug, PartialEq, Eq)]
pub struct PriceFeed {
    pub asset_type: AssetType,
    pub price_usd_6dec: u64,
    pub last_update: i64,
    pub confidence: u64,
    pub bump: u8,
}

/// One collateral balance of a position.
#[derive(Clone, Copy, Debug, PartialEq, Eq, Structural)]
pub struct CollateralDeposit {
    pub asset_type: AssetType,
    pub amount: u64,
}

/// One debt of a position.
#[derive(Clone, Copy, Debug, PartialEq, Eq, Structural)]
pub struct BorrowedAmount {
    pub asset_type: AssetType,
    pub amount: u64,
    pub accrued_interest: u64,
}

/// Repayment and deleveraging history of a position.
#[derive(Clone, Copy, Debug, PartialEq, Eq, Structural)]
pub struct Reputation {
    pub successful_repayments: u32,
    pub total_repaid_usd: u64,
    pub gad_events: u32,
    pub account_age_days: u32,
}

/// The smaller of two numbers.
pub open spec fn min_nat(a: nat, b: nat) -> nat {
    if a <= b { a } else { b }
}

/// The score earned by `repayments` repayments and `age_days` days of
/// account age, less the penalty for `gad_events` deleveraging events.
pub open spec fn score_of(repayments: nat, age_days: nat, gad_events: nat) -> nat {
    let earned = min_nat(repayments * 50, 500) + min_nat(age_days / 30 * 10, 100);
    if earned >= gad_events * 100 {
        (earned - gad_events * 100) as nat
    } else {
        0
    }
}

/// The loan-to-value bonus, in basis points, that a score earns.
pub open spec fn ltv_bonus_of(score: nat) -> nat {
    if score >= 400 {
        500
    } else if score >= 200 {
        300
    } else if score >= 100 {
        100
    } else {
        0
    }
}

impl Default for Reputation {
    fn default() -> (rep: Reputation)
        ensures
            rep == (Reputation {
                successful_repayments: 0,
                total_repaid_usd: 0,
                gad_events: 0,
                account_age_days: 0,
            }),
    {
        Reputation {
            successful_repayments: 0,
            total_repaid_usd: 0,
            gad_events: 0,
            account_age_days: 0,
        }
    }
}

impl Reputation {
    /// The score of this history.
    pub open spec fn spec_score(&self) -> nat {
        score_of(
            self.successful_repayments as nat,
            self.account_age_days as nat,
            self.gad_events as nat,
        )
    }

    /// The loan-to-value bonus of this history, in basis points.
    pub open spec fn spec_ltv_bonus_bps(&self) -> nat {
        ltv_bonus_of(self.spec_score())
    }

    /// 50 points per repayment up to 500, 10 points per 30 days of age up
    /// to 100, less 100 points per deleveraging event, never below zero.
    pub fn get_score(&self) -> (score: u32)
        ensures
            score == self.spec_score(),
            score <= 600,
    {
        let base: u32 = if self.successful_repayments >= 10 {
            500
        } else {
            self.successful_repayments * 50
        };
        let months: u32 = self.account_age_days / 30;
        let age_bonus: u32 = if months >= 10 {
            100
        } else {
            months * 10
        };
        let earned: u32 = base + age_bonus;
        if self.gad_events >= 6 {
            0
        } else {
            let penalty: u32 = self.gad_events * 100;
            if earned >= penalty {
                earned - penalty
            } else {
                0
            }
        }
    }

    /// The bonus tier of the score: 500 from 400 points, 300 from 200,
    /// 100 from 100, else nothing.
    pub fn get_ltv_bonus_bps(&self) -> (bonus: u16)
        ensures
            bonus == self.spec_ltv_bonus_bps(),
            bonus <= 500,
    {
        let score: u32 = self.get_score();
        if score >= 400 {
            500
        } else if score >= 200 {
            300
        } else if score >= 100 {
            100
        } else {
            0
        }
    }
}

/// User position (multi-collateral, multi-borrow).
#[derive(Clone, Debug, PartialEq, Eq)]
pub struct Position {
    pub owner: Pubkey,
    /// Collateral deposits, one entry per asset type.
    pub collaterals: Vec<CollateralDeposit>,
    /// Debts, one entry per asset type.
    pub borrows: Vec<BorrowedAmount>,
    pub last_update: i64,
    pub last_gad_crank: i64,
    pub gad_enabled: bool,
    pub total_gad_liquidated_usd: u64,
    pub reputation: Reputation,
    /// The selected eMode category; 0 is none.
    pub emode_category: u8,
    /// When eMode was entered.
    pub emode_entered_at: i64,
    pub bump: u8,
}

/// Whether `entries` holds a balance of `asset`.
pub open spec fn holds_collateral(entries: Seq<CollateralDeposit>, asset: AssetType) -> bool {
    exists|i: int| 0 <= i < entries.len() && (#[trigger] entries[i]).asset_type == asset
}

/// The place of the balance of `asset` in `entries`.
pub open spec fn collateral_index(entries: Seq<CollateralDeposit>, asset: AssetType) -> int {
    choose|i: int| 0 <= i < entries.len() && (#[trigger] entries[i]).asset_type == asset
}

/// The balance of `asset` in `entries`; zero where there is no entry.
pub open spec fn collateral_balance(entries: Seq<CollateralDeposit>, asset: AssetType) -> nat {
    if holds_collateral(entries, asset) {
        entries[collateral_index(entries, asset)].amount as nat
    } else {
        0
    }
}

/// Whether `entries` holds a debt in `asset`.
pub open spec fn holds_borrow(entries: Seq<BorrowedAmount>, asset: AssetType) -> bool {
    exists|i: int| 0 <= i < entries.len() && (#[trigger] entries[i]).asset_type == asset
}

/// The place of the debt in `asset` in `entries`.
pub open spec fn borrow_index(entries: Seq<BorrowedAmount>, asset: AssetType) -> int {
    choose|i: int| 0 <= i < entries.len() && (#[trigger] entries[i]).asset_type == asset
}

/// A collateral list is valid when it holds at most
/// `MAX_COLLATERAL_TYPES` entries, no asset twice and no empty balance.
pub open spec fn collaterals_wf(entries: Seq<CollateralDeposit>) -> bool {
    &&& entries.len() <= MAX_COLLATERAL_TYPES
    &&& forall|i: int, j: int|
        0 <= i < j < entries.len() ==> (#[trigger] entries[i]).asset_type != (
        #[trigger] entries[j]).asset_type
    &&& forall|i: int| 0 <= i < entries.len() ==> (#[trigger] entries[i]).amount > 0
}

/// A debt list is valid when it holds at most `MAX_BORROW_TYPES` entries,
/// no asset twice and no entry that owes nothing.
pub open spec fn borrows_wf(entries: Seq<BorrowedAmount>) -> bool {
    &&& entries.len() <= MAX_BORROW_TYPES
    &&& forall|i: int, j: int|
        0 <= i < j < entries.len() ==> (#[trigger] entries[i]).asset_type != (
        #[trigger] entries[j]).asset_type
    &&& forall|i: int|
        0 <= i < entries.len() ==> (#[trigger] entries[i]).amount > 0
            || entries[i].accrued_interest > 0
}

impl Position {
    /// The invariant of a position: both lists are valid.
    pub open spec fn wf(&self) -> bool {
        &&& collaterals_wf(self.collaterals@)
        &&& borrows_wf(self.borrows@)
    }
}

/// LP share token info.
#[derive(Clone, Debug, PartialEq, Eq)]
pub struct LpPool {
    pub borrowable_mint: Pubkey,
    pub lp_token_mint: Pubkey,
    pub total_deposits: u64,
    pub total_shares: u64,
    pub total_borrowed: u64,
    pub interest_earned: u64,
    pub bump: u8,
}

} // verus!
