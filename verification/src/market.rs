//! Lending markets: one collateral asset against one borrowed asset, with
//! the pair's risk bounds, caps and utilisation-based interest curve.

use vstd::prelude::*;
use vstd::arithmetic::div_mod::lemma_fundamental_div_mod;
use anchor_lang::prelude::Pubkey;
use crate::constants::BPS_DENOMINATOR;
use crate::errors::LegasiError;
use crate::state::AssetType;

verus! {

/// What an administrator chooses for a market.
#[derive(Clone, Debug, PartialEq, Eq)]
pub struct MarketParams {
    pub name: String,
    pub base_max_ltv_bps: u16,
    pub emode_max_ltv_bps: u16,
    pub gad_soft_threshold_bps: u16,
    pub gad_hard_threshold_bps: u16,
    pub liquidation_bonus_bps: u16,
    pub base_interest_rate_bps: u16,
    pub slope1_bps: u16,
    pub slope2_bps: u16,
    pub optimal_utilization_bps: u16,
    pub emode_category: u8,
    pub supply_cap: u64,
    pub borrow_cap: u64,
    pub min_borrow: u64,
}

/// A lending market.
#[derive(Clone, Debug, PartialEq, Eq)]
pub struct Market {
    pub market_id: u16,
    pub name: String,
    pub collateral_asset: AssetType,
    pub collateral_mint: Pubkey,
    pub borrow_asset: AssetType,
    pub borrow_mint: Pubkey,
    pub base_max_ltv_bps: u16,
    pub emode_max_ltv_bps: u16,
    pub gad_soft_threshold_bps: u16,
    pub gad_hard_threshold_bps: u16,
    pub liquidation_bonus_bps: u16,
    pub base_interest_rate_bps: u16,
    pub slope1_bps: u16,
    pub slope2_bps: u16,
    pub optimal_utilization_bps: u16,
    pub emode_category: u8,
    pub supply_cap: u64,
    pub borrow_cap: u64,
    pub min_borrow: u64,
    pub is_active: bool,
    pub borrow_enabled: bool,
    pub collateral_enabled: bool,
    pub total_collateral: u64,
    pub total_borrowed: u64,
    pub created_at: i64,
    pub updated_at: i64,
    pub bump: u8,
}

/// Borrowed share of the available liquidity in basis points, at most
/// 10000; zero where nothing is available.
pub open spec fn utilization_of(total_borrowed: nat, total_available: nat) -> nat {
    if total_available == 0 {
        0
    } else if total_borrowed >= total_available {
        10_000
    } else {
        total_borrowed * 10_000 / total_available
    }
}

/// The kinked rate curve: from `base` it rises by `slope1` up to the
/// optimal utilisation and by `slope2` from there to full utilisation.
pub open spec fn rate_of(base: nat, slope1: nat, slope2: nat, optimal: nat, utilization: nat)
    -> nat {
    if utilization < optimal {
        base + slope1 * utilization / optimal
    } else if optimal >= 10_000 {
        base + slope1
    } else {
        base + slope1 + slope2 * ((utilization - optimal) as nat) / ((10_000 - optimal) as nat)
    }
}

/// Borrowed share of the available liquidity, in basis points.
pub fn utilization_bps(total_borrowed: u64, total_available: u64) -> (utilization: u64)
    ensures
        utilization == utilization_of(total_borrowed as nat, total_available as nat),
        utilization <= 10_000,
{
    if total_available == 0 {
        0
    } else if total_borrowed >= total_available {
        10_000
    } else {
        let scaled: u128 = (total_borrowed as u128) * 10_000u128;
        let share: u128 = scaled / (total_available as u128);
        proof {
            let b = total_borrowed as int;
            let a = total_available as int;
            assert(b * 10_000 < a * 10_000) by (nonlinear_arith)
                requires
                    b < a,
            ;
            lemma_fundamental_div_mod(b * 10_000, a);
            assert(share <= 10_000) by (nonlinear_arith)
                requires
                    b * 10_000 < a * 10_000,
                    b * 10_000 == a * share + (b * 10_000) % a,
                    0 <= (b * 10_000) % a,
                    a > 0,
                    share >= 0,
            ;
        }
        share as u64
    }
}

impl MarketParams {
    /// The deleveraging thresholds ascend and stay within 100%.
    pub open spec fn wf(&self) -> bool {
        &&& self.gad_soft_threshold_bps <= self.gad_hard_threshold_bps
        &&& self.gad_hard_threshold_bps <= 10_000
    }

    /// Checks the thresholds that the deleveraging engine relies on.
    ///
    /// Fails with `InvalidGadConfig` exactly where the soft threshold
    /// exceeds the hard one or the hard one exceeds 100%.
    pub fn validate(&self) -> (checked: Result<(), LegasiError>)
        ensures
            checked is Ok <==> self.wf(),
            checked is Err ==> checked == Err::<(), LegasiError>(LegasiError::InvalidGadConfig),
    {
        if self.gad_soft_threshold_bps <= self.gad_hard_threshold_bps
            && self.gad_hard_threshold_bps <= 10_000 {
            Ok(())
        } else {
            Err(LegasiError::InvalidGadConfig)
        }
    }
}

impl Market {
    /// The deleveraging thresholds ascend and stay within 100%.
    pub open spec fn wf(&self) -> bool {
        &&& self.gad_soft_threshold_bps <= self.gad_hard_threshold_bps
        &&& self.gad_hard_threshold_bps <= 10_000
    }

    /// The annual borrow rate at a utilisation, for use in contracts. A
    /// utilisation above 100% counts as 100%.
    pub open spec fn spec_borrow_rate_bps(&self, utilization: nat) -> nat {
        rate_of(
            self.base_interest_rate_bps as nat,
            self.slope1_bps as nat,
            self.slope2_bps as nat,
            self.optimal_utilization_bps as nat,
            if utilization <= 10_000 {
                utilization
            } else {
                10_000
            },
        )
    }

    /// The annual borrow rate, in basis points, at a utilisation given in
    /// basis points.
    pub fn borrow_rate_bps(&self, utilization: u64) -> (rate: u64)
        ensures
            rate == self.spec_borrow_rate_bps(utilization as nat),
            rate <= 3 * 65_535,
    {
        let used: u64 = if utilization <= BPS_DENOMINATOR {
            utilization
        } else {
            BPS_DENOMINATOR
        };
        let base: u64 = self.base_interest_rate_bps as u64;
        let slope1: u64 = self.slope1_bps as u64;
        let slope2: u64 = self.slope2_bps as u64;
        let optimal: u64 = self.optimal_utilization_bps as u64;
        if used < optimal {
            assert(slope1 * used <= 65_535 * 10_000) by (nonlinear_arith)
                requires
                    slope1 <= 65_535,
                    used <= 10_000,
            ;
            let rise: u64 = slope1 * used / optimal;
            proof {
                let x = (slope1 * used) as int;
                let o = optimal as int;
                lemma_fundamental_div_mod(x, o);
                assert(rise <= slope1) by (nonlinear_arith)
                    requires
                        x == o * rise + x % o,
                        0 <= x % o,
                        x == slope1 * used,
                        used < o,
                        rise >= 0,
                        slope1 >= 0,
                ;
            }
            base + rise
        } else if optimal >= BPS_DENOMINATOR {
            base + slope1
        } else {
            let over: u64 = used - optimal;
            let span: u64 = BPS_DENOMINATOR - optimal;
            assert(slope2 * over <= 65_535 * 10_000) by (nonlinear_arith)
                requires
                    slope2 <= 65_535,
                    over <= 10_000,
            ;
            let rise: u64 = slope2 * over / span;
            proof {
                let x = (slope2 * over) as int;
                let o = span as int;
                lemma_fundamental_div_mod(x, o);
                assert(rise <= slope2) by (nonlinear_arith)
                    requires
                        x == o * rise + x % o,
                        0 <= x % o,
                        x == slope2 * over,
                        over <= o,
                        o > 0,
                        rise >= 0,
                        slope2 >= 0,
                ;
            }
            base + slope1 + rise
        }
    }

    /// The annual borrow rate, in basis points, at the market's current
    /// utilisation: what it has lent over `total_available`.
    pub fn current_borrow_rate_bps(&self, total_available: u64) -> (rate: u64)
        ensures
            rate == self.spec_borrow_rate_bps(
                utilization_of(self.total_borrowed as nat, total_available as nat),
            ),
            rate <= 3 * 65_535,
    {
        self.borrow_rate_bps(utilization_bps(self.total_borrowed, total_available))
    }

    /// The error, if any, with which a deposit of `amount` into this
    /// market is refused.
    pub open spec fn supply_refusal(&self, amount: u64) -> Option<LegasiError> {
        if !self.is_active {
            Some(LegasiError::MarketNotActive)
        } else if !self.collateral_enabled {
            Some(LegasiError::CollateralNotEnabled)
        } else if self.total_collateral + amount > self.supply_cap {
            Some(LegasiError::SupplyCapExceeded)
        } else {
            None
        }
    }

    /// The error, if any, with which a loan of `amount` from this market
    /// is refused before the position is looked at.
    pub open spec fn borrow_refusal(&self, amount: u64) -> Option<LegasiError> {
        if !self.is_active {
            Some(LegasiError::MarketNotActive)
        } else if !self.borrow_enabled {
            Some(LegasiError::BorrowNotEnabled)
        } else if amount < self.min_borrow {
            Some(LegasiError::BelowMinBorrow)
        } else if self.total_borrowed + amount > self.borrow_cap {
            Some(LegasiError::BorrowCapExceeded)
        } else {
            None
        }
    }

    /// Whether the market accepts a further deposit of `amount`: it must be
    /// active, take collateral, and stay within its supply cap.
    pub fn check_supply(&self, amount: u64) -> (checked: Result<(), LegasiError>)
        ensures
            match checked {
                Ok(_) => self.supply_refusal(amount) is None,
                Err(e) => self.supply_refusal(amount) == Some(e),
            },
    {
        if !self.is_active {
            Err(LegasiError::MarketNotActive)
        } else if !self.collateral_enabled {
            Err(LegasiError::CollateralNotEnabled)
        } else if amount > self.supply_cap || self.total_collateral > self.supply_cap - amount {
            Err(LegasiError::SupplyCapExceeded)
        } else {
            Ok(())
        }
    }

    /// Whether the market accepts a further loan of `amount`: it must be
    /// active, lend, and the loan must reach the minimum and stay within
    /// the borrow cap.
    pub fn check_borrow_limits(&self, amount: u64) -> (checked: Result<(), LegasiError>)
        ensures
            match checked {
                Ok(_) => self.borrow_refusal(amount) is None,
                Err(e) => self.borrow_refusal(amount) == Some(e),
            },
    {
        if !self.is_active {
            Err(LegasiError::MarketNotActive)
        } else if !self.borrow_enabled {
            Err(LegasiError::BorrowNotEnabled)
        } else if amount < self.min_borrow {
            Err(LegasiError::BelowMinBorrow)
        } else if amount > self.borrow_cap || self.total_borrowed > self.borrow_cap - amount {
            Err(LegasiError::BorrowCapExceeded)
        } else {
            Ok(())
        }
    }
}

} // verus!
