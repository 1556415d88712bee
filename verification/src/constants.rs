//! Protocol-wide constants.

use vstd::prelude::*;

verus! {

/// Most collateral asset types one position may hold.
pub const MAX_COLLATERAL_TYPES: usize = 8;

/// Most borrowed asset types one position may hold.
pub const MAX_BORROW_TYPES: usize = 4;

/// Smallest units in one native token.
pub const LAMPORTS_PER_SOL: u64 = 1_000_000_000;

/// Fixed-point scale of USD amounts and exchange rates: six decimal places.
pub const USD_MULTIPLIER: u64 = 1_000_000;

/// Denominator of every basis-point ratio.
pub const BPS_DENOMINATOR: u64 = 10_000;

/// Oldest price, in seconds, that a risk decision may rest on.
pub const MAX_PRICE_AGE_SECONDS: i64 = 300;

/// Seconds in a year of 365 days, used for interest accrual.
pub const SECONDS_PER_YEAR: u64 = 31_536_000;

/// Least number of seconds between two deleveraging cranks on one position.
pub const GAD_COOLDOWN_SECONDS: i64 = 3_600;

/// Share of a debt, in basis points, that one crank repays in a soft breach.
pub const GAD_SOFT_REPAY_BPS: u64 = 1_000;

/// Collateral value, in USD with six decimals, that a crank never seizes below.
pub const GAD_COLLATERAL_FLOOR_USD: u64 = 1_000_000;

} // verus!
