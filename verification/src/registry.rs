//! The asset registry: protocol state, per-asset configuration, price
//! feeds and markets, as an administrator creates and changes them.
//!
//! Who may call these is the host's concern; the records are plain values
//! that it stores under its own addressing.

use vstd::prelude::*;
use anchor_lang::prelude::Pubkey;
use crate::errors::LegasiError;
use crate::market::{Market, MarketParams};
use crate::state::{AssetType, Borrowable, Collateral, PriceFeed, Protocol};

verus! {

/// What an administrator chooses for the protocol.
#[derive(Clone, Debug, PartialEq, Eq)]
pub struct ProtocolConfig {
    pub treasury: Pubkey,
}

/// What an administrator chooses for a collateral asset.
#[derive(Clone, Debug, PartialEq, Eq)]
pub struct CollateralConfig {
    pub mint: Pubkey,
    pub oracle: Pubkey,
    pub max_ltv_bps: u16,
    pub liquidation_threshold_bps: u16,
    pub liquidation_bonus_bps: u16,
    pub decimals: u8,
    pub asset_type: AssetType,
}

/// What an administrator chooses for a borrowable asset.
#[derive(Clone, Debug, PartialEq, Eq)]
pub struct BorrowableConfig {
    pub mint: Pubkey,
    pub oracle: Pubkey,
    pub interest_rate_bps: u16,
    pub decimals: u8,
    pub asset_type: AssetType,
}

/// The protocol state at its start: empty totals, not paused.
pub fn initialize_protocol(admin: Pubkey, config: &ProtocolConfig, bump: u8) -> (protocol: Protocol)
    ensures
        protocol == (Protocol {
            admin,
            treasury: config.treasury,
            insurance_fund: 0,
            total_collateral_usd: 0,
            total_borrowed_usd: 0,
            paused: false,
            bump,
        }),
{
    Protocol {
        admin,
        treasury: config.treasury,
        insurance_fund: 0,
        total_collateral_usd: 0,
        total_borrowed_usd: 0,
        paused: false,
        bump,
    }
}

impl CollateralConfig {
    /// Every ratio is at most 100%, and liquidation does not start below
    /// the lending bound.
    pub open spec fn wf(&self) -> bool {
        &&& self.max_ltv_bps <= self.liquidation_threshold_bps
        &&& self.liquidation_threshold_bps <= 10_000
        &&& self.liquidation_bonus_bps <= 10_000
    }
}

/// The record of a newly registered collateral asset: active, with
/// nothing deposited.
///
/// Fails with `InvalidGadConfig` exactly where a ratio of `config` exceeds
/// 100% or its liquidation threshold lies below its lending bound.
pub fn register_collateral(config: &CollateralConfig, bump: u8) -> (outcome: Result<
    Collateral,
    LegasiError,
>)
    ensures
        outcome is Ok <==> config.wf(),
        match outcome {
            Ok(collateral) => collateral == (Collateral {
                mint: config.mint,
                oracle: config.oracle,
                max_ltv_bps: config.max_ltv_bps,
                liquidation_threshold_bps: config.liquidation_threshold_bps,
                liquidation_bonus_bps: config.liquidation_bonus_bps,
                decimals: config.decimals,
                is_active: true,
                total_deposited: 0,
                asset_type: config.asset_type,
                bump,
            }) && collateral.wf(),
            Err(e) => e == LegasiError::InvalidGadConfig,
        },
{
    if !(config.max_ltv_bps <= config.liquidation_threshold_bps && config.liquidation_threshold_bps
        <= 10_000 && config.liquidation_bonus_bps <= 10_000) {
        return Err(LegasiError::InvalidGadConfig);
    }
    Ok(
        Collateral {
            mint: config.mint,
            oracle: config.oracle,
            max_ltv_bps: config.max_ltv_bps,
            liquidation_threshold_bps: config.liquidation_threshold_bps,
            liquidation_bonus_bps: config.liquidation_bonus_bps,
            decimals: config.decimals,
            is_active: true,
            total_deposited: 0,
            asset_type: config.asset_type,
            bump,
        },
    )
}

/// The record of a newly registered borrowable asset: active, with
/// nothing lent and nothing available.
pub fn register_borrowable(config: &BorrowableConfig, bump: u8) -> (borrowable: Borrowable)
    ensures
        borrowable == (Borrowable {
            mint: config.mint,
            oracle: config.oracle,
            interest_rate_bps: config.interest_rate_bps,
            decimals: config.decimals,
            is_active: true,
            total_borrowed: 0,
            total_available: 0,
            asset_type: config.asset_type,
            bump,
        }),
{
    Borrowable {
        mint: config.mint,
        oracle: config.oracle,
        interest_rate_bps: config.interest_rate_bps,
        decimals: config.decimals,
        is_active: true,
        total_borrowed: 0,
        total_available: 0,
        asset_type: config.asset_type,
        bump,
    }
}

/// A new price feed, set by hand: its confidence is 0, the mark of a
/// price that no oracle vouches for.
pub fn initialize_price_feed(asset_type: AssetType, initial_price_usd_6dec: u64, now: i64, bump: u8)
    -> (price_feed: PriceFeed)
    ensures
        price_feed == (PriceFeed {
            asset_type,
            price_usd_6dec: initial_price_usd_6dec,
            last_update: now,
            confidence: 0,
            bump,
        }),
{
    PriceFeed {
        asset_type,
        price_usd_6dec: initial_price_usd_6dec,
        last_update: now,
        confidence: 0,
        bump,
    }
}

/// Sets the price of a feed by hand, which resets its confidence to 0.
///
/// Fails with `InvalidOracle`, and changes nothing, exactly where the feed
/// is not the feed of `asset_type`.
pub fn update_price(
    price_feed: &mut PriceFeed,
    asset_type: AssetType,
    price_usd_6dec: u64,
    now: i64,
) -> (outcome: Result<(), LegasiError>)
    ensures
        outcome is Ok <==> old(price_feed).asset_type == asset_type,
        match outcome {
            Ok(_) => *final(price_feed) == (PriceFeed {
                price_usd_6dec,
                last_update: now,
                confidence: 0,
                ..*old(price_feed)
            }),
            Err(e) => e == LegasiError::InvalidOracle && *final(price_feed) == *old(price_feed),
        },
{
    if price_feed.asset_type != asset_type {
        return Err(LegasiError::InvalidOracle);
    }
    price_feed.price_usd_6dec = price_usd_6dec;
    price_feed.last_update = now;
    price_feed.confidence = 0;
    Ok(())
}

/// Why a feed is not accepted as the price of `asset_type` at `now`, if
/// it is not: it is another asset's feed, or it is older than `max_age`
/// seconds.
pub open spec fn feed_refusal(price_feed: &PriceFeed, asset_type: AssetType, now: i64, max_age: i64)
    -> Option<LegasiError> {
    if price_feed.asset_type != asset_type {
        Some(LegasiError::InvalidOracle)
    } else if now - price_feed.last_update > max_age {
        Some(LegasiError::StalePriceFeed)
    } else {
        None
    }
}

/// Reads the price of `asset_type` from a feed, if the feed is the
/// asset's and was updated within the last `max_age` seconds.
pub fn read_price(price_feed: &PriceFeed, asset_type: AssetType, now: i64, max_age: i64) -> (price:
    Result<u64, LegasiError>)
    ensures
        match price {
            Ok(p) => feed_refusal(price_feed, asset_type, now, max_age) is None && p
                == price_feed.price_usd_6dec,
            Err(e) => feed_refusal(price_feed, asset_type, now, max_age) == Some(e),
        },
{
    if price_feed.asset_type != asset_type {
        return Err(LegasiError::InvalidOracle);
    }
    let age: i128 = now as i128 - price_feed.last_update as i128;
    if age > max_age as i128 {
        return Err(LegasiError::StalePriceFeed);
    }
    Ok(price_feed.price_usd_6dec)
}

/// Creates a market: active, lending and taking collateral, with empty
/// totals.
///
/// Fails with `InvalidGadConfig` exactly where the deleveraging thresholds
/// of `params` do not ascend within 100%.
pub fn create_market(
    market_id: u16,
    collateral_asset: AssetType,
    collateral_mint: Pubkey,
    borrow_asset: AssetType,
    borrow_mint: Pubkey,
    params: MarketParams,
    now: i64,
    bump: u8,
) -> (outcome: Result<Market, LegasiError>)
    ensures
        outcome is Ok <==> params.wf(),
        match outcome {
            Ok(market) => market == (Market {
                market_id,
                name: params.name,
                collateral_asset,
                collateral_mint,
                borrow_asset,
                borrow_mint,
                base_max_ltv_bps: params.base_max_ltv_bps,
                emode_max_ltv_bps: params.emode_max_ltv_bps,
                gad_soft_threshold_bps: params.gad_soft_threshold_bps,
                gad_hard_threshold_bps: params.gad_hard_threshold_bps,
                liquidation_bonus_bps: params.liquidation_bonus_bps,
                base_interest_rate_bps: params.base_interest_rate_bps,
                slope1_bps: params.slope1_bps,
                slope2_bps: params.slope2_bps,
                optimal_utilization_bps: params.optimal_utilization_bps,
                emode_category: params.emode_category,
                supply_cap: params.supply_cap,
                borrow_cap: params.borrow_cap,
                min_borrow: params.min_borrow,
                is_active: true,
                borrow_enabled: true,
                collateral_enabled: true,
                total_collateral: 0,
                total_borrowed: 0,
                created_at: now,
                updated_at: now,
                bump,
            }) && market.wf(),
            Err(e) => e == LegasiError::InvalidGadConfig,
        },
{
    match params.validate() {
        Ok(_) => {},
        Err(e) => {
            return Err(e);
        },
    }
    Ok(
        Market {
            market_id,
            name: params.name,
            collateral_asset,
            collateral_mint,
            borrow_asset,
            borrow_mint,
            base_max_ltv_bps: params.base_max_ltv_bps,
            emode_max_ltv_bps: params.emode_max_ltv_bps,
            gad_soft_threshold_bps: params.gad_soft_threshold_bps,
            gad_hard_threshold_bps: params.gad_hard_threshold_bps,
            liquidation_bonus_bps: params.liquidation_bonus_bps,
            base_interest_rate_bps: params.base_interest_rate_bps,
            slope1_bps: params.slope1_bps,
            slope2_bps: params.slope2_bps,
            optimal_utilization_bps: params.optimal_utilization_bps,
            emode_category: params.emode_category,
            supply_cap: params.supply_cap,
            borrow_cap: params.borrow_cap,
            min_borrow: params.min_borrow,
            is_active: true,
            borrow_enabled: true,
            collateral_enabled: true,
            total_collateral: 0,
            total_borrowed: 0,
            created_at: now,
            updated_at: now,
            bump,
        },
    )
}

/// Replaces a market's risk bounds, rate curve and caps. Its name, eMode
/// category, assets, switches and totals stay.
///
/// Fails with `InvalidGadConfig`, and changes nothing, exactly where the
/// deleveraging thresholds of `params` do not ascend within 100%.
pub fn update_market(market: &mut Market, params: &MarketParams, now: i64) -> (outcome: Result<
    (),
    LegasiError,
>)
    ensures
        outcome is Ok <==> params.wf(),
        match outcome {
            Ok(_) => *final(market) == (Market {
                base_max_ltv_bps: params.base_max_ltv_bps,
                emode_max_ltv_bps: params.emode_max_ltv_bps,
                gad_soft_threshold_bps: params.gad_soft_threshold_bps,
                gad_hard_threshold_bps: params.gad_hard_threshold_bps,
                liquidation_bonus_bps: params.liquidation_bonus_bps,
                base_interest_rate_bps: params.base_interest_rate_bps,
                slope1_bps: params.slope1_bps,
                slope2_bps: params.slope2_bps,
                optimal_utilization_bps: params.optimal_utilization_bps,
                supply_cap: params.supply_cap,
                borrow_cap: params.borrow_cap,
                min_borrow: params.min_borrow,
                updated_at: now,
                ..*old(market)
            }) && final(market).wf(),
            Err(e) => e == LegasiError::InvalidGadConfig && *final(market) == *old(market),
        },
{
    match params.validate() {
        Ok(_) => {},
        Err(e) => {
            return Err(e);
        },
    }
    market.base_max_ltv_bps = params.base_max_ltv_bps;
    market.emode_max_ltv_bps = params.emode_max_ltv_bps;
    market.gad_soft_threshold_bps = params.gad_soft_threshold_bps;
    market.gad_hard_threshold_bps = params.gad_hard_threshold_bps;
    market.liquidation_bonus_bps = params.liquidation_bonus_bps;
    market.base_interest_rate_bps = params.base_interest_rate_bps;
    market.slope1_bps = params.slope1_bps;
    market.slope2_bps = params.slope2_bps;
    market.optimal_utilization_bps = params.optimal_utilization_bps;
    market.supply_cap = params.supply_cap;
    market.borrow_cap = params.borrow_cap;
    market.min_borrow = params.min_borrow;
    market.updated_at = now;
    Ok(())
}

/// Sets a market's three switches.
pub fn toggle_market(
    market: &mut Market,
    is_active: bool,
    borrow_enabled: bool,
    collateral_enabled: bool,
    now: i64,
)
    ensures
        *final(market) == (Market {
            is_active,
            borrow_enabled,
            collateral_enabled,
            updated_at: now,
            ..*old(market)
        }),
{
    market.is_active = is_active;
    market.borrow_enabled = borrow_enabled;
    market.collateral_enabled = collateral_enabled;
    market.updated_at = now;
}

} // verus!
