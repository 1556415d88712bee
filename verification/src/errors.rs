//! The closed set of failures an operation can report.

use vstd::prelude::*;

verus! {

/// Why an operation was refused. A refused operation leaves every state
/// value as it was.
#[derive(Clone, Copy, Debug, PartialEq, Eq, Structural)]
pub enum LegasiError {
    InvalidAmount,
    MathOverflow,
    ExceedsLTV,
    InsufficientCollateral,
    InsufficientLiquidity,
    AssetNotSupported,
    AssetNotActive,
    PositionNotFound,
    GadDisabled,
    NoDebtToDeleverage,
    LtvBelowGadThreshold,
    CrankTooSoon,
    NothingToLiquidate,
    BelowCollateralFloor,
    InvalidGadConfig,
    NoLpShares,
    ProtocolPaused,
    Unauthorized,
    StalePriceFeed,
    FlashLoanNotRepaid,
    InvalidOracle,
    SlippageExceeded,
    PositionAlreadyExists,
    CollateralAlreadyDeposited,
    BorrowAlreadyExists,
    MaxCollateralTypesReached,
    MaxBorrowTypesReached,
    MarketNotFound,
    MarketNotActive,
    BorrowNotEnabled,
    CollateralNotEnabled,
    SupplyCapExceeded,
    BorrowCapExceeded,
    BelowMinBorrow,
    EModeCategoryMismatch,
    CannotChangeEModeWithActivePositions,
}

impl LegasiError {
    /// The message shown to a user for this failure.
    pub fn message(&self) -> (text: &'static str)
        ensures
            text@ == Self::message_of(*self)@,
    {
        match self {
            LegasiError::InvalidAmount => "Invalid amount",
            LegasiError::MathOverflow => "Math overflow",
            LegasiError::ExceedsLTV => "Exceeds maximum LTV",
            LegasiError::InsufficientCollateral => "Insufficient collateral",
            LegasiError::InsufficientLiquidity => "Insufficient liquidity in pool",
            LegasiError::AssetNotSupported => "Asset not supported",
            LegasiError::AssetNotActive => "Asset is not active",
            LegasiError::PositionNotFound => "Position not found",
            LegasiError::GadDisabled => "GAD is disabled for this position",
            LegasiError::NoDebtToDeleverage => "No debt to deleverage",
            LegasiError::LtvBelowGadThreshold => "LTV below GAD threshold",
            LegasiError::CrankTooSoon => "Crank called too soon",
            LegasiError::NothingToLiquidate => "Nothing to liquidate",
            LegasiError::BelowCollateralFloor => "Below minimum collateral floor",
            LegasiError::InvalidGadConfig => "Invalid GAD configuration",
            LegasiError::NoLpShares => "No LP shares in pool",
            LegasiError::ProtocolPaused => "Protocol is paused",
            LegasiError::Unauthorized => "Unauthorized",
            LegasiError::StalePriceFeed => "Price feed is stale",
            LegasiError::FlashLoanNotRepaid => "Flash loan not repaid",
            LegasiError::InvalidOracle => "Invalid oracle",
            LegasiError::SlippageExceeded => "Slippage exceeded",
            LegasiError::PositionAlreadyExists => "Position already exists",
            LegasiError::CollateralAlreadyDeposited => "Collateral type already deposited",
            LegasiError::BorrowAlreadyExists => "Borrow type already exists",
            LegasiError::MaxCollateralTypesReached => "Max collateral types reached",
            LegasiError::MaxBorrowTypesReached => "Max borrow types reached",
            LegasiError::MarketNotFound => "Market not found",
            LegasiError::MarketNotActive => "Market not active",
            LegasiError::BorrowNotEnabled => "Borrow not enabled for this market",
            LegasiError::CollateralNotEnabled => "Collateral not enabled for this market",
            LegasiError::SupplyCapExceeded => "Supply cap exceeded",
            LegasiError::BorrowCapExceeded => "Borrow cap exceeded",
            LegasiError::BelowMinBorrow => "Below minimum borrow amount",
            LegasiError::EModeCategoryMismatch => "eMode category mismatch - cannot use eMode with these assets",
            LegasiError::CannotChangeEModeWithActivePositions => "Cannot change eMode while having active positions",
        }
    }

    /// The message of each failure, for use in contracts.
    pub open spec fn message_of(e: LegasiError) -> &'static str {
        match e {
            LegasiError::InvalidAmount => "Invalid amount",
            LegasiError::MathOverflow => "Math overflow",
            LegasiError::ExceedsLTV => "Exceeds maximum LTV",
            LegasiError::InsufficientCollateral => "Insufficient collateral",
            LegasiError::InsufficientLiquidity => "Insufficient liquidity in pool",
            LegasiError::AssetNotSupported => "Asset not supported",
            LegasiError::AssetNotActive => "Asset is not active",
            LegasiError::PositionNotFound => "Position not found",
            LegasiError::GadDisabled => "GAD is disabled for this position",
            LegasiError::NoDebtToDeleverage => "No debt to deleverage",
            LegasiError::LtvBelowGadThreshold => "LTV below GAD threshold",
            LegasiError::CrankTooSoon => "Crank called too soon",
            LegasiError::NothingToLiquidate => "Nothing to liquidate",
            LegasiError::BelowCollateralFloor => "Below minimum collateral floor",
            LegasiError::InvalidGadConfig => "Invalid GAD configuration",
            LegasiError::NoLpShares => "No LP shares in pool",
            LegasiError::ProtocolPaused => "Protocol is paused",
            LegasiError::Unauthorized => "Unauthorized",
            LegasiError::StalePriceFeed => "Price feed is stale",
            LegasiError::FlashLoanNotRepaid => "Flash loan not repaid",
            LegasiError::InvalidOracle => "Invalid oracle",
            LegasiError::SlippageExceeded => "Slippage exceeded",
            LegasiError::PositionAlreadyExists => "Position already exists",
            LegasiError::CollateralAlreadyDeposited => "Collateral type already deposited",
            LegasiError::BorrowAlreadyExists => "Borrow type already exists",
            LegasiError::MaxCollateralTypesReached => "Max collateral types reached",
            LegasiError::MaxBorrowTypesReached => "Max borrow types reached",
            LegasiError::MarketNotFound => "Market not found",
            LegasiError::MarketNotActive => "Market not active",
            LegasiError::BorrowNotEnabled => "Borrow not enabled for this market",
            LegasiError::CollateralNotEnabled => "Collateral not enabled for this market",
            LegasiError::SupplyCapExceeded => "Supply cap exceeded",
            LegasiError::BorrowCapExceeded => "Borrow cap exceeded",
            LegasiError::BelowMinBorrow => "Below minimum borrow amount",
            LegasiError::EModeCategoryMismatch => "eMode category mismatch - cannot use eMode with these assets",
            LegasiError::CannotChangeEModeWithActivePositions => "Cannot change eMode while having active positions",
        }
    }
}

} // verus!
