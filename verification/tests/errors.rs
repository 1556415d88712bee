use legasi::errors::LegasiError;

#[test]
fn error_messages() {
    assert_eq!(LegasiError::InvalidAmount.message(), "Invalid amount");
    assert_eq!(LegasiError::MathOverflow.message(), "Math overflow");
    assert_eq!(LegasiError::ExceedsLTV.message(), "Exceeds maximum LTV");
    assert_eq!(LegasiError::InsufficientCollateral.message(), "Insufficient collateral");
    assert_eq!(LegasiError::InsufficientLiquidity.message(), "Insufficient liquidity in pool");
    assert_eq!(LegasiError::AssetNotSupported.message(), "Asset not supported");
    assert_eq!(LegasiError::AssetNotActive.message(), "Asset is not active");
    assert_eq!(LegasiError::PositionNotFound.message(), "Position not found");
    assert_eq!(LegasiError::GadDisabled.message(), "GAD is disabled for this position");
    assert_eq!(LegasiError::NoDebtToDeleverage.message(), "No debt to deleverage");
    assert_eq!(LegasiError::LtvBelowGadThreshold.message(), "LTV below GAD threshold");
    assert_eq!(LegasiError::CrankTooSoon.message(), "Crank called too soon");
    assert_eq!(LegasiError::NothingToLiquidate.message(), "Nothing to liquidate");
    assert_eq!(LegasiError::BelowCollateralFloor.message(), "Below minimum collateral floor");
    assert_eq!(LegasiError::InvalidGadConfig.message(), "Invalid GAD configuration");
    assert_eq!(LegasiError::NoLpShares.message(), "No LP shares in pool");
    assert_eq!(LegasiError::ProtocolPaused.message(), "Protocol is paused");
    assert_eq!(LegasiError::Unauthorized.message(), "Unauthorized");
    assert_eq!(LegasiError::StalePriceFeed.message(), "Price feed is stale");
    assert_eq!(LegasiError::FlashLoanNotRepaid.message(), "Flash loan not repaid");
    assert_eq!(LegasiError::InvalidOracle.message(), "Invalid oracle");
    assert_eq!(LegasiError::SlippageExceeded.message(), "Slippage exceeded");
    assert_eq!(LegasiError::PositionAlreadyExists.message(), "Position already exists");
    assert_eq!(LegasiError::CollateralAlreadyDeposited.message(), "Collateral type already deposited");
    assert_eq!(LegasiError::BorrowAlreadyExists.message(), "Borrow type already exists");
    assert_eq!(LegasiError::MaxCollateralTypesReached.message(), "Max collateral types reached");
    assert_eq!(LegasiError::MaxBorrowTypesReached.message(), "Max borrow types reached");
    assert_eq!(LegasiError::MarketNotFound.message(), "Market not found");
    assert_eq!(LegasiError::MarketNotActive.message(), "Market not active");
    assert_eq!(LegasiError::BorrowNotEnabled.message(), "Borrow not enabled for this market");
    assert_eq!(LegasiError::CollateralNotEnabled.message(), "Collateral not enabled for this market");
    assert_eq!(LegasiError::SupplyCapExceeded.message(), "Supply cap exceeded");
    assert_eq!(LegasiError::BorrowCapExceeded.message(), "Borrow cap exceeded");
    assert_eq!(LegasiError::BelowMinBorrow.message(), "Below minimum borrow amount");
    assert_eq!(
        LegasiError::EModeCategoryMismatch.message(),
        "eMode category mismatch - cannot use eMode with these assets"
    );
    assert_eq!(
        LegasiError::CannotChangeEModeWithActivePositions.message(),
        "Cannot change eMode while having active positions"
    );
}
