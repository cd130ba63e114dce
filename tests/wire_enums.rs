use bpx_api::{
    BorrowLendMarketState, BpxError, FillType, HistoricOrderType, MarketType, OrderBookState,
    OrderExpiryReason, PositionUpdateType, SortDirection, StrategyCancelReason, StrategyStatus,
    SystemOrderType,
};

#[test]
fn market_type_wire_round_trip() {
    let cases = [
        (MarketType::Spot, "SPOT"),
        (MarketType::Perp, "PERP"),
        (MarketType::Iperp, "IPERP"),
        (MarketType::Dated, "DATED"),
        (MarketType::Prediction, "PREDICTION"),
        (MarketType::Rfq, "RFQ"),
    ];
    for (variant, text) in cases {
        assert_eq!(variant.to_wire(), text);
        assert_eq!(MarketType::from_wire(text), Ok(variant));
        assert_eq!(MarketType::from_wire(variant.to_wire()), Ok(variant));
    }
}

#[test]
fn order_book_state_wire_round_trip() {
    let cases = [
        (OrderBookState::Open, "Open"),
        (OrderBookState::Closed, "Closed"),
        (OrderBookState::CancelOnly, "CancelOnly"),
        (OrderBookState::LimitOnly, "LimitOnly"),
        (OrderBookState::PostOnly, "PostOnly"),
    ];
    for (variant, text) in cases {
        assert_eq!(variant.to_wire(), text);
        assert_eq!(OrderBookState::from_wire(text), Ok(variant));
        assert_eq!(OrderBookState::from_wire(variant.to_wire()), Ok(variant));
    }
}

#[test]
fn fill_type_wire_round_trip() {
    let cases = [
        (FillType::User, "User"),
        (FillType::BookLiquidation, "BookLiquidation"),
        (FillType::Adl, "Adl"),
        (FillType::Backstop, "Backstop"),
        (FillType::Liquidation, "Liquidation"),
        (FillType::AllLiquidation, "AllLiquidation"),
        (FillType::CollateralConversion, "CollateralConversion"),
        (FillType::CollateralConversionAndSpotLiquidation, "CollateralConversionAndSpotLiquidation"),
    ];
    for (variant, text) in cases {
        assert_eq!(variant.to_wire(), text);
        assert_eq!(FillType::from_wire(text), Ok(variant));
        assert_eq!(FillType::from_wire(variant.to_wire()), Ok(variant));
    }
}

#[test]
fn system_order_type_wire_round_trip() {
    let cases = [
        (SystemOrderType::CollateralConversion, "CollateralConversion"),
        (SystemOrderType::FutureExpiry, "FutureExpiry"),
        (SystemOrderType::LiquidatePositionOnAdl, "LiquidatePositionOnAdl"),
        (SystemOrderType::LiquidatePositionOnBook, "LiquidatePositionOnBook"),
        (SystemOrderType::LiquidatePositionOnBackstop, "LiquidatePositionOnBackstop"),
        (SystemOrderType::OrderBookClosed, "OrderBookClosed"),
    ];
    for (variant, text) in cases {
        assert_eq!(variant.to_wire(), text);
        assert_eq!(SystemOrderType::from_wire(text), Ok(variant));
        assert_eq!(SystemOrderType::from_wire(variant.to_wire()), Ok(variant));
    }
}

#[test]
fn order_expiry_reason_wire_round_trip() {
    let cases = [
        (OrderExpiryReason::AccountTradingSuspended, "AccountTradingSuspended"),
        (OrderExpiryReason::BorrowRequiresLendRedeem, "BorrowRequiresLendRedeem"),
        (OrderExpiryReason::FillOrKill, "FillOrKill"),
        (OrderExpiryReason::InsufficientBorrowableQuantity, "InsufficientBorrowableQuantity"),
        (OrderExpiryReason::InsufficientFunds, "InsufficientFunds"),
        (OrderExpiryReason::InsufficientLiquidity, "InsufficientLiquidity"),
        (OrderExpiryReason::InvalidPrice, "InvalidPrice"),
        (OrderExpiryReason::InvalidQuantity, "InvalidQuantity"),
        (OrderExpiryReason::ImmediateOrCancel, "ImmediateOrCancel"),
        (OrderExpiryReason::InsufficientMargin, "InsufficientMargin"),
        (OrderExpiryReason::Liquidation, "Liquidation"),
        (OrderExpiryReason::NegativeEquity, "NegativeEquity"),
        (OrderExpiryReason::PostOnlyMode, "PostOnlyMode"),
        (OrderExpiryReason::PostOnlyTaker, "PostOnlyTaker"),
        (OrderExpiryReason::PriceOutOfBounds, "PriceOutOfBounds"),
        (OrderExpiryReason::ReduceOnlyNotReduced, "ReduceOnlyNotReduced"),
        (OrderExpiryReason::SelfTradePrevention, "SelfTradePrevention"),
        (OrderExpiryReason::StopWithoutPosition, "StopWithoutPosition"),
        (OrderExpiryReason::PriceImpact, "PriceImpact"),
        (OrderExpiryReason::Unknown, "Unknown"),
        (OrderExpiryReason::UserPermissions, "UserPermissions"),
        (OrderExpiryReason::MaxStopOrdersPerPosition, "MaxStopOrdersPerPosition"),
        (OrderExpiryReason::PositionLimit, "PositionLimit"),
        (OrderExpiryReason::SlippageToleranceExceeded, "SlippageToleranceExceeded"),
    ];
    for (variant, text) in cases {
        assert_eq!(variant.to_wire(), text);
        assert_eq!(OrderExpiryReason::from_wire(text), Ok(variant));
        assert_eq!(OrderExpiryReason::from_wire(variant.to_wire()), Ok(variant));
    }
}

#[test]
fn historic_order_type_wire_round_trip() {
    let cases = [
        (HistoricOrderType::Limit, "Limit"),
        (HistoricOrderType::Market, "Market"),
    ];
    for (variant, text) in cases {
        assert_eq!(variant.to_wire(), text);
        assert_eq!(HistoricOrderType::from_wire(text), Ok(variant));
        assert_eq!(HistoricOrderType::from_wire(variant.to_wire()), Ok(variant));
    }
}

#[test]
fn sort_direction_wire_round_trip() {
    let cases = [
        (SortDirection::Asc, "Asc"),
        (SortDirection::Desc, "Desc"),
    ];
    for (variant, text) in cases {
        assert_eq!(variant.to_wire(), text);
        assert_eq!(SortDirection::from_wire(text), Ok(variant));
        assert_eq!(SortDirection::from_wire(variant.to_wire()), Ok(variant));
    }
}

#[test]
fn strategy_cancel_reason_wire_round_trip() {
    let cases = [
        (StrategyCancelReason::Expired, "Expired"),
        (StrategyCancelReason::FillOrKill, "FillOrKill"),
        (StrategyCancelReason::InsufficientBorrowableQuantity, "InsufficientBorrowableQuantity"),
        (StrategyCancelReason::InsufficientFunds, "InsufficientFunds"),
        (StrategyCancelReason::InsufficientLiquidity, "InsufficientLiquidity"),
        (StrategyCancelReason::InvalidPrice, "InvalidPrice"),
        (StrategyCancelReason::InvalidQuantity, "InvalidQuantity"),
        (StrategyCancelReason::InsufficientMargin, "InsufficientMargin"),
        (StrategyCancelReason::Liquidation, "Liquidation"),
        (StrategyCancelReason::PriceOutOfBounds, "PriceOutOfBounds"),
        (StrategyCancelReason::ReduceOnlyNotReduced, "ReduceOnlyNotReduced"),
        (StrategyCancelReason::SelfTradePrevention, "SelfTradePrevention"),
        (StrategyCancelReason::Unknown, "Unknown"),
        (StrategyCancelReason::UserPermissions, "UserPermissions"),
    ];
    for (variant, text) in cases {
        assert_eq!(variant.to_wire(), text);
        assert_eq!(StrategyCancelReason::from_wire(text), Ok(variant));
        assert_eq!(StrategyCancelReason::from_wire(variant.to_wire()), Ok(variant));
    }
}

#[test]
fn strategy_status_wire_round_trip() {
    let cases = [
        (StrategyStatus::Running, "Running"),
        (StrategyStatus::Completed, "Completed"),
        (StrategyStatus::Cancelled, "Cancelled"),
        (StrategyStatus::Terminated, "Terminated"),
    ];
    for (variant, text) in cases {
        assert_eq!(variant.to_wire(), text);
        assert_eq!(StrategyStatus::from_wire(text), Ok(variant));
        assert_eq!(StrategyStatus::from_wire(variant.to_wire()), Ok(variant));
    }
}

#[test]
fn borrow_lend_market_state_wire_round_trip() {
    let cases = [
        (BorrowLendMarketState::Open, "Open"),
        (BorrowLendMarketState::Closed, "Closed"),
        (BorrowLendMarketState::RepayOnly, "RepayOnly"),
    ];
    for (variant, text) in cases {
        assert_eq!(variant.to_wire(), text);
        assert_eq!(BorrowLendMarketState::from_wire(text), Ok(variant));
        assert_eq!(BorrowLendMarketState::from_wire(variant.to_wire()), Ok(variant));
    }
}

#[test]
fn position_update_type_wire_round_trip() {
    let cases = [
        (PositionUpdateType::PositionAdjusted, "positionAdjusted"),
        (PositionUpdateType::PositionOpened, "positionOpened"),
        (PositionUpdateType::PositionClosed, "positionClosed"),
    ];
    for (variant, text) in cases {
        assert_eq!(variant.to_wire(), text);
        assert_eq!(PositionUpdateType::from_wire(text), Ok(variant));
        assert_eq!(PositionUpdateType::from_wire(variant.to_wire()), Ok(variant));
    }
}

fn unknown(r: Result<impl std::fmt::Debug, BpxError>, text: &str) {
    match r {
        Err(BpxError::UnknownVariant { input }) => assert_eq!(input, text),
        other => panic!("{text:?} gave {other:?}"),
    }
}

#[test]
fn unknown_wire_texts_fail() {
    unknown(FillType::from_wire("user"), "user");
    unknown(FillType::from_wire(""), "");
    unknown(FillType::from_wire("NewKindOfFill"), "NewKindOfFill");
    unknown(MarketType::from_wire("Spot"), "Spot");
    unknown(MarketType::from_wire("spot"), "spot");
    unknown(SortDirection::from_wire("ASC"), "ASC");
    unknown(OrderBookState::from_wire("Open "), "Open ");
    unknown(PositionUpdateType::from_wire("PositionOpened"), "PositionOpened");
    unknown(StrategyStatus::from_wire("Paused"), "Paused");
    unknown(OrderExpiryReason::from_wire("Expired"), "Expired");
    unknown(StrategyCancelReason::from_wire("PostOnlyTaker"), "PostOnlyTaker");
    unknown(SystemOrderType::from_wire("Liquidation"), "Liquidation");
    unknown(HistoricOrderType::from_wire("StopLimit"), "StopLimit");
    unknown(BorrowLendMarketState::from_wire("Halted"), "Halted");
}
