//! Typed request construction and wire marshaling for an exchange trading API: query
//! strings from sparse filters, wire texts of the domain enumerations, exact decimals,
//! market precision, the endpoint catalog, and the records of responses and stream
//! payloads read from JSON by their field names and aliases.
pub mod borrow_lend;
pub mod decimal;
pub mod dispatch;
pub mod error;
pub mod futures;
pub mod history;
pub mod json;
pub mod markets;
pub mod query;
pub mod routes;
pub mod strategies;
pub mod text;
pub mod time;

pub use borrow_lend::{BorrowLendMarket, BorrowLendMarketState, BorrowLendPosition};
pub use decimal::Decimal;
pub use error::{BpxError, DecodeCause};
pub use futures::{FuturePosition, OpenInterestUpdate, PositionUpdate, PositionUpdateType};
pub use history::{
    FillHistorySearchParams, FillType, HistoricFill, HistoricOrder, HistoricOrderType,
    OrderExpiryReason, OrderHistorySearchParams, SystemOrderType,
};
pub use markets::{
    Asset, FundingRate, Kline, KlineUpdate, LeverageFilters, MarkPrice, MarkPriceUpdate, Market,
    MarketFilters, MarketType, OrderBookDepth, OrderBookDepthUpdate, OrderBookState,
    PriceBandMarkPrice, PriceBandMeanPremium, PriceFilters, QuantityFilters, Ticker,
    TickerStatisticsUpdate, TickerUpdate, Token,
};
pub use strategies::{
    SortDirection, Strategy, StrategyCancelReason, StrategyHistorySearchParams, StrategyStatus,
};
pub use time::{Timestamp, ZonedTimestamp};
