use bpx_api::dispatch::success_body;
use bpx_api::routes::{symbol_url, API_DEPTH};
use bpx_api::{
    Asset, BorrowLendMarket, BorrowLendMarketState, BorrowLendPosition, BpxError, Decimal,
    DecodeCause,
    FuturePosition, HistoricFill, HistoricOrder, HistoricOrderType, Kline, MarkPrice,
    Market, MarketType, OrderBookDepth, OrderBookState, OrderExpiryReason, Strategy,
    StrategyCancelReason, StrategyStatus, SystemOrderType, Ticker,
};

fn dec(s: &str) -> Decimal {
    Decimal::parse(s).unwrap()
}

#[test]
fn order_book_depth_end_to_end() {
    let url = symbol_url("https://api.example.com", API_DEPTH, "BTC_USDC");
    assert_eq!(url, "https://api.example.com/api/v1/depth?symbol=BTC_USDC");
    let body = r#"{"asks":[["64001.10","0.50000"],["64002","1.2"]],"bids":[["63999.95","3.000"],["63990.00","0.1"]],"lastUpdateId":"1695312"}"#;
    let body = success_body(200, body.to_string()).unwrap();
    let depth = OrderBookDepth::from_json(&body).unwrap();
    assert_eq!(depth.asks, vec![(dec("64001.10"), dec("0.50000")), (dec("64002"), dec("1.2"))]);
    assert_eq!(depth.bids, vec![(dec("63999.95"), dec("3.000")), (dec("63990.00"), dec("0.1"))]);
    assert_eq!(depth.asks[0].1.to_wire_string(), "0.50000");
    assert_eq!(depth.last_update_id, "1695312");
}

#[test]
fn error_status_is_not_decoded() {
    let body = r#"{"code":"INVALID_CLIENT_REQUEST","message":"Invalid market"}"#.to_string();
    let r = success_body(400, body.clone()).and_then(|b| OrderBookDepth::from_json(&b));
    assert_eq!(r.err(), Some(BpxError::Api { status: 400, body }));
}

const MARKET: &str = r#"{
  "symbol": "SOL_USDC", "baseSymbol": "SOL", "quoteSymbol": "USDC", "marketType": "SPOT",
  "filters": {
    "price": {"minPrice": "0.01", "maxPrice": null, "tickSize": "0.0100",
              "meanPremiumBand": {"tolerancePct": "0.05"}},
    "quantity": {"minQuantity": "0.01", "stepSize": "0.001"}
  },
  "imfFunction": null, "mmfFunction": {"type": "sqrt", "base": "0.02", "factor": "0.0001"},
  "fundingInterval": 28800000, "orderBookState": "Open", "createdAt": "2024-01-02T03:04:05"
}"#;

#[test]
fn market_with_nested_filters() {
    let m = Market::from_json(MARKET).unwrap();
    assert_eq!(m.market_type, MarketType::Spot);
    assert_eq!(m.order_book_state, OrderBookState::Open);
    assert_eq!(m.price_decimal_places(), 4);
    assert_eq!(m.quantity_decimal_places(), 3);
    assert_eq!(m.filters.price.max_price, None);
    assert_eq!(m.filters.price.mean_premium_band.as_ref().unwrap().tolerance_pct, dec("0.05"));
    assert!(m.filters.price.mean_mark_price_band.is_none());
    assert!(m.filters.leverage.is_none());
    assert_eq!(m.imf_function, None);
    assert_eq!(
        m.mmf_function.as_deref(),
        Some(r#"{"base":"0.02","factor":"0.0001","type":"sqrt"}"#)
    );
    assert_eq!(m.funding_interval, Some(28800000));
    assert_eq!(m.created_at.seconds, 1704164645);
    let list = Market::list_from_json(&format!("[{MARKET},{MARKET}]")).unwrap();
    assert_eq!(list.len(), 2);
}

#[test]
fn market_with_unknown_type_is_rejected() {
    let text = MARKET.replace("\"SPOT\"", "\"SWAP\"");
    assert_eq!(
        Market::from_json(&text).err(),
        Some(BpxError::Decode {
            member: "marketType".to_string(),
            cause: DecodeCause::UnknownVariant { input: "SWAP".to_string() },
        })
    );
    let text = MARKET.replace("\"tickSize\": \"0.0100\",", "");
    assert_eq!(
        Market::from_json(&text).err(),
        Some(BpxError::Decode { member: "tickSize".to_string(), cause: DecodeCause::Unreadable })
    );
}

#[test]
fn fill_history_records() {
    let text = r#"[
      {"clientId": null, "fee": "0.0012", "feeSymbol": "USDC", "isMaker": true, "orderId": "o1",
       "price": "150.10", "quantity": "2.00", "side": "Bid", "symbol": "SOL_USDC",
       "systemOrderType": "CollateralConversion", "timestamp": "2024-05-01T00:00:00.250", "tradeId": 77},
      {"fee": "0", "feeSymbol": "SOL", "isMaker": false, "orderId": "o2", "price": "1",
       "quantity": "1", "side": "Ask", "symbol": "SOL_USDC", "timestamp": "2024-05-01T00:00:01"}
    ]"#;
    let fills = HistoricFill::list_from_json(text).unwrap();
    assert_eq!(fills.len(), 2);
    assert_eq!(fills[0].system_order_type, Some(SystemOrderType::CollateralConversion));
    assert_eq!(fills[0].price.to_wire_string(), "150.10");
    assert_eq!(fills[0].timestamp.nanos, 250_000_000);
    assert_eq!(fills[0].trade_id, Some(77));
    assert_eq!(fills[1].client_id, None);
    assert_eq!(fills[1].trade_id, None);
    assert_eq!(fills[1].side, "Ask");
    assert_eq!(
        HistoricFill::list_from_json("{}").err(),
        Some(BpxError::Decode { member: String::new(), cause: DecodeCause::Malformed })
    );
    let bad_price = text.replace("\"150.10\"", "\"abc\"");
    assert_eq!(
        HistoricFill::list_from_json(&bad_price).err(),
        Some(BpxError::Decode {
            member: "price".to_string(),
            cause: DecodeCause::InvalidDecimal { input: "abc".to_string() },
        })
    );
    let no_fee = text.replace("\"fee\": \"0\", ", "");
    assert_eq!(
        HistoricFill::list_from_json(&no_fee).err(),
        Some(BpxError::Decode { member: "fee".to_string(), cause: DecodeCause::Unreadable })
    );
    assert!(HistoricFill::list_from_json("[]").unwrap().is_empty());
}

#[test]
fn historic_order_record() {
    let text = r#"{"id": "11", "createdAt": "2024-05-01T00:00:00", "expiryReason": "PostOnlyTaker",
      "orderType": "Limit", "postOnly": true, "price": "10.5", "quantity": "3",
      "selfTradePrevention": "RejectTaker", "status": "Expired", "side": "Bid", "symbol": "SOL_USDC",
      "timeInForce": "GTC", "clientId": 4294967295}"#;
    let o = HistoricOrder::list_from_json(&format!("[{text}]")).unwrap().remove(0);
    assert_eq!(o.expiry_reason, Some(OrderExpiryReason::PostOnlyTaker));
    assert_eq!(o.order_type, HistoricOrderType::Limit);
    assert_eq!(o.post_only, Some(true));
    assert_eq!(o.client_id, Some(4294967295));
    assert_eq!(o.executed_quantity, None);
    let stop = text.replace("\"Limit\"", "\"StopMarket\"");
    assert_eq!(
        HistoricOrder::list_from_json(&format!("[{stop}]")).err(),
        Some(BpxError::Decode {
            member: "orderType".to_string(),
            cause: DecodeCause::UnknownVariant { input: "StopMarket".to_string() },
        })
    );
    let reason = text.replace("PostOnlyTaker", "NewServerReason");
    assert_eq!(
        HistoricOrder::list_from_json(&format!("[{reason}]")).err(),
        Some(BpxError::Decode {
            member: "expiryReason".to_string(),
            cause: DecodeCause::UnknownVariant { input: "NewServerReason".to_string() },
        })
    );
    let too_big = text.replace("4294967295", "4294967296");
    assert!(matches!(
        HistoricOrder::list_from_json(&format!("[{too_big}]")),
        Err(BpxError::Decode { .. })
    ));
}

#[test]
fn strategy_record() {
    let text = r#"{"id": -3, "createdAt": "2024-05-01T00:00:00", "cancelReason": "Expired",
      "strategyType": "Scheduled", "selfTradePrevention": "RejectBoth", "status": "Cancelled",
      "side": "Ask", "symbol": "SOL_USDC", "timeInForce": "GTC", "duration": 3600000,
      "interval": 60000, "randomizedIntervalQuantity": false, "slippageTolerance": "0.01"}"#;
    let s = Strategy::list_from_json(&format!("[{text}]")).unwrap().remove(0);
    assert_eq!(s.id, -3);
    assert_eq!(s.cancel_reason, Some(StrategyCancelReason::Expired));
    assert_eq!(s.status, StrategyStatus::Cancelled);
    assert_eq!(s.slippage_tolerance, Some(dec("0.01")));
    assert_eq!(s.client_strategy_id, None);
}

#[test]
fn borrow_lend_records() {
    let market = r#"{"state": "RepayOnly", "assetMarkPrice": "1", "borrowInterestRate": "0.05",
      "borrowedQuantity": "10", "fee": "0", "lendInterestRate": "0.04", "lentQuantity": "12",
      "maxUtilization": "0.9", "openBorrowLendLimit": "1000", "optimalUtilization": "0.8",
      "symbol": "USDC", "timestamp": "2024-05-01T02:00:00+02:00", "throttleUtilizationThreshold": "0.8",
      "throttleUtilizationBound": "0.85", "throttleUpdateFraction": "0.1", "utilization": "0.83",
      "stepSize": "0.0001"}"#;
    let m = BorrowLendMarket::list_from_json(&format!("[{market}]")).unwrap().remove(0);
    assert_eq!(m.state, BorrowLendMarketState::RepayOnly);
    assert_eq!(m.timestamp.seconds, 1714521600);
    assert_eq!(m.timestamp.offset_seconds, 7200);
    assert_eq!(m.step_size.scale(), 4);

    let position = r#"[{"cumulativeInterest": "0.1", "id": "p", "symbol": "SOL", "imf": "0.2",
      "imfFunction": {"type": "sqrt"}, "markPrice": "150", "mmf": "0.1", "mmfFunction": {"type": "sqrt"},
      "netExposureNotional": "15", "netExposureQuantity": "0.1", "netQuantity": "-0.1"}]"#;
    let ps = BorrowLendPosition::list_from_json(position).unwrap();
    assert_eq!(ps[0].imf_function, r#"{"type":"sqrt"}"#);
    assert_eq!(ps[0].net_quantity, dec("-0.1"));
}

#[test]
fn futures_and_market_data_records() {
    let position = r#"{"breakEvenPrice": "1", "cumulativeFundingPayment": "0", "entryPrice": "1",
      "estLiquidationPrice": "0", "imf": "0.02", "imfFunction": {"type": "sqrt"}, "markPrice": "1",
      "mmf": "0.01", "mmfFunction": {"type": "sqrt"}, "netCost": "1", "netExposureNotional": "1",
      "netExposureQuantity": "1", "netQuantity": "1", "pnlRealized": "0", "pnlUnrealized": "0",
      "positionId": "9", "subaccountId": null, "symbol": "SOL_USDC_PERP", "userId": 5}"#;
    let p = FuturePosition::list_from_json(&format!("[{position}]")).unwrap().remove(0);
    assert_eq!(p.user_id, 5);
    assert_eq!(p.subaccount_id, None);

    let ticker = r#"{"symbol": "SOL_USDC", "firstPrice": "1", "lastPrice": "2", "priceChange": "1",
      "priceChangePercent": "1.00", "high": "2", "low": "1", "volume": "10", "trades": "12"}"#;
    assert_eq!(Ticker::from_json(ticker).unwrap().price_change_percent.to_wire_string(), "1.00");

    let klines = r#"[{"start": "2024-05-01 00:00:00", "open": "1", "high": null, "volume": "0", "trades": 0}]"#;
    let k = Kline::list_from_json(klines).unwrap();
    assert_eq!(k[0].open, Some(dec("1")));
    assert_eq!(k[0].high, None);
    assert_eq!(k[0].end, None);

    let marks = r#"[{"symbol": "SOL_USDC_PERP", "fundingRate": "0.0001", "indexPrice": "150.1",
      "markPrice": "150.2", "nextFundingTimestamp": 1747296000000}]"#;
    assert_eq!(MarkPrice::list_from_json(marks).unwrap()[0].next_funding_timestamp, 1747296000000);

    let assets = r#"[{"symbol": "USDC", "tokens": [
      {"blockchain": "Solana", "depositEnabled": true, "minimumDeposit": "1", "withdrawEnabled": true,
       "minimumWithdrawal": "2", "maximumWithdrawal": null, "withdrawalFee": "0.5"},
      {"blockchain": "Ethereum", "depositEnabled": false, "minimumDeposit": "10", "withdrawEnabled": false,
       "minimumWithdrawal": "20", "withdrawalFee": "5"}]}]"#;
    let a = Asset::list_from_json(assets).unwrap();
    assert_eq!(a[0].tokens.len(), 2);
    assert_eq!(a[0].tokens[1].blockchain, "Ethereum");
    assert_eq!(a[0].tokens[0].withdrawal_fee, dec("0.5"));
}

#[test]
fn mark_prices_keep_every_digit() {
    let marks = r#"[{"symbol":"SOL_USDC_PERP","fundingRate":"-0.0000039641039274236048482914",
      "indexPrice":"173.44031179","markPrice":"173.35998100","nextFundingTimestamp":1747296000000}]"#;
    let v = MarkPrice::list_from_json(marks).unwrap();
    assert_eq!(v.len(), 1);
    assert_eq!(v[0].funding_rate.to_wire_string(), "-0.0000039641039274236048482914");
    assert_eq!(v[0].index_price.to_wire_string(), "173.44031179");
    assert_eq!(v[0].mark_price.to_wire_string(), "173.35998100");
}

#[test]
fn order_decimals_keep_their_digits() {
    let text = r#"[{"id": "1", "createdAt": "2024-05-01T00:00:00", "orderType": "Limit",
      "price": "0.10", "quantity": "5.000", "executedQuantity": "0",
      "selfTradePrevention": "RejectTaker", "status": "Filled", "side": "Bid", "symbol": "S"}]"#;
    let o = HistoricOrder::list_from_json(text).unwrap().remove(0);
    assert_eq!(o.price.unwrap().to_wire_string(), "0.10");
    assert_eq!(o.quantity.unwrap().to_wire_string(), "5.000");
    assert_eq!(o.executed_quantity.unwrap().to_wire_string(), "0");
}

#[test]
fn unknown_strategy_status_is_reported_under_its_key() {
    let text = r#"[{"id": 1, "createdAt": "2024-05-01T00:00:00", "strategyType": "Scheduled",
      "selfTradePrevention": "RejectBoth", "status": "Paused", "side": "Ask", "symbol": "S",
      "timeInForce": "GTC", "duration": 1, "interval": 1, "randomizedIntervalQuantity": false}]"#;
    assert_eq!(
        Strategy::list_from_json(text).err(),
        Some(BpxError::Decode {
            member: "status".to_string(),
            cause: DecodeCause::UnknownVariant { input: "Paused".to_string() },
        })
    );
}
