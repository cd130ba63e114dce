use bpx_api::{
    FillHistorySearchParams, FillType, MarketType, OrderHistorySearchParams, SortDirection,
    StrategyHistorySearchParams,
};

#[test]
fn unset_filters_give_an_empty_query() {
    assert_eq!(FillHistorySearchParams::default().to_query_string(), "");
    assert_eq!(OrderHistorySearchParams::default().to_query_string(), "");
    assert_eq!(StrategyHistorySearchParams::default().to_query_string(), "");
    assert_eq!(FillHistorySearchParams::new().to_query_string(), "");
}

#[test]
fn fill_history_symbol_and_limit() {
    let params = FillHistorySearchParams {
        symbol: Some("SOL_USDC".to_string()),
        limit: Some(50),
        ..Default::default()
    };
    assert_eq!(params.to_query_string(), "?symbol=SOL_USDC&limit=50");
}

#[test]
fn fill_history_every_filter_in_declared_order() {
    let params = FillHistorySearchParams {
        order_id: Some("111".to_string()),
        strategy_id: Some("222".to_string()),
        from: Some(-5),
        to: Some(1700000000000),
        symbol: Some("BTC_USDC".to_string()),
        limit: Some(1000),
        offset: Some(0),
        fill_type: Some(FillType::BookLiquidation),
        market_type: Some(MarketType::Perp),
        sort_direction: Some(SortDirection::Desc),
    };
    assert_eq!(
        params.to_query_string(),
        "?order_id=111&strategy_id=222&from=-5&to=1700000000000&symbol=BTC_USDC&limit=1000\
         &offset=0&fill_type=BookLiquidation&market_type=PERP&sort_direction=Desc"
    );
}

#[test]
fn encoding_is_stable() {
    let params = OrderHistorySearchParams {
        market_type: Some(MarketType::Iperp),
        offset: Some(20),
        ..Default::default()
    };
    let first = params.to_query_string();
    assert_eq!(first, "?offset=20&market_type=IPERP");
    assert_eq!(params.to_query_string(), first);
}

#[test]
fn observed_keys_are_the_set_fields() {
    let params = StrategyHistorySearchParams {
        strategy_id: Some("s-1".to_string()),
        sort_direction: Some(SortDirection::Asc),
        ..Default::default()
    };
    let q = params.to_query_string();
    let keys: Vec<&str> = q
        .trim_start_matches('?')
        .split('&')
        .map(|pair| pair.split('=').next().unwrap())
        .collect();
    assert_eq!(keys, vec!["strategy_id", "sort_direction"]);
    assert_eq!(q, "?strategy_id=s-1&sort_direction=Asc");
}

#[test]
fn order_history_every_filter() {
    let params = OrderHistorySearchParams {
        order_id: Some("o".to_string()),
        strategy_id: Some("s".to_string()),
        symbol: Some("ETH_USDC".to_string()),
        limit: Some(100),
        offset: Some(18446744073709551615),
        market_type: Some(MarketType::Spot),
        sort_direction: Some(SortDirection::Asc),
    };
    assert_eq!(
        params.to_query_string(),
        "?order_id=o&strategy_id=s&symbol=ETH_USDC&limit=100&offset=18446744073709551615\
         &market_type=SPOT&sort_direction=Asc"
    );
}

#[test]
fn extreme_signed_times() {
    let params = FillHistorySearchParams {
        from: Some(i64::MIN),
        to: Some(i64::MAX),
        ..Default::default()
    };
    assert_eq!(
        params.to_query_string(),
        "?from=-9223372036854775808&to=9223372036854775807"
    );
}

#[test]
fn default_limit_and_offset() {
    assert_eq!(FillHistorySearchParams::default_limit(), Some(100));
    assert_eq!(FillHistorySearchParams::default_offset(), Some(0));
    assert_eq!(OrderHistorySearchParams::default_limit(), Some(100));
    assert_eq!(OrderHistorySearchParams::default_offset(), Some(0));
    assert_eq!(StrategyHistorySearchParams::default_limit(), Some(100));
    assert_eq!(StrategyHistorySearchParams::default_offset(), Some(0));
}

#[test]
fn text_filters_are_percent_encoded() {
    let params = FillHistorySearchParams {
        symbol: Some("A&limit=1".to_string()),
        ..Default::default()
    };
    let q = params.to_query_string();
    assert_eq!(q, "?symbol=A%26limit%3D1");
    let keys: Vec<&str> = q
        .trim_start_matches('?')
        .split('&')
        .map(|pair| pair.split('=').next().unwrap())
        .collect();
    assert_eq!(keys, vec!["symbol"]);
    let params = OrderHistorySearchParams {
        order_id: Some("a b#c%+~é".to_string()),
        ..Default::default()
    };
    assert_eq!(params.to_query_string(), "?order_id=a%20b%23c%25%2B~%C3%A9");
}
