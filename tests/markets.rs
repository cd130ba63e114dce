use bpx_api::{
    Decimal, Market, MarketFilters, MarketType, OrderBookDepth, OrderBookState, PriceFilters,
    QuantityFilters, Timestamp,
};

fn dec(s: &str) -> Decimal {
    Decimal::parse(s).unwrap()
}

fn get_test_market() -> Market {
    Market {
        symbol: "TEST_MARKET".to_string(),
        base_symbol: "TEST".to_string(),
        quote_symbol: "MARKET".to_string(),
        market_type: MarketType::Spot,
        filters: MarketFilters {
            price: PriceFilters {
                min_price: dec("0.0001"),
                max_price: None,
                tick_size: dec("0.0001"),
                max_multiplier: None,
                min_multiplier: None,
                max_impact_multiplier: None,
                min_impact_multiplier: None,
                mean_mark_price_band: None,
                mean_premium_band: None,
                borrow_entry_fee_max_multiplier: None,
                borrow_entry_fee_min_multiplier: None,
            },
            quantity: QuantityFilters {
                min_quantity: dec("0.01"),
                max_quantity: None,
                step_size: dec("0.01"),
            },
            leverage: None,
        },
        imf_function: None,
        mmf_function: None,
        funding_interval: None,
        funding_rate_upper_bound: None,
        funding_rate_lower_bound: None,
        open_interest_limit: None,
        order_book_state: OrderBookState::Open,
        created_at: Default::default(),
    }
}

#[test]
fn test_decimal_places_on_price_filters_4() {
    let market = get_test_market();
    assert_eq!(market.price_decimal_places(), 4);
}

#[test]
fn test_decimal_places_on_quantity_filters() {
    let market = get_test_market();
    assert_eq!(market.quantity_decimal_places(), 2);
}

#[test]
fn decimal_places_follow_trailing_zeros_of_tick_size() {
    let mut market = get_test_market();
    market.filters.price.tick_size = dec("0.50");
    market.filters.quantity.step_size = dec("1");
    assert_eq!(market.price_decimal_places(), 2);
    assert_eq!(market.quantity_decimal_places(), 0);
}

#[test]
fn default_timestamp_is_epoch() {
    let t: Timestamp = Default::default();
    assert_eq!(t, Timestamp { seconds: 0, nanos: 0 });
}

fn levels(pairs: &[(&str, &str)]) -> Vec<(String, String)> {
    pairs.iter().map(|(p, q)| (p.to_string(), q.to_string())).collect()
}

#[test]
fn order_book_depth_keeps_order_and_precision() {
    let asks = levels(&[("21000.50", "0.100"), ("21001.00", "2"), ("20999.9", "1.0000")]);
    let bids = levels(&[("20998.10", "3.50"), ("20990", "0.001")]);
    let depth = OrderBookDepth::from_levels(&asks, &bids, "1234".to_string()).unwrap();
    let ask_texts: Vec<(String, String)> = depth
        .asks
        .iter()
        .map(|(p, q)| (p.to_wire_string(), q.to_wire_string()))
        .collect();
    let bid_texts: Vec<(String, String)> = depth
        .bids
        .iter()
        .map(|(p, q)| (p.to_wire_string(), q.to_wire_string()))
        .collect();
    assert_eq!(ask_texts, asks);
    assert_eq!(bid_texts, bids);
    assert_eq!(depth.asks[0].0.scale(), 2);
    assert_eq!(depth.asks[0].1.scale(), 3);
    assert_eq!(depth.last_update_id, "1234");
}

#[test]
fn order_book_depth_rejects_a_bad_level() {
    let asks = levels(&[("1.5", "2")]);
    let bids = levels(&[("1.4", "x2")]);
    let r = OrderBookDepth::from_levels(&asks, &bids, "7".to_string());
    assert!(matches!(r, Err(bpx_api::BpxError::InvalidDecimal { .. })));
}

#[test]
fn empty_order_book_depth() {
    let depth = OrderBookDepth::from_levels(&Vec::new(), &Vec::new(), "0".to_string()).unwrap();
    assert!(depth.asks.is_empty());
    assert!(depth.bids.is_empty());
}
