use bpx_api::routes::{
    account_max_order_quantity_url, account_max_withdrawal_url, fill_history_url, k_lines_url,
    open_future_positions_url, order_history_url, plain_url, strategy_history_url, symbol_url,
    API_ACCOUNT, API_DEPTH, API_MARKETS,
};
use bpx_api::{
    Decimal, FillHistorySearchParams, OrderHistorySearchParams, StrategyHistorySearchParams,
};

const BASE: &str = "https://api.example.com";

#[test]
fn order_book_depth_url() {
    assert_eq!(
        symbol_url(BASE, API_DEPTH, "BTC_USDC"),
        "https://api.example.com/api/v1/depth?symbol=BTC_USDC"
    );
}

#[test]
fn urls_without_query() {
    assert_eq!(plain_url(BASE, API_MARKETS), "https://api.example.com/api/v1/markets");
    assert_eq!(plain_url(BASE, API_ACCOUNT), "https://api.example.com/api/v1/account");
}

#[test]
fn fill_history_url_with_symbol_and_limit() {
    let params = FillHistorySearchParams {
        symbol: Some("SOL_USDC".to_string()),
        limit: Some(50),
        ..Default::default()
    };
    assert_eq!(
        fill_history_url(BASE, &params),
        "https://api.example.com/wapi/v1/history/fills?symbol=SOL_USDC&limit=50"
    );
    assert_eq!(
        fill_history_url(BASE, &FillHistorySearchParams::default()),
        "https://api.example.com/wapi/v1/history/fills"
    );
}

#[test]
fn other_history_urls() {
    assert_eq!(
        order_history_url(BASE, &OrderHistorySearchParams::default()),
        "https://api.example.com/wapi/v1/history/orders"
    );
    let params = StrategyHistorySearchParams { limit: Some(5), ..Default::default() };
    assert_eq!(
        strategy_history_url(BASE, &params),
        "https://api.example.com/wapi/v1/history/strategies?limit=5"
    );
}

#[test]
fn max_order_quantity_url() {
    assert_eq!(
        account_max_order_quantity_url(BASE, "SOL_USDC", "Bid", None, None, None, None, None),
        "https://api.example.com/api/v1/account/limits/order?symbol=SOL_USDC&side=Bid"
    );
    let price = Decimal::parse("101.50").unwrap();
    assert_eq!(
        account_max_order_quantity_url(
            BASE,
            "SOL_USDC",
            "Ask",
            Some(price),
            Some(true),
            None,
            Some(false),
            Some(true)
        ),
        "https://api.example.com/api/v1/account/limits/order?symbol=SOL_USDC&side=Ask\
         &price=101.50&reduceOnly=true&autoBorrowRepay=false&autoLendRedeem=true"
    );
}

#[test]
fn max_withdrawal_url() {
    assert_eq!(
        account_max_withdrawal_url(BASE, "USDC", Some(true), None),
        "https://api.example.com/api/v1/account/limits/withdrawal?symbol=USDC&autoBorrow=true"
    );
}

#[test]
fn future_positions_url() {
    assert_eq!(
        open_future_positions_url(BASE, None),
        "https://api.example.com/api/v1/position"
    );
    assert_eq!(
        open_future_positions_url(BASE, Some("SOL_USDC_PERP")),
        "https://api.example.com/api/v1/position?symbol=SOL_USDC_PERP"
    );
}

#[test]
fn klines_url() {
    assert_eq!(
        k_lines_url(BASE, "SOL_USDC", "1m", 1700000000, None, None),
        "https://api.example.com/api/v1/klines?symbol=SOL_USDC&interval=1m&startTime=1700000000"
    );
    assert_eq!(
        k_lines_url(BASE, "SOL_USDC", "1h", 1, Some(3600), Some("Mark")),
        "https://api.example.com/api/v1/klines?symbol=SOL_USDC&interval=1h&startTime=1\
         &endTime=3600&priceType=Mark"
    );
}

#[test]
fn symbol_and_side_are_percent_encoded() {
    assert_eq!(
        symbol_url(BASE, API_DEPTH, "BTC USDC&x=1"),
        "https://api.example.com/api/v1/depth?symbol=BTC%20USDC%26x%3D1"
    );
    assert_eq!(
        account_max_order_quantity_url(BASE, "SOL_USDC", "B&d", None, None, None, None, None),
        "https://api.example.com/api/v1/account/limits/order?symbol=SOL_USDC&side=B%26d"
    );
    assert_eq!(
        k_lines_url(BASE, "S", "1 m", 1, None, Some("a=b")),
        "https://api.example.com/api/v1/klines?symbol=S&interval=1%20m&startTime=1&priceType=a%3Db"
    );
}
