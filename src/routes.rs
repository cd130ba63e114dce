//! The endpoint catalog: the path of each operation, and the full request URL composed
//! from a base URL, that path and the operation's query.
use crate::decimal::Decimal;
use crate::history::{FillHistorySearchParams, OrderHistorySearchParams};
use crate::query::{
    encode_query, opt_bool_text, opt_decimal_text, opt_int_text, opt_text, query_text, FieldText,
    QueryField,
};
use crate::strategies::StrategyHistorySearchParams;
use crate::text::{pct_encode, pct_encode_text};
use vstd::prelude::*;

verus! {

pub const API_ACCOUNT: &'static str = "/api/v1/account";

pub const API_ACCOUNT_MAX_BORROW: &'static str = "/api/v1/account/limits/borrow";

pub const API_ACCOUNT_MAX_ORDER: &'static str = "/api/v1/account/limits/order";

pub const API_ACCOUNT_MAX_WITHDRAWAL: &'static str = "/api/v1/account/limits/withdrawal";

pub const API_ACCOUNT_CONVERT_DUST: &'static str = "/api/v1/account/convertDust";

pub const API_BORROW_LEND_POSITIONS: &'static str = "/api/v1/borrowLend/positions";

pub const API_BORROW_LEND_MARKETS: &'static str = "/api/v1/borrowLend/markets";

pub const API_FUTURES_POSITION: &'static str = "/api/v1/position";

pub const API_FILL_HISTORY: &'static str = "/wapi/v1/history/fills";

pub const API_ORDER_HISTORY: &'static str = "/wapi/v1/history/orders";

pub const API_ASSETS: &'static str = "/api/v1/assets";

pub const API_MARKET: &'static str = "/api/v1/market";

pub const API_MARKETS: &'static str = "/api/v1/markets";

pub const API_TICKER: &'static str = "/api/v1/ticker";

pub const API_TICKERS: &'static str = "/api/v1/tickers";

pub const API_DEPTH: &'static str = "/api/v1/depth";

pub const API_KLINES: &'static str = "/api/v1/klines";

pub const API_FUNDING: &'static str = "/api/v1/fundingRates";

pub const API_MARK_PRICES: &'static str = "/api/v1/markPrices";

pub const API_STRATEGY_HISTORY: &'static str = "/wapi/v1/history/strategies";

/// `base` followed by `path`.
pub fn plain_url(base: &str, path: &str) -> (r: String)
    ensures
        r@ == base@ + path@,
{
    String::from_str(base).concat(path)
}

/// `base` and `path`, then `?symbol=` and the symbol, percent-encoded.
pub fn symbol_url(base: &str, path: &str, symbol: &str) -> (r: String)
    ensures
        r@ == base@ + path@ + "?symbol="@ + pct_encode(symbol@),
{
    let encoded = pct_encode_text(symbol);
    let mut url = String::from_str(base);
    url.append(path);
    url.append("?symbol=");
    url.append(encoded.as_str());
    url
}

/// `base` and `path`, then the query string of the fields.
pub fn query_url(base: &str, path: &str, fields: &Vec<QueryField>) -> (r: String)
    ensures
        r@ == base@ + path@ + query_text(fields@.map_values(|f: QueryField| f@)),
{
    let query = encode_query(fields);
    let mut url = String::from_str(base);
    url.append(path);
    url.append(query.as_str());
    url
}

pub open spec fn max_order_fields(
    symbol: Seq<char>,
    side: Seq<char>,
    price: Option<Decimal>,
    reduce_only: Option<bool>,
    auto_borrow: Option<bool>,
    auto_borrow_repay: Option<bool>,
    auto_lend_redeem: Option<bool>,
) -> Seq<FieldText> {
    seq![
        ("symbol"@, Some(symbol)),
        ("side"@, Some(side)),
        ("price"@, opt_decimal_text(price)),
        ("reduceOnly"@, opt_bool_text(reduce_only)),
        ("autoBorrow"@, opt_bool_text(auto_borrow)),
        ("autoBorrowRepay"@, opt_bool_text(auto_borrow_repay)),
        ("autoLendRedeem"@, opt_bool_text(auto_lend_redeem)),
    ]
}

/// The account's largest order quantity in a market, for a side given by its wire text.
pub fn account_max_order_quantity_url(
    base: &str,
    symbol: &str,
    side: &str,
    price: Option<Decimal>,
    reduce_only: Option<bool>,
    auto_borrow: Option<bool>,
    auto_borrow_repay: Option<bool>,
    auto_lend_redeem: Option<bool>,
) -> (r: String)
    ensures
        r@ == base@ + API_ACCOUNT_MAX_ORDER@ + query_text(
            max_order_fields(
                symbol@,
                side@,
                price,
                reduce_only,
                auto_borrow,
                auto_borrow_repay,
                auto_lend_redeem,
            ),
        ),
{
    let mut fields: Vec<QueryField> = Vec::new();
    fields.push(QueryField::text("symbol", &Some(String::from_str(symbol))));
    fields.push(QueryField::text("side", &Some(String::from_str(side))));
    fields.push(QueryField::decimal("price", price));
    fields.push(QueryField::flag("reduceOnly", reduce_only));
    fields.push(QueryField::flag("autoBorrow", auto_borrow));
    fields.push(QueryField::flag("autoBorrowRepay", auto_borrow_repay));
    fields.push(QueryField::flag("autoLendRedeem", auto_lend_redeem));
    assert(fields@.map_values(|f: QueryField| f@) =~= max_order_fields(
        symbol@,
        side@,
        price,
        reduce_only,
        auto_borrow,
        auto_borrow_repay,
        auto_lend_redeem,
    ));
    query_url(base, API_ACCOUNT_MAX_ORDER, &fields)
}

pub open spec fn max_withdrawal_fields(
    symbol: Seq<char>,
    auto_borrow: Option<bool>,
    auto_lend_redeem: Option<bool>,
) -> Seq<FieldText> {
    seq![
        ("symbol"@, Some(symbol)),
        ("autoBorrow"@, opt_bool_text(auto_borrow)),
        ("autoLendRedeem"@, opt_bool_text(auto_lend_redeem)),
    ]
}

/// The account's largest withdrawal of an asset.
pub fn account_max_withdrawal_url(
    base: &str,
    symbol: &str,
    auto_borrow: Option<bool>,
    auto_lend_redeem: Option<bool>,
) -> (r: String)
    ensures
        r@ == base@ + API_ACCOUNT_MAX_WITHDRAWAL@ + query_text(
            max_withdrawal_fields(symbol@, auto_borrow, auto_lend_redeem),
        ),
{
    let mut fields: Vec<QueryField> = Vec::new();
    fields.push(QueryField::text("symbol", &Some(String::from_str(symbol))));
    fields.push(QueryField::flag("autoBorrow", auto_borrow));
    fields.push(QueryField::flag("autoLendRedeem", auto_lend_redeem));
    assert(fields@.map_values(|f: QueryField| f@) =~= max_withdrawal_fields(
        symbol@,
        auto_borrow,
        auto_lend_redeem,
    ));
    query_url(base, API_ACCOUNT_MAX_WITHDRAWAL, &fields)
}

pub open spec fn position_fields(symbol: Option<Seq<char>>) -> Seq<FieldText> {
    seq![("symbol"@, symbol)]
}

/// Open futures positions, of one market when a symbol is given.
pub fn open_future_positions_url(base: &str, symbol: Option<&str>) -> (r: String)
    ensures
        r@ == base@ + API_FUTURES_POSITION@ + query_text(
            position_fields(
                match symbol {
                    Some(s) => Some(s@),
                    None => None,
                },
            ),
        ),
{
    let mut fields: Vec<QueryField> = Vec::new();
    let symbol_text = match symbol {
        Some(s) => Some(String::from_str(s)),
        None => None,
    };
    fields.push(QueryField::text("symbol", &symbol_text));
    assert(fields@.map_values(|f: QueryField| f@) =~= position_fields(opt_text(symbol_text)));
    query_url(base, API_FUTURES_POSITION, &fields)
}

/// Fill history with its filters.
pub fn fill_history_url(base: &str, params: &FillHistorySearchParams) -> (r: String)
    ensures
        r@ == base@ + API_FILL_HISTORY@ + query_text(params.query_fields()),
{
    let query = params.to_query_string();
    let mut url = String::from_str(base);
    url.append(API_FILL_HISTORY);
    url.append(query.as_str());
    url
}

/// Order history with its filters.
pub fn order_history_url(base: &str, params: &OrderHistorySearchParams) -> (r: String)
    ensures
        r@ == base@ + API_ORDER_HISTORY@ + query_text(params.query_fields()),
{
    let query = params.to_query_string();
    let mut url = String::from_str(base);
    url.append(API_ORDER_HISTORY);
    url.append(query.as_str());
    url
}

/// Strategy history with its filters.
pub fn strategy_history_url(base: &str, params: &StrategyHistorySearchParams) -> (r: String)
    ensures
        r@ == base@ + API_STRATEGY_HISTORY@ + query_text(params.query_fields()),
{
    let query = params.to_query_string();
    let mut url = String::from_str(base);
    url.append(API_STRATEGY_HISTORY);
    url.append(query.as_str());
    url
}

pub open spec fn k_lines_fields(
    symbol: Seq<char>,
    interval: Seq<char>,
    start_time: i64,
    end_time: Option<i64>,
    price_type: Option<Seq<char>>,
) -> Seq<FieldText> {
    seq![
        ("symbol"@, Some(symbol)),
        ("interval"@, Some(interval)),
        ("startTime"@, opt_int_text(Some(start_time))),
        ("endTime"@, opt_int_text(end_time)),
        ("priceType"@, price_type),
    ]
}

/// Candlesticks of a market from `start_time`, for an interval and a price type given by
/// their wire texts.
pub fn k_lines_url(
    base: &str,
    symbol: &str,
    interval: &str,
    start_time: i64,
    end_time: Option<i64>,
    price_type: Option<&str>,
) -> (r: String)
    ensures
        r@ == base@ + API_KLINES@ + query_text(
            k_lines_fields(
                symbol@,
                interval@,
                start_time,
                end_time,
                match price_type {
                    Some(p) => Some(p@),
                    None => None,
                },
            ),
        ),
{
    let mut fields: Vec<QueryField> = Vec::new();
    let price_text = match price_type {
        Some(p) => Some(String::from_str(p)),
        None => None,
    };
    fields.push(QueryField::text("symbol", &Some(String::from_str(symbol))));
    fields.push(QueryField::text("interval", &Some(String::from_str(interval))));
    fields.push(QueryField::signed("startTime", Some(start_time)));
    fields.push(QueryField::signed("endTime", end_time));
    fields.push(QueryField::text("priceType", &price_text));
    assert(fields@.map_values(|f: QueryField| f@) =~= k_lines_fields(
        symbol@,
        interval@,
        start_time,
        end_time,
        opt_text(price_text),
    ));
    query_url(base, API_KLINES, &fields)
}

} // verus!
