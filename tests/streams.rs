use bpx_api::json::{find_member, integer_of_text, object_members, JsonScalar};
use bpx_api::{
    BpxError, Decimal, DecodeCause, KlineUpdate, MarkPriceUpdate, OpenInterestUpdate, OrderBookDepthUpdate,
    PositionUpdate, PositionUpdateType, TickerStatisticsUpdate, TickerUpdate,
};

fn dec(s: &str) -> Decimal {
    Decimal::parse(s).unwrap()
}

#[test]
fn test_mark_price_update_parse() {
    let data = r#"
{
	"E": 1747291031914525,
	"T": 1747291031910025,
	"e": "markPrice",
	"f": "-0.0000039641039274236048482914",
	"i": "173.44031179",
	"n": 1747296000000,
	"p": "173.35998175",
	"s": "SOL_USDC_PERP"
}
        "#;

    let mark_price_update = MarkPriceUpdate::from_json(data).unwrap();
    assert_eq!(mark_price_update.symbol, "SOL_USDC_PERP".to_string());
    assert_eq!(mark_price_update.funding_rate, dec("-0.0000039641039274236048482914"));
    assert_eq!(mark_price_update.mark_price, dec("173.35998175"));
}

#[test]
fn mark_price_update_every_field() {
    let u = MarkPriceUpdate::from_json(
        r#"{"e":"markPrice","E":1,"s":"BTC_USDC_PERP","p":"1.10","f":"0.0001","i":"1.2","n":2,"T":-3}"#,
    )
    .unwrap();
    assert_eq!(u.event_type, "markPrice");
    assert_eq!(u.event_time, 1);
    assert_eq!(u.mark_price.to_wire_string(), "1.10");
    assert_eq!(u.funding_rate, dec("0.0001"));
    assert_eq!(u.index_price, dec("1.2"));
    assert_eq!(u.funding_timestamp, 2);
    assert_eq!(u.engine_timestamp, -3);
}

#[test]
fn missing_or_mistyped_member_is_a_decode_error() {
    let missing = r#"{"e":"markPrice","E":1,"s":"X","p":"1","f":"0","i":"1","n":2}"#;
    assert!(matches!(MarkPriceUpdate::from_json(missing), Err(BpxError::Decode { .. })));
    let mistyped = r#"{"e":"markPrice","E":"1","s":"X","p":"1","f":"0","i":"1","n":2,"T":3}"#;
    assert!(matches!(MarkPriceUpdate::from_json(mistyped), Err(BpxError::Decode { .. })));
    let bad_decimal = r#"{"e":"markPrice","E":1,"s":"X","p":"1x","f":"0","i":"1","n":2,"T":3}"#;
    assert_eq!(
        MarkPriceUpdate::from_json(bad_decimal).err(),
        Some(BpxError::Decode {
            member: "p".to_string(),
            cause: DecodeCause::InvalidDecimal { input: "1x".to_string() },
        })
    );
    assert_eq!(
        MarkPriceUpdate::from_json(missing).err(),
        Some(BpxError::Decode { member: "T".to_string(), cause: DecodeCause::Unreadable })
    );
    let negative_unsigned = r#"{"e":"markPrice","E":1,"s":"X","p":"1","f":"0","i":"1","n":-2,"T":3}"#;
    assert!(matches!(MarkPriceUpdate::from_json(negative_unsigned), Err(BpxError::Decode { .. })));
    assert!(matches!(MarkPriceUpdate::from_json("[1,2]"), Err(BpxError::Decode { .. })));
    assert!(matches!(MarkPriceUpdate::from_json("not json"), Err(BpxError::Decode { .. })));
}

#[test]
fn ticker_updates() {
    let t = TickerUpdate::from_json(
        r#"{"e":"bookTicker","E":10,"s":"SOL_USDC","a":"18.70","A":"1.000","b":"18.67","B":"2","u":111,"T":12}"#,
    )
    .unwrap();
    assert_eq!(t.ask_price.to_wire_string(), "18.70");
    assert_eq!(t.ask_quantity.to_wire_string(), "1.000");
    assert_eq!(t.bid_price, dec("18.67"));
    assert_eq!(t.bid_quantity, dec("2"));
    assert_eq!(t.update_id, 111);
    assert_eq!(t.timestamp, 12);

    let s = TickerStatisticsUpdate::from_json(
        r#"{"e":"ticker","E":1,"s":"SOL_USDC","o":"1","c":"2","h":"3","l":"0.5","v":"100","V":"150.25","n":7}"#,
    )
    .unwrap();
    assert_eq!(s.low_price, dec("0.5"));
    assert_eq!(s.quote_asset_volume, dec("150.25"));
    assert_eq!(s.number_of_trades, 7);
}

#[test]
fn depth_update_keeps_level_order() {
    let u = OrderBookDepthUpdate::from_json(
        r#"{"e":"depth","E":1,"s":"SOL_USDC","T":2,"U":5,"u":9,"a":[["18.70","1.0"],["18.80","0"]],"b":[["18.60","3.25"]]}"#,
    )
    .unwrap();
    assert_eq!(u.first_update_id, 5);
    assert_eq!(u.last_update_id, 9);
    assert_eq!(u.asks, vec![(dec("18.70"), dec("1.0")), (dec("18.80"), dec("0"))]);
    assert_eq!(u.bids, vec![(dec("18.60"), dec("3.25"))]);
    let bad = r#"{"e":"depth","E":1,"s":"S","T":2,"U":5,"u":9,"a":[["x","1"]],"b":[]}"#;
    assert!(matches!(OrderBookDepthUpdate::from_json(bad), Err(BpxError::Decode { .. })));
}

#[test]
fn kline_update() {
    let k = KlineUpdate::from_json(
        r#"{"e":"kline","E":1,"s":"SOL_USDC","t":"2024-09-11T12:00:00","T":"2024-09-11T12:01:00",
            "o":"18.75","c":"19.25","h":"19.80","l":"18.50","v":"32","n":93828,"X":false}"#,
    )
    .unwrap();
    assert_eq!(k.start.seconds, 1726056000);
    assert_eq!(k.start.nanos, 0);
    assert_eq!(k.end.seconds, 1726056060);
    assert_eq!(k.close, dec("19.25"));
    assert_eq!(k.number_of_trades, 93828);
    assert!(!k.is_closed);
}

#[test]
fn position_update() {
    let text = r#"{"e":"positionOpened","E":1,"s":"SOL_USDC_PERP","b":"1","B":"2","f":"0.02",
        "M":"3","m":"0.0135","q":"-5","Q":"5","n":"15","i":42,"p":"0","P":"-0.5","T":9}"#;
    let p = PositionUpdate::from_json(text).unwrap();
    assert_eq!(p.event_type, Some(PositionUpdateType::PositionOpened));
    assert_eq!(p.net_quantity, dec("-5"));
    assert_eq!(p.position_id, 42);
    assert_eq!(p.est_liquidation_price, None);

    let no_event = r#"{"E":1,"s":"S","b":"1","B":"2","f":"0","M":"3","m":"0","q":"1","Q":"1",
        "n":"1","i":1,"p":"0","P":"0","T":9,"l":"0.75"}"#;
    let q = PositionUpdate::from_json(no_event).unwrap();
    assert_eq!(q.event_type, None);
    assert_eq!(q.est_liquidation_price, Some(dec("0.75")));

    let unknown = text.replace("positionOpened", "positionMerged");
    assert!(matches!(
        PositionUpdate::from_json(&unknown),
        Err(BpxError::Decode { member, cause: DecodeCause::UnknownVariant { input } })
            if member == "e" && input == "positionMerged"
    ));
}

#[test]
fn open_interest_update() {
    let u = OpenInterestUpdate::from_json(r#"{"e":"openInterest","E":5,"s":"SOL_USDC_PERP","o":"1234.5"}"#)
        .unwrap();
    assert_eq!(u.open_interest, dec("1234.5"));
    assert_eq!(u.symbol, "SOL_USDC_PERP");
}

#[test]
fn object_members_and_lookup() {
    let ms = object_members(r#"{"a":1,"b":"x","c":null,"d":[1],"e":true}"#).unwrap();
    assert_eq!(find_member(&ms, "a"), Some(&JsonScalar::Number("1".to_string())));
    assert_eq!(find_member(&ms, "b"), Some(&JsonScalar::Text("x".to_string())));
    assert_eq!(find_member(&ms, "c"), Some(&JsonScalar::Null));
    assert_eq!(find_member(&ms, "d"), Some(&JsonScalar::Composite("[1]".to_string())));
    assert_eq!(find_member(&ms, "e"), Some(&JsonScalar::Bool(true)));
    assert_eq!(find_member(&ms, "z"), None);
}

#[test]
fn integer_texts() {
    assert_eq!(integer_of_text("0"), Some(0));
    assert_eq!(integer_of_text("-9223372036854775808"), Some(-9223372036854775808));
    assert_eq!(integer_of_text("18446744073709551615"), Some(18446744073709551615));
    assert_eq!(integer_of_text("18446744073709551616"), None);
    assert_eq!(integer_of_text("1.5"), None);
    assert_eq!(integer_of_text("-"), None);
    assert_eq!(integer_of_text(""), None);
    assert_eq!(integer_of_text("12a"), None);
}

#[test]
fn bare_numeric_decimals_keep_their_digits() {
    let u = OpenInterestUpdate::from_json(r#"{"e":"openInterest","E":5,"s":"S","o":1234.50}"#).unwrap();
    assert_eq!(u.open_interest.to_wire_string(), "1234.50");
    let big = OpenInterestUpdate::from_json(r#"{"e":"openInterest","E":5,"s":"S","o":0.0000039641039274236048482914}"#)
        .unwrap();
    assert_eq!(big.open_interest.to_wire_string(), "0.0000039641039274236048482914");
}
