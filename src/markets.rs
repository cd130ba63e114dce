//! Markets: instrument metadata and its precision rules, order book depth, market data,
//! and the payloads of the market streams.
use crate::decimal::{decimal_of_text, is_plain_numeral, plain_value, value_pair, Decimal};
use crate::error::BpxError;
use crate::json::{
    level_error_at, unknown_variant_at, bool_field, datetime_field, decimal_field, integer_field,
    json_members, members_view, object_field, object_list, object_list_field, object_list_members,
    object_members, optional_composite_field, optional_decimal_field, optional_integer_field,
    optional_object_field, optional_text_field, pairs_field, read_bool, read_datetime, read_decimal,
    read_i64, read_object, read_object_list, read_optional_decimal, read_optional_json_text,
    read_optional_object, read_optional_text, read_optional_u64, read_pairs, read_text, read_u64,
    text_field, Member, MemberView,
};
use crate::time::Timestamp;
use crate::text::text_eq;
use crate::error::{invalid_decimal_error, unknown_variant_error};
use crate::json::numeral_text;
use vstd::prelude::*;

verus! {

/// A market, where a base asset trades against a quote asset (`BTC` against `USDC` in
/// `BTC_USDC`).
#[derive(Debug, Clone)]
pub struct Market {
    /// The market's identifier.
    pub symbol: String,
    pub base_symbol: String,
    pub quote_symbol: String,
    pub market_type: MarketType,
    pub filters: MarketFilters,
    /// Initial margin function, as the JSON text the server sent.
    pub imf_function: Option<String>,
    /// Maintenance margin function, as the JSON text the server sent.
    pub mmf_function: Option<String>,
    /// Funding interval of a perpetual, in milliseconds.
    pub funding_interval: Option<u64>,
    /// Upper bound of the funding rate of a perpetual, in basis points.
    pub funding_rate_upper_bound: Option<Decimal>,
    /// Lower bound of the funding rate of a perpetual, in basis points.
    pub funding_rate_lower_bound: Option<Decimal>,
    /// Largest open interest of a future.
    pub open_interest_limit: Option<Decimal>,
    pub order_book_state: OrderBookState,
    pub created_at: Timestamp,
}

impl Market {
    /// The number of fractional digits a price may have in this market: the scale of its
    /// tick size.
    pub fn price_decimal_places(&self) -> (r: u32)
        ensures
            r == self.filters.price.tick_size@.scale,
    {
        self.filters.price.tick_size.scale()
    }

    /// The number of fractional digits a quantity may have in this market: the scale of its
    /// step size.
    pub fn quantity_decimal_places(&self) -> (r: u32)
        ensures
            r == self.filters.quantity.step_size@.scale,
    {
        self.filters.quantity.step_size.scale()
    }
}

/// The price, quantity and leverage rules of an order book.
#[derive(Debug, Clone)]
pub struct MarketFilters {
    pub price: PriceFilters,
    pub quantity: QuantityFilters,
    pub leverage: Option<LeverageFilters>,
}

/// A band of allowed moves from the mean mark price.
#[derive(Debug, Clone)]
pub struct PriceBandMarkPrice {
    pub max_multiplier: Decimal,
    pub min_multiplier: Decimal,
}

/// A band of allowed deviation from the mean premium.
#[derive(Debug, Clone)]
pub struct PriceBandMeanPremium {
    pub tolerance_pct: Decimal,
}

/// Price rules of an order book.
#[derive(Debug, Clone)]
pub struct PriceFilters {
    pub min_price: Decimal,
    pub max_price: Option<Decimal>,
    /// Price increment; its scale is the price precision of the market.
    pub tick_size: Decimal,
    /// Largest multiplier from the last active price.
    pub max_multiplier: Option<Decimal>,
    /// Smallest multiplier from the last active price.
    pub min_multiplier: Option<Decimal>,
    /// How far above the best ask a market buy may reach.
    pub max_impact_multiplier: Option<Decimal>,
    /// How far below the best bid a market sell may reach.
    pub min_impact_multiplier: Option<Decimal>,
    pub mean_mark_price_band: Option<PriceBandMarkPrice>,
    pub mean_premium_band: Option<PriceBandMeanPremium>,
    pub borrow_entry_fee_max_multiplier: Option<Decimal>,
    pub borrow_entry_fee_min_multiplier: Option<Decimal>,
}

/// Quantity rules of an order book.
#[derive(Debug, Clone)]
pub struct QuantityFilters {
    pub min_quantity: Decimal,
    pub max_quantity: Option<Decimal>,
    /// Quantity increment; its scale is the quantity precision of the market.
    pub step_size: Decimal,
}

/// Leverage rules of a market.
#[derive(Debug, Clone)]
pub struct LeverageFilters {
    pub min_leverage: Decimal,
    pub max_leverage: Decimal,
    pub step_size: Decimal,
}

/// The resting orders of a market, as (price, quantity) levels in the order the server
/// gave them.
#[derive(Debug, Clone)]
pub struct OrderBookDepth {
    pub asks: Vec<(Decimal, Decimal)>,
    pub bids: Vec<(Decimal, Decimal)>,
    pub last_update_id: String,
}

/// Pairs of texts as pairs of character sequences.
pub open spec fn pairs_view(ps: Seq<(String, String)>) -> Seq<(Seq<char>, Seq<char>)> {
    ps.map_values(|p: (String, String)| (p.0@, p.1@))
}

/// Levels given as texts, read into the given decimals one for one.
pub open spec fn levels_read(texts: Seq<(Seq<char>, Seq<char>)>, levels: Seq<(Decimal, Decimal)>) -> bool {
    &&& levels.len() == texts.len()
    &&& forall|i: int|
        0 <= i < texts.len() ==> decimal_of_text((#[trigger] texts[i]).0) == Some(
            value_pair(levels[i].0@),
        ) && decimal_of_text(texts[i].1) == Some(value_pair(levels[i].1@))
}

pub open spec fn levels_readable(texts: Seq<(Seq<char>, Seq<char>)>) -> bool {
    forall|i: int|
        0 <= i < texts.len() ==> decimal_of_text((#[trigger] texts[i]).0) is Some && decimal_of_text(
            texts[i].1,
        ) is Some
}

pub open spec fn levels_plain(texts: Seq<(Seq<char>, Seq<char>)>) -> bool {
    forall|i: int|
        0 <= i < texts.len() ==> is_plain_numeral((#[trigger] texts[i]).0) && is_plain_numeral(
            texts[i].1,
        )
}

/// Reads (price, quantity) levels from their decimal texts, keeping their order and each
/// decimal's exact scale; fails when one text is not a decimal.
pub fn parse_levels(texts: &Vec<(String, String)>) -> (r: Result<Vec<(Decimal, Decimal)>, BpxError>)
    ensures
        r is Ok <==> levels_readable(pairs_view(texts@)),
        r matches Ok(levels) ==> levels_read(pairs_view(texts@), levels@),
        r matches Err(e) ==> e is InvalidDecimal,
        levels_plain(pairs_view(texts@)) ==> (r matches Ok(levels) && forall|i: int|
            0 <= i < texts@.len() ==> (#[trigger] levels@[i]).0@ == plain_value(texts@[i].0@)
                && levels@[i].1@ == plain_value(texts@[i].1@)),
{
    let ghost view = pairs_view(texts@);
    let mut levels: Vec<(Decimal, Decimal)> = Vec::new();
    for i in 0..texts.len()
        invariant
            view == pairs_view(texts@),
            levels_read(view.take(i as int), levels@),
            levels_readable(view.take(i as int)),
            forall|j: int|
                0 <= j < i && is_plain_numeral(view[j].0) && is_plain_numeral(view[j].1)
                    ==> (#[trigger] levels@[j]).0@ == plain_value(texts@[j].0@) && levels@[j].1@
                    == plain_value(texts@[j].1@),
    {
        assert(view[i as int] == (texts@[i as int].0@, texts@[i as int].1@));
        let price = match Decimal::parse(texts[i].0.as_str()) {
            Ok(d) => d,
            Err(e) => {
                assert(view.take(i + 1)[i as int] == view[i as int]);
                return Err(e);
            },
        };
        let quantity = match Decimal::parse(texts[i].1.as_str()) {
            Ok(d) => d,
            Err(e) => {
                assert(view.take(i + 1)[i as int] == view[i as int]);
                return Err(e);
            },
        };
        levels.push((price, quantity));
        assert(view.take(i + 1) =~= view.take(i as int).push(view[i as int]));
    }
    assert(view.take(texts.len() as int) =~= view);
    Ok(levels)
}

impl OrderBookDepth {
    /// The depth whose ask and bid levels are read from their texts, in order.
    pub fn from_levels(
        asks: &Vec<(String, String)>,
        bids: &Vec<(String, String)>,
        last_update_id: String,
    ) -> (r: Result<OrderBookDepth, BpxError>)
        ensures
            r is Ok <==> levels_readable(pairs_view(asks@)) && levels_readable(pairs_view(bids@)),
            r matches Ok(depth) ==> levels_read(pairs_view(asks@), depth.asks@) && levels_read(
                pairs_view(bids@),
                depth.bids@,
            ) && depth.last_update_id == last_update_id,
            levels_plain(pairs_view(asks@)) && levels_plain(pairs_view(bids@)) ==> (r matches Ok(
                depth,
            ) && (forall|i: int|
                0 <= i < asks@.len() ==> (#[trigger] depth.asks@[i]).0@ == plain_value(asks@[i].0@)
                    && depth.asks@[i].1@ == plain_value(asks@[i].1@)) && (forall|i: int|
                0 <= i < bids@.len() ==> (#[trigger] depth.bids@[i]).0@ == plain_value(bids@[i].0@)
                    && depth.bids@[i].1@ == plain_value(bids@[i].1@))),
            r matches Err(e) ==> e is InvalidDecimal,
    {
        let asks = parse_levels(asks)?;
        let bids = parse_levels(bids)?;
        Ok(OrderBookDepth { asks, bids, last_update_id })
    }
}

/// The kind of instrument a market trades.
#[derive(Debug, Clone, Copy, PartialEq, Eq, Hash, Structural)]
pub enum MarketType {
    Spot,
    Perp,
    Iperp,
    Dated,
    Prediction,
    Rfq,
}

impl MarketType {
    /// The wire text of each variant.
    pub open spec fn wire(self) -> Seq<char> {
        match self {
            MarketType::Spot => "SPOT"@,
            MarketType::Perp => "PERP"@,
            MarketType::Iperp => "IPERP"@,
            MarketType::Dated => "DATED"@,
            MarketType::Prediction => "PREDICTION"@,
            MarketType::Rfq => "RFQ"@,
        }
    }

    /// The variant whose wire text is `s`, if there is one.
    pub open spec fn decode(s: Seq<char>) -> Option<MarketType> {
        if s == "SPOT"@ {
            Some(MarketType::Spot)
        } else if s == "PERP"@ {
            Some(MarketType::Perp)
        } else if s == "IPERP"@ {
            Some(MarketType::Iperp)
        } else if s == "DATED"@ {
            Some(MarketType::Dated)
        } else if s == "PREDICTION"@ {
            Some(MarketType::Prediction)
        } else if s == "RFQ"@ {
            Some(MarketType::Rfq)
        } else {
            None
        }
    }

    /// The wire text of this variant.
    pub fn to_wire(&self) -> (r: &'static str)
        ensures
            r@ == self.wire(),
    {
        match self {
            MarketType::Spot => "SPOT",
            MarketType::Perp => "PERP",
            MarketType::Iperp => "IPERP",
            MarketType::Dated => "DATED",
            MarketType::Prediction => "PREDICTION",
            MarketType::Rfq => "RFQ",
        }
    }

    /// Reads a variant from its wire text; any other text is an unknown variant.
    pub fn from_wire(s: &str) -> (r: Result<MarketType, BpxError>)
        ensures
            match MarketType::decode(s@) {
                Some(v) => r == Ok::<_, BpxError>(v),
                None => r is Err && r->Err_0 is UnknownVariant
                    && r->Err_0->UnknownVariant_input@ == s@,
            },
    {
        if text_eq(s, "SPOT") {
            Ok(MarketType::Spot)
        } else if text_eq(s, "PERP") {
            Ok(MarketType::Perp)
        } else if text_eq(s, "IPERP") {
            Ok(MarketType::Iperp)
        } else if text_eq(s, "DATED") {
            Ok(MarketType::Dated)
        } else if text_eq(s, "PREDICTION") {
            Ok(MarketType::Prediction)
        } else if text_eq(s, "RFQ") {
            Ok(MarketType::Rfq)
        } else {
            Err(BpxError::UnknownVariant { input: s.to_owned() })
        }
    }

    /// Decoding the wire text of a variant gives that variant back, and a text that is
    /// the wire text of no variant decodes to nothing.
    pub proof fn lemma_wire_round_trip(self, s: Seq<char>)
        ensures
            MarketType::decode(self.wire()) == Some(self),
            MarketType::decode(s) == Some(self) <==> self.wire() == s,
            MarketType::decode(s) is None <==> (forall|v: MarketType| v.wire() != s),
    {
        reveal_strlit("SPOT");
        reveal_strlit("PERP");
        reveal_strlit("IPERP");
        reveal_strlit("DATED");
        reveal_strlit("PREDICTION");
        reveal_strlit("RFQ");
        assert("SPOT"@.len() == 4);
        assert("PERP"@.len() == 4);
        assert("IPERP"@.len() == 5);
        assert("DATED"@.len() == 5);
        assert("PREDICTION"@.len() == 10);
        assert("RFQ"@.len() == 3);
        assert("SPOT"@[0] != "PERP"@[0]);
        assert("IPERP"@[0] != "DATED"@[0]);
        match self {
            MarketType::Spot => {},
            MarketType::Perp => {},
            MarketType::Iperp => {},
            MarketType::Dated => {},
            MarketType::Prediction => {},
            MarketType::Rfq => {},
        }
        if let Some(v) = MarketType::decode(s) {
            assert(v.wire() == s);
        }
    }
}

/// Lifecycle state of a market's order book.
#[derive(Debug, Clone, Copy, PartialEq, Eq, Hash, Structural)]
pub enum OrderBookState {
    Open,
    Closed,
    CancelOnly,
    LimitOnly,
    PostOnly,
}

impl OrderBookState {
    /// The wire text of each variant.
    pub open spec fn wire(self) -> Seq<char> {
        match self {
            OrderBookState::Open => "Open"@,
            OrderBookState::Closed => "Closed"@,
            OrderBookState::CancelOnly => "CancelOnly"@,
            OrderBookState::LimitOnly => "LimitOnly"@,
            OrderBookState::PostOnly => "PostOnly"@,
        }
    }

    /// The variant whose wire text is `s`, if there is one.
    pub open spec fn decode(s: Seq<char>) -> Option<OrderBookState> {
        if s == "Open"@ {
            Some(OrderBookState::Open)
        } else if s == "Closed"@ {
            Some(OrderBookState::Closed)
        } else if s == "CancelOnly"@ {
            Some(OrderBookState::CancelOnly)
        } else if s == "LimitOnly"@ {
            Some(OrderBookState::LimitOnly)
        } else if s == "PostOnly"@ {
            Some(OrderBookState::PostOnly)
        } else {
            None
        }
    }

    /// The wire text of this variant.
    pub fn to_wire(&self) -> (r: &'static str)
        ensures
            r@ == self.wire(),
    {
        match self {
            OrderBookState::Open => "Open",
            OrderBookState::Closed => "Closed",
            OrderBookState::CancelOnly => "CancelOnly",
            OrderBookState::LimitOnly => "LimitOnly",
            OrderBookState::PostOnly => "PostOnly",
        }
    }

    /// Reads a variant from its wire text; any other text is an unknown variant.
    pub fn from_wire(s: &str) -> (r: Result<OrderBookState, BpxError>)
        ensures
            match OrderBookState::decode(s@) {
                Some(v) => r == Ok::<_, BpxError>(v),
                None => r is Err && r->Err_0 is UnknownVariant
                    && r->Err_0->UnknownVariant_input@ == s@,
            },
    {
        if text_eq(s, "Open") {
            Ok(OrderBookState::Open)
        } else if text_eq(s, "Closed") {
            Ok(OrderBookState::Closed)
        } else if text_eq(s, "CancelOnly") {
            Ok(OrderBookState::CancelOnly)
        } else if text_eq(s, "LimitOnly") {
            Ok(OrderBookState::LimitOnly)
        } else if text_eq(s, "PostOnly") {
            Ok(OrderBookState::PostOnly)
        } else {
            Err(BpxError::UnknownVariant { input: s.to_owned() })
        }
    }

    /// Decoding the wire text of a variant gives that variant back, and a text that is
    /// the wire text of no variant decodes to nothing.
    pub proof fn lemma_wire_round_trip(self, s: Seq<char>)
        ensures
            OrderBookState::decode(self.wire()) == Some(self),
            OrderBookState::decode(s) == Some(self) <==> self.wire() == s,
            OrderBookState::decode(s) is None <==> (forall|v: OrderBookState| v.wire() != s),
    {
        reveal_strlit("Open");
        reveal_strlit("Closed");
        reveal_strlit("CancelOnly");
        reveal_strlit("LimitOnly");
        reveal_strlit("PostOnly");
        assert("Open"@.len() == 4);
        assert("Closed"@.len() == 6);
        assert("CancelOnly"@.len() == 10);
        assert("LimitOnly"@.len() == 9);
        assert("PostOnly"@.len() == 8);
        match self {
            OrderBookState::Open => {},
            OrderBookState::Closed => {},
            OrderBookState::CancelOnly => {},
            OrderBookState::LimitOnly => {},
            OrderBookState::PostOnly => {},
        }
        if let Some(v) = OrderBookState::decode(s) {
            assert(v.wire() == s);
        }
    }
}

/// Best bid and offer after a change in the order book, from the book ticker stream.
#[derive(Debug, Clone)]
pub struct TickerUpdate {
    /// Event type. Alias `e`.
    pub event_type: String,
    /// Event time, in microseconds. Alias `E`.
    pub event_time: i64,
    /// Market symbol. Alias `s`.
    pub symbol: String,
    /// Alias `a`.
    pub ask_price: Decimal,
    /// Alias `A`.
    pub ask_quantity: Decimal,
    /// Alias `b`.
    pub bid_price: Decimal,
    /// Alias `B`.
    pub bid_quantity: Decimal,
    /// Update ID of the event. Alias `u`.
    pub update_id: u64,
    /// Engine time, in microseconds. Alias `T`.
    pub timestamp: u64,
}

impl TickerUpdate {
    /// The members hold each field under its alias, of its kind.
    pub open spec fn readable(ms: Seq<MemberView>) -> bool {
        &&& text_field(ms, "e"@) is Some
        &&& (integer_field(ms, "E"@) matches Some(v) && i64::MIN <= v <= i64::MAX)
        &&& text_field(ms, "s"@) is Some
        &&& decimal_field(ms, "a"@) is Some
        &&& decimal_field(ms, "A"@) is Some
        &&& decimal_field(ms, "b"@) is Some
        &&& decimal_field(ms, "B"@) is Some
        &&& (integer_field(ms, "u"@) matches Some(v) && 0 <= v <= u64::MAX)
        &&& (integer_field(ms, "T"@) matches Some(v) && 0 <= v <= u64::MAX)
    }

    /// Each field is what the members hold under its alias.
    pub open spec fn read_from(&self, ms: Seq<MemberView>) -> bool {
        &&& text_field(ms, "e"@) == Some(self.event_type@)
        &&& integer_field(ms, "E"@) == Some(self.event_time as int)
        &&& text_field(ms, "s"@) == Some(self.symbol@)
        &&& decimal_field(ms, "a"@) == Some(value_pair(self.ask_price@))
        &&& decimal_field(ms, "A"@) == Some(value_pair(self.ask_quantity@))
        &&& decimal_field(ms, "b"@) == Some(value_pair(self.bid_price@))
        &&& decimal_field(ms, "B"@) == Some(value_pair(self.bid_quantity@))
        &&& integer_field(ms, "u"@) == Some(self.update_id as int)
        &&& integer_field(ms, "T"@) == Some(self.timestamp as int)
    }

    /// The members of the fields read before `a` are readable.
    pub open spec fn readable_before_ask_price(ms: Seq<MemberView>) -> bool {
        &&& text_field(ms, "e"@) is Some
        &&& (integer_field(ms, "E"@) matches Some(v) && i64::MIN <= v <= i64::MAX)
        &&& text_field(ms, "s"@) is Some
    }

    /// The members of the fields read before `A` are readable.
    pub open spec fn readable_before_ask_quantity(ms: Seq<MemberView>) -> bool {
        &&& TickerUpdate::readable_before_ask_price(ms)
        &&& decimal_field(ms, "a"@) is Some
    }

    /// The members of the fields read before `b` are readable.
    pub open spec fn readable_before_bid_price(ms: Seq<MemberView>) -> bool {
        &&& TickerUpdate::readable_before_ask_quantity(ms)
        &&& decimal_field(ms, "A"@) is Some
    }

    /// The members of the fields read before `B` are readable.
    pub open spec fn readable_before_bid_quantity(ms: Seq<MemberView>) -> bool {
        &&& TickerUpdate::readable_before_bid_price(ms)
        &&& decimal_field(ms, "b"@) is Some
    }

    /// The error of reading these members when the fields read before a decimal or
    /// enumeration field are readable and that field's text is not a decimal or names no
    /// variant: a decode error under that field's key, with the text as its cause.
    pub open spec fn reports(ms: Seq<MemberView>, e: BpxError) -> bool {
        &&& match numeral_text(ms, "a"@) {
            Some(t) => TickerUpdate::readable_before_ask_price(ms) && decimal_of_text(t) is None ==> invalid_decimal_error(e, "a"@, t),
            _ => true,
        }
        &&& match numeral_text(ms, "A"@) {
            Some(t) => TickerUpdate::readable_before_ask_quantity(ms) && decimal_of_text(t) is None ==> invalid_decimal_error(e, "A"@, t),
            _ => true,
        }
        &&& match numeral_text(ms, "b"@) {
            Some(t) => TickerUpdate::readable_before_bid_price(ms) && decimal_of_text(t) is None ==> invalid_decimal_error(e, "b"@, t),
            _ => true,
        }
        &&& match numeral_text(ms, "B"@) {
            Some(t) => TickerUpdate::readable_before_bid_quantity(ms) && decimal_of_text(t) is None ==> invalid_decimal_error(e, "B"@, t),
            _ => true,
        }
    }

    /// The members that an error of reading this payload can name: its aliases.
    pub open spec fn member_keys() -> Set<Seq<char>> {
        set!["e"@, "E"@, "s"@, "a"@, "A"@, "b"@, "B"@, "u"@, "T"@]
    }

    /// Reads the payload from the members of its JSON object, by the aliases above.
    pub fn from_members(ms: &Vec<Member>) -> (r: Result<TickerUpdate, BpxError>)
        ensures
            r is Ok <==> TickerUpdate::readable(members_view(ms@)),
            r matches Ok(u) ==> u.read_from(members_view(ms@)),
            r matches Err(e) ==> e is Decode && TickerUpdate::member_keys().contains(e->Decode_member@),
            r matches Err(e) ==> TickerUpdate::reports(members_view(ms@), e),
    {
        let event_type = read_text(ms, "e")?;
        let event_time = read_i64(ms, "E")?;
        let symbol = read_text(ms, "s")?;
        let ask_price = read_decimal(ms, "a")?;
        let ask_quantity = read_decimal(ms, "A")?;
        let bid_price = read_decimal(ms, "b")?;
        let bid_quantity = read_decimal(ms, "B")?;
        let update_id = read_u64(ms, "u")?;
        let timestamp = read_u64(ms, "T")?;
        Ok(TickerUpdate {
            event_type,
            event_time,
            symbol,
            ask_price,
            ask_quantity,
            bid_price,
            bid_quantity,
            update_id,
            timestamp,
        })
    }

    /// Reads the payload from its JSON text.
    pub fn from_json(text: &str) -> (r: Result<TickerUpdate, BpxError>)
        ensures
            match json_members(text@) {
                Some(ms) => (r is Ok <==> TickerUpdate::readable(ms)) && (r matches Ok(u) ==> u.read_from(ms)) && (r matches Err(e) ==> TickerUpdate::reports(ms, e)),
                None => r is Err,
            },
            r matches Err(e) ==> e is Decode && (e->Decode_member@ == Seq::<char>::empty() || TickerUpdate::member_keys().contains(e->Decode_member@)),
    {
        let ms = object_members(text)?;
        TickerUpdate::from_members(&ms)
    }
}

/// 24 hour rolling statistics of one symbol, pushed every second by the ticker stream.
#[derive(Debug, Clone)]
pub struct TickerStatisticsUpdate {
    /// Event type. Alias `e`.
    pub event_type: String,
    /// Event time, in microseconds. Alias `E`.
    pub event_time: i64,
    /// Market symbol. Alias `s`.
    pub symbol: String,
    /// Alias `o`.
    pub first_price: Decimal,
    /// Alias `c`.
    pub last_price: Decimal,
    /// Alias `h`.
    pub high_price: Decimal,
    /// Alias `l`.
    pub low_price: Decimal,
    /// Alias `v`.
    pub base_asset_volume: Decimal,
    /// Alias `V`.
    pub quote_asset_volume: Decimal,
    /// Alias `n`.
    pub number_of_trades: u64,
}

impl TickerStatisticsUpdate {
    /// The members hold each field under its alias, of its kind.
    pub open spec fn readable(ms: Seq<MemberView>) -> bool {
        &&& text_field(ms, "e"@) is Some
        &&& (integer_field(ms, "E"@) matches Some(v) && i64::MIN <= v <= i64::MAX)
        &&& text_field(ms, "s"@) is Some
        &&& decimal_field(ms, "o"@) is Some
        &&& decimal_field(ms, "c"@) is Some
        &&& decimal_field(ms, "h"@) is Some
        &&& decimal_field(ms, "l"@) is Some
        &&& decimal_field(ms, "v"@) is Some
        &&& decimal_field(ms, "V"@) is Some
        &&& (integer_field(ms, "n"@) matches Some(v) && 0 <= v <= u64::MAX)
    }

    /// Each field is what the members hold under its alias.
    pub open spec fn read_from(&self, ms: Seq<MemberView>) -> bool {
        &&& text_field(ms, "e"@) == Some(self.event_type@)
        &&& integer_field(ms, "E"@) == Some(self.event_time as int)
        &&& text_field(ms, "s"@) == Some(self.symbol@)
        &&& decimal_field(ms, "o"@) == Some(value_pair(self.first_price@))
        &&& decimal_field(ms, "c"@) == Some(value_pair(self.last_price@))
        &&& decimal_field(ms, "h"@) == Some(value_pair(self.high_price@))
        &&& decimal_field(ms, "l"@) == Some(value_pair(self.low_price@))
        &&& decimal_field(ms, "v"@) == Some(value_pair(self.base_asset_volume@))
        &&& decimal_field(ms, "V"@) == Some(value_pair(self.quote_asset_volume@))
        &&& integer_field(ms, "n"@) == Some(self.number_of_trades as int)
    }

    /// The members of the fields read before `o` are readable.
    pub open spec fn readable_before_first_price(ms: Seq<MemberView>) -> bool {
        &&& text_field(ms, "e"@) is Some
        &&& (integer_field(ms, "E"@) matches Some(v) && i64::MIN <= v <= i64::MAX)
        &&& text_field(ms, "s"@) is Some
    }

    /// The members of the fields read before `c` are readable.
    pub open spec fn readable_before_last_price(ms: Seq<MemberView>) -> bool {
        &&& TickerStatisticsUpdate::readable_before_first_price(ms)
        &&& decimal_field(ms, "o"@) is Some
    }

    /// The members of the fields read before `h` are readable.
    pub open spec fn readable_before_high_price(ms: Seq<MemberView>) -> bool {
        &&& TickerStatisticsUpdate::readable_before_last_price(ms)
        &&& decimal_field(ms, "c"@) is Some
    }

    /// The members of the fields read before `l` are readable.
    pub open spec fn readable_before_low_price(ms: Seq<MemberView>) -> bool {
        &&& TickerStatisticsUpdate::readable_before_high_price(ms)
        &&& decimal_field(ms, "h"@) is Some
    }

    /// The members of the fields read before `v` are readable.
    pub open spec fn readable_before_base_asset_volume(ms: Seq<MemberView>) -> bool {
        &&& TickerStatisticsUpdate::readable_before_low_price(ms)
        &&& decimal_field(ms, "l"@) is Some
    }

    /// The members of the fields read before `V` are readable.
    pub open spec fn readable_before_quote_asset_volume(ms: Seq<MemberView>) -> bool {
        &&& TickerStatisticsUpdate::readable_before_base_asset_volume(ms)
        &&& decimal_field(ms, "v"@) is Some
    }

    /// The error of reading these members when the fields read before a decimal or
    /// enumeration field are readable and that field's text is not a decimal or names no
    /// variant: a decode error under that field's key, with the text as its cause.
    pub open spec fn reports(ms: Seq<MemberView>, e: BpxError) -> bool {
        &&& match numeral_text(ms, "o"@) {
            Some(t) => TickerStatisticsUpdate::readable_before_first_price(ms) && decimal_of_text(t) is None ==> invalid_decimal_error(e, "o"@, t),
            _ => true,
        }
        &&& match numeral_text(ms, "c"@) {
            Some(t) => TickerStatisticsUpdate::readable_before_last_price(ms) && decimal_of_text(t) is None ==> invalid_decimal_error(e, "c"@, t),
            _ => true,
        }
        &&& match numeral_text(ms, "h"@) {
            Some(t) => TickerStatisticsUpdate::readable_before_high_price(ms) && decimal_of_text(t) is None ==> invalid_decimal_error(e, "h"@, t),
            _ => true,
        }
        &&& match numeral_text(ms, "l"@) {
            Some(t) => TickerStatisticsUpdate::readable_before_low_price(ms) && decimal_of_text(t) is None ==> invalid_decimal_error(e, "l"@, t),
            _ => true,
        }
        &&& match numeral_text(ms, "v"@) {
            Some(t) => TickerStatisticsUpdate::readable_before_base_asset_volume(ms) && decimal_of_text(t) is None ==> invalid_decimal_error(e, "v"@, t),
            _ => true,
        }
        &&& match numeral_text(ms, "V"@) {
            Some(t) => TickerStatisticsUpdate::readable_before_quote_asset_volume(ms) && decimal_of_text(t) is None ==> invalid_decimal_error(e, "V"@, t),
            _ => true,
        }
    }

    /// The members that an error of reading this payload can name: its aliases.
    pub open spec fn member_keys() -> Set<Seq<char>> {
        set!["e"@, "E"@, "s"@, "o"@, "c"@, "h"@, "l"@, "v"@, "V"@, "n"@]
    }

    /// Reads the payload from the members of its JSON object, by the aliases above.
    pub fn from_members(ms: &Vec<Member>) -> (r: Result<TickerStatisticsUpdate, BpxError>)
        ensures
            r is Ok <==> TickerStatisticsUpdate::readable(members_view(ms@)),
            r matches Ok(u) ==> u.read_from(members_view(ms@)),
            r matches Err(e) ==> e is Decode && TickerStatisticsUpdate::member_keys().contains(e->Decode_member@),
            r matches Err(e) ==> TickerStatisticsUpdate::reports(members_view(ms@), e),
    {
        let event_type = read_text(ms, "e")?;
        let event_time = read_i64(ms, "E")?;
        let symbol = read_text(ms, "s")?;
        let first_price = read_decimal(ms, "o")?;
        let last_price = read_decimal(ms, "c")?;
        let high_price = read_decimal(ms, "h")?;
        let low_price = read_decimal(ms, "l")?;
        let base_asset_volume = read_decimal(ms, "v")?;
        let quote_asset_volume = read_decimal(ms, "V")?;
        let number_of_trades = read_u64(ms, "n")?;
        Ok(TickerStatisticsUpdate {
            event_type,
            event_time,
            symbol,
            first_price,
            last_price,
            high_price,
            low_price,
            base_asset_volume,
            quote_asset_volume,
            number_of_trades,
        })
    }

    /// Reads the payload from its JSON text.
    pub fn from_json(text: &str) -> (r: Result<TickerStatisticsUpdate, BpxError>)
        ensures
            match json_members(text@) {
                Some(ms) => (r is Ok <==> TickerStatisticsUpdate::readable(ms)) && (r matches Ok(u) ==> u.read_from(ms)) && (r matches Err(e) ==> TickerStatisticsUpdate::reports(ms, e)),
                None => r is Err,
            },
            r matches Err(e) ==> e is Decode && (e->Decode_member@ == Seq::<char>::empty() || TickerStatisticsUpdate::member_keys().contains(e->Decode_member@)),
    {
        let ms = object_members(text)?;
        TickerStatisticsUpdate::from_members(&ms)
    }
}

/// Changes to the order book, from the depth stream.
#[derive(Debug, Clone)]
pub struct OrderBookDepthUpdate {
    /// Event type. Alias `e`.
    pub event_type: String,
    /// Event time, in microseconds. Alias `E`.
    pub event_time: i64,
    /// Market symbol. Alias `s`.
    pub symbol: String,
    /// Engine time, in microseconds. Alias `T`.
    pub timestamp: i64,
    /// First update ID in the event. Alias `U`.
    pub first_update_id: u64,
    /// Last update ID in the event. Alias `u`.
    pub last_update_id: u64,
    /// Alias `a`.
    pub asks: Vec<(Decimal, Decimal)>,
    /// Alias `b`.
    pub bids: Vec<(Decimal, Decimal)>,
}

impl OrderBookDepthUpdate {
    /// The members hold each field under its alias, of its kind.
    pub open spec fn readable(ms: Seq<MemberView>) -> bool {
        &&& text_field(ms, "e"@) is Some
        &&& (integer_field(ms, "E"@) matches Some(v) && i64::MIN <= v <= i64::MAX)
        &&& text_field(ms, "s"@) is Some
        &&& (integer_field(ms, "T"@) matches Some(v) && i64::MIN <= v <= i64::MAX)
        &&& (integer_field(ms, "U"@) matches Some(v) && 0 <= v <= u64::MAX)
        &&& (integer_field(ms, "u"@) matches Some(v) && 0 <= v <= u64::MAX)
        &&& (pairs_field(ms, "a"@) matches Some(ps) && levels_readable(ps))
        &&& (pairs_field(ms, "b"@) matches Some(ps) && levels_readable(ps))
    }

    /// Each field is what the members hold under its alias.
    pub open spec fn read_from(&self, ms: Seq<MemberView>) -> bool {
        &&& text_field(ms, "e"@) == Some(self.event_type@)
        &&& integer_field(ms, "E"@) == Some(self.event_time as int)
        &&& text_field(ms, "s"@) == Some(self.symbol@)
        &&& integer_field(ms, "T"@) == Some(self.timestamp as int)
        &&& integer_field(ms, "U"@) == Some(self.first_update_id as int)
        &&& integer_field(ms, "u"@) == Some(self.last_update_id as int)
        &&& (pairs_field(ms, "a"@) matches Some(ps) && levels_read(ps, self.asks@))
        &&& (pairs_field(ms, "b"@) matches Some(ps) && levels_read(ps, self.bids@))
    }

    /// The error of reading these members when the fields read before a decimal or
    /// enumeration field are readable and that field's text is not a decimal or names no
    /// variant: a decode error under that field's key, with the text as its cause.
    pub open spec fn reports(ms: Seq<MemberView>, e: BpxError) -> bool {
        true
    }

    /// The members that an error of reading this payload can name: its aliases.
    pub open spec fn member_keys() -> Set<Seq<char>> {
        set!["e"@, "E"@, "s"@, "T"@, "U"@, "u"@, "a"@, "b"@]
    }

    /// Reads the payload from the members of its JSON object, by the aliases above.
    pub fn from_members(ms: &Vec<Member>) -> (r: Result<OrderBookDepthUpdate, BpxError>)
        ensures
            r is Ok <==> OrderBookDepthUpdate::readable(members_view(ms@)),
            r matches Ok(u) ==> u.read_from(members_view(ms@)),
            r matches Err(e) ==> e is Decode && OrderBookDepthUpdate::member_keys().contains(e->Decode_member@),
            r matches Err(e) ==> OrderBookDepthUpdate::reports(members_view(ms@), e),
    {
        let event_type = read_text(ms, "e")?;
        let event_time = read_i64(ms, "E")?;
        let symbol = read_text(ms, "s")?;
        let timestamp = read_i64(ms, "T")?;
        let first_update_id = read_u64(ms, "U")?;
        let last_update_id = read_u64(ms, "u")?;
        let asks_texts = read_pairs(ms, "a")?;
        let asks = match parse_levels(&asks_texts) {
            Ok(levels) => levels,
            Err(e) => return Err(level_error_at("a", e)),
        };
        let bids_texts = read_pairs(ms, "b")?;
        let bids = match parse_levels(&bids_texts) {
            Ok(levels) => levels,
            Err(e) => return Err(level_error_at("b", e)),
        };
        Ok(OrderBookDepthUpdate {
            event_type,
            event_time,
            symbol,
            timestamp,
            first_update_id,
            last_update_id,
            asks,
            bids,
        })
    }

    /// Reads the payload from its JSON text.
    pub fn from_json(text: &str) -> (r: Result<OrderBookDepthUpdate, BpxError>)
        ensures
            match json_members(text@) {
                Some(ms) => (r is Ok <==> OrderBookDepthUpdate::readable(ms)) && (r matches Ok(u) ==> u.read_from(ms)) && (r matches Err(e) ==> OrderBookDepthUpdate::reports(ms, e)),
                None => r is Err,
            },
            r matches Err(e) ==> e is Decode && (e->Decode_member@ == Seq::<char>::empty() || OrderBookDepthUpdate::member_keys().contains(e->Decode_member@)),
    {
        let ms = object_members(text)?;
        OrderBookDepthUpdate::from_members(&ms)
    }
}

/// One candlestick, from the k-line stream.
#[derive(Debug, Clone)]
pub struct KlineUpdate {
    /// Event type. Alias `e`.
    pub event_type: String,
    /// Event time, in microseconds. Alias `E`.
    pub event_time: i64,
    /// Market symbol. Alias `s`.
    pub symbol: String,
    /// Start of the k-line. Alias `t`.
    pub start: Timestamp,
    /// Close of the k-line. Alias `T`.
    pub end: Timestamp,
    /// Alias `o`.
    pub open: Decimal,
    /// Alias `c`.
    pub close: Decimal,
    /// Alias `h`.
    pub high: Decimal,
    /// Alias `l`.
    pub low: Decimal,
    /// Alias `v`.
    pub base_asset_volume: Decimal,
    /// Alias `n`.
    pub number_of_trades: u64,
    /// Whether the k-line is closed. Alias `X`.
    pub is_closed: bool,
}

impl KlineUpdate {
    /// The members hold each field under its alias, of its kind.
    pub open spec fn readable(ms: Seq<MemberView>) -> bool {
        &&& text_field(ms, "e"@) is Some
        &&& (integer_field(ms, "E"@) matches Some(v) && i64::MIN <= v <= i64::MAX)
        &&& text_field(ms, "s"@) is Some
        &&& datetime_field(ms, "t"@) is Some
        &&& datetime_field(ms, "T"@) is Some
        &&& decimal_field(ms, "o"@) is Some
        &&& decimal_field(ms, "c"@) is Some
        &&& decimal_field(ms, "h"@) is Some
        &&& decimal_field(ms, "l"@) is Some
        &&& decimal_field(ms, "v"@) is Some
        &&& (integer_field(ms, "n"@) matches Some(v) && 0 <= v <= u64::MAX)
        &&& bool_field(ms, "X"@) is Some
    }

    /// Each field is what the members hold under its alias.
    pub open spec fn read_from(&self, ms: Seq<MemberView>) -> bool {
        &&& text_field(ms, "e"@) == Some(self.event_type@)
        &&& integer_field(ms, "E"@) == Some(self.event_time as int)
        &&& text_field(ms, "s"@) == Some(self.symbol@)
        &&& datetime_field(ms, "t"@) == Some((self.start.seconds as int, self.start.nanos as nat))
        &&& datetime_field(ms, "T"@) == Some((self.end.seconds as int, self.end.nanos as nat))
        &&& decimal_field(ms, "o"@) == Some(value_pair(self.open@))
        &&& decimal_field(ms, "c"@) == Some(value_pair(self.close@))
        &&& decimal_field(ms, "h"@) == Some(value_pair(self.high@))
        &&& decimal_field(ms, "l"@) == Some(value_pair(self.low@))
        &&& decimal_field(ms, "v"@) == Some(value_pair(self.base_asset_volume@))
        &&& integer_field(ms, "n"@) == Some(self.number_of_trades as int)
        &&& bool_field(ms, "X"@) == Some(self.is_closed)
    }

    /// The members of the fields read before `o` are readable.
    pub open spec fn readable_before_open(ms: Seq<MemberView>) -> bool {
        &&& text_field(ms, "e"@) is Some
        &&& (integer_field(ms, "E"@) matches Some(v) && i64::MIN <= v <= i64::MAX)
        &&& text_field(ms, "s"@) is Some
        &&& datetime_field(ms, "t"@) is Some
        &&& datetime_field(ms, "T"@) is Some
    }

    /// The members of the fields read before `c` are readable.
    pub open spec fn readable_before_close(ms: Seq<MemberView>) -> bool {
        &&& KlineUpdate::readable_before_open(ms)
        &&& decimal_field(ms, "o"@) is Some
    }

    /// The members of the fields read before `h` are readable.
    pub open spec fn readable_before_high(ms: Seq<MemberView>) -> bool {
        &&& KlineUpdate::readable_before_close(ms)
        &&& decimal_field(ms, "c"@) is Some
    }

    /// The members of the fields read before `l` are readable.
    pub open spec fn readable_before_low(ms: Seq<MemberView>) -> bool {
        &&& KlineUpdate::readable_before_high(ms)
        &&& decimal_field(ms, "h"@) is Some
    }

    /// The members of the fields read before `v` are readable.
    pub open spec fn readable_before_base_asset_volume(ms: Seq<MemberView>) -> bool {
        &&& KlineUpdate::readable_before_low(ms)
        &&& decimal_field(ms, "l"@) is Some
    }

    /// The error of reading these members when the fields read before a decimal or
    /// enumeration field are readable and that field's text is not a decimal or names no
    /// variant: a decode error under that field's key, with the text as its cause.
    pub open spec fn reports(ms: Seq<MemberView>, e: BpxError) -> bool {
        &&& match numeral_text(ms, "o"@) {
            Some(t) => KlineUpdate::readable_before_open(ms) && decimal_of_text(t) is None ==> invalid_decimal_error(e, "o"@, t),
            _ => true,
        }
        &&& match numeral_text(ms, "c"@) {
            Some(t) => KlineUpdate::readable_before_close(ms) && decimal_of_text(t) is None ==> invalid_decimal_error(e, "c"@, t),
            _ => true,
        }
        &&& match numeral_text(ms, "h"@) {
            Some(t) => KlineUpdate::readable_before_high(ms) && decimal_of_text(t) is None ==> invalid_decimal_error(e, "h"@, t),
            _ => true,
        }
        &&& match numeral_text(ms, "l"@) {
            Some(t) => KlineUpdate::readable_before_low(ms) && decimal_of_text(t) is None ==> invalid_decimal_error(e, "l"@, t),
            _ => true,
        }
        &&& match numeral_text(ms, "v"@) {
            Some(t) => KlineUpdate::readable_before_base_asset_volume(ms) && decimal_of_text(t) is None ==> invalid_decimal_error(e, "v"@, t),
            _ => true,
        }
    }

    /// The members that an error of reading this payload can name: its aliases.
    pub open spec fn member_keys() -> Set<Seq<char>> {
        set!["e"@, "E"@, "s"@, "t"@, "T"@, "o"@, "c"@, "h"@, "l"@, "v"@, "n"@, "X"@]
    }

    /// Reads the payload from the members of its JSON object, by the aliases above.
    pub fn from_members(ms: &Vec<Member>) -> (r: Result<KlineUpdate, BpxError>)
        ensures
            r is Ok <==> KlineUpdate::readable(members_view(ms@)),
            r matches Ok(u) ==> u.read_from(members_view(ms@)),
            r matches Err(e) ==> e is Decode && KlineUpdate::member_keys().contains(e->Decode_member@),
            r matches Err(e) ==> KlineUpdate::reports(members_view(ms@), e),
    {
        let event_type = read_text(ms, "e")?;
        let event_time = read_i64(ms, "E")?;
        let symbol = read_text(ms, "s")?;
        let start = read_datetime(ms, "t")?;
        let end = read_datetime(ms, "T")?;
        let open = read_decimal(ms, "o")?;
        let close = read_decimal(ms, "c")?;
        let high = read_decimal(ms, "h")?;
        let low = read_decimal(ms, "l")?;
        let base_asset_volume = read_decimal(ms, "v")?;
        let number_of_trades = read_u64(ms, "n")?;
        let is_closed = read_bool(ms, "X")?;
        Ok(KlineUpdate {
            event_type,
            event_time,
            symbol,
            start,
            end,
            open,
            close,
            high,
            low,
            base_asset_volume,
            number_of_trades,
            is_closed,
        })
    }

    /// Reads the payload from its JSON text.
    pub fn from_json(text: &str) -> (r: Result<KlineUpdate, BpxError>)
        ensures
            match json_members(text@) {
                Some(ms) => (r is Ok <==> KlineUpdate::readable(ms)) && (r matches Ok(u) ==> u.read_from(ms)) && (r matches Err(e) ==> KlineUpdate::reports(ms, e)),
                None => r is Err,
            },
            r matches Err(e) ==> e is Decode && (e->Decode_member@ == Seq::<char>::empty() || KlineUpdate::member_keys().contains(e->Decode_member@)),
    {
        let ms = object_members(text)?;
        KlineUpdate::from_members(&ms)
    }
}

/// Mark price, index price and estimated funding rate, from the mark price stream.
#[derive(Debug, Clone)]
pub struct MarkPriceUpdate {
    /// Event type. Alias `e`.
    pub event_type: String,
    /// Event time, in microseconds. Alias `E`.
    pub event_time: i64,
    /// Market symbol. Alias `s`.
    pub symbol: String,
    /// Alias `p`.
    pub mark_price: Decimal,
    /// Estimated funding rate. Alias `f`.
    pub funding_rate: Decimal,
    /// Alias `i`.
    pub index_price: Decimal,
    /// Next funding time, in microseconds. Alias `n`.
    pub funding_timestamp: u64,
    /// Engine time, in microseconds. Alias `T`.
    pub engine_timestamp: i64,
}

impl MarkPriceUpdate {
    /// The members hold each field under its alias, of its kind.
    pub open spec fn readable(ms: Seq<MemberView>) -> bool {
        &&& text_field(ms, "e"@) is Some
        &&& (integer_field(ms, "E"@) matches Some(v) && i64::MIN <= v <= i64::MAX)
        &&& text_field(ms, "s"@) is Some
        &&& decimal_field(ms, "p"@) is Some
        &&& decimal_field(ms, "f"@) is Some
        &&& decimal_field(ms, "i"@) is Some
        &&& (integer_field(ms, "n"@) matches Some(v) && 0 <= v <= u64::MAX)
        &&& (integer_field(ms, "T"@) matches Some(v) && i64::MIN <= v <= i64::MAX)
    }

    /// Each field is what the members hold under its alias.
    pub open spec fn read_from(&self, ms: Seq<MemberView>) -> bool {
        &&& text_field(ms, "e"@) == Some(self.event_type@)
        &&& integer_field(ms, "E"@) == Some(self.event_time as int)
        &&& text_field(ms, "s"@) == Some(self.symbol@)
        &&& decimal_field(ms, "p"@) == Some(value_pair(self.mark_price@))
        &&& decimal_field(ms, "f"@) == Some(value_pair(self.funding_rate@))
        &&& decimal_field(ms, "i"@) == Some(value_pair(self.index_price@))
        &&& integer_field(ms, "n"@) == Some(self.funding_timestamp as int)
        &&& integer_field(ms, "T"@) == Some(self.engine_timestamp as int)
    }

    /// The members of the fields read before `p` are readable.
    pub open spec fn readable_before_mark_price(ms: Seq<MemberView>) -> bool {
        &&& text_field(ms, "e"@) is Some
        &&& (integer_field(ms, "E"@) matches Some(v) && i64::MIN <= v <= i64::MAX)
        &&& text_field(ms, "s"@) is Some
    }

    /// The members of the fields read before `f` are readable.
    pub open spec fn readable_before_funding_rate(ms: Seq<MemberView>) -> bool {
        &&& MarkPriceUpdate::readable_before_mark_price(ms)
        &&& decimal_field(ms, "p"@) is Some
    }

    /// The members of the fields read before `i` are readable.
    pub open spec fn readable_before_index_price(ms: Seq<MemberView>) -> bool {
        &&& MarkPriceUpdate::readable_before_funding_rate(ms)
        &&& decimal_field(ms, "f"@) is Some
    }

    /// The error of reading these members when the fields read before a decimal or
    /// enumeration field are readable and that field's text is not a decimal or names no
    /// variant: a decode error under that field's key, with the text as its cause.
    pub open spec fn reports(ms: Seq<MemberView>, e: BpxError) -> bool {
        &&& match numeral_text(ms, "p"@) {
            Some(t) => MarkPriceUpdate::readable_before_mark_price(ms) && decimal_of_text(t) is None ==> invalid_decimal_error(e, "p"@, t),
            _ => true,
        }
        &&& match numeral_text(ms, "f"@) {
            Some(t) => MarkPriceUpdate::readable_before_funding_rate(ms) && decimal_of_text(t) is None ==> invalid_decimal_error(e, "f"@, t),
            _ => true,
        }
        &&& match numeral_text(ms, "i"@) {
            Some(t) => MarkPriceUpdate::readable_before_index_price(ms) && decimal_of_text(t) is None ==> invalid_decimal_error(e, "i"@, t),
            _ => true,
        }
    }

    /// The members that an error of reading this payload can name: its aliases.
    pub open spec fn member_keys() -> Set<Seq<char>> {
        set!["e"@, "E"@, "s"@, "p"@, "f"@, "i"@, "n"@, "T"@]
    }

    /// Reads the payload from the members of its JSON object, by the aliases above.
    pub fn from_members(ms: &Vec<Member>) -> (r: Result<MarkPriceUpdate, BpxError>)
        ensures
            r is Ok <==> MarkPriceUpdate::readable(members_view(ms@)),
            r matches Ok(u) ==> u.read_from(members_view(ms@)),
            r matches Err(e) ==> e is Decode && MarkPriceUpdate::member_keys().contains(e->Decode_member@),
            r matches Err(e) ==> MarkPriceUpdate::reports(members_view(ms@), e),
    {
        let event_type = read_text(ms, "e")?;
        let event_time = read_i64(ms, "E")?;
        let symbol = read_text(ms, "s")?;
        let mark_price = read_decimal(ms, "p")?;
        let funding_rate = read_decimal(ms, "f")?;
        let index_price = read_decimal(ms, "i")?;
        let funding_timestamp = read_u64(ms, "n")?;
        let engine_timestamp = read_i64(ms, "T")?;
        Ok(MarkPriceUpdate {
            event_type,
            event_time,
            symbol,
            mark_price,
            funding_rate,
            index_price,
            funding_timestamp,
            engine_timestamp,
        })
    }

    /// Reads the payload from its JSON text.
    pub fn from_json(text: &str) -> (r: Result<MarkPriceUpdate, BpxError>)
        ensures
            match json_members(text@) {
                Some(ms) => (r is Ok <==> MarkPriceUpdate::readable(ms)) && (r matches Ok(u) ==> u.read_from(ms)) && (r matches Err(e) ==> MarkPriceUpdate::reports(ms, e)),
                None => r is Err,
            },
            r matches Err(e) ==> e is Decode && (e->Decode_member@ == Seq::<char>::empty() || MarkPriceUpdate::member_keys().contains(e->Decode_member@)),
    {
        let ms = object_members(text)?;
        MarkPriceUpdate::from_members(&ms)
    }
}

/// 24 hour statistics of a market.
#[derive(Debug, Clone)]
pub struct Ticker {
    pub symbol: String,
    pub first_price: Decimal,
    pub last_price: Decimal,
    pub price_change: Decimal,
    pub price_change_percent: Decimal,
    pub high: Decimal,
    pub low: Decimal,
    pub volume: Decimal,
    pub trades: String,
}

impl Ticker {
    /// The members hold each field under its key, of its kind.
    pub open spec fn readable(ms: Seq<MemberView>) -> bool {
        &&& text_field(ms, "symbol"@) is Some
        &&& decimal_field(ms, "firstPrice"@) is Some
        &&& decimal_field(ms, "lastPrice"@) is Some
        &&& decimal_field(ms, "priceChange"@) is Some
        &&& decimal_field(ms, "priceChangePercent"@) is Some
        &&& decimal_field(ms, "high"@) is Some
        &&& decimal_field(ms, "low"@) is Some
        &&& decimal_field(ms, "volume"@) is Some
        &&& text_field(ms, "trades"@) is Some
    }

    /// Each field is what the members hold under its key.
    pub open spec fn read_from(&self, ms: Seq<MemberView>) -> bool {
        &&& text_field(ms, "symbol"@) == Some(self.symbol@)
        &&& decimal_field(ms, "firstPrice"@) == Some(value_pair(self.first_price@))
        &&& decimal_field(ms, "lastPrice"@) == Some(value_pair(self.last_price@))
        &&& decimal_field(ms, "priceChange"@) == Some(value_pair(self.price_change@))
        &&& decimal_field(ms, "priceChangePercent"@) == Some(value_pair(self.price_change_percent@))
        &&& decimal_field(ms, "high"@) == Some(value_pair(self.high@))
        &&& decimal_field(ms, "low"@) == Some(value_pair(self.low@))
        &&& decimal_field(ms, "volume"@) == Some(value_pair(self.volume@))
        &&& text_field(ms, "trades"@) == Some(self.trades@)
    }

    /// The members of the fields read before `firstPrice` are readable.
    pub open spec fn readable_before_first_price(ms: Seq<MemberView>) -> bool {
        &&& text_field(ms, "symbol"@) is Some
    }

    /// The members of the fields read before `lastPrice` are readable.
    pub open spec fn readable_before_last_price(ms: Seq<MemberView>) -> bool {
        &&& Ticker::readable_before_first_price(ms)
        &&& decimal_field(ms, "firstPrice"@) is Some
    }

    /// The members of the fields read before `priceChange` are readable.
    pub open spec fn readable_before_price_change(ms: Seq<MemberView>) -> bool {
        &&& Ticker::readable_before_last_price(ms)
        &&& decimal_field(ms, "lastPrice"@) is Some
    }

    /// The members of the fields read before `priceChangePercent` are readable.
    pub open spec fn readable_before_price_change_percent(ms: Seq<MemberView>) -> bool {
        &&& Ticker::readable_before_price_change(ms)
        &&& decimal_field(ms, "priceChange"@) is Some
    }

    /// The members of the fields read before `high` are readable.
    pub open spec fn readable_before_high(ms: Seq<MemberView>) -> bool {
        &&& Ticker::readable_before_price_change_percent(ms)
        &&& decimal_field(ms, "priceChangePercent"@) is Some
    }

    /// The members of the fields read before `low` are readable.
    pub open spec fn readable_before_low(ms: Seq<MemberView>) -> bool {
        &&& Ticker::readable_before_high(ms)
        &&& decimal_field(ms, "high"@) is Some
    }

    /// The members of the fields read before `volume` are readable.
    pub open spec fn readable_before_volume(ms: Seq<MemberView>) -> bool {
        &&& Ticker::readable_before_low(ms)
        &&& decimal_field(ms, "low"@) is Some
    }

    /// The error of reading these members when the fields read before a decimal or
    /// enumeration field are readable and that field's text is not a decimal or names no
    /// variant: a decode error under that field's key, with the text as its cause.
    pub open spec fn reports(ms: Seq<MemberView>, e: BpxError) -> bool {
        &&& match numeral_text(ms, "firstPrice"@) {
            Some(t) => Ticker::readable_before_first_price(ms) && decimal_of_text(t) is None ==> invalid_decimal_error(e, "firstPrice"@, t),
            _ => true,
        }
        &&& match numeral_text(ms, "lastPrice"@) {
            Some(t) => Ticker::readable_before_last_price(ms) && decimal_of_text(t) is None ==> invalid_decimal_error(e, "lastPrice"@, t),
            _ => true,
        }
        &&& match numeral_text(ms, "priceChange"@) {
            Some(t) => Ticker::readable_before_price_change(ms) && decimal_of_text(t) is None ==> invalid_decimal_error(e, "priceChange"@, t),
            _ => true,
        }
        &&& match numeral_text(ms, "priceChangePercent"@) {
            Some(t) => Ticker::readable_before_price_change_percent(ms) && decimal_of_text(t) is None ==> invalid_decimal_error(e, "priceChangePercent"@, t),
            _ => true,
        }
        &&& match numeral_text(ms, "high"@) {
            Some(t) => Ticker::readable_before_high(ms) && decimal_of_text(t) is None ==> invalid_decimal_error(e, "high"@, t),
            _ => true,
        }
        &&& match numeral_text(ms, "low"@) {
            Some(t) => Ticker::readable_before_low(ms) && decimal_of_text(t) is None ==> invalid_decimal_error(e, "low"@, t),
            _ => true,
        }
        &&& match numeral_text(ms, "volume"@) {
            Some(t) => Ticker::readable_before_volume(ms) && decimal_of_text(t) is None ==> invalid_decimal_error(e, "volume"@, t),
            _ => true,
        }
    }

    /// The members that an error of reading this record can name: its keys and those of
    /// the records nested in it.
    pub open spec fn member_keys() -> Set<Seq<char>> {
        set!["symbol"@, "firstPrice"@, "lastPrice"@, "priceChange"@, "priceChangePercent"@, "high"@, "low"@, "volume"@, "trades"@]
    }

    /// Reads the record from the members of its JSON object.
    pub fn from_members(ms: &Vec<Member>) -> (r: Result<Ticker, BpxError>)
        ensures
            r is Ok <==> Ticker::readable(members_view(ms@)),
            r matches Ok(x) ==> x.read_from(members_view(ms@)),
            r matches Err(e) ==> e is Decode && Ticker::member_keys().contains(e->Decode_member@),
            r matches Err(e) ==> Ticker::reports(members_view(ms@), e),
    {
        let symbol = read_text(ms, "symbol")?;
        let first_price = read_decimal(ms, "firstPrice")?;
        let last_price = read_decimal(ms, "lastPrice")?;
        let price_change = read_decimal(ms, "priceChange")?;
        let price_change_percent = read_decimal(ms, "priceChangePercent")?;
        let high = read_decimal(ms, "high")?;
        let low = read_decimal(ms, "low")?;
        let volume = read_decimal(ms, "volume")?;
        let trades = read_text(ms, "trades")?;
        Ok(Ticker {
            symbol,
            first_price,
            last_price,
            price_change,
            price_change_percent,
            high,
            low,
            volume,
            trades,
        })
    }

    /// Reads one record from each list of members, in order.
    pub fn from_member_lists(lists: &Vec<Vec<Member>>) -> (r: Result<Vec<Ticker>, BpxError>)
        ensures
            r is Ok <==> forall|i: int| 0 <= i < lists@.len() ==> Ticker::readable(members_view((#[trigger] lists@[i])@)),
            r matches Ok(v) ==> v@.len() == lists@.len() && forall|i: int| 0 <= i < lists@.len() ==> (#[trigger] v@[i]).read_from(members_view(lists@[i]@)),
            r matches Err(e) ==> e is Decode && Ticker::member_keys().contains(e->Decode_member@),
            r matches Err(e) ==> exists|i: int| 0 <= i < lists@.len() && !Ticker::readable(members_view(lists@[i]@)) && (forall|j: int| 0 <= j < i ==> Ticker::readable(members_view(lists@[j]@))) && Ticker::reports(members_view(lists@[i]@), e),
    {
        let mut out: Vec<Ticker> = Vec::new();
        for i in 0..lists.len()
            invariant
                out@.len() == i,
                forall|j: int| 0 <= j < i ==> Ticker::readable(members_view((#[trigger] lists@[j])@)) && out@[j].read_from(members_view(lists@[j]@)),
        {
            match Ticker::from_members(&lists[i]) {
                Ok(x) => out.push(x),
                Err(e) => {
                    assert(!Ticker::readable(members_view(lists@[i as int]@)));
                    assert(Ticker::reports(members_view(lists@[i as int]@), e));
                    return Err(e);
                },
            }
        }
        Ok(out)
    }

    /// Reads the record from its JSON text.
    pub fn from_json(text: &str) -> (r: Result<Ticker, BpxError>)
        ensures
            match json_members(text@) {
                Some(ms) => (r is Ok <==> Ticker::readable(ms)) && (r matches Ok(x) ==> x.read_from(ms)) && (r matches Err(e) ==> Ticker::reports(ms, e)),
                None => r is Err,
            },
            r matches Err(e) ==> e is Decode && (e->Decode_member@ == Seq::<char>::empty() || Ticker::member_keys().contains(e->Decode_member@)),
    {
        let ms = object_members(text)?;
        Ticker::from_members(&ms)
    }

    /// Reads a JSON array of records, in order.
    pub fn list_from_json(text: &str) -> (r: Result<Vec<Ticker>, BpxError>)
        ensures
            match object_list(text@) {
                Some(ls) => (r is Ok <==> forall|i: int| 0 <= i < ls.len() ==> Ticker::readable(#[trigger] ls[i])) && (r matches Ok(v) ==> v@.len() == ls.len() && forall|i: int| 0 <= i < ls.len() ==> (#[trigger] v@[i]).read_from(ls[i])) && (r matches Err(e) ==> exists|i: int| 0 <= i < ls.len() && !Ticker::readable(ls[i]) && (forall|j: int| 0 <= j < i ==> Ticker::readable(ls[j])) && Ticker::reports(ls[i], e)),
                None => r is Err,
            },
            r matches Err(e) ==> e is Decode && (e->Decode_member@ == Seq::<char>::empty() || Ticker::member_keys().contains(e->Decode_member@)),
    {
        let lists = object_list_members(text)?;
        let r = Ticker::from_member_lists(&lists);
        proof {
            let ls = object_list(text@)->Some_0;
            assert(r is Ok <==> forall|i: int| 0 <= i < ls.len() ==> Ticker::readable(#[trigger] ls[i])) by {
                assert forall|i: int| 0 <= i < ls.len() implies #[trigger] ls[i] == members_view(lists@[i]@) by {}
            }
            if r is Ok {
                let v = r->Ok_0;
                assert forall|i: int| 0 <= i < ls.len() implies (#[trigger] v@[i]).read_from(ls[i]) by {
                    assert(members_view(lists@[i]@) == ls[i]);
                }
            }
            if r is Err {
                let e = r->Err_0;
                let i = choose|i: int| 0 <= i < lists@.len() && !Ticker::readable(members_view(lists@[i]@)) && (forall|j: int| 0 <= j < i ==> Ticker::readable(members_view(lists@[j]@))) && Ticker::reports(members_view(lists@[i]@), e);
                assert(members_view(lists@[i]@) == ls[i]);
                assert forall|j: int| 0 <= j < i implies Ticker::readable(#[trigger] ls[j]) by {
                    assert(members_view(lists@[j]@) == ls[j]);
                }
            }
        }
        r
    }
}

/// One candlestick.
#[derive(Debug, Clone)]
pub struct Kline {
    pub start: String,
    pub open: Option<Decimal>,
    pub high: Option<Decimal>,
    pub low: Option<Decimal>,
    pub close: Option<Decimal>,
    pub end: Option<String>,
    pub volume: Decimal,
    pub trades: u64,
}

impl Kline {
    /// The members hold each field under its key, of its kind.
    pub open spec fn readable(ms: Seq<MemberView>) -> bool {
        &&& text_field(ms, "start"@) is Some
        &&& optional_decimal_field(ms, "open"@) is Some
        &&& optional_decimal_field(ms, "high"@) is Some
        &&& optional_decimal_field(ms, "low"@) is Some
        &&& optional_decimal_field(ms, "close"@) is Some
        &&& optional_text_field(ms, "end"@) is Some
        &&& decimal_field(ms, "volume"@) is Some
        &&& (integer_field(ms, "trades"@) matches Some(v) && 0 <= v <= u64::MAX)
    }

    /// Each field is what the members hold under its key.
    pub open spec fn read_from(&self, ms: Seq<MemberView>) -> bool {
        &&& text_field(ms, "start"@) == Some(self.start@)
        &&& optional_decimal_field(ms, "open"@) == Some(match self.open { Some(d) => Some(value_pair(d@)), None => None })
        &&& optional_decimal_field(ms, "high"@) == Some(match self.high { Some(d) => Some(value_pair(d@)), None => None })
        &&& optional_decimal_field(ms, "low"@) == Some(match self.low { Some(d) => Some(value_pair(d@)), None => None })
        &&& optional_decimal_field(ms, "close"@) == Some(match self.close { Some(d) => Some(value_pair(d@)), None => None })
        &&& optional_text_field(ms, "end"@) == Some(match self.end { Some(t) => Some(t@), None => None })
        &&& decimal_field(ms, "volume"@) == Some(value_pair(self.volume@))
        &&& integer_field(ms, "trades"@) == Some(self.trades as int)
    }

    /// The members of the fields read before `open` are readable.
    pub open spec fn readable_before_open(ms: Seq<MemberView>) -> bool {
        &&& text_field(ms, "start"@) is Some
    }

    /// The members of the fields read before `high` are readable.
    pub open spec fn readable_before_high(ms: Seq<MemberView>) -> bool {
        &&& Kline::readable_before_open(ms)
        &&& optional_decimal_field(ms, "open"@) is Some
    }

    /// The members of the fields read before `low` are readable.
    pub open spec fn readable_before_low(ms: Seq<MemberView>) -> bool {
        &&& Kline::readable_before_high(ms)
        &&& optional_decimal_field(ms, "high"@) is Some
    }

    /// The members of the fields read before `close` are readable.
    pub open spec fn readable_before_close(ms: Seq<MemberView>) -> bool {
        &&& Kline::readable_before_low(ms)
        &&& optional_decimal_field(ms, "low"@) is Some
    }

    /// The members of the fields read before `volume` are readable.
    pub open spec fn readable_before_volume(ms: Seq<MemberView>) -> bool {
        &&& Kline::readable_before_close(ms)
        &&& optional_decimal_field(ms, "close"@) is Some
        &&& optional_text_field(ms, "end"@) is Some
    }

    /// The error of reading these members when the fields read before a decimal or
    /// enumeration field are readable and that field's text is not a decimal or names no
    /// variant: a decode error under that field's key, with the text as its cause.
    pub open spec fn reports(ms: Seq<MemberView>, e: BpxError) -> bool {
        &&& match numeral_text(ms, "open"@) {
            Some(t) => Kline::readable_before_open(ms) && decimal_of_text(t) is None ==> invalid_decimal_error(e, "open"@, t),
            _ => true,
        }
        &&& match numeral_text(ms, "high"@) {
            Some(t) => Kline::readable_before_high(ms) && decimal_of_text(t) is None ==> invalid_decimal_error(e, "high"@, t),
            _ => true,
        }
        &&& match numeral_text(ms, "low"@) {
            Some(t) => Kline::readable_before_low(ms) && decimal_of_text(t) is None ==> invalid_decimal_error(e, "low"@, t),
            _ => true,
        }
        &&& match numeral_text(ms, "close"@) {
            Some(t) => Kline::readable_before_close(ms) && decimal_of_text(t) is None ==> invalid_decimal_error(e, "close"@, t),
            _ => true,
        }
        &&& match numeral_text(ms, "volume"@) {
            Some(t) => Kline::readable_before_volume(ms) && decimal_of_text(t) is None ==> invalid_decimal_error(e, "volume"@, t),
            _ => true,
        }
    }

    /// The members that an error of reading this record can name: its keys and those of
    /// the records nested in it.
    pub open spec fn member_keys() -> Set<Seq<char>> {
        set!["start"@, "open"@, "high"@, "low"@, "close"@, "end"@, "volume"@, "trades"@]
    }

    /// Reads the record from the members of its JSON object.
    pub fn from_members(ms: &Vec<Member>) -> (r: Result<Kline, BpxError>)
        ensures
            r is Ok <==> Kline::readable(members_view(ms@)),
            r matches Ok(x) ==> x.read_from(members_view(ms@)),
            r matches Err(e) ==> e is Decode && Kline::member_keys().contains(e->Decode_member@),
            r matches Err(e) ==> Kline::reports(members_view(ms@), e),
    {
        let start = read_text(ms, "start")?;
        let open = read_optional_decimal(ms, "open")?;
        let high = read_optional_decimal(ms, "high")?;
        let low = read_optional_decimal(ms, "low")?;
        let close = read_optional_decimal(ms, "close")?;
        let end = read_optional_text(ms, "end")?;
        let volume = read_decimal(ms, "volume")?;
        let trades = read_u64(ms, "trades")?;
        Ok(Kline {
            start,
            open,
            high,
            low,
            close,
            end,
            volume,
            trades,
        })
    }

    /// Reads one record from each list of members, in order.
    pub fn from_member_lists(lists: &Vec<Vec<Member>>) -> (r: Result<Vec<Kline>, BpxError>)
        ensures
            r is Ok <==> forall|i: int| 0 <= i < lists@.len() ==> Kline::readable(members_view((#[trigger] lists@[i])@)),
            r matches Ok(v) ==> v@.len() == lists@.len() && forall|i: int| 0 <= i < lists@.len() ==> (#[trigger] v@[i]).read_from(members_view(lists@[i]@)),
            r matches Err(e) ==> e is Decode && Kline::member_keys().contains(e->Decode_member@),
            r matches Err(e) ==> exists|i: int| 0 <= i < lists@.len() && !Kline::readable(members_view(lists@[i]@)) && (forall|j: int| 0 <= j < i ==> Kline::readable(members_view(lists@[j]@))) && Kline::reports(members_view(lists@[i]@), e),
    {
        let mut out: Vec<Kline> = Vec::new();
        for i in 0..lists.len()
            invariant
                out@.len() == i,
                forall|j: int| 0 <= j < i ==> Kline::readable(members_view((#[trigger] lists@[j])@)) && out@[j].read_from(members_view(lists@[j]@)),
        {
            match Kline::from_members(&lists[i]) {
                Ok(x) => out.push(x),
                Err(e) => {
                    assert(!Kline::readable(members_view(lists@[i as int]@)));
                    assert(Kline::reports(members_view(lists@[i as int]@), e));
                    return Err(e);
                },
            }
        }
        Ok(out)
    }

    /// Reads a JSON array of records, in order.
    pub fn list_from_json(text: &str) -> (r: Result<Vec<Kline>, BpxError>)
        ensures
            match object_list(text@) {
                Some(ls) => (r is Ok <==> forall|i: int| 0 <= i < ls.len() ==> Kline::readable(#[trigger] ls[i])) && (r matches Ok(v) ==> v@.len() == ls.len() && forall|i: int| 0 <= i < ls.len() ==> (#[trigger] v@[i]).read_from(ls[i])) && (r matches Err(e) ==> exists|i: int| 0 <= i < ls.len() && !Kline::readable(ls[i]) && (forall|j: int| 0 <= j < i ==> Kline::readable(ls[j])) && Kline::reports(ls[i], e)),
                None => r is Err,
            },
            r matches Err(e) ==> e is Decode && (e->Decode_member@ == Seq::<char>::empty() || Kline::member_keys().contains(e->Decode_member@)),
    {
        let lists = object_list_members(text)?;
        let r = Kline::from_member_lists(&lists);
        proof {
            let ls = object_list(text@)->Some_0;
            assert(r is Ok <==> forall|i: int| 0 <= i < ls.len() ==> Kline::readable(#[trigger] ls[i])) by {
                assert forall|i: int| 0 <= i < ls.len() implies #[trigger] ls[i] == members_view(lists@[i]@) by {}
            }
            if r is Ok {
                let v = r->Ok_0;
                assert forall|i: int| 0 <= i < ls.len() implies (#[trigger] v@[i]).read_from(ls[i]) by {
                    assert(members_view(lists@[i]@) == ls[i]);
                }
            }
            if r is Err {
                let e = r->Err_0;
                let i = choose|i: int| 0 <= i < lists@.len() && !Kline::readable(members_view(lists@[i]@)) && (forall|j: int| 0 <= j < i ==> Kline::readable(members_view(lists@[j]@))) && Kline::reports(members_view(lists@[i]@), e);
                assert(members_view(lists@[i]@) == ls[i]);
                assert forall|j: int| 0 <= j < i implies Kline::readable(#[trigger] ls[j]) by {
                    assert(members_view(lists@[j]@) == ls[j]);
                }
            }
        }
        r
    }
}

/// The funding rate of one interval of a perpetual.
#[derive(Debug, Clone)]
pub struct FundingRate {
    pub symbol: String,
    pub interval_end_timestamp: String,
    pub funding_rate: Decimal,
}

impl FundingRate {
    /// The members hold each field under its key, of its kind.
    pub open spec fn readable(ms: Seq<MemberView>) -> bool {
        &&& text_field(ms, "symbol"@) is Some
        &&& text_field(ms, "intervalEndTimestamp"@) is Some
        &&& decimal_field(ms, "fundingRate"@) is Some
    }

    /// Each field is what the members hold under its key.
    pub open spec fn read_from(&self, ms: Seq<MemberView>) -> bool {
        &&& text_field(ms, "symbol"@) == Some(self.symbol@)
        &&& text_field(ms, "intervalEndTimestamp"@) == Some(self.interval_end_timestamp@)
        &&& decimal_field(ms, "fundingRate"@) == Some(value_pair(self.funding_rate@))
    }

    /// The members of the fields read before `fundingRate` are readable.
    pub open spec fn readable_before_funding_rate(ms: Seq<MemberView>) -> bool {
        &&& text_field(ms, "symbol"@) is Some
        &&& text_field(ms, "intervalEndTimestamp"@) is Some
    }

    /// The error of reading these members when the fields read before a decimal or
    /// enumeration field are readable and that field's text is not a decimal or names no
    /// variant: a decode error under that field's key, with the text as its cause.
    pub open spec fn reports(ms: Seq<MemberView>, e: BpxError) -> bool {
        &&& match numeral_text(ms, "fundingRate"@) {
            Some(t) => FundingRate::readable_before_funding_rate(ms) && decimal_of_text(t) is None ==> invalid_decimal_error(e, "fundingRate"@, t),
            _ => true,
        }
    }

    /// The members that an error of reading this record can name: its keys and those of
    /// the records nested in it.
    pub open spec fn member_keys() -> Set<Seq<char>> {
        set!["symbol"@, "intervalEndTimestamp"@, "fundingRate"@]
    }

    /// Reads the record from the members of its JSON object.
    pub fn from_members(ms: &Vec<Member>) -> (r: Result<FundingRate, BpxError>)
        ensures
            r is Ok <==> FundingRate::readable(members_view(ms@)),
            r matches Ok(x) ==> x.read_from(members_view(ms@)),
            r matches Err(e) ==> e is Decode && FundingRate::member_keys().contains(e->Decode_member@),
            r matches Err(e) ==> FundingRate::reports(members_view(ms@), e),
    {
        let symbol = read_text(ms, "symbol")?;
        let interval_end_timestamp = read_text(ms, "intervalEndTimestamp")?;
        let funding_rate = read_decimal(ms, "fundingRate")?;
        Ok(FundingRate {
            symbol,
            interval_end_timestamp,
            funding_rate,
        })
    }

    /// Reads one record from each list of members, in order.
    pub fn from_member_lists(lists: &Vec<Vec<Member>>) -> (r: Result<Vec<FundingRate>, BpxError>)
        ensures
            r is Ok <==> forall|i: int| 0 <= i < lists@.len() ==> FundingRate::readable(members_view((#[trigger] lists@[i])@)),
            r matches Ok(v) ==> v@.len() == lists@.len() && forall|i: int| 0 <= i < lists@.len() ==> (#[trigger] v@[i]).read_from(members_view(lists@[i]@)),
            r matches Err(e) ==> e is Decode && FundingRate::member_keys().contains(e->Decode_member@),
            r matches Err(e) ==> exists|i: int| 0 <= i < lists@.len() && !FundingRate::readable(members_view(lists@[i]@)) && (forall|j: int| 0 <= j < i ==> FundingRate::readable(members_view(lists@[j]@))) && FundingRate::reports(members_view(lists@[i]@), e),
    {
        let mut out: Vec<FundingRate> = Vec::new();
        for i in 0..lists.len()
            invariant
                out@.len() == i,
                forall|j: int| 0 <= j < i ==> FundingRate::readable(members_view((#[trigger] lists@[j])@)) && out@[j].read_from(members_view(lists@[j]@)),
        {
            match FundingRate::from_members(&lists[i]) {
                Ok(x) => out.push(x),
                Err(e) => {
                    assert(!FundingRate::readable(members_view(lists@[i as int]@)));
                    assert(FundingRate::reports(members_view(lists@[i as int]@), e));
                    return Err(e);
                },
            }
        }
        Ok(out)
    }

    /// Reads a JSON array of records, in order.
    pub fn list_from_json(text: &str) -> (r: Result<Vec<FundingRate>, BpxError>)
        ensures
            match object_list(text@) {
                Some(ls) => (r is Ok <==> forall|i: int| 0 <= i < ls.len() ==> FundingRate::readable(#[trigger] ls[i])) && (r matches Ok(v) ==> v@.len() == ls.len() && forall|i: int| 0 <= i < ls.len() ==> (#[trigger] v@[i]).read_from(ls[i])) && (r matches Err(e) ==> exists|i: int| 0 <= i < ls.len() && !FundingRate::readable(ls[i]) && (forall|j: int| 0 <= j < i ==> FundingRate::readable(ls[j])) && FundingRate::reports(ls[i], e)),
                None => r is Err,
            },
            r matches Err(e) ==> e is Decode && (e->Decode_member@ == Seq::<char>::empty() || FundingRate::member_keys().contains(e->Decode_member@)),
    {
        let lists = object_list_members(text)?;
        let r = FundingRate::from_member_lists(&lists);
        proof {
            let ls = object_list(text@)->Some_0;
            assert(r is Ok <==> forall|i: int| 0 <= i < ls.len() ==> FundingRate::readable(#[trigger] ls[i])) by {
                assert forall|i: int| 0 <= i < ls.len() implies #[trigger] ls[i] == members_view(lists@[i]@) by {}
            }
            if r is Ok {
                let v = r->Ok_0;
                assert forall|i: int| 0 <= i < ls.len() implies (#[trigger] v@[i]).read_from(ls[i]) by {
                    assert(members_view(lists@[i]@) == ls[i]);
                }
            }
            if r is Err {
                let e = r->Err_0;
                let i = choose|i: int| 0 <= i < lists@.len() && !FundingRate::readable(members_view(lists@[i]@)) && (forall|j: int| 0 <= j < i ==> FundingRate::readable(members_view(lists@[j]@))) && FundingRate::reports(members_view(lists@[i]@), e);
                assert(members_view(lists@[i]@) == ls[i]);
                assert forall|j: int| 0 <= j < i implies FundingRate::readable(#[trigger] ls[j]) by {
                    assert(members_view(lists@[j]@) == ls[j]);
                }
            }
        }
        r
    }
}

/// Mark price, index price and funding rate of a market.
#[derive(Debug, Clone)]
pub struct MarkPrice {
    pub symbol: String,
    pub funding_rate: Decimal,
    pub index_price: Decimal,
    pub mark_price: Decimal,
    pub next_funding_timestamp: u64,
}

impl MarkPrice {
    /// The members hold each field under its key, of its kind.
    pub open spec fn readable(ms: Seq<MemberView>) -> bool {
        &&& text_field(ms, "symbol"@) is Some
        &&& decimal_field(ms, "fundingRate"@) is Some
        &&& decimal_field(ms, "indexPrice"@) is Some
        &&& decimal_field(ms, "markPrice"@) is Some
        &&& (integer_field(ms, "nextFundingTimestamp"@) matches Some(v) && 0 <= v <= u64::MAX)
    }

    /// Each field is what the members hold under its key.
    pub open spec fn read_from(&self, ms: Seq<MemberView>) -> bool {
        &&& text_field(ms, "symbol"@) == Some(self.symbol@)
        &&& decimal_field(ms, "fundingRate"@) == Some(value_pair(self.funding_rate@))
        &&& decimal_field(ms, "indexPrice"@) == Some(value_pair(self.index_price@))
        &&& decimal_field(ms, "markPrice"@) == Some(value_pair(self.mark_price@))
        &&& integer_field(ms, "nextFundingTimestamp"@) == Some(self.next_funding_timestamp as int)
    }

    /// The members of the fields read before `fundingRate` are readable.
    pub open spec fn readable_before_funding_rate(ms: Seq<MemberView>) -> bool {
        &&& text_field(ms, "symbol"@) is Some
    }

    /// The members of the fields read before `indexPrice` are readable.
    pub open spec fn readable_before_index_price(ms: Seq<MemberView>) -> bool {
        &&& MarkPrice::readable_before_funding_rate(ms)
        &&& decimal_field(ms, "fundingRate"@) is Some
    }

    /// The members of the fields read before `markPrice` are readable.
    pub open spec fn readable_before_mark_price(ms: Seq<MemberView>) -> bool {
        &&& MarkPrice::readable_before_index_price(ms)
        &&& decimal_field(ms, "indexPrice"@) is Some
    }

    /// The error of reading these members when the fields read before a decimal or
    /// enumeration field are readable and that field's text is not a decimal or names no
    /// variant: a decode error under that field's key, with the text as its cause.
    pub open spec fn reports(ms: Seq<MemberView>, e: BpxError) -> bool {
        &&& match numeral_text(ms, "fundingRate"@) {
            Some(t) => MarkPrice::readable_before_funding_rate(ms) && decimal_of_text(t) is None ==> invalid_decimal_error(e, "fundingRate"@, t),
            _ => true,
        }
        &&& match numeral_text(ms, "indexPrice"@) {
            Some(t) => MarkPrice::readable_before_index_price(ms) && decimal_of_text(t) is None ==> invalid_decimal_error(e, "indexPrice"@, t),
            _ => true,
        }
        &&& match numeral_text(ms, "markPrice"@) {
            Some(t) => MarkPrice::readable_before_mark_price(ms) && decimal_of_text(t) is None ==> invalid_decimal_error(e, "markPrice"@, t),
            _ => true,
        }
    }

    /// The members that an error of reading this record can name: its keys and those of
    /// the records nested in it.
    pub open spec fn member_keys() -> Set<Seq<char>> {
        set!["symbol"@, "fundingRate"@, "indexPrice"@, "markPrice"@, "nextFundingTimestamp"@]
    }

    /// Reads the record from the members of its JSON object.
    pub fn from_members(ms: &Vec<Member>) -> (r: Result<MarkPrice, BpxError>)
        ensures
            r is Ok <==> MarkPrice::readable(members_view(ms@)),
            r matches Ok(x) ==> x.read_from(members_view(ms@)),
            r matches Err(e) ==> e is Decode && MarkPrice::member_keys().contains(e->Decode_member@),
            r matches Err(e) ==> MarkPrice::reports(members_view(ms@), e),
    {
        let symbol = read_text(ms, "symbol")?;
        let funding_rate = read_decimal(ms, "fundingRate")?;
        let index_price = read_decimal(ms, "indexPrice")?;
        let mark_price = read_decimal(ms, "markPrice")?;
        let next_funding_timestamp = read_u64(ms, "nextFundingTimestamp")?;
        Ok(MarkPrice {
            symbol,
            funding_rate,
            index_price,
            mark_price,
            next_funding_timestamp,
        })
    }

    /// Reads one record from each list of members, in order.
    pub fn from_member_lists(lists: &Vec<Vec<Member>>) -> (r: Result<Vec<MarkPrice>, BpxError>)
        ensures
            r is Ok <==> forall|i: int| 0 <= i < lists@.len() ==> MarkPrice::readable(members_view((#[trigger] lists@[i])@)),
            r matches Ok(v) ==> v@.len() == lists@.len() && forall|i: int| 0 <= i < lists@.len() ==> (#[trigger] v@[i]).read_from(members_view(lists@[i]@)),
            r matches Err(e) ==> e is Decode && MarkPrice::member_keys().contains(e->Decode_member@),
            r matches Err(e) ==> exists|i: int| 0 <= i < lists@.len() && !MarkPrice::readable(members_view(lists@[i]@)) && (forall|j: int| 0 <= j < i ==> MarkPrice::readable(members_view(lists@[j]@))) && MarkPrice::reports(members_view(lists@[i]@), e),
    {
        let mut out: Vec<MarkPrice> = Vec::new();
        for i in 0..lists.len()
            invariant
                out@.len() == i,
                forall|j: int| 0 <= j < i ==> MarkPrice::readable(members_view((#[trigger] lists@[j])@)) && out@[j].read_from(members_view(lists@[j]@)),
        {
            match MarkPrice::from_members(&lists[i]) {
                Ok(x) => out.push(x),
                Err(e) => {
                    assert(!MarkPrice::readable(members_view(lists@[i as int]@)));
                    assert(MarkPrice::reports(members_view(lists@[i as int]@), e));
                    return Err(e);
                },
            }
        }
        Ok(out)
    }

    /// Reads a JSON array of records, in order.
    pub fn list_from_json(text: &str) -> (r: Result<Vec<MarkPrice>, BpxError>)
        ensures
            match object_list(text@) {
                Some(ls) => (r is Ok <==> forall|i: int| 0 <= i < ls.len() ==> MarkPrice::readable(#[trigger] ls[i])) && (r matches Ok(v) ==> v@.len() == ls.len() && forall|i: int| 0 <= i < ls.len() ==> (#[trigger] v@[i]).read_from(ls[i])) && (r matches Err(e) ==> exists|i: int| 0 <= i < ls.len() && !MarkPrice::readable(ls[i]) && (forall|j: int| 0 <= j < i ==> MarkPrice::readable(ls[j])) && MarkPrice::reports(ls[i], e)),
                None => r is Err,
            },
            r matches Err(e) ==> e is Decode && (e->Decode_member@ == Seq::<char>::empty() || MarkPrice::member_keys().contains(e->Decode_member@)),
    {
        let lists = object_list_members(text)?;
        let r = MarkPrice::from_member_lists(&lists);
        proof {
            let ls = object_list(text@)->Some_0;
            assert(r is Ok <==> forall|i: int| 0 <= i < ls.len() ==> MarkPrice::readable(#[trigger] ls[i])) by {
                assert forall|i: int| 0 <= i < ls.len() implies #[trigger] ls[i] == members_view(lists@[i]@) by {}
            }
            if r is Ok {
                let v = r->Ok_0;
                assert forall|i: int| 0 <= i < ls.len() implies (#[trigger] v@[i]).read_from(ls[i]) by {
                    assert(members_view(lists@[i]@) == ls[i]);
                }
            }
            if r is Err {
                let e = r->Err_0;
                let i = choose|i: int| 0 <= i < lists@.len() && !MarkPrice::readable(members_view(lists@[i]@)) && (forall|j: int| 0 <= j < i ==> MarkPrice::readable(members_view(lists@[j]@))) && MarkPrice::reports(members_view(lists@[i]@), e);
                assert(members_view(lists@[i]@) == ls[i]);
                assert forall|j: int| 0 <= j < i implies MarkPrice::readable(#[trigger] ls[j]) by {
                    assert(members_view(lists@[j]@) == ls[j]);
                }
            }
        }
        r
    }
}

/// One representation of an asset on a blockchain (named by its wire text).
#[derive(Debug, Clone)]
pub struct Token {
    pub blockchain: String,
    pub deposit_enabled: bool,
    pub minimum_deposit: Decimal,
    pub withdraw_enabled: bool,
    pub minimum_withdrawal: Decimal,
    pub maximum_withdrawal: Option<Decimal>,
    pub withdrawal_fee: Decimal,
}

impl Token {
    /// The members hold each field under its key, of its kind.
    pub open spec fn readable(ms: Seq<MemberView>) -> bool {
        &&& text_field(ms, "blockchain"@) is Some
        &&& bool_field(ms, "depositEnabled"@) is Some
        &&& decimal_field(ms, "minimumDeposit"@) is Some
        &&& bool_field(ms, "withdrawEnabled"@) is Some
        &&& decimal_field(ms, "minimumWithdrawal"@) is Some
        &&& optional_decimal_field(ms, "maximumWithdrawal"@) is Some
        &&& decimal_field(ms, "withdrawalFee"@) is Some
    }

    /// Each field is what the members hold under its key.
    pub open spec fn read_from(&self, ms: Seq<MemberView>) -> bool {
        &&& text_field(ms, "blockchain"@) == Some(self.blockchain@)
        &&& bool_field(ms, "depositEnabled"@) == Some(self.deposit_enabled)
        &&& decimal_field(ms, "minimumDeposit"@) == Some(value_pair(self.minimum_deposit@))
        &&& bool_field(ms, "withdrawEnabled"@) == Some(self.withdraw_enabled)
        &&& decimal_field(ms, "minimumWithdrawal"@) == Some(value_pair(self.minimum_withdrawal@))
        &&& optional_decimal_field(ms, "maximumWithdrawal"@) == Some(match self.maximum_withdrawal { Some(d) => Some(value_pair(d@)), None => None })
        &&& decimal_field(ms, "withdrawalFee"@) == Some(value_pair(self.withdrawal_fee@))
    }

    /// The members of the fields read before `minimumDeposit` are readable.
    pub open spec fn readable_before_minimum_deposit(ms: Seq<MemberView>) -> bool {
        &&& text_field(ms, "blockchain"@) is Some
        &&& bool_field(ms, "depositEnabled"@) is Some
    }

    /// The members of the fields read before `minimumWithdrawal` are readable.
    pub open spec fn readable_before_minimum_withdrawal(ms: Seq<MemberView>) -> bool {
        &&& Token::readable_before_minimum_deposit(ms)
        &&& decimal_field(ms, "minimumDeposit"@) is Some
        &&& bool_field(ms, "withdrawEnabled"@) is Some
    }

    /// The members of the fields read before `maximumWithdrawal` are readable.
    pub open spec fn readable_before_maximum_withdrawal(ms: Seq<MemberView>) -> bool {
        &&& Token::readable_before_minimum_withdrawal(ms)
        &&& decimal_field(ms, "minimumWithdrawal"@) is Some
    }

    /// The members of the fields read before `withdrawalFee` are readable.
    pub open spec fn readable_before_withdrawal_fee(ms: Seq<MemberView>) -> bool {
        &&& Token::readable_before_maximum_withdrawal(ms)
        &&& optional_decimal_field(ms, "maximumWithdrawal"@) is Some
    }

    /// The error of reading these members when the fields read before a decimal or
    /// enumeration field are readable and that field's text is not a decimal or names no
    /// variant: a decode error under that field's key, with the text as its cause.
    pub open spec fn reports(ms: Seq<MemberView>, e: BpxError) -> bool {
        &&& match numeral_text(ms, "minimumDeposit"@) {
            Some(t) => Token::readable_before_minimum_deposit(ms) && decimal_of_text(t) is None ==> invalid_decimal_error(e, "minimumDeposit"@, t),
            _ => true,
        }
        &&& match numeral_text(ms, "minimumWithdrawal"@) {
            Some(t) => Token::readable_before_minimum_withdrawal(ms) && decimal_of_text(t) is None ==> invalid_decimal_error(e, "minimumWithdrawal"@, t),
            _ => true,
        }
        &&& match numeral_text(ms, "maximumWithdrawal"@) {
            Some(t) => Token::readable_before_maximum_withdrawal(ms) && decimal_of_text(t) is None ==> invalid_decimal_error(e, "maximumWithdrawal"@, t),
            _ => true,
        }
        &&& match numeral_text(ms, "withdrawalFee"@) {
            Some(t) => Token::readable_before_withdrawal_fee(ms) && decimal_of_text(t) is None ==> invalid_decimal_error(e, "withdrawalFee"@, t),
            _ => true,
        }
    }

    /// The members that an error of reading this record can name: its keys and those of
    /// the records nested in it.
    pub open spec fn member_keys() -> Set<Seq<char>> {
        set!["blockchain"@, "depositEnabled"@, "minimumDeposit"@, "withdrawEnabled"@, "minimumWithdrawal"@, "maximumWithdrawal"@, "withdrawalFee"@]
    }

    /// Reads the record from the members of its JSON object.
    pub fn from_members(ms: &Vec<Member>) -> (r: Result<Token, BpxError>)
        ensures
            r is Ok <==> Token::readable(members_view(ms@)),
            r matches Ok(x) ==> x.read_from(members_view(ms@)),
            r matches Err(e) ==> e is Decode && Token::member_keys().contains(e->Decode_member@),
            r matches Err(e) ==> Token::reports(members_view(ms@), e),
    {
        let blockchain = read_text(ms, "blockchain")?;
        let deposit_enabled = read_bool(ms, "depositEnabled")?;
        let minimum_deposit = read_decimal(ms, "minimumDeposit")?;
        let withdraw_enabled = read_bool(ms, "withdrawEnabled")?;
        let minimum_withdrawal = read_decimal(ms, "minimumWithdrawal")?;
        let maximum_withdrawal = read_optional_decimal(ms, "maximumWithdrawal")?;
        let withdrawal_fee = read_decimal(ms, "withdrawalFee")?;
        Ok(Token {
            blockchain,
            deposit_enabled,
            minimum_deposit,
            withdraw_enabled,
            minimum_withdrawal,
            maximum_withdrawal,
            withdrawal_fee,
        })
    }

    /// Reads one record from each list of members, in order.
    pub fn from_member_lists(lists: &Vec<Vec<Member>>) -> (r: Result<Vec<Token>, BpxError>)
        ensures
            r is Ok <==> forall|i: int| 0 <= i < lists@.len() ==> Token::readable(members_view((#[trigger] lists@[i])@)),
            r matches Ok(v) ==> v@.len() == lists@.len() && forall|i: int| 0 <= i < lists@.len() ==> (#[trigger] v@[i]).read_from(members_view(lists@[i]@)),
            r matches Err(e) ==> e is Decode && Token::member_keys().contains(e->Decode_member@),
            r matches Err(e) ==> exists|i: int| 0 <= i < lists@.len() && !Token::readable(members_view(lists@[i]@)) && (forall|j: int| 0 <= j < i ==> Token::readable(members_view(lists@[j]@))) && Token::reports(members_view(lists@[i]@), e),
    {
        let mut out: Vec<Token> = Vec::new();
        for i in 0..lists.len()
            invariant
                out@.len() == i,
                forall|j: int| 0 <= j < i ==> Token::readable(members_view((#[trigger] lists@[j])@)) && out@[j].read_from(members_view(lists@[j]@)),
        {
            match Token::from_members(&lists[i]) {
                Ok(x) => out.push(x),
                Err(e) => {
                    assert(!Token::readable(members_view(lists@[i as int]@)));
                    assert(Token::reports(members_view(lists@[i as int]@), e));
                    return Err(e);
                },
            }
        }
        Ok(out)
    }
}

/// An asset, such as a coin, with its representations on different blockchains.
#[derive(Debug, Clone)]
pub struct Asset {
    pub symbol: String,
    pub tokens: Vec<Token>,
}

impl Asset {
    /// The members hold each field under its key, of its kind.
    pub open spec fn readable(ms: Seq<MemberView>) -> bool {
        &&& text_field(ms, "symbol"@) is Some
        &&& (object_list_field(ms, "tokens"@) matches Some(ls) && forall|i: int| 0 <= i < ls.len() ==> Token::readable(#[trigger] ls[i]))
    }

    /// Each field is what the members hold under its key.
    pub open spec fn read_from(&self, ms: Seq<MemberView>) -> bool {
        &&& text_field(ms, "symbol"@) == Some(self.symbol@)
        &&& (object_list_field(ms, "tokens"@) matches Some(ls) && self.tokens@.len() == ls.len() && forall|i: int| 0 <= i < ls.len() ==> self.tokens@[i].read_from(#[trigger] ls[i]))
    }

    /// The error of reading these members when the fields read before a decimal or
    /// enumeration field are readable and that field's text is not a decimal or names no
    /// variant: a decode error under that field's key, with the text as its cause.
    pub open spec fn reports(ms: Seq<MemberView>, e: BpxError) -> bool {
        true
    }

    /// The members that an error of reading this record can name: its keys and those of
    /// the records nested in it.
    pub open spec fn member_keys() -> Set<Seq<char>> {
        set!["symbol"@, "tokens"@].union(Token::member_keys())
    }

    /// Reads the record from the members of its JSON object.
    pub fn from_members(ms: &Vec<Member>) -> (r: Result<Asset, BpxError>)
        ensures
            r is Ok <==> Asset::readable(members_view(ms@)),
            r matches Ok(x) ==> x.read_from(members_view(ms@)),
            r matches Err(e) ==> e is Decode && Asset::member_keys().contains(e->Decode_member@),
            r matches Err(e) ==> Asset::reports(members_view(ms@), e),
    {
        let symbol = read_text(ms, "symbol")?;
        let tokens_lists = read_object_list(ms, "tokens")?;
        let tokens_read = Token::from_member_lists(&tokens_lists);
        proof {
            let ls = object_list_field(members_view(ms@), "tokens"@)->Some_0;
            assert forall|i: int| 0 <= i < ls.len() implies #[trigger] ls[i] == members_view(tokens_lists@[i]@) by {}
        }
        let tokens = tokens_read?;
        Ok(Asset {
            symbol,
            tokens,
        })
    }

    /// Reads one record from each list of members, in order.
    pub fn from_member_lists(lists: &Vec<Vec<Member>>) -> (r: Result<Vec<Asset>, BpxError>)
        ensures
            r is Ok <==> forall|i: int| 0 <= i < lists@.len() ==> Asset::readable(members_view((#[trigger] lists@[i])@)),
            r matches Ok(v) ==> v@.len() == lists@.len() && forall|i: int| 0 <= i < lists@.len() ==> (#[trigger] v@[i]).read_from(members_view(lists@[i]@)),
            r matches Err(e) ==> e is Decode && Asset::member_keys().contains(e->Decode_member@),
            r matches Err(e) ==> exists|i: int| 0 <= i < lists@.len() && !Asset::readable(members_view(lists@[i]@)) && (forall|j: int| 0 <= j < i ==> Asset::readable(members_view(lists@[j]@))) && Asset::reports(members_view(lists@[i]@), e),
    {
        let mut out: Vec<Asset> = Vec::new();
        for i in 0..lists.len()
            invariant
                out@.len() == i,
                forall|j: int| 0 <= j < i ==> Asset::readable(members_view((#[trigger] lists@[j])@)) && out@[j].read_from(members_view(lists@[j]@)),
        {
            match Asset::from_members(&lists[i]) {
                Ok(x) => out.push(x),
                Err(e) => {
                    assert(!Asset::readable(members_view(lists@[i as int]@)));
                    assert(Asset::reports(members_view(lists@[i as int]@), e));
                    return Err(e);
                },
            }
        }
        Ok(out)
    }

    /// Reads a JSON array of records, in order.
    pub fn list_from_json(text: &str) -> (r: Result<Vec<Asset>, BpxError>)
        ensures
            match object_list(text@) {
                Some(ls) => (r is Ok <==> forall|i: int| 0 <= i < ls.len() ==> Asset::readable(#[trigger] ls[i])) && (r matches Ok(v) ==> v@.len() == ls.len() && forall|i: int| 0 <= i < ls.len() ==> (#[trigger] v@[i]).read_from(ls[i])) && (r matches Err(e) ==> exists|i: int| 0 <= i < ls.len() && !Asset::readable(ls[i]) && (forall|j: int| 0 <= j < i ==> Asset::readable(ls[j])) && Asset::reports(ls[i], e)),
                None => r is Err,
            },
            r matches Err(e) ==> e is Decode && (e->Decode_member@ == Seq::<char>::empty() || Asset::member_keys().contains(e->Decode_member@)),
    {
        let lists = object_list_members(text)?;
        let r = Asset::from_member_lists(&lists);
        proof {
            let ls = object_list(text@)->Some_0;
            assert(r is Ok <==> forall|i: int| 0 <= i < ls.len() ==> Asset::readable(#[trigger] ls[i])) by {
                assert forall|i: int| 0 <= i < ls.len() implies #[trigger] ls[i] == members_view(lists@[i]@) by {}
            }
            if r is Ok {
                let v = r->Ok_0;
                assert forall|i: int| 0 <= i < ls.len() implies (#[trigger] v@[i]).read_from(ls[i]) by {
                    assert(members_view(lists@[i]@) == ls[i]);
                }
            }
            if r is Err {
                let e = r->Err_0;
                let i = choose|i: int| 0 <= i < lists@.len() && !Asset::readable(members_view(lists@[i]@)) && (forall|j: int| 0 <= j < i ==> Asset::readable(members_view(lists@[j]@))) && Asset::reports(members_view(lists@[i]@), e);
                assert(members_view(lists@[i]@) == ls[i]);
                assert forall|j: int| 0 <= j < i implies Asset::readable(#[trigger] ls[j]) by {
                    assert(members_view(lists@[j]@) == ls[j]);
                }
            }
        }
        r
    }
}

impl PriceBandMarkPrice {
    /// The members hold each field under its key, of its kind.
    pub open spec fn readable(ms: Seq<MemberView>) -> bool {
        &&& decimal_field(ms, "maxMultiplier"@) is Some
        &&& decimal_field(ms, "minMultiplier"@) is Some
    }

    /// Each field is what the members hold under its key.
    pub open spec fn read_from(&self, ms: Seq<MemberView>) -> bool {
        &&& decimal_field(ms, "maxMultiplier"@) == Some(value_pair(self.max_multiplier@))
        &&& decimal_field(ms, "minMultiplier"@) == Some(value_pair(self.min_multiplier@))
    }

    /// The members of the fields read before `maxMultiplier` are readable.
    pub open spec fn readable_before_max_multiplier(ms: Seq<MemberView>) -> bool {
        true
    }

    /// The members of the fields read before `minMultiplier` are readable.
    pub open spec fn readable_before_min_multiplier(ms: Seq<MemberView>) -> bool {
        &&& PriceBandMarkPrice::readable_before_max_multiplier(ms)
        &&& decimal_field(ms, "maxMultiplier"@) is Some
    }

    /// The error of reading these members when the fields read before a decimal or
    /// enumeration field are readable and that field's text is not a decimal or names no
    /// variant: a decode error under that field's key, with the text as its cause.
    pub open spec fn reports(ms: Seq<MemberView>, e: BpxError) -> bool {
        &&& match numeral_text(ms, "maxMultiplier"@) {
            Some(t) => PriceBandMarkPrice::readable_before_max_multiplier(ms) && decimal_of_text(t) is None ==> invalid_decimal_error(e, "maxMultiplier"@, t),
            _ => true,
        }
        &&& match numeral_text(ms, "minMultiplier"@) {
            Some(t) => PriceBandMarkPrice::readable_before_min_multiplier(ms) && decimal_of_text(t) is None ==> invalid_decimal_error(e, "minMultiplier"@, t),
            _ => true,
        }
    }

    /// The members that an error of reading this record can name: its keys and those of
    /// the records nested in it.
    pub open spec fn member_keys() -> Set<Seq<char>> {
        set!["maxMultiplier"@, "minMultiplier"@]
    }

    /// Reads the record from the members of its JSON object.
    pub fn from_members(ms: &Vec<Member>) -> (r: Result<PriceBandMarkPrice, BpxError>)
        ensures
            r is Ok <==> PriceBandMarkPrice::readable(members_view(ms@)),
            r matches Ok(x) ==> x.read_from(members_view(ms@)),
            r matches Err(e) ==> e is Decode && PriceBandMarkPrice::member_keys().contains(e->Decode_member@),
            r matches Err(e) ==> PriceBandMarkPrice::reports(members_view(ms@), e),
    {
        let max_multiplier = read_decimal(ms, "maxMultiplier")?;
        let min_multiplier = read_decimal(ms, "minMultiplier")?;
        Ok(PriceBandMarkPrice {
            max_multiplier,
            min_multiplier,
        })
    }
}

impl PriceBandMeanPremium {
    /// The members hold each field under its key, of its kind.
    pub open spec fn readable(ms: Seq<MemberView>) -> bool {
        &&& decimal_field(ms, "tolerancePct"@) is Some
    }

    /// Each field is what the members hold under its key.
    pub open spec fn read_from(&self, ms: Seq<MemberView>) -> bool {
        &&& decimal_field(ms, "tolerancePct"@) == Some(value_pair(self.tolerance_pct@))
    }

    /// The members of the fields read before `tolerancePct` are readable.
    pub open spec fn readable_before_tolerance_pct(ms: Seq<MemberView>) -> bool {
        true
    }

    /// The error of reading these members when the fields read before a decimal or
    /// enumeration field are readable and that field's text is not a decimal or names no
    /// variant: a decode error under that field's key, with the text as its cause.
    pub open spec fn reports(ms: Seq<MemberView>, e: BpxError) -> bool {
        &&& match numeral_text(ms, "tolerancePct"@) {
            Some(t) => PriceBandMeanPremium::readable_before_tolerance_pct(ms) && decimal_of_text(t) is None ==> invalid_decimal_error(e, "tolerancePct"@, t),
            _ => true,
        }
    }

    /// The members that an error of reading this record can name: its keys and those of
    /// the records nested in it.
    pub open spec fn member_keys() -> Set<Seq<char>> {
        set!["tolerancePct"@]
    }

    /// Reads the record from the members of its JSON object.
    pub fn from_members(ms: &Vec<Member>) -> (r: Result<PriceBandMeanPremium, BpxError>)
        ensures
            r is Ok <==> PriceBandMeanPremium::readable(members_view(ms@)),
            r matches Ok(x) ==> x.read_from(members_view(ms@)),
            r matches Err(e) ==> e is Decode && PriceBandMeanPremium::member_keys().contains(e->Decode_member@),
            r matches Err(e) ==> PriceBandMeanPremium::reports(members_view(ms@), e),
    {
        let tolerance_pct = read_decimal(ms, "tolerancePct")?;
        Ok(PriceBandMeanPremium {
            tolerance_pct,
        })
    }
}

impl PriceFilters {
    /// The members hold each field under its key, of its kind.
    pub open spec fn readable(ms: Seq<MemberView>) -> bool {
        &&& decimal_field(ms, "minPrice"@) is Some
        &&& optional_decimal_field(ms, "maxPrice"@) is Some
        &&& decimal_field(ms, "tickSize"@) is Some
        &&& optional_decimal_field(ms, "maxMultiplier"@) is Some
        &&& optional_decimal_field(ms, "minMultiplier"@) is Some
        &&& optional_decimal_field(ms, "maxImpactMultiplier"@) is Some
        &&& optional_decimal_field(ms, "minImpactMultiplier"@) is Some
        &&& (optional_object_field(ms, "meanMarkPriceBand"@) matches Some(o) && (o matches Some(m) ==> PriceBandMarkPrice::readable(m)))
        &&& (optional_object_field(ms, "meanPremiumBand"@) matches Some(o) && (o matches Some(m) ==> PriceBandMeanPremium::readable(m)))
        &&& optional_decimal_field(ms, "borrowEntryFeeMaxMultiplier"@) is Some
        &&& optional_decimal_field(ms, "borrowEntryFeeMinMultiplier"@) is Some
    }

    /// Each field is what the members hold under its key.
    pub open spec fn read_from(&self, ms: Seq<MemberView>) -> bool {
        &&& decimal_field(ms, "minPrice"@) == Some(value_pair(self.min_price@))
        &&& optional_decimal_field(ms, "maxPrice"@) == Some(match self.max_price { Some(d) => Some(value_pair(d@)), None => None })
        &&& decimal_field(ms, "tickSize"@) == Some(value_pair(self.tick_size@))
        &&& optional_decimal_field(ms, "maxMultiplier"@) == Some(match self.max_multiplier { Some(d) => Some(value_pair(d@)), None => None })
        &&& optional_decimal_field(ms, "minMultiplier"@) == Some(match self.min_multiplier { Some(d) => Some(value_pair(d@)), None => None })
        &&& optional_decimal_field(ms, "maxImpactMultiplier"@) == Some(match self.max_impact_multiplier { Some(d) => Some(value_pair(d@)), None => None })
        &&& optional_decimal_field(ms, "minImpactMultiplier"@) == Some(match self.min_impact_multiplier { Some(d) => Some(value_pair(d@)), None => None })
        &&& (optional_object_field(ms, "meanMarkPriceBand"@) matches Some(o) && match o { Some(m) => (self.mean_mark_price_band matches Some(x) && x.read_from(m)), None => self.mean_mark_price_band is None })
        &&& (optional_object_field(ms, "meanPremiumBand"@) matches Some(o) && match o { Some(m) => (self.mean_premium_band matches Some(x) && x.read_from(m)), None => self.mean_premium_band is None })
        &&& optional_decimal_field(ms, "borrowEntryFeeMaxMultiplier"@) == Some(match self.borrow_entry_fee_max_multiplier { Some(d) => Some(value_pair(d@)), None => None })
        &&& optional_decimal_field(ms, "borrowEntryFeeMinMultiplier"@) == Some(match self.borrow_entry_fee_min_multiplier { Some(d) => Some(value_pair(d@)), None => None })
    }

    /// The members of the fields read before `minPrice` are readable.
    pub open spec fn readable_before_min_price(ms: Seq<MemberView>) -> bool {
        true
    }

    /// The members of the fields read before `maxPrice` are readable.
    pub open spec fn readable_before_max_price(ms: Seq<MemberView>) -> bool {
        &&& PriceFilters::readable_before_min_price(ms)
        &&& decimal_field(ms, "minPrice"@) is Some
    }

    /// The members of the fields read before `tickSize` are readable.
    pub open spec fn readable_before_tick_size(ms: Seq<MemberView>) -> bool {
        &&& PriceFilters::readable_before_max_price(ms)
        &&& optional_decimal_field(ms, "maxPrice"@) is Some
    }

    /// The members of the fields read before `maxMultiplier` are readable.
    pub open spec fn readable_before_max_multiplier(ms: Seq<MemberView>) -> bool {
        &&& PriceFilters::readable_before_tick_size(ms)
        &&& decimal_field(ms, "tickSize"@) is Some
    }

    /// The members of the fields read before `minMultiplier` are readable.
    pub open spec fn readable_before_min_multiplier(ms: Seq<MemberView>) -> bool {
        &&& PriceFilters::readable_before_max_multiplier(ms)
        &&& optional_decimal_field(ms, "maxMultiplier"@) is Some
    }

    /// The members of the fields read before `maxImpactMultiplier` are readable.
    pub open spec fn readable_before_max_impact_multiplier(ms: Seq<MemberView>) -> bool {
        &&& PriceFilters::readable_before_min_multiplier(ms)
        &&& optional_decimal_field(ms, "minMultiplier"@) is Some
    }

    /// The members of the fields read before `minImpactMultiplier` are readable.
    pub open spec fn readable_before_min_impact_multiplier(ms: Seq<MemberView>) -> bool {
        &&& PriceFilters::readable_before_max_impact_multiplier(ms)
        &&& optional_decimal_field(ms, "maxImpactMultiplier"@) is Some
    }

    /// The members of the fields read before `borrowEntryFeeMaxMultiplier` are readable.
    pub open spec fn readable_before_borrow_entry_fee_max_multiplier(ms: Seq<MemberView>) -> bool {
        &&& PriceFilters::readable_before_min_impact_multiplier(ms)
        &&& optional_decimal_field(ms, "minImpactMultiplier"@) is Some
        &&& (optional_object_field(ms, "meanMarkPriceBand"@) matches Some(o) && (o matches Some(m) ==> PriceBandMarkPrice::readable(m)))
        &&& (optional_object_field(ms, "meanPremiumBand"@) matches Some(o) && (o matches Some(m) ==> PriceBandMeanPremium::readable(m)))
    }

    /// The members of the fields read before `borrowEntryFeeMinMultiplier` are readable.
    pub open spec fn readable_before_borrow_entry_fee_min_multiplier(ms: Seq<MemberView>) -> bool {
        &&& PriceFilters::readable_before_borrow_entry_fee_max_multiplier(ms)
        &&& optional_decimal_field(ms, "borrowEntryFeeMaxMultiplier"@) is Some
    }

    /// The error of reading these members when the fields read before a decimal or
    /// enumeration field are readable and that field's text is not a decimal or names no
    /// variant: a decode error under that field's key, with the text as its cause.
    pub open spec fn reports(ms: Seq<MemberView>, e: BpxError) -> bool {
        &&& match numeral_text(ms, "minPrice"@) {
            Some(t) => PriceFilters::readable_before_min_price(ms) && decimal_of_text(t) is None ==> invalid_decimal_error(e, "minPrice"@, t),
            _ => true,
        }
        &&& match numeral_text(ms, "maxPrice"@) {
            Some(t) => PriceFilters::readable_before_max_price(ms) && decimal_of_text(t) is None ==> invalid_decimal_error(e, "maxPrice"@, t),
            _ => true,
        }
        &&& match numeral_text(ms, "tickSize"@) {
            Some(t) => PriceFilters::readable_before_tick_size(ms) && decimal_of_text(t) is None ==> invalid_decimal_error(e, "tickSize"@, t),
            _ => true,
        }
        &&& match numeral_text(ms, "maxMultiplier"@) {
            Some(t) => PriceFilters::readable_before_max_multiplier(ms) && decimal_of_text(t) is None ==> invalid_decimal_error(e, "maxMultiplier"@, t),
            _ => true,
        }
        &&& match numeral_text(ms, "minMultiplier"@) {
            Some(t) => PriceFilters::readable_before_min_multiplier(ms) && decimal_of_text(t) is None ==> invalid_decimal_error(e, "minMultiplier"@, t),
            _ => true,
        }
        &&& match numeral_text(ms, "maxImpactMultiplier"@) {
            Some(t) => PriceFilters::readable_before_max_impact_multiplier(ms) && decimal_of_text(t) is None ==> invalid_decimal_error(e, "maxImpactMultiplier"@, t),
            _ => true,
        }
        &&& match numeral_text(ms, "minImpactMultiplier"@) {
            Some(t) => PriceFilters::readable_before_min_impact_multiplier(ms) && decimal_of_text(t) is None ==> invalid_decimal_error(e, "minImpactMultiplier"@, t),
            _ => true,
        }
        &&& match numeral_text(ms, "borrowEntryFeeMaxMultiplier"@) {
            Some(t) => PriceFilters::readable_before_borrow_entry_fee_max_multiplier(ms) && decimal_of_text(t) is None ==> invalid_decimal_error(e, "borrowEntryFeeMaxMultiplier"@, t),
            _ => true,
        }
        &&& match numeral_text(ms, "borrowEntryFeeMinMultiplier"@) {
            Some(t) => PriceFilters::readable_before_borrow_entry_fee_min_multiplier(ms) && decimal_of_text(t) is None ==> invalid_decimal_error(e, "borrowEntryFeeMinMultiplier"@, t),
            _ => true,
        }
    }

    /// The members that an error of reading this record can name: its keys and those of
    /// the records nested in it.
    pub open spec fn member_keys() -> Set<Seq<char>> {
        set!["minPrice"@, "maxPrice"@, "tickSize"@, "maxMultiplier"@, "minMultiplier"@, "maxImpactMultiplier"@, "minImpactMultiplier"@, "meanMarkPriceBand"@, "meanPremiumBand"@, "borrowEntryFeeMaxMultiplier"@, "borrowEntryFeeMinMultiplier"@].union(PriceBandMarkPrice::member_keys()).union(PriceBandMeanPremium::member_keys())
    }

    /// Reads the record from the members of its JSON object.
    pub fn from_members(ms: &Vec<Member>) -> (r: Result<PriceFilters, BpxError>)
        ensures
            r is Ok <==> PriceFilters::readable(members_view(ms@)),
            r matches Ok(x) ==> x.read_from(members_view(ms@)),
            r matches Err(e) ==> e is Decode && PriceFilters::member_keys().contains(e->Decode_member@),
            r matches Err(e) ==> PriceFilters::reports(members_view(ms@), e),
    {
        let min_price = read_decimal(ms, "minPrice")?;
        let max_price = read_optional_decimal(ms, "maxPrice")?;
        let tick_size = read_decimal(ms, "tickSize")?;
        let max_multiplier = read_optional_decimal(ms, "maxMultiplier")?;
        let min_multiplier = read_optional_decimal(ms, "minMultiplier")?;
        let max_impact_multiplier = read_optional_decimal(ms, "maxImpactMultiplier")?;
        let min_impact_multiplier = read_optional_decimal(ms, "minImpactMultiplier")?;
        let mean_mark_price_band = match read_optional_object(ms, "meanMarkPriceBand")? {
            Some(m) => Some(PriceBandMarkPrice::from_members(&m)?),
            None => None,
        };
        let mean_premium_band = match read_optional_object(ms, "meanPremiumBand")? {
            Some(m) => Some(PriceBandMeanPremium::from_members(&m)?),
            None => None,
        };
        let borrow_entry_fee_max_multiplier = read_optional_decimal(ms, "borrowEntryFeeMaxMultiplier")?;
        let borrow_entry_fee_min_multiplier = read_optional_decimal(ms, "borrowEntryFeeMinMultiplier")?;
        Ok(PriceFilters {
            min_price,
            max_price,
            tick_size,
            max_multiplier,
            min_multiplier,
            max_impact_multiplier,
            min_impact_multiplier,
            mean_mark_price_band,
            mean_premium_band,
            borrow_entry_fee_max_multiplier,
            borrow_entry_fee_min_multiplier,
        })
    }
}

impl QuantityFilters {
    /// The members hold each field under its key, of its kind.
    pub open spec fn readable(ms: Seq<MemberView>) -> bool {
        &&& decimal_field(ms, "minQuantity"@) is Some
        &&& optional_decimal_field(ms, "maxQuantity"@) is Some
        &&& decimal_field(ms, "stepSize"@) is Some
    }

    /// Each field is what the members hold under its key.
    pub open spec fn read_from(&self, ms: Seq<MemberView>) -> bool {
        &&& decimal_field(ms, "minQuantity"@) == Some(value_pair(self.min_quantity@))
        &&& optional_decimal_field(ms, "maxQuantity"@) == Some(match self.max_quantity { Some(d) => Some(value_pair(d@)), None => None })
        &&& decimal_field(ms, "stepSize"@) == Some(value_pair(self.step_size@))
    }

    /// The members of the fields read before `minQuantity` are readable.
    pub open spec fn readable_before_min_quantity(ms: Seq<MemberView>) -> bool {
        true
    }

    /// The members of the fields read before `maxQuantity` are readable.
    pub open spec fn readable_before_max_quantity(ms: Seq<MemberView>) -> bool {
        &&& QuantityFilters::readable_before_min_quantity(ms)
        &&& decimal_field(ms, "minQuantity"@) is Some
    }

    /// The members of the fields read before `stepSize` are readable.
    pub open spec fn readable_before_step_size(ms: Seq<MemberView>) -> bool {
        &&& QuantityFilters::readable_before_max_quantity(ms)
        &&& optional_decimal_field(ms, "maxQuantity"@) is Some
    }

    /// The error of reading these members when the fields read before a decimal or
    /// enumeration field are readable and that field's text is not a decimal or names no
    /// variant: a decode error under that field's key, with the text as its cause.
    pub open spec fn reports(ms: Seq<MemberView>, e: BpxError) -> bool {
        &&& match numeral_text(ms, "minQuantity"@) {
            Some(t) => QuantityFilters::readable_before_min_quantity(ms) && decimal_of_text(t) is None ==> invalid_decimal_error(e, "minQuantity"@, t),
            _ => true,
        }
        &&& match numeral_text(ms, "maxQuantity"@) {
            Some(t) => QuantityFilters::readable_before_max_quantity(ms) && decimal_of_text(t) is None ==> invalid_decimal_error(e, "maxQuantity"@, t),
            _ => true,
        }
        &&& match numeral_text(ms, "stepSize"@) {
            Some(t) => QuantityFilters::readable_before_step_size(ms) && decimal_of_text(t) is None ==> invalid_decimal_error(e, "stepSize"@, t),
            _ => true,
        }
    }

    /// The members that an error of reading this record can name: its keys and those of
    /// the records nested in it.
    pub open spec fn member_keys() -> Set<Seq<char>> {
        set!["minQuantity"@, "maxQuantity"@, "stepSize"@]
    }

    /// Reads the record from the members of its JSON object.
    pub fn from_members(ms: &Vec<Member>) -> (r: Result<QuantityFilters, BpxError>)
        ensures
            r is Ok <==> QuantityFilters::readable(members_view(ms@)),
            r matches Ok(x) ==> x.read_from(members_view(ms@)),
            r matches Err(e) ==> e is Decode && QuantityFilters::member_keys().contains(e->Decode_member@),
            r matches Err(e) ==> QuantityFilters::reports(members_view(ms@), e),
    {
        let min_quantity = read_decimal(ms, "minQuantity")?;
        let max_quantity = read_optional_decimal(ms, "maxQuantity")?;
        let step_size = read_decimal(ms, "stepSize")?;
        Ok(QuantityFilters {
            min_quantity,
            max_quantity,
            step_size,
        })
    }
}

impl LeverageFilters {
    /// The members hold each field under its key, of its kind.
    pub open spec fn readable(ms: Seq<MemberView>) -> bool {
        &&& decimal_field(ms, "minLeverage"@) is Some
        &&& decimal_field(ms, "maxLeverage"@) is Some
        &&& decimal_field(ms, "stepSize"@) is Some
    }

    /// Each field is what the members hold under its key.
    pub open spec fn read_from(&self, ms: Seq<MemberView>) -> bool {
        &&& decimal_field(ms, "minLeverage"@) == Some(value_pair(self.min_leverage@))
        &&& decimal_field(ms, "maxLeverage"@) == Some(value_pair(self.max_leverage@))
        &&& decimal_field(ms, "stepSize"@) == Some(value_pair(self.step_size@))
    }

    /// The members of the fields read before `minLeverage` are readable.
    pub open spec fn readable_before_min_leverage(ms: Seq<MemberView>) -> bool {
        true
    }

    /// The members of the fields read before `maxLeverage` are readable.
    pub open spec fn readable_before_max_leverage(ms: Seq<MemberView>) -> bool {
        &&& LeverageFilters::readable_before_min_leverage(ms)
        &&& decimal_field(ms, "minLeverage"@) is Some
    }

    /// The members of the fields read before `stepSize` are readable.
    pub open spec fn readable_before_step_size(ms: Seq<MemberView>) -> bool {
        &&& LeverageFilters::readable_before_max_leverage(ms)
        &&& decimal_field(ms, "maxLeverage"@) is Some
    }

    /// The error of reading these members when the fields read before a decimal or
    /// enumeration field are readable and that field's text is not a decimal or names no
    /// variant: a decode error under that field's key, with the text as its cause.
    pub open spec fn reports(ms: Seq<MemberView>, e: BpxError) -> bool {
        &&& match numeral_text(ms, "minLeverage"@) {
            Some(t) => LeverageFilters::readable_before_min_leverage(ms) && decimal_of_text(t) is None ==> invalid_decimal_error(e, "minLeverage"@, t),
            _ => true,
        }
        &&& match numeral_text(ms, "maxLeverage"@) {
            Some(t) => LeverageFilters::readable_before_max_leverage(ms) && decimal_of_text(t) is None ==> invalid_decimal_error(e, "maxLeverage"@, t),
            _ => true,
        }
        &&& match numeral_text(ms, "stepSize"@) {
            Some(t) => LeverageFilters::readable_before_step_size(ms) && decimal_of_text(t) is None ==> invalid_decimal_error(e, "stepSize"@, t),
            _ => true,
        }
    }

    /// The members that an error of reading this record can name: its keys and those of
    /// the records nested in it.
    pub open spec fn member_keys() -> Set<Seq<char>> {
        set!["minLeverage"@, "maxLeverage"@, "stepSize"@]
    }

    /// Reads the record from the members of its JSON object.
    pub fn from_members(ms: &Vec<Member>) -> (r: Result<LeverageFilters, BpxError>)
        ensures
            r is Ok <==> LeverageFilters::readable(members_view(ms@)),
            r matches Ok(x) ==> x.read_from(members_view(ms@)),
            r matches Err(e) ==> e is Decode && LeverageFilters::member_keys().contains(e->Decode_member@),
            r matches Err(e) ==> LeverageFilters::reports(members_view(ms@), e),
    {
        let min_leverage = read_decimal(ms, "minLeverage")?;
        let max_leverage = read_decimal(ms, "maxLeverage")?;
        let step_size = read_decimal(ms, "stepSize")?;
        Ok(LeverageFilters {
            min_leverage,
            max_leverage,
            step_size,
        })
    }
}

impl MarketFilters {
    /// The members hold each field under its key, of its kind.
    pub open spec fn readable(ms: Seq<MemberView>) -> bool {
        &&& (object_field(ms, "price"@) matches Some(m) && PriceFilters::readable(m))
        &&& (object_field(ms, "quantity"@) matches Some(m) && QuantityFilters::readable(m))
        &&& (optional_object_field(ms, "leverage"@) matches Some(o) && (o matches Some(m) ==> LeverageFilters::readable(m)))
    }

    /// Each field is what the members hold under its key.
    pub open spec fn read_from(&self, ms: Seq<MemberView>) -> bool {
        &&& (object_field(ms, "price"@) matches Some(m) && self.price.read_from(m))
        &&& (object_field(ms, "quantity"@) matches Some(m) && self.quantity.read_from(m))
        &&& (optional_object_field(ms, "leverage"@) matches Some(o) && match o { Some(m) => (self.leverage matches Some(x) && x.read_from(m)), None => self.leverage is None })
    }

    /// The error of reading these members when the fields read before a decimal or
    /// enumeration field are readable and that field's text is not a decimal or names no
    /// variant: a decode error under that field's key, with the text as its cause.
    pub open spec fn reports(ms: Seq<MemberView>, e: BpxError) -> bool {
        true
    }

    /// The members that an error of reading this record can name: its keys and those of
    /// the records nested in it.
    pub open spec fn member_keys() -> Set<Seq<char>> {
        set!["price"@, "quantity"@, "leverage"@].union(PriceFilters::member_keys()).union(QuantityFilters::member_keys()).union(LeverageFilters::member_keys())
    }

    /// Reads the record from the members of its JSON object.
    pub fn from_members(ms: &Vec<Member>) -> (r: Result<MarketFilters, BpxError>)
        ensures
            r is Ok <==> MarketFilters::readable(members_view(ms@)),
            r matches Ok(x) ==> x.read_from(members_view(ms@)),
            r matches Err(e) ==> e is Decode && MarketFilters::member_keys().contains(e->Decode_member@),
            r matches Err(e) ==> MarketFilters::reports(members_view(ms@), e),
    {
        let price_members = read_object(ms, "price")?;
        let price = PriceFilters::from_members(&price_members)?;
        let quantity_members = read_object(ms, "quantity")?;
        let quantity = QuantityFilters::from_members(&quantity_members)?;
        let leverage = match read_optional_object(ms, "leverage")? {
            Some(m) => Some(LeverageFilters::from_members(&m)?),
            None => None,
        };
        Ok(MarketFilters {
            price,
            quantity,
            leverage,
        })
    }
}

impl Market {
    /// The members hold each field under its key, of its kind.
    pub open spec fn readable(ms: Seq<MemberView>) -> bool {
        &&& text_field(ms, "symbol"@) is Some
        &&& text_field(ms, "baseSymbol"@) is Some
        &&& text_field(ms, "quoteSymbol"@) is Some
        &&& (text_field(ms, "marketType"@) matches Some(t) && MarketType::decode(t) is Some)
        &&& (object_field(ms, "filters"@) matches Some(m) && MarketFilters::readable(m))
        &&& optional_composite_field(ms, "imfFunction"@) is Some
        &&& optional_composite_field(ms, "mmfFunction"@) is Some
        &&& (optional_integer_field(ms, "fundingInterval"@) matches Some(o) && (o matches Some(v) ==> 0 <= v <= u64::MAX))
        &&& optional_decimal_field(ms, "fundingRateUpperBound"@) is Some
        &&& optional_decimal_field(ms, "fundingRateLowerBound"@) is Some
        &&& optional_decimal_field(ms, "openInterestLimit"@) is Some
        &&& (text_field(ms, "orderBookState"@) matches Some(t) && OrderBookState::decode(t) is Some)
        &&& datetime_field(ms, "createdAt"@) is Some
    }

    /// Each field is what the members hold under its key.
    pub open spec fn read_from(&self, ms: Seq<MemberView>) -> bool {
        &&& text_field(ms, "symbol"@) == Some(self.symbol@)
        &&& text_field(ms, "baseSymbol"@) == Some(self.base_symbol@)
        &&& text_field(ms, "quoteSymbol"@) == Some(self.quote_symbol@)
        &&& text_field(ms, "marketType"@) == Some(self.market_type.wire())
        &&& (object_field(ms, "filters"@) matches Some(m) && self.filters.read_from(m))
        &&& optional_composite_field(ms, "imfFunction"@) == Some(match self.imf_function { Some(t) => Some(t@), None => None })
        &&& optional_composite_field(ms, "mmfFunction"@) == Some(match self.mmf_function { Some(t) => Some(t@), None => None })
        &&& optional_integer_field(ms, "fundingInterval"@) == Some(match self.funding_interval { Some(v) => Some(v as int), None => None })
        &&& optional_decimal_field(ms, "fundingRateUpperBound"@) == Some(match self.funding_rate_upper_bound { Some(d) => Some(value_pair(d@)), None => None })
        &&& optional_decimal_field(ms, "fundingRateLowerBound"@) == Some(match self.funding_rate_lower_bound { Some(d) => Some(value_pair(d@)), None => None })
        &&& optional_decimal_field(ms, "openInterestLimit"@) == Some(match self.open_interest_limit { Some(d) => Some(value_pair(d@)), None => None })
        &&& text_field(ms, "orderBookState"@) == Some(self.order_book_state.wire())
        &&& datetime_field(ms, "createdAt"@) == Some((self.created_at.seconds as int, self.created_at.nanos as nat))
    }

    /// The members of the fields read before `marketType` are readable.
    pub open spec fn readable_before_market_type(ms: Seq<MemberView>) -> bool {
        &&& text_field(ms, "symbol"@) is Some
        &&& text_field(ms, "baseSymbol"@) is Some
        &&& text_field(ms, "quoteSymbol"@) is Some
    }

    /// The members of the fields read before `fundingRateUpperBound` are readable.
    pub open spec fn readable_before_funding_rate_upper_bound(ms: Seq<MemberView>) -> bool {
        &&& Market::readable_before_market_type(ms)
        &&& (text_field(ms, "marketType"@) matches Some(t) && MarketType::decode(t) is Some)
        &&& (object_field(ms, "filters"@) matches Some(m) && MarketFilters::readable(m))
        &&& optional_composite_field(ms, "imfFunction"@) is Some
        &&& optional_composite_field(ms, "mmfFunction"@) is Some
        &&& (optional_integer_field(ms, "fundingInterval"@) matches Some(o) && (o matches Some(v) ==> 0 <= v <= u64::MAX))
    }

    /// The members of the fields read before `fundingRateLowerBound` are readable.
    pub open spec fn readable_before_funding_rate_lower_bound(ms: Seq<MemberView>) -> bool {
        &&& Market::readable_before_funding_rate_upper_bound(ms)
        &&& optional_decimal_field(ms, "fundingRateUpperBound"@) is Some
    }

    /// The members of the fields read before `openInterestLimit` are readable.
    pub open spec fn readable_before_open_interest_limit(ms: Seq<MemberView>) -> bool {
        &&& Market::readable_before_funding_rate_lower_bound(ms)
        &&& optional_decimal_field(ms, "fundingRateLowerBound"@) is Some
    }

    /// The members of the fields read before `orderBookState` are readable.
    pub open spec fn readable_before_order_book_state(ms: Seq<MemberView>) -> bool {
        &&& Market::readable_before_open_interest_limit(ms)
        &&& optional_decimal_field(ms, "openInterestLimit"@) is Some
    }

    /// The error of reading these members when the fields read before a decimal or
    /// enumeration field are readable and that field's text is not a decimal or names no
    /// variant: a decode error under that field's key, with the text as its cause.
    pub open spec fn reports(ms: Seq<MemberView>, e: BpxError) -> bool {
        &&& match text_field(ms, "marketType"@) {
            Some(t) => Market::readable_before_market_type(ms) && MarketType::decode(t) is None ==> unknown_variant_error(e, "marketType"@, t),
            _ => true,
        }
        &&& match numeral_text(ms, "fundingRateUpperBound"@) {
            Some(t) => Market::readable_before_funding_rate_upper_bound(ms) && decimal_of_text(t) is None ==> invalid_decimal_error(e, "fundingRateUpperBound"@, t),
            _ => true,
        }
        &&& match numeral_text(ms, "fundingRateLowerBound"@) {
            Some(t) => Market::readable_before_funding_rate_lower_bound(ms) && decimal_of_text(t) is None ==> invalid_decimal_error(e, "fundingRateLowerBound"@, t),
            _ => true,
        }
        &&& match numeral_text(ms, "openInterestLimit"@) {
            Some(t) => Market::readable_before_open_interest_limit(ms) && decimal_of_text(t) is None ==> invalid_decimal_error(e, "openInterestLimit"@, t),
            _ => true,
        }
        &&& match text_field(ms, "orderBookState"@) {
            Some(t) => Market::readable_before_order_book_state(ms) && OrderBookState::decode(t) is None ==> unknown_variant_error(e, "orderBookState"@, t),
            _ => true,
        }
    }

    /// A read record holds the variant whose wire text its `marketType` member holds.
    pub proof fn lemma_market_type_round_trip(&self, ms: Seq<MemberView>, v: MarketType)
        requires
            self.read_from(ms),
            text_field(ms, "marketType"@) == Some(v.wire()),
        ensures
            self.market_type == v,
    {
        v.lemma_wire_round_trip(self.market_type.wire());
        self.market_type.lemma_wire_round_trip(v.wire());
    }

    /// A read record holds the variant whose wire text its `orderBookState` member holds.
    pub proof fn lemma_order_book_state_round_trip(&self, ms: Seq<MemberView>, v: OrderBookState)
        requires
            self.read_from(ms),
            text_field(ms, "orderBookState"@) == Some(v.wire()),
        ensures
            self.order_book_state == v,
    {
        v.lemma_wire_round_trip(self.order_book_state.wire());
        self.order_book_state.lemma_wire_round_trip(v.wire());
    }

    /// The members that an error of reading this record can name: its keys and those of
    /// the records nested in it.
    pub open spec fn member_keys() -> Set<Seq<char>> {
        set!["symbol"@, "baseSymbol"@, "quoteSymbol"@, "marketType"@, "filters"@, "imfFunction"@, "mmfFunction"@, "fundingInterval"@, "fundingRateUpperBound"@, "fundingRateLowerBound"@, "openInterestLimit"@, "orderBookState"@, "createdAt"@].union(MarketFilters::member_keys())
    }

    /// Reads the record from the members of its JSON object.
    pub fn from_members(ms: &Vec<Member>) -> (r: Result<Market, BpxError>)
        ensures
            r is Ok <==> Market::readable(members_view(ms@)),
            r matches Ok(x) ==> x.read_from(members_view(ms@)),
            r matches Err(e) ==> e is Decode && Market::member_keys().contains(e->Decode_member@),
            r matches Err(e) ==> Market::reports(members_view(ms@), e),
    {
        let symbol = read_text(ms, "symbol")?;
        let base_symbol = read_text(ms, "baseSymbol")?;
        let quote_symbol = read_text(ms, "quoteSymbol")?;
        let market_type_text = read_text(ms, "marketType")?;
        let market_type = match MarketType::from_wire(market_type_text.as_str()) {
            Ok(v) => v,
            Err(_) => return Err(unknown_variant_at("marketType", &market_type_text)),
        };
        proof {
            market_type.lemma_wire_round_trip(market_type_text@);
        }
        let filters_members = read_object(ms, "filters")?;
        let filters = MarketFilters::from_members(&filters_members)?;
        let imf_function = read_optional_json_text(ms, "imfFunction")?;
        let mmf_function = read_optional_json_text(ms, "mmfFunction")?;
        let funding_interval = read_optional_u64(ms, "fundingInterval")?;
        let funding_rate_upper_bound = read_optional_decimal(ms, "fundingRateUpperBound")?;
        let funding_rate_lower_bound = read_optional_decimal(ms, "fundingRateLowerBound")?;
        let open_interest_limit = read_optional_decimal(ms, "openInterestLimit")?;
        let order_book_state_text = read_text(ms, "orderBookState")?;
        let order_book_state = match OrderBookState::from_wire(order_book_state_text.as_str()) {
            Ok(v) => v,
            Err(_) => return Err(unknown_variant_at("orderBookState", &order_book_state_text)),
        };
        proof {
            order_book_state.lemma_wire_round_trip(order_book_state_text@);
        }
        let created_at = read_datetime(ms, "createdAt")?;
        Ok(Market {
            symbol,
            base_symbol,
            quote_symbol,
            market_type,
            filters,
            imf_function,
            mmf_function,
            funding_interval,
            funding_rate_upper_bound,
            funding_rate_lower_bound,
            open_interest_limit,
            order_book_state,
            created_at,
        })
    }

    /// Reads one record from each list of members, in order.
    pub fn from_member_lists(lists: &Vec<Vec<Member>>) -> (r: Result<Vec<Market>, BpxError>)
        ensures
            r is Ok <==> forall|i: int| 0 <= i < lists@.len() ==> Market::readable(members_view((#[trigger] lists@[i])@)),
            r matches Ok(v) ==> v@.len() == lists@.len() && forall|i: int| 0 <= i < lists@.len() ==> (#[trigger] v@[i]).read_from(members_view(lists@[i]@)),
            r matches Err(e) ==> e is Decode && Market::member_keys().contains(e->Decode_member@),
            r matches Err(e) ==> exists|i: int| 0 <= i < lists@.len() && !Market::readable(members_view(lists@[i]@)) && (forall|j: int| 0 <= j < i ==> Market::readable(members_view(lists@[j]@))) && Market::reports(members_view(lists@[i]@), e),
    {
        let mut out: Vec<Market> = Vec::new();
        for i in 0..lists.len()
            invariant
                out@.len() == i,
                forall|j: int| 0 <= j < i ==> Market::readable(members_view((#[trigger] lists@[j])@)) && out@[j].read_from(members_view(lists@[j]@)),
        {
            match Market::from_members(&lists[i]) {
                Ok(x) => out.push(x),
                Err(e) => {
                    assert(!Market::readable(members_view(lists@[i as int]@)));
                    assert(Market::reports(members_view(lists@[i as int]@), e));
                    return Err(e);
                },
            }
        }
        Ok(out)
    }

    /// Reads the record from its JSON text.
    pub fn from_json(text: &str) -> (r: Result<Market, BpxError>)
        ensures
            match json_members(text@) {
                Some(ms) => (r is Ok <==> Market::readable(ms)) && (r matches Ok(x) ==> x.read_from(ms)) && (r matches Err(e) ==> Market::reports(ms, e)),
                None => r is Err,
            },
            r matches Err(e) ==> e is Decode && (e->Decode_member@ == Seq::<char>::empty() || Market::member_keys().contains(e->Decode_member@)),
    {
        let ms = object_members(text)?;
        Market::from_members(&ms)
    }

    /// Reads a JSON array of records, in order.
    pub fn list_from_json(text: &str) -> (r: Result<Vec<Market>, BpxError>)
        ensures
            match object_list(text@) {
                Some(ls) => (r is Ok <==> forall|i: int| 0 <= i < ls.len() ==> Market::readable(#[trigger] ls[i])) && (r matches Ok(v) ==> v@.len() == ls.len() && forall|i: int| 0 <= i < ls.len() ==> (#[trigger] v@[i]).read_from(ls[i])) && (r matches Err(e) ==> exists|i: int| 0 <= i < ls.len() && !Market::readable(ls[i]) && (forall|j: int| 0 <= j < i ==> Market::readable(ls[j])) && Market::reports(ls[i], e)),
                None => r is Err,
            },
            r matches Err(e) ==> e is Decode && (e->Decode_member@ == Seq::<char>::empty() || Market::member_keys().contains(e->Decode_member@)),
    {
        let lists = object_list_members(text)?;
        let r = Market::from_member_lists(&lists);
        proof {
            let ls = object_list(text@)->Some_0;
            assert(r is Ok <==> forall|i: int| 0 <= i < ls.len() ==> Market::readable(#[trigger] ls[i])) by {
                assert forall|i: int| 0 <= i < ls.len() implies #[trigger] ls[i] == members_view(lists@[i]@) by {}
            }
            if r is Ok {
                let v = r->Ok_0;
                assert forall|i: int| 0 <= i < ls.len() implies (#[trigger] v@[i]).read_from(ls[i]) by {
                    assert(members_view(lists@[i]@) == ls[i]);
                }
            }
            if r is Err {
                let e = r->Err_0;
                let i = choose|i: int| 0 <= i < lists@.len() && !Market::readable(members_view(lists@[i]@)) && (forall|j: int| 0 <= j < i ==> Market::readable(members_view(lists@[j]@))) && Market::reports(members_view(lists@[i]@), e);
                assert(members_view(lists@[i]@) == ls[i]);
                assert forall|j: int| 0 <= j < i implies Market::readable(#[trigger] ls[j]) by {
                    assert(members_view(lists@[j]@) == ls[j]);
                }
            }
        }
        r
    }
}

impl OrderBookDepth {
    /// The members hold each field under its key, of its kind.
    pub open spec fn readable(ms: Seq<MemberView>) -> bool {
        &&& (pairs_field(ms, "asks"@) matches Some(ps) && levels_readable(ps))
        &&& (pairs_field(ms, "bids"@) matches Some(ps) && levels_readable(ps))
        &&& text_field(ms, "lastUpdateId"@) is Some
    }

    /// Each field is what the members hold under its key.
    pub open spec fn read_from(&self, ms: Seq<MemberView>) -> bool {
        &&& (pairs_field(ms, "asks"@) matches Some(ps) && levels_read(ps, self.asks@))
        &&& (pairs_field(ms, "bids"@) matches Some(ps) && levels_read(ps, self.bids@))
        &&& text_field(ms, "lastUpdateId"@) == Some(self.last_update_id@)
    }

    /// The error of reading these members when the fields read before a decimal or
    /// enumeration field are readable and that field's text is not a decimal or names no
    /// variant: a decode error under that field's key, with the text as its cause.
    pub open spec fn reports(ms: Seq<MemberView>, e: BpxError) -> bool {
        true
    }

    /// The members that an error of reading this record can name: its keys and those of
    /// the records nested in it.
    pub open spec fn member_keys() -> Set<Seq<char>> {
        set!["asks"@, "bids"@, "lastUpdateId"@]
    }

    /// Reads the record from the members of its JSON object.
    pub fn from_members(ms: &Vec<Member>) -> (r: Result<OrderBookDepth, BpxError>)
        ensures
            r is Ok <==> OrderBookDepth::readable(members_view(ms@)),
            r matches Ok(x) ==> x.read_from(members_view(ms@)),
            r matches Err(e) ==> e is Decode && OrderBookDepth::member_keys().contains(e->Decode_member@),
            r matches Err(e) ==> OrderBookDepth::reports(members_view(ms@), e),
    {
        let asks_texts = read_pairs(ms, "asks")?;
        let asks = match parse_levels(&asks_texts) {
            Ok(levels) => levels,
            Err(e) => return Err(level_error_at("asks", e)),
        };
        let bids_texts = read_pairs(ms, "bids")?;
        let bids = match parse_levels(&bids_texts) {
            Ok(levels) => levels,
            Err(e) => return Err(level_error_at("bids", e)),
        };
        let last_update_id = read_text(ms, "lastUpdateId")?;
        Ok(OrderBookDepth {
            asks,
            bids,
            last_update_id,
        })
    }

    /// Reads the record from its JSON text.
    pub fn from_json(text: &str) -> (r: Result<OrderBookDepth, BpxError>)
        ensures
            match json_members(text@) {
                Some(ms) => (r is Ok <==> OrderBookDepth::readable(ms)) && (r matches Ok(x) ==> x.read_from(ms)) && (r matches Err(e) ==> OrderBookDepth::reports(ms, e)),
                None => r is Err,
            },
            r matches Err(e) ==> e is Decode && (e->Decode_member@ == Seq::<char>::empty() || OrderBookDepth::member_keys().contains(e->Decode_member@)),
    {
        let ms = object_members(text)?;
        OrderBookDepth::from_members(&ms)
    }
}

} // verus!
