//! Strategy history: search parameters, records, and their wire enumerations.
use crate::error::BpxError;
use crate::decimal::{value_pair, Decimal};
use crate::json::{
    unknown_variant_at, bool_field, datetime_field, integer_field, members_view, object_list,
    object_list_members, optional_decimal_field, optional_integer_field, optional_text_field,
    read_bool, read_datetime, read_i32, read_optional_decimal, read_optional_text,
    read_optional_u32, read_text, read_u64, text_field, Member, MemberView,
};
use crate::time::Timestamp;
use crate::markets::MarketType;
use crate::query::{
    encode_query, fields_separable, lemma_observed_keys, lemma_unset_query_is_empty, observed_keys,
    opt_nat_text, opt_text, query_text, set_keys, FieldText, QueryField,
};
use crate::text::text_eq;
use crate::decimal::decimal_of_text;
use crate::error::{invalid_decimal_error, unknown_variant_error};
use crate::json::numeral_text;
use vstd::prelude::*;

verus! {

/// Filters of the strategy history. Every filter is optional; unset ones are left out of the
/// request. `limit` defaults to 100 (at most 1000) and `offset` to 0, on the server's side.
#[derive(Debug, Clone)]
pub struct StrategyHistorySearchParams {
    /// Only records of this strategy.
    pub strategy_id: Option<String>,
    /// Only records in this market.
    pub symbol: Option<String>,
    /// Most results to return.
    pub limit: Option<u64>,
    /// Results to skip.
    pub offset: Option<u64>,
    pub market_type: Option<MarketType>,
    pub sort_direction: Option<SortDirection>,
}

impl Default for StrategyHistorySearchParams {
    /// No filter set.
    fn default() -> (r: StrategyHistorySearchParams)
        ensures
            r.is_unset(),
    {
        StrategyHistorySearchParams::new()
    }
}

impl StrategyHistorySearchParams {
    /// No filter set.
    pub fn new() -> (r: StrategyHistorySearchParams)
        ensures
            r.is_unset(),
    {
        StrategyHistorySearchParams {
            strategy_id: None,
            symbol: None,
            limit: None,
            offset: None,
            market_type: None,
            sort_direction: None,
        }
    }

    pub open spec fn is_unset(&self) -> bool {
        &&& self.strategy_id is None
        &&& self.symbol is None
        &&& self.limit is None
        &&& self.offset is None
        &&& self.market_type is None
        &&& self.sort_direction is None
    }

    /// The limit that the server applies when the request sets none.
    pub fn default_limit() -> (r: Option<u64>)
        ensures
            r == Some(100u64),
    {
        Some(100)
    }

    /// The offset that the server applies when the request sets none.
    pub fn default_offset() -> (r: Option<u64>)
        ensures
            r == Some(0u64),
    {
        Some(0)
    }

    /// The filters in their wire order, each with its key and value text.
    pub open spec fn query_fields(&self) -> Seq<FieldText> {
        seq![
            ("strategy_id"@, opt_text(self.strategy_id)),
            ("symbol"@, opt_text(self.symbol)),
            ("limit"@, opt_nat_text(self.limit)),
            ("offset"@, opt_nat_text(self.offset)),
            ("market_type"@, match self.market_type { Some(t) => Some(t.wire()), None => None }),
            ("sort_direction"@, match self.sort_direction { Some(t) => Some(t.wire()), None => None }),
        ]
    }

    /// The query string of these filters: `?` and `key=value` for each filter set, joined
    /// by `&`, in the order above; empty when none is set.
    pub fn to_query_string(&self) -> (r: String)
        ensures
            r@ == query_text(self.query_fields()),
    {
        let mut fields: Vec<QueryField> = Vec::new();
        fields.push(QueryField::text("strategy_id", &self.strategy_id));
        fields.push(QueryField::text("symbol", &self.symbol));
        fields.push(QueryField::unsigned("limit", self.limit));
        fields.push(QueryField::unsigned("offset", self.offset));
        fields.push(QueryField::wire("market_type", match self.market_type {
            Some(t) => Some(t.to_wire()),
            None => None,
        }));
        fields.push(QueryField::wire("sort_direction", match self.sort_direction {
            Some(t) => Some(t.to_wire()),
            None => None,
        }));
        assert(fields@.map_values(|f: QueryField| f@) =~= self.query_fields());
        encode_query(&fields)
    }

    /// With no filter set, the query string is empty.
    pub proof fn lemma_unset_is_empty(&self)
        requires
            self.is_unset(),
        ensures
            query_text(self.query_fields()) == Seq::<char>::empty(),
    {
        lemma_unset_query_is_empty(self.query_fields());
    }

    /// The keys that a server reads from the query string are exactly those of the filters
    /// set, in the order above, whatever the filters' texts hold.
    pub proof fn lemma_keys_observed(&self)
        ensures
            observed_keys(query_text(self.query_fields())) == set_keys(self.query_fields()),
            forall|k: Seq<char>|
                #![trigger observed_keys(query_text(self.query_fields())).contains(k)]
                observed_keys(query_text(self.query_fields())).contains(k) <==> exists|i: int|
                    0 <= i < self.query_fields().len() && (#[trigger] self.query_fields()[i]).0 == k
                        && self.query_fields()[i].1 is Some,
    {
        let fields = self.query_fields();
        reveal_strlit("strategy_id");
        reveal_strlit("symbol");
        reveal_strlit("limit");
        reveal_strlit("offset");
        reveal_strlit("market_type");
        reveal_strlit("sort_direction");
        assert(fields_separable(fields));
        lemma_observed_keys(fields);
    }
}

/// Order in which history results are returned.
#[derive(Debug, Clone, Copy, PartialEq, Eq, Hash, Structural)]
pub enum SortDirection {
    Asc,
    Desc,
}

impl SortDirection {
    /// The wire text of each variant.
    pub open spec fn wire(self) -> Seq<char> {
        match self {
            SortDirection::Asc => "Asc"@,
            SortDirection::Desc => "Desc"@,
        }
    }

    /// The variant whose wire text is `s`, if there is one.
    pub open spec fn decode(s: Seq<char>) -> Option<SortDirection> {
        if s == "Asc"@ {
            Some(SortDirection::Asc)
        } else if s == "Desc"@ {
            Some(SortDirection::Desc)
        } else {
            None
        }
    }

    /// The wire text of this variant.
    pub fn to_wire(&self) -> (r: &'static str)
        ensures
            r@ == self.wire(),
    {
        match self {
            SortDirection::Asc => "Asc",
            SortDirection::Desc => "Desc",
        }
    }

    /// Reads a variant from its wire text; any other text is an unknown variant.
    pub fn from_wire(s: &str) -> (r: Result<SortDirection, BpxError>)
        ensures
            match SortDirection::decode(s@) {
                Some(v) => r == Ok::<_, BpxError>(v),
                None => r is Err && r->Err_0 is UnknownVariant
                    && r->Err_0->UnknownVariant_input@ == s@,
            },
    {
        if text_eq(s, "Asc") {
            Ok(SortDirection::Asc)
        } else if text_eq(s, "Desc") {
            Ok(SortDirection::Desc)
        } else {
            Err(BpxError::UnknownVariant { input: s.to_owned() })
        }
    }

    /// Decoding the wire text of a variant gives that variant back, and a text that is
    /// the wire text of no variant decodes to nothing.
    pub proof fn lemma_wire_round_trip(self, s: Seq<char>)
        ensures
            SortDirection::decode(self.wire()) == Some(self),
            SortDirection::decode(s) == Some(self) <==> self.wire() == s,
            SortDirection::decode(s) is None <==> (forall|v: SortDirection| v.wire() != s),
    {
        reveal_strlit("Asc");
        reveal_strlit("Desc");
        assert("Asc"@.len() == 3);
        assert("Desc"@.len() == 4);
        match self {
            SortDirection::Asc => {},
            SortDirection::Desc => {},
        }
        if let Some(v) = SortDirection::decode(s) {
            assert(v.wire() == s);
        }
    }
}

/// Why a strategy was cancelled.
#[derive(Debug, Clone, Copy, PartialEq, Eq, Hash, Structural)]
pub enum StrategyCancelReason {
    Expired,
    FillOrKill,
    InsufficientBorrowableQuantity,
    InsufficientFunds,
    InsufficientLiquidity,
    InvalidPrice,
    InvalidQuantity,
    InsufficientMargin,
    Liquidation,
    PriceOutOfBounds,
    ReduceOnlyNotReduced,
    SelfTradePrevention,
    Unknown,
    UserPermissions,
}

impl StrategyCancelReason {
    /// The wire text of each variant.
    pub open spec fn wire(self) -> Seq<char> {
        match self {
            StrategyCancelReason::Expired => "Expired"@,
            StrategyCancelReason::FillOrKill => "FillOrKill"@,
            StrategyCancelReason::InsufficientBorrowableQuantity => "InsufficientBorrowableQuantity"@,
            StrategyCancelReason::InsufficientFunds => "InsufficientFunds"@,
            StrategyCancelReason::InsufficientLiquidity => "InsufficientLiquidity"@,
            StrategyCancelReason::InvalidPrice => "InvalidPrice"@,
            StrategyCancelReason::InvalidQuantity => "InvalidQuantity"@,
            StrategyCancelReason::InsufficientMargin => "InsufficientMargin"@,
            StrategyCancelReason::Liquidation => "Liquidation"@,
            StrategyCancelReason::PriceOutOfBounds => "PriceOutOfBounds"@,
            StrategyCancelReason::ReduceOnlyNotReduced => "ReduceOnlyNotReduced"@,
            StrategyCancelReason::SelfTradePrevention => "SelfTradePrevention"@,
            StrategyCancelReason::Unknown => "Unknown"@,
            StrategyCancelReason::UserPermissions => "UserPermissions"@,
        }
    }

    /// The variant whose wire text is `s`, if there is one.
    pub open spec fn decode(s: Seq<char>) -> Option<StrategyCancelReason> {
        if s == "Expired"@ {
            Some(StrategyCancelReason::Expired)
        } else if s == "FillOrKill"@ {
            Some(StrategyCancelReason::FillOrKill)
        } else if s == "InsufficientBorrowableQuantity"@ {
            Some(StrategyCancelReason::InsufficientBorrowableQuantity)
        } else if s == "InsufficientFunds"@ {
            Some(StrategyCancelReason::InsufficientFunds)
        } else if s == "InsufficientLiquidity"@ {
            Some(StrategyCancelReason::InsufficientLiquidity)
        } else if s == "InvalidPrice"@ {
            Some(StrategyCancelReason::InvalidPrice)
        } else if s == "InvalidQuantity"@ {
            Some(StrategyCancelReason::InvalidQuantity)
        } else if s == "InsufficientMargin"@ {
            Some(StrategyCancelReason::InsufficientMargin)
        } else if s == "Liquidation"@ {
            Some(StrategyCancelReason::Liquidation)
        } else if s == "PriceOutOfBounds"@ {
            Some(StrategyCancelReason::PriceOutOfBounds)
        } else if s == "ReduceOnlyNotReduced"@ {
            Some(StrategyCancelReason::ReduceOnlyNotReduced)
        } else if s == "SelfTradePrevention"@ {
            Some(StrategyCancelReason::SelfTradePrevention)
        } else if s == "Unknown"@ {
            Some(StrategyCancelReason::Unknown)
        } else if s == "UserPermissions"@ {
            Some(StrategyCancelReason::UserPermissions)
        } else {
            None
        }
    }

    /// The wire text of this variant.
    pub fn to_wire(&self) -> (r: &'static str)
        ensures
            r@ == self.wire(),
    {
        match self {
            StrategyCancelReason::Expired => "Expired",
            StrategyCancelReason::FillOrKill => "FillOrKill",
            StrategyCancelReason::InsufficientBorrowableQuantity => "InsufficientBorrowableQuantity",
            StrategyCancelReason::InsufficientFunds => "InsufficientFunds",
            StrategyCancelReason::InsufficientLiquidity => "InsufficientLiquidity",
            StrategyCancelReason::InvalidPrice => "InvalidPrice",
            StrategyCancelReason::InvalidQuantity => "InvalidQuantity",
            StrategyCancelReason::InsufficientMargin => "InsufficientMargin",
            StrategyCancelReason::Liquidation => "Liquidation",
            StrategyCancelReason::PriceOutOfBounds => "PriceOutOfBounds",
            StrategyCancelReason::ReduceOnlyNotReduced => "ReduceOnlyNotReduced",
            StrategyCancelReason::SelfTradePrevention => "SelfTradePrevention",
            StrategyCancelReason::Unknown => "Unknown",
            StrategyCancelReason::UserPermissions => "UserPermissions",
        }
    }

    /// Reads a variant from its wire text; any other text is an unknown variant.
    pub fn from_wire(s: &str) -> (r: Result<StrategyCancelReason, BpxError>)
        ensures
            match StrategyCancelReason::decode(s@) {
                Some(v) => r == Ok::<_, BpxError>(v),
                None => r is Err && r->Err_0 is UnknownVariant
                    && r->Err_0->UnknownVariant_input@ == s@,
            },
    {
        if text_eq(s, "Expired") {
            Ok(StrategyCancelReason::Expired)
        } else if text_eq(s, "FillOrKill") {
            Ok(StrategyCancelReason::FillOrKill)
        } else if text_eq(s, "InsufficientBorrowableQuantity") {
            Ok(StrategyCancelReason::InsufficientBorrowableQuantity)
        } else if text_eq(s, "InsufficientFunds") {
            Ok(StrategyCancelReason::InsufficientFunds)
        } else if text_eq(s, "InsufficientLiquidity") {
            Ok(StrategyCancelReason::InsufficientLiquidity)
        } else if text_eq(s, "InvalidPrice") {
            Ok(StrategyCancelReason::InvalidPrice)
        } else if text_eq(s, "InvalidQuantity") {
            Ok(StrategyCancelReason::InvalidQuantity)
        } else if text_eq(s, "InsufficientMargin") {
            Ok(StrategyCancelReason::InsufficientMargin)
        } else if text_eq(s, "Liquidation") {
            Ok(StrategyCancelReason::Liquidation)
        } else if text_eq(s, "PriceOutOfBounds") {
            Ok(StrategyCancelReason::PriceOutOfBounds)
        } else if text_eq(s, "ReduceOnlyNotReduced") {
            Ok(StrategyCancelReason::ReduceOnlyNotReduced)
        } else if text_eq(s, "SelfTradePrevention") {
            Ok(StrategyCancelReason::SelfTradePrevention)
        } else if text_eq(s, "Unknown") {
            Ok(StrategyCancelReason::Unknown)
        } else if text_eq(s, "UserPermissions") {
            Ok(StrategyCancelReason::UserPermissions)
        } else {
            Err(BpxError::UnknownVariant { input: s.to_owned() })
        }
    }

    /// Decoding the wire text of a variant gives that variant back, and a text that is
    /// the wire text of no variant decodes to nothing.
    pub proof fn lemma_wire_round_trip(self, s: Seq<char>)
        ensures
            StrategyCancelReason::decode(self.wire()) == Some(self),
            StrategyCancelReason::decode(s) == Some(self) <==> self.wire() == s,
            StrategyCancelReason::decode(s) is None <==> (forall|v: StrategyCancelReason| v.wire() != s),
    {
        reveal_strlit("Expired");
        reveal_strlit("FillOrKill");
        reveal_strlit("InsufficientBorrowableQuantity");
        reveal_strlit("InsufficientFunds");
        reveal_strlit("InsufficientLiquidity");
        reveal_strlit("InvalidPrice");
        reveal_strlit("InvalidQuantity");
        reveal_strlit("InsufficientMargin");
        reveal_strlit("Liquidation");
        reveal_strlit("PriceOutOfBounds");
        reveal_strlit("ReduceOnlyNotReduced");
        reveal_strlit("SelfTradePrevention");
        reveal_strlit("Unknown");
        reveal_strlit("UserPermissions");
        assert("Expired"@.len() == 7);
        assert("FillOrKill"@.len() == 10);
        assert("InsufficientBorrowableQuantity"@.len() == 30);
        assert("InsufficientFunds"@.len() == 17);
        assert("InsufficientLiquidity"@.len() == 21);
        assert("InvalidPrice"@.len() == 12);
        assert("InvalidQuantity"@.len() == 15);
        assert("InsufficientMargin"@.len() == 18);
        assert("Liquidation"@.len() == 11);
        assert("PriceOutOfBounds"@.len() == 16);
        assert("ReduceOnlyNotReduced"@.len() == 20);
        assert("SelfTradePrevention"@.len() == 19);
        assert("Unknown"@.len() == 7);
        assert("UserPermissions"@.len() == 15);
        assert("Expired"@[0] != "Unknown"@[0]);
        assert("InvalidQuantity"@[0] != "UserPermissions"@[0]);
        match self {
            StrategyCancelReason::Expired => {},
            StrategyCancelReason::FillOrKill => {},
            StrategyCancelReason::InsufficientBorrowableQuantity => {},
            StrategyCancelReason::InsufficientFunds => {},
            StrategyCancelReason::InsufficientLiquidity => {},
            StrategyCancelReason::InvalidPrice => {},
            StrategyCancelReason::InvalidQuantity => {},
            StrategyCancelReason::InsufficientMargin => {},
            StrategyCancelReason::Liquidation => {},
            StrategyCancelReason::PriceOutOfBounds => {},
            StrategyCancelReason::ReduceOnlyNotReduced => {},
            StrategyCancelReason::SelfTradePrevention => {},
            StrategyCancelReason::Unknown => {},
            StrategyCancelReason::UserPermissions => {},
        }
        if let Some(v) = StrategyCancelReason::decode(s) {
            assert(v.wire() == s);
        }
    }
}

/// Status of a strategy.
#[derive(Debug, Clone, Copy, PartialEq, Eq, Hash, Structural)]
pub enum StrategyStatus {
    Running,
    Completed,
    Cancelled,
    Terminated,
}

impl StrategyStatus {
    /// The wire text of each variant.
    pub open spec fn wire(self) -> Seq<char> {
        match self {
            StrategyStatus::Running => "Running"@,
            StrategyStatus::Completed => "Completed"@,
            StrategyStatus::Cancelled => "Cancelled"@,
            StrategyStatus::Terminated => "Terminated"@,
        }
    }

    /// The variant whose wire text is `s`, if there is one.
    pub open spec fn decode(s: Seq<char>) -> Option<StrategyStatus> {
        if s == "Running"@ {
            Some(StrategyStatus::Running)
        } else if s == "Completed"@ {
            Some(StrategyStatus::Completed)
        } else if s == "Cancelled"@ {
            Some(StrategyStatus::Cancelled)
        } else if s == "Terminated"@ {
            Some(StrategyStatus::Terminated)
        } else {
            None
        }
    }

    /// The wire text of this variant.
    pub fn to_wire(&self) -> (r: &'static str)
        ensures
            r@ == self.wire(),
    {
        match self {
            StrategyStatus::Running => "Running",
            StrategyStatus::Completed => "Completed",
            StrategyStatus::Cancelled => "Cancelled",
            StrategyStatus::Terminated => "Terminated",
        }
    }

    /// Reads a variant from its wire text; any other text is an unknown variant.
    pub fn from_wire(s: &str) -> (r: Result<StrategyStatus, BpxError>)
        ensures
            match StrategyStatus::decode(s@) {
                Some(v) => r == Ok::<_, BpxError>(v),
                None => r is Err && r->Err_0 is UnknownVariant
                    && r->Err_0->UnknownVariant_input@ == s@,
            },
    {
        if text_eq(s, "Running") {
            Ok(StrategyStatus::Running)
        } else if text_eq(s, "Completed") {
            Ok(StrategyStatus::Completed)
        } else if text_eq(s, "Cancelled") {
            Ok(StrategyStatus::Cancelled)
        } else if text_eq(s, "Terminated") {
            Ok(StrategyStatus::Terminated)
        } else {
            Err(BpxError::UnknownVariant { input: s.to_owned() })
        }
    }

    /// Decoding the wire text of a variant gives that variant back, and a text that is
    /// the wire text of no variant decodes to nothing.
    pub proof fn lemma_wire_round_trip(self, s: Seq<char>)
        ensures
            StrategyStatus::decode(self.wire()) == Some(self),
            StrategyStatus::decode(s) == Some(self) <==> self.wire() == s,
            StrategyStatus::decode(s) is None <==> (forall|v: StrategyStatus| v.wire() != s),
    {
        reveal_strlit("Running");
        reveal_strlit("Completed");
        reveal_strlit("Cancelled");
        reveal_strlit("Terminated");
        assert("Running"@.len() == 7);
        assert("Completed"@.len() == 9);
        assert("Cancelled"@.len() == 9);
        assert("Terminated"@.len() == 10);
        assert("Completed"@[1] != "Cancelled"@[1]);
        match self {
            StrategyStatus::Running => {},
            StrategyStatus::Completed => {},
            StrategyStatus::Cancelled => {},
            StrategyStatus::Terminated => {},
        }
        if let Some(v) = StrategyStatus::decode(s) {
            assert(v.wire() == s);
        }
    }
}

/// A strategy that is no longer active. Self-trade prevention, side, time in force and slippage tolerance type are kept as their wire texts.
#[derive(Debug, Clone)]
pub struct Strategy {
    pub id: i32,
    pub created_at: Timestamp,
    pub executed_quantity: Option<Decimal>,
    pub executed_quote_quantity: Option<Decimal>,
    pub cancel_reason: Option<StrategyCancelReason>,
    pub strategy_type: String,
    pub quantity: Option<Decimal>,
    pub self_trade_prevention: String,
    pub status: StrategyStatus,
    pub side: String,
    pub symbol: String,
    pub time_in_force: String,
    pub client_strategy_id: Option<u32>,
    pub duration: u64,
    pub interval: u64,
    pub randomized_interval_quantity: bool,
    pub slippage_tolerance: Option<Decimal>,
    pub slippage_tolerance_type: Option<String>,
}

impl Strategy {
    /// The members hold each field under its key, of its kind.
    pub open spec fn readable(ms: Seq<MemberView>) -> bool {
        &&& (integer_field(ms, "id"@) matches Some(v) && i32::MIN <= v <= i32::MAX)
        &&& datetime_field(ms, "createdAt"@) is Some
        &&& optional_decimal_field(ms, "executedQuantity"@) is Some
        &&& optional_decimal_field(ms, "executedQuoteQuantity"@) is Some
        &&& (optional_text_field(ms, "cancelReason"@) matches Some(o) && (o matches Some(t) ==> StrategyCancelReason::decode(t) is Some))
        &&& text_field(ms, "strategyType"@) is Some
        &&& optional_decimal_field(ms, "quantity"@) is Some
        &&& text_field(ms, "selfTradePrevention"@) is Some
        &&& (text_field(ms, "status"@) matches Some(t) && StrategyStatus::decode(t) is Some)
        &&& text_field(ms, "side"@) is Some
        &&& text_field(ms, "symbol"@) is Some
        &&& text_field(ms, "timeInForce"@) is Some
        &&& (optional_integer_field(ms, "clientStrategyId"@) matches Some(o) && (o matches Some(v) ==> 0 <= v <= u32::MAX))
        &&& (integer_field(ms, "duration"@) matches Some(v) && 0 <= v <= u64::MAX)
        &&& (integer_field(ms, "interval"@) matches Some(v) && 0 <= v <= u64::MAX)
        &&& bool_field(ms, "randomizedIntervalQuantity"@) is Some
        &&& optional_decimal_field(ms, "slippageTolerance"@) is Some
        &&& optional_text_field(ms, "slippageToleranceType"@) is Some
    }

    /// Each field is what the members hold under its key.
    pub open spec fn read_from(&self, ms: Seq<MemberView>) -> bool {
        &&& integer_field(ms, "id"@) == Some(self.id as int)
        &&& datetime_field(ms, "createdAt"@) == Some((self.created_at.seconds as int, self.created_at.nanos as nat))
        &&& optional_decimal_field(ms, "executedQuantity"@) == Some(match self.executed_quantity { Some(d) => Some(value_pair(d@)), None => None })
        &&& optional_decimal_field(ms, "executedQuoteQuantity"@) == Some(match self.executed_quote_quantity { Some(d) => Some(value_pair(d@)), None => None })
        &&& optional_text_field(ms, "cancelReason"@) == Some(match self.cancel_reason { Some(v) => Some(v.wire()), None => None })
        &&& text_field(ms, "strategyType"@) == Some(self.strategy_type@)
        &&& optional_decimal_field(ms, "quantity"@) == Some(match self.quantity { Some(d) => Some(value_pair(d@)), None => None })
        &&& text_field(ms, "selfTradePrevention"@) == Some(self.self_trade_prevention@)
        &&& text_field(ms, "status"@) == Some(self.status.wire())
        &&& text_field(ms, "side"@) == Some(self.side@)
        &&& text_field(ms, "symbol"@) == Some(self.symbol@)
        &&& text_field(ms, "timeInForce"@) == Some(self.time_in_force@)
        &&& optional_integer_field(ms, "clientStrategyId"@) == Some(match self.client_strategy_id { Some(v) => Some(v as int), None => None })
        &&& integer_field(ms, "duration"@) == Some(self.duration as int)
        &&& integer_field(ms, "interval"@) == Some(self.interval as int)
        &&& bool_field(ms, "randomizedIntervalQuantity"@) == Some(self.randomized_interval_quantity)
        &&& optional_decimal_field(ms, "slippageTolerance"@) == Some(match self.slippage_tolerance { Some(d) => Some(value_pair(d@)), None => None })
        &&& optional_text_field(ms, "slippageToleranceType"@) == Some(match self.slippage_tolerance_type { Some(t) => Some(t@), None => None })
    }

    /// The members of the fields read before `executedQuantity` are readable.
    pub open spec fn readable_before_executed_quantity(ms: Seq<MemberView>) -> bool {
        &&& (integer_field(ms, "id"@) matches Some(v) && i32::MIN <= v <= i32::MAX)
        &&& datetime_field(ms, "createdAt"@) is Some
    }

    /// The members of the fields read before `executedQuoteQuantity` are readable.
    pub open spec fn readable_before_executed_quote_quantity(ms: Seq<MemberView>) -> bool {
        &&& Strategy::readable_before_executed_quantity(ms)
        &&& optional_decimal_field(ms, "executedQuantity"@) is Some
    }

    /// The members of the fields read before `cancelReason` are readable.
    pub open spec fn readable_before_cancel_reason(ms: Seq<MemberView>) -> bool {
        &&& Strategy::readable_before_executed_quote_quantity(ms)
        &&& optional_decimal_field(ms, "executedQuoteQuantity"@) is Some
    }

    /// The members of the fields read before `quantity` are readable.
    pub open spec fn readable_before_quantity(ms: Seq<MemberView>) -> bool {
        &&& Strategy::readable_before_cancel_reason(ms)
        &&& (optional_text_field(ms, "cancelReason"@) matches Some(o) && (o matches Some(t) ==> StrategyCancelReason::decode(t) is Some))
        &&& text_field(ms, "strategyType"@) is Some
    }

    /// The members of the fields read before `status` are readable.
    pub open spec fn readable_before_status(ms: Seq<MemberView>) -> bool {
        &&& Strategy::readable_before_quantity(ms)
        &&& optional_decimal_field(ms, "quantity"@) is Some
        &&& text_field(ms, "selfTradePrevention"@) is Some
    }

    /// The members of the fields read before `slippageTolerance` are readable.
    pub open spec fn readable_before_slippage_tolerance(ms: Seq<MemberView>) -> bool {
        &&& Strategy::readable_before_status(ms)
        &&& (text_field(ms, "status"@) matches Some(t) && StrategyStatus::decode(t) is Some)
        &&& text_field(ms, "side"@) is Some
        &&& text_field(ms, "symbol"@) is Some
        &&& text_field(ms, "timeInForce"@) is Some
        &&& (optional_integer_field(ms, "clientStrategyId"@) matches Some(o) && (o matches Some(v) ==> 0 <= v <= u32::MAX))
        &&& (integer_field(ms, "duration"@) matches Some(v) && 0 <= v <= u64::MAX)
        &&& (integer_field(ms, "interval"@) matches Some(v) && 0 <= v <= u64::MAX)
        &&& bool_field(ms, "randomizedIntervalQuantity"@) is Some
    }

    /// The error of reading these members when the fields read before a decimal or
    /// enumeration field are readable and that field's text is not a decimal or names no
    /// variant: a decode error under that field's key, with the text as its cause.
    pub open spec fn reports(ms: Seq<MemberView>, e: BpxError) -> bool {
        &&& match numeral_text(ms, "executedQuantity"@) {
            Some(t) => Strategy::readable_before_executed_quantity(ms) && decimal_of_text(t) is None ==> invalid_decimal_error(e, "executedQuantity"@, t),
            _ => true,
        }
        &&& match numeral_text(ms, "executedQuoteQuantity"@) {
            Some(t) => Strategy::readable_before_executed_quote_quantity(ms) && decimal_of_text(t) is None ==> invalid_decimal_error(e, "executedQuoteQuantity"@, t),
            _ => true,
        }
        &&& match optional_text_field(ms, "cancelReason"@) {
            Some(Some(t)) => Strategy::readable_before_cancel_reason(ms) && StrategyCancelReason::decode(t) is None ==> unknown_variant_error(e, "cancelReason"@, t),
            _ => true,
        }
        &&& match numeral_text(ms, "quantity"@) {
            Some(t) => Strategy::readable_before_quantity(ms) && decimal_of_text(t) is None ==> invalid_decimal_error(e, "quantity"@, t),
            _ => true,
        }
        &&& match text_field(ms, "status"@) {
            Some(t) => Strategy::readable_before_status(ms) && StrategyStatus::decode(t) is None ==> unknown_variant_error(e, "status"@, t),
            _ => true,
        }
        &&& match numeral_text(ms, "slippageTolerance"@) {
            Some(t) => Strategy::readable_before_slippage_tolerance(ms) && decimal_of_text(t) is None ==> invalid_decimal_error(e, "slippageTolerance"@, t),
            _ => true,
        }
    }

    /// A read record holds the variant whose wire text its `cancelReason` member holds.
    pub proof fn lemma_cancel_reason_round_trip(&self, ms: Seq<MemberView>, v: StrategyCancelReason)
        requires
            self.read_from(ms),
            optional_text_field(ms, "cancelReason"@) == Some(Some(v.wire())),
        ensures
            self.cancel_reason == Some(v),
    {
        if let Some(x) = self.cancel_reason {
            v.lemma_wire_round_trip(x.wire());
            x.lemma_wire_round_trip(v.wire());
        }
    }

    /// A read record holds the variant whose wire text its `status` member holds.
    pub proof fn lemma_status_round_trip(&self, ms: Seq<MemberView>, v: StrategyStatus)
        requires
            self.read_from(ms),
            text_field(ms, "status"@) == Some(v.wire()),
        ensures
            self.status == v,
    {
        v.lemma_wire_round_trip(self.status.wire());
        self.status.lemma_wire_round_trip(v.wire());
    }

    /// The members that an error of reading this record can name: its keys and those of
    /// the records nested in it.
    pub open spec fn member_keys() -> Set<Seq<char>> {
        set!["id"@, "createdAt"@, "executedQuantity"@, "executedQuoteQuantity"@, "cancelReason"@, "strategyType"@, "quantity"@, "selfTradePrevention"@, "status"@, "side"@, "symbol"@, "timeInForce"@, "clientStrategyId"@, "duration"@, "interval"@, "randomizedIntervalQuantity"@, "slippageTolerance"@, "slippageToleranceType"@]
    }

    /// Reads the record from the members of its JSON object.
    pub fn from_members(ms: &Vec<Member>) -> (r: Result<Strategy, BpxError>)
        ensures
            r is Ok <==> Strategy::readable(members_view(ms@)),
            r matches Ok(x) ==> x.read_from(members_view(ms@)),
            r matches Err(e) ==> e is Decode && Strategy::member_keys().contains(e->Decode_member@),
            r matches Err(e) ==> Strategy::reports(members_view(ms@), e),
    {
        let id = read_i32(ms, "id")?;
        let created_at = read_datetime(ms, "createdAt")?;
        let executed_quantity = read_optional_decimal(ms, "executedQuantity")?;
        let executed_quote_quantity = read_optional_decimal(ms, "executedQuoteQuantity")?;
        let cancel_reason = match read_optional_text(ms, "cancelReason")? {
            Some(t) => {
                let v = match StrategyCancelReason::from_wire(t.as_str()) {
                    Ok(v) => v,
                    Err(_) => return Err(unknown_variant_at("cancelReason", &t)),
                };
                proof {
                    v.lemma_wire_round_trip(t@);
                }
                Some(v)
            },
            None => None,
        };
        let strategy_type = read_text(ms, "strategyType")?;
        let quantity = read_optional_decimal(ms, "quantity")?;
        let self_trade_prevention = read_text(ms, "selfTradePrevention")?;
        let status_text = read_text(ms, "status")?;
        let status = match StrategyStatus::from_wire(status_text.as_str()) {
            Ok(v) => v,
            Err(_) => return Err(unknown_variant_at("status", &status_text)),
        };
        proof {
            status.lemma_wire_round_trip(status_text@);
        }
        let side = read_text(ms, "side")?;
        let symbol = read_text(ms, "symbol")?;
        let time_in_force = read_text(ms, "timeInForce")?;
        let client_strategy_id = read_optional_u32(ms, "clientStrategyId")?;
        let duration = read_u64(ms, "duration")?;
        let interval = read_u64(ms, "interval")?;
        let randomized_interval_quantity = read_bool(ms, "randomizedIntervalQuantity")?;
        let slippage_tolerance = read_optional_decimal(ms, "slippageTolerance")?;
        let slippage_tolerance_type = read_optional_text(ms, "slippageToleranceType")?;
        Ok(Strategy {
            id,
            created_at,
            executed_quantity,
            executed_quote_quantity,
            cancel_reason,
            strategy_type,
            quantity,
            self_trade_prevention,
            status,
            side,
            symbol,
            time_in_force,
            client_strategy_id,
            duration,
            interval,
            randomized_interval_quantity,
            slippage_tolerance,
            slippage_tolerance_type,
        })
    }

    /// Reads one record from each list of members, in order.
    pub fn from_member_lists(lists: &Vec<Vec<Member>>) -> (r: Result<Vec<Strategy>, BpxError>)
        ensures
            r is Ok <==> forall|i: int| 0 <= i < lists@.len() ==> Strategy::readable(members_view((#[trigger] lists@[i])@)),
            r matches Ok(v) ==> v@.len() == lists@.len() && forall|i: int| 0 <= i < lists@.len() ==> (#[trigger] v@[i]).read_from(members_view(lists@[i]@)),
            r matches Err(e) ==> e is Decode && Strategy::member_keys().contains(e->Decode_member@),
            r matches Err(e) ==> exists|i: int| 0 <= i < lists@.len() && !Strategy::readable(members_view(lists@[i]@)) && (forall|j: int| 0 <= j < i ==> Strategy::readable(members_view(lists@[j]@))) && Strategy::reports(members_view(lists@[i]@), e),
    {
        let mut out: Vec<Strategy> = Vec::new();
        for i in 0..lists.len()
            invariant
                out@.len() == i,
                forall|j: int| 0 <= j < i ==> Strategy::readable(members_view((#[trigger] lists@[j])@)) && out@[j].read_from(members_view(lists@[j]@)),
        {
            match Strategy::from_members(&lists[i]) {
                Ok(x) => out.push(x),
                Err(e) => {
                    assert(!Strategy::readable(members_view(lists@[i as int]@)));
                    assert(Strategy::reports(members_view(lists@[i as int]@), e));
                    return Err(e);
                },
            }
        }
        Ok(out)
    }

    /// Reads a JSON array of records, in order.
    pub fn list_from_json(text: &str) -> (r: Result<Vec<Strategy>, BpxError>)
        ensures
            match object_list(text@) {
                Some(ls) => (r is Ok <==> forall|i: int| 0 <= i < ls.len() ==> Strategy::readable(#[trigger] ls[i])) && (r matches Ok(v) ==> v@.len() == ls.len() && forall|i: int| 0 <= i < ls.len() ==> (#[trigger] v@[i]).read_from(ls[i])) && (r matches Err(e) ==> exists|i: int| 0 <= i < ls.len() && !Strategy::readable(ls[i]) && (forall|j: int| 0 <= j < i ==> Strategy::readable(ls[j])) && Strategy::reports(ls[i], e)),
                None => r is Err,
            },
            r matches Err(e) ==> e is Decode && (e->Decode_member@ == Seq::<char>::empty() || Strategy::member_keys().contains(e->Decode_member@)),
    {
        let lists = object_list_members(text)?;
        let r = Strategy::from_member_lists(&lists);
        proof {
            let ls = object_list(text@)->Some_0;
            assert(r is Ok <==> forall|i: int| 0 <= i < ls.len() ==> Strategy::readable(#[trigger] ls[i])) by {
                assert forall|i: int| 0 <= i < ls.len() implies #[trigger] ls[i] == members_view(lists@[i]@) by {}
            }
            if r is Ok {
                let v = r->Ok_0;
                assert forall|i: int| 0 <= i < ls.len() implies (#[trigger] v@[i]).read_from(ls[i]) by {
                    assert(members_view(lists@[i]@) == ls[i]);
                }
            }
            if r is Err {
                let e = r->Err_0;
                let i = choose|i: int| 0 <= i < lists@.len() && !Strategy::readable(members_view(lists@[i]@)) && (forall|j: int| 0 <= j < i ==> Strategy::readable(members_view(lists@[j]@))) && Strategy::reports(members_view(lists@[i]@), e);
                assert(members_view(lists@[i]@) == ls[i]);
                assert forall|j: int| 0 <= j < i implies Strategy::readable(#[trigger] ls[j]) by {
                    assert(members_view(lists@[j]@) == ls[j]);
                }
            }
        }
        r
    }
}

} // verus!
