//! Fill and order history: search parameters, records, and their wire enumerations.
use crate::error::BpxError;
use crate::decimal::{value_pair, Decimal};
use crate::json::{
    unknown_variant_at, bool_field, datetime_field, decimal_field, members_view, object_list,
    object_list_members, optional_bool_field, optional_decimal_field, optional_integer_field,
    optional_text_field, read_bool, read_datetime, read_decimal, read_optional_bool,
    read_optional_decimal, read_optional_i64, read_optional_text, read_optional_u32, read_text,
    text_field, Member, MemberView,
};
use crate::time::Timestamp;
use crate::markets::MarketType;
use crate::query::{
    encode_query, fields_separable, lemma_observed_keys, lemma_unset_query_is_empty, observed_keys,
    opt_int_text, opt_nat_text, opt_text, query_text, set_keys, FieldText, QueryField,
};
use crate::strategies::SortDirection;
use crate::text::text_eq;
use crate::decimal::decimal_of_text;
use crate::error::{invalid_decimal_error, unknown_variant_error};
use crate::json::numeral_text;
use vstd::prelude::*;

verus! {

/// Filters of the fill history. Every filter is optional; unset ones are left out of the
/// request. `limit` defaults to 100 (at most 1000) and `offset` to 0, on the server's side.
#[derive(Debug, Clone)]
pub struct FillHistorySearchParams {
    /// Only records of this order.
    pub order_id: Option<String>,
    /// Only records of this strategy.
    pub strategy_id: Option<String>,
    /// Earliest time, in milliseconds.
    pub from: Option<i64>,
    /// Latest time, in milliseconds.
    pub to: Option<i64>,
    /// Only records in this market.
    pub symbol: Option<String>,
    /// Most results to return.
    pub limit: Option<u64>,
    /// Results to skip.
    pub offset: Option<u64>,
    pub fill_type: Option<FillType>,
    pub market_type: Option<MarketType>,
    pub sort_direction: Option<SortDirection>,
}

impl Default for FillHistorySearchParams {
    /// No filter set.
    fn default() -> (r: FillHistorySearchParams)
        ensures
            r.is_unset(),
    {
        FillHistorySearchParams::new()
    }
}

impl FillHistorySearchParams {
    /// No filter set.
    pub fn new() -> (r: FillHistorySearchParams)
        ensures
            r.is_unset(),
    {
        FillHistorySearchParams {
            order_id: None,
            strategy_id: None,
            from: None,
            to: None,
            symbol: None,
            limit: None,
            offset: None,
            fill_type: None,
            market_type: None,
            sort_direction: None,
        }
    }

    pub open spec fn is_unset(&self) -> bool {
        &&& self.order_id is None
        &&& self.strategy_id is None
        &&& self.from is None
        &&& self.to is None
        &&& self.symbol is None
        &&& self.limit is None
        &&& self.offset is None
        &&& self.fill_type is None
        &&& self.market_type is None
        &&& self.sort_direction is None
    }

    /// The limit that the server applies when the request sets none.
    pub fn default_limit() -> (r: Option<u64>)
        ensures
            r == Some(100u64),
    {
        Some(100)
    }

    /// The offset that the server applies when the request sets none.
    pub fn default_offset() -> (r: Option<u64>)
        ensures
            r == Some(0u64),
    {
        Some(0)
    }

    /// The filters in their wire order, each with its key and value text.
    pub open spec fn query_fields(&self) -> Seq<FieldText> {
        seq![
            ("order_id"@, opt_text(self.order_id)),
            ("strategy_id"@, opt_text(self.strategy_id)),
            ("from"@, opt_int_text(self.from)),
            ("to"@, opt_int_text(self.to)),
            ("symbol"@, opt_text(self.symbol)),
            ("limit"@, opt_nat_text(self.limit)),
            ("offset"@, opt_nat_text(self.offset)),
            ("fill_type"@, match self.fill_type { Some(t) => Some(t.wire()), None => None }),
            ("market_type"@, match self.market_type { Some(t) => Some(t.wire()), None => None }),
            ("sort_direction"@, match self.sort_direction { Some(t) => Some(t.wire()), None => None }),
        ]
    }

    /// The query string of these filters: `?` and `key=value` for each filter set, joined
    /// by `&`, in the order above; empty when none is set.
    pub fn to_query_string(&self) -> (r: String)
        ensures
            r@ == query_text(self.query_fields()),
    {
        let mut fields: Vec<QueryField> = Vec::new();
        fields.push(QueryField::text("order_id", &self.order_id));
        fields.push(QueryField::text("strategy_id", &self.strategy_id));
        fields.push(QueryField::signed("from", self.from));
        fields.push(QueryField::signed("to", self.to));
        fields.push(QueryField::text("symbol", &self.symbol));
        fields.push(QueryField::unsigned("limit", self.limit));
        fields.push(QueryField::unsigned("offset", self.offset));
        fields.push(QueryField::wire("fill_type", match self.fill_type {
            Some(t) => Some(t.to_wire()),
            None => None,
        }));
        fields.push(QueryField::wire("market_type", match self.market_type {
            Some(t) => Some(t.to_wire()),
            None => None,
        }));
        fields.push(QueryField::wire("sort_direction", match self.sort_direction {
            Some(t) => Some(t.to_wire()),
            None => None,
        }));
        assert(fields@.map_values(|f: QueryField| f@) =~= self.query_fields());
        encode_query(&fields)
    }

    /// With no filter set, the query string is empty.
    pub proof fn lemma_unset_is_empty(&self)
        requires
            self.is_unset(),
        ensures
            query_text(self.query_fields()) == Seq::<char>::empty(),
    {
        lemma_unset_query_is_empty(self.query_fields());
    }

    /// The keys that a server reads from the query string are exactly those of the filters
    /// set, in the order above, whatever the filters' texts hold.
    pub proof fn lemma_keys_observed(&self)
        ensures
            observed_keys(query_text(self.query_fields())) == set_keys(self.query_fields()),
            forall|k: Seq<char>|
                #![trigger observed_keys(query_text(self.query_fields())).contains(k)]
                observed_keys(query_text(self.query_fields())).contains(k) <==> exists|i: int|
                    0 <= i < self.query_fields().len() && (#[trigger] self.query_fields()[i]).0 == k
                        && self.query_fields()[i].1 is Some,
    {
        let fields = self.query_fields();
        reveal_strlit("order_id");
        reveal_strlit("strategy_id");
        reveal_strlit("from");
        reveal_strlit("to");
        reveal_strlit("symbol");
        reveal_strlit("limit");
        reveal_strlit("offset");
        reveal_strlit("fill_type");
        reveal_strlit("market_type");
        reveal_strlit("sort_direction");
        assert(fields_separable(fields));
        lemma_observed_keys(fields);
    }
}

/// Filters of the order history. Every filter is optional; unset ones are left out of the
/// request. `limit` defaults to 100 (at most 1000) and `offset` to 0, on the server's side.
#[derive(Debug, Clone)]
pub struct OrderHistorySearchParams {
    /// Only records of this order.
    pub order_id: Option<String>,
    /// Only records of this strategy.
    pub strategy_id: Option<String>,
    /// Only records in this market.
    pub symbol: Option<String>,
    /// Most results to return.
    pub limit: Option<u64>,
    /// Results to skip.
    pub offset: Option<u64>,
    pub market_type: Option<MarketType>,
    pub sort_direction: Option<SortDirection>,
}

impl Default for OrderHistorySearchParams {
    /// No filter set.
    fn default() -> (r: OrderHistorySearchParams)
        ensures
            r.is_unset(),
    {
        OrderHistorySearchParams::new()
    }
}

impl OrderHistorySearchParams {
    /// No filter set.
    pub fn new() -> (r: OrderHistorySearchParams)
        ensures
            r.is_unset(),
    {
        OrderHistorySearchParams {
            order_id: None,
            strategy_id: None,
            symbol: None,
            limit: None,
            offset: None,
            market_type: None,
            sort_direction: None,
        }
    }

    pub open spec fn is_unset(&self) -> bool {
        &&& self.order_id is None
        &&& self.strategy_id is None
        &&& self.symbol is None
        &&& self.limit is None
        &&& self.offset is None
        &&& self.market_type is None
        &&& self.sort_direction is None
    }

    /// The limit that the server applies when the request sets none.
    pub fn default_limit() -> (r: Option<u64>)
        ensures
            r == Some(100u64),
    {
        Some(100)
    }

    /// The offset that the server applies when the request sets none.
    pub fn default_offset() -> (r: Option<u64>)
        ensures
            r == Some(0u64),
    {
        Some(0)
    }

    /// The filters in their wire order, each with its key and value text.
    pub open spec fn query_fields(&self) -> Seq<FieldText> {
        seq![
            ("order_id"@, opt_text(self.order_id)),
            ("strategy_id"@, opt_text(self.strategy_id)),
            ("symbol"@, opt_text(self.symbol)),
            ("limit"@, opt_nat_text(self.limit)),
            ("offset"@, opt_nat_text(self.offset)),
            ("market_type"@, match self.market_type { Some(t) => Some(t.wire()), None => None }),
            ("sort_direction"@, match self.sort_direction { Some(t) => Some(t.wire()), None => None }),
        ]
    }

    /// The query string of these filters: `?` and `key=value` for each filter set, joined
    /// by `&`, in the order above; empty when none is set.
    pub fn to_query_string(&self) -> (r: String)
        ensures
            r@ == query_text(self.query_fields()),
    {
        let mut fields: Vec<QueryField> = Vec::new();
        fields.push(QueryField::text("order_id", &self.order_id));
        fields.push(QueryField::text("strategy_id", &self.strategy_id));
        fields.push(QueryField::text("symbol", &self.symbol));
        fields.push(QueryField::unsigned("limit", self.limit));
        fields.push(QueryField::unsigned("offset", self.offset));
        fields.push(QueryField::wire("market_type", match self.market_type {
            Some(t) => Some(t.to_wire()),
            None => None,
        }));
        fields.push(QueryField::wire("sort_direction", match self.sort_direction {
            Some(t) => Some(t.to_wire()),
            None => None,
        }));
        assert(fields@.map_values(|f: QueryField| f@) =~= self.query_fields());
        encode_query(&fields)
    }

    /// With no filter set, the query string is empty.
    pub proof fn lemma_unset_is_empty(&self)
        requires
            self.is_unset(),
        ensures
            query_text(self.query_fields()) == Seq::<char>::empty(),
    {
        lemma_unset_query_is_empty(self.query_fields());
    }

    /// The keys that a server reads from the query string are exactly those of the filters
    /// set, in the order above, whatever the filters' texts hold.
    pub proof fn lemma_keys_observed(&self)
        ensures
            observed_keys(query_text(self.query_fields())) == set_keys(self.query_fields()),
            forall|k: Seq<char>|
                #![trigger observed_keys(query_text(self.query_fields())).contains(k)]
                observed_keys(query_text(self.query_fields())).contains(k) <==> exists|i: int|
                    0 <= i < self.query_fields().len() && (#[trigger] self.query_fields()[i]).0 == k
                        && self.query_fields()[i].1 is Some,
    {
        let fields = self.query_fields();
        reveal_strlit("order_id");
        reveal_strlit("strategy_id");
        reveal_strlit("symbol");
        reveal_strlit("limit");
        reveal_strlit("offset");
        reveal_strlit("market_type");
        reveal_strlit("sort_direction");
        assert(fields_separable(fields));
        lemma_observed_keys(fields);
    }
}

/// What caused a fill.
#[derive(Debug, Clone, Copy, PartialEq, Eq, Hash, Structural)]
pub enum FillType {
    User,
    BookLiquidation,
    Adl,
    Backstop,
    Liquidation,
    AllLiquidation,
    CollateralConversion,
    CollateralConversionAndSpotLiquidation,
}

impl FillType {
    /// The wire text of each variant.
    pub open spec fn wire(self) -> Seq<char> {
        match self {
            FillType::User => "User"@,
            FillType::BookLiquidation => "BookLiquidation"@,
            FillType::Adl => "Adl"@,
            FillType::Backstop => "Backstop"@,
            FillType::Liquidation => "Liquidation"@,
            FillType::AllLiquidation => "AllLiquidation"@,
            FillType::CollateralConversion => "CollateralConversion"@,
            FillType::CollateralConversionAndSpotLiquidation => "CollateralConversionAndSpotLiquidation"@,
        }
    }

    /// The variant whose wire text is `s`, if there is one.
    pub open spec fn decode(s: Seq<char>) -> Option<FillType> {
        if s == "User"@ {
            Some(FillType::User)
        } else if s == "BookLiquidation"@ {
            Some(FillType::BookLiquidation)
        } else if s == "Adl"@ {
            Some(FillType::Adl)
        } else if s == "Backstop"@ {
            Some(FillType::Backstop)
        } else if s == "Liquidation"@ {
            Some(FillType::Liquidation)
        } else if s == "AllLiquidation"@ {
            Some(FillType::AllLiquidation)
        } else if s == "CollateralConversion"@ {
            Some(FillType::CollateralConversion)
        } else if s == "CollateralConversionAndSpotLiquidation"@ {
            Some(FillType::CollateralConversionAndSpotLiquidation)
        } else {
            None
        }
    }

    /// The wire text of this variant.
    pub fn to_wire(&self) -> (r: &'static str)
        ensures
            r@ == self.wire(),
    {
        match self {
            FillType::User => "User",
            FillType::BookLiquidation => "BookLiquidation",
            FillType::Adl => "Adl",
            FillType::Backstop => "Backstop",
            FillType::Liquidation => "Liquidation",
            FillType::AllLiquidation => "AllLiquidation",
            FillType::CollateralConversion => "CollateralConversion",
            FillType::CollateralConversionAndSpotLiquidation => "CollateralConversionAndSpotLiquidation",
        }
    }

    /// Reads a variant from its wire text; any other text is an unknown variant.
    pub fn from_wire(s: &str) -> (r: Result<FillType, BpxError>)
        ensures
            match FillType::decode(s@) {
                Some(v) => r == Ok::<_, BpxError>(v),
                None => r is Err && r->Err_0 is UnknownVariant
                    && r->Err_0->UnknownVariant_input@ == s@,
            },
    {
        if text_eq(s, "User") {
            Ok(FillType::User)
        } else if text_eq(s, "BookLiquidation") {
            Ok(FillType::BookLiquidation)
        } else if text_eq(s, "Adl") {
            Ok(FillType::Adl)
        } else if text_eq(s, "Backstop") {
            Ok(FillType::Backstop)
        } else if text_eq(s, "Liquidation") {
            Ok(FillType::Liquidation)
        } else if text_eq(s, "AllLiquidation") {
            Ok(FillType::AllLiquidation)
        } else if text_eq(s, "CollateralConversion") {
            Ok(FillType::CollateralConversion)
        } else if text_eq(s, "CollateralConversionAndSpotLiquidation") {
            Ok(FillType::CollateralConversionAndSpotLiquidation)
        } else {
            Err(BpxError::UnknownVariant { input: s.to_owned() })
        }
    }

    /// Decoding the wire text of a variant gives that variant back, and a text that is
    /// the wire text of no variant decodes to nothing.
    pub proof fn lemma_wire_round_trip(self, s: Seq<char>)
        ensures
            FillType::decode(self.wire()) == Some(self),
            FillType::decode(s) == Some(self) <==> self.wire() == s,
            FillType::decode(s) is None <==> (forall|v: FillType| v.wire() != s),
    {
        reveal_strlit("User");
        reveal_strlit("BookLiquidation");
        reveal_strlit("Adl");
        reveal_strlit("Backstop");
        reveal_strlit("Liquidation");
        reveal_strlit("AllLiquidation");
        reveal_strlit("CollateralConversion");
        reveal_strlit("CollateralConversionAndSpotLiquidation");
        assert("User"@.len() == 4);
        assert("BookLiquidation"@.len() == 15);
        assert("Adl"@.len() == 3);
        assert("Backstop"@.len() == 8);
        assert("Liquidation"@.len() == 11);
        assert("AllLiquidation"@.len() == 14);
        assert("CollateralConversion"@.len() == 20);
        assert("CollateralConversionAndSpotLiquidation"@.len() == 38);
        match self {
            FillType::User => {},
            FillType::BookLiquidation => {},
            FillType::Adl => {},
            FillType::Backstop => {},
            FillType::Liquidation => {},
            FillType::AllLiquidation => {},
            FillType::CollateralConversion => {},
            FillType::CollateralConversionAndSpotLiquidation => {},
        }
        if let Some(v) = FillType::decode(s) {
            assert(v.wire() == s);
        }
    }
}

/// The kind of order that the exchange placed on the user's behalf.
#[derive(Debug, Clone, Copy, PartialEq, Eq, Hash, Structural)]
pub enum SystemOrderType {
    CollateralConversion,
    FutureExpiry,
    LiquidatePositionOnAdl,
    LiquidatePositionOnBook,
    LiquidatePositionOnBackstop,
    OrderBookClosed,
}

impl SystemOrderType {
    /// The wire text of each variant.
    pub open spec fn wire(self) -> Seq<char> {
        match self {
            SystemOrderType::CollateralConversion => "CollateralConversion"@,
            SystemOrderType::FutureExpiry => "FutureExpiry"@,
            SystemOrderType::LiquidatePositionOnAdl => "LiquidatePositionOnAdl"@,
            SystemOrderType::LiquidatePositionOnBook => "LiquidatePositionOnBook"@,
            SystemOrderType::LiquidatePositionOnBackstop => "LiquidatePositionOnBackstop"@,
            SystemOrderType::OrderBookClosed => "OrderBookClosed"@,
        }
    }

    /// The variant whose wire text is `s`, if there is one.
    pub open spec fn decode(s: Seq<char>) -> Option<SystemOrderType> {
        if s == "CollateralConversion"@ {
            Some(SystemOrderType::CollateralConversion)
        } else if s == "FutureExpiry"@ {
            Some(SystemOrderType::FutureExpiry)
        } else if s == "LiquidatePositionOnAdl"@ {
            Some(SystemOrderType::LiquidatePositionOnAdl)
        } else if s == "LiquidatePositionOnBook"@ {
            Some(SystemOrderType::LiquidatePositionOnBook)
        } else if s == "LiquidatePositionOnBackstop"@ {
            Some(SystemOrderType::LiquidatePositionOnBackstop)
        } else if s == "OrderBookClosed"@ {
            Some(SystemOrderType::OrderBookClosed)
        } else {
            None
        }
    }

    /// The wire text of this variant.
    pub fn to_wire(&self) -> (r: &'static str)
        ensures
            r@ == self.wire(),
    {
        match self {
            SystemOrderType::CollateralConversion => "CollateralConversion",
            SystemOrderType::FutureExpiry => "FutureExpiry",
            SystemOrderType::LiquidatePositionOnAdl => "LiquidatePositionOnAdl",
            SystemOrderType::LiquidatePositionOnBook => "LiquidatePositionOnBook",
            SystemOrderType::LiquidatePositionOnBackstop => "LiquidatePositionOnBackstop",
            SystemOrderType::OrderBookClosed => "OrderBookClosed",
        }
    }

    /// Reads a variant from its wire text; any other text is an unknown variant.
    pub fn from_wire(s: &str) -> (r: Result<SystemOrderType, BpxError>)
        ensures
            match SystemOrderType::decode(s@) {
                Some(v) => r == Ok::<_, BpxError>(v),
                None => r is Err && r->Err_0 is UnknownVariant
                    && r->Err_0->UnknownVariant_input@ == s@,
            },
    {
        if text_eq(s, "CollateralConversion") {
            Ok(SystemOrderType::CollateralConversion)
        } else if text_eq(s, "FutureExpiry") {
            Ok(SystemOrderType::FutureExpiry)
        } else if text_eq(s, "LiquidatePositionOnAdl") {
            Ok(SystemOrderType::LiquidatePositionOnAdl)
        } else if text_eq(s, "LiquidatePositionOnBook") {
            Ok(SystemOrderType::LiquidatePositionOnBook)
        } else if text_eq(s, "LiquidatePositionOnBackstop") {
            Ok(SystemOrderType::LiquidatePositionOnBackstop)
        } else if text_eq(s, "OrderBookClosed") {
            Ok(SystemOrderType::OrderBookClosed)
        } else {
            Err(BpxError::UnknownVariant { input: s.to_owned() })
        }
    }

    /// Decoding the wire text of a variant gives that variant back, and a text that is
    /// the wire text of no variant decodes to nothing.
    pub proof fn lemma_wire_round_trip(self, s: Seq<char>)
        ensures
            SystemOrderType::decode(self.wire()) == Some(self),
            SystemOrderType::decode(s) == Some(self) <==> self.wire() == s,
            SystemOrderType::decode(s) is None <==> (forall|v: SystemOrderType| v.wire() != s),
    {
        reveal_strlit("CollateralConversion");
        reveal_strlit("FutureExpiry");
        reveal_strlit("LiquidatePositionOnAdl");
        reveal_strlit("LiquidatePositionOnBook");
        reveal_strlit("LiquidatePositionOnBackstop");
        reveal_strlit("OrderBookClosed");
        assert("CollateralConversion"@.len() == 20);
        assert("FutureExpiry"@.len() == 12);
        assert("LiquidatePositionOnAdl"@.len() == 22);
        assert("LiquidatePositionOnBook"@.len() == 23);
        assert("LiquidatePositionOnBackstop"@.len() == 27);
        assert("OrderBookClosed"@.len() == 15);
        match self {
            SystemOrderType::CollateralConversion => {},
            SystemOrderType::FutureExpiry => {},
            SystemOrderType::LiquidatePositionOnAdl => {},
            SystemOrderType::LiquidatePositionOnBook => {},
            SystemOrderType::LiquidatePositionOnBackstop => {},
            SystemOrderType::OrderBookClosed => {},
        }
        if let Some(v) = SystemOrderType::decode(s) {
            assert(v.wire() == s);
        }
    }
}

/// Why an order expired.
#[derive(Debug, Clone, Copy, PartialEq, Eq, Hash, Structural)]
pub enum OrderExpiryReason {
    AccountTradingSuspended,
    BorrowRequiresLendRedeem,
    FillOrKill,
    InsufficientBorrowableQuantity,
    InsufficientFunds,
    InsufficientLiquidity,
    InvalidPrice,
    InvalidQuantity,
    ImmediateOrCancel,
    InsufficientMargin,
    Liquidation,
    NegativeEquity,
    PostOnlyMode,
    PostOnlyTaker,
    PriceOutOfBounds,
    ReduceOnlyNotReduced,
    SelfTradePrevention,
    StopWithoutPosition,
    PriceImpact,
    Unknown,
    UserPermissions,
    MaxStopOrdersPerPosition,
    PositionLimit,
    SlippageToleranceExceeded,
}

impl OrderExpiryReason {
    /// The wire text of each variant.
    pub open spec fn wire(self) -> Seq<char> {
        match self {
            OrderExpiryReason::AccountTradingSuspended => "AccountTradingSuspended"@,
            OrderExpiryReason::BorrowRequiresLendRedeem => "BorrowRequiresLendRedeem"@,
            OrderExpiryReason::FillOrKill => "FillOrKill"@,
            OrderExpiryReason::InsufficientBorrowableQuantity => "InsufficientBorrowableQuantity"@,
            OrderExpiryReason::InsufficientFunds => "InsufficientFunds"@,
            OrderExpiryReason::InsufficientLiquidity => "InsufficientLiquidity"@,
            OrderExpiryReason::InvalidPrice => "InvalidPrice"@,
            OrderExpiryReason::InvalidQuantity => "InvalidQuantity"@,
            OrderExpiryReason::ImmediateOrCancel => "ImmediateOrCancel"@,
            OrderExpiryReason::InsufficientMargin => "InsufficientMargin"@,
            OrderExpiryReason::Liquidation => "Liquidation"@,
            OrderExpiryReason::NegativeEquity => "NegativeEquity"@,
            OrderExpiryReason::PostOnlyMode => "PostOnlyMode"@,
            OrderExpiryReason::PostOnlyTaker => "PostOnlyTaker"@,
            OrderExpiryReason::PriceOutOfBounds => "PriceOutOfBounds"@,
            OrderExpiryReason::ReduceOnlyNotReduced => "ReduceOnlyNotReduced"@,
            OrderExpiryReason::SelfTradePrevention => "SelfTradePrevention"@,
            OrderExpiryReason::StopWithoutPosition => "StopWithoutPosition"@,
            OrderExpiryReason::PriceImpact => "PriceImpact"@,
            OrderExpiryReason::Unknown => "Unknown"@,
            OrderExpiryReason::UserPermissions => "UserPermissions"@,
            OrderExpiryReason::MaxStopOrdersPerPosition => "MaxStopOrdersPerPosition"@,
            OrderExpiryReason::PositionLimit => "PositionLimit"@,
            OrderExpiryReason::SlippageToleranceExceeded => "SlippageToleranceExceeded"@,
        }
    }

    /// The variant whose wire text is `s`, if there is one.
    pub open spec fn decode(s: Seq<char>) -> Option<OrderExpiryReason> {
        if s == "AccountTradingSuspended"@ {
            Some(OrderExpiryReason::AccountTradingSuspended)
        } else if s == "BorrowRequiresLendRedeem"@ {
            Some(OrderExpiryReason::BorrowRequiresLendRedeem)
        } else if s == "FillOrKill"@ {
            Some(OrderExpiryReason::FillOrKill)
        } else if s == "InsufficientBorrowableQuantity"@ {
            Some(OrderExpiryReason::InsufficientBorrowableQuantity)
        } else if s == "InsufficientFunds"@ {
            Some(OrderExpiryReason::InsufficientFunds)
        } else if s == "InsufficientLiquidity"@ {
            Some(OrderExpiryReason::InsufficientLiquidity)
        } else if s == "InvalidPrice"@ {
            Some(OrderExpiryReason::InvalidPrice)
        } else if s == "InvalidQuantity"@ {
            Some(OrderExpiryReason::InvalidQuantity)
        } else if s == "ImmediateOrCancel"@ {
            Some(OrderExpiryReason::ImmediateOrCancel)
        } else if s == "InsufficientMargin"@ {
            Some(OrderExpiryReason::InsufficientMargin)
        } else if s == "Liquidation"@ {
            Some(OrderExpiryReason::Liquidation)
        } else if s == "NegativeEquity"@ {
            Some(OrderExpiryReason::NegativeEquity)
        } else if s == "PostOnlyMode"@ {
            Some(OrderExpiryReason::PostOnlyMode)
        } else if s == "PostOnlyTaker"@ {
            Some(OrderExpiryReason::PostOnlyTaker)
        } else if s == "PriceOutOfBounds"@ {
            Some(OrderExpiryReason::PriceOutOfBounds)
        } else if s == "ReduceOnlyNotReduced"@ {
            Some(OrderExpiryReason::ReduceOnlyNotReduced)
        } else if s == "SelfTradePrevention"@ {
            Some(OrderExpiryReason::SelfTradePrevention)
        } else if s == "StopWithoutPosition"@ {
            Some(OrderExpiryReason::StopWithoutPosition)
        } else if s == "PriceImpact"@ {
            Some(OrderExpiryReason::PriceImpact)
        } else if s == "Unknown"@ {
            Some(OrderExpiryReason::Unknown)
        } else if s == "UserPermissions"@ {
            Some(OrderExpiryReason::UserPermissions)
        } else if s == "MaxStopOrdersPerPosition"@ {
            Some(OrderExpiryReason::MaxStopOrdersPerPosition)
        } else if s == "PositionLimit"@ {
            Some(OrderExpiryReason::PositionLimit)
        } else if s == "SlippageToleranceExceeded"@ {
            Some(OrderExpiryReason::SlippageToleranceExceeded)
        } else {
            None
        }
    }

    /// The wire text of this variant.
    pub fn to_wire(&self) -> (r: &'static str)
        ensures
            r@ == self.wire(),
    {
        match self {
            OrderExpiryReason::AccountTradingSuspended => "AccountTradingSuspended",
            OrderExpiryReason::BorrowRequiresLendRedeem => "BorrowRequiresLendRedeem",
            OrderExpiryReason::FillOrKill => "FillOrKill",
            OrderExpiryReason::InsufficientBorrowableQuantity => "InsufficientBorrowableQuantity",
            OrderExpiryReason::InsufficientFunds => "InsufficientFunds",
            OrderExpiryReason::InsufficientLiquidity => "InsufficientLiquidity",
            OrderExpiryReason::InvalidPrice => "InvalidPrice",
            OrderExpiryReason::InvalidQuantity => "InvalidQuantity",
            OrderExpiryReason::ImmediateOrCancel => "ImmediateOrCancel",
            OrderExpiryReason::InsufficientMargin => "InsufficientMargin",
            OrderExpiryReason::Liquidation => "Liquidation",
            OrderExpiryReason::NegativeEquity => "NegativeEquity",
            OrderExpiryReason::PostOnlyMode => "PostOnlyMode",
            OrderExpiryReason::PostOnlyTaker => "PostOnlyTaker",
            OrderExpiryReason::PriceOutOfBounds => "PriceOutOfBounds",
            OrderExpiryReason::ReduceOnlyNotReduced => "ReduceOnlyNotReduced",
            OrderExpiryReason::SelfTradePrevention => "SelfTradePrevention",
            OrderExpiryReason::StopWithoutPosition => "StopWithoutPosition",
            OrderExpiryReason::PriceImpact => "PriceImpact",
            OrderExpiryReason::Unknown => "Unknown",
            OrderExpiryReason::UserPermissions => "UserPermissions",
            OrderExpiryReason::MaxStopOrdersPerPosition => "MaxStopOrdersPerPosition",
            OrderExpiryReason::PositionLimit => "PositionLimit",
            OrderExpiryReason::SlippageToleranceExceeded => "SlippageToleranceExceeded",
        }
    }

    /// Reads a variant from its wire text; any other text is an unknown variant.
    pub fn from_wire(s: &str) -> (r: Result<OrderExpiryReason, BpxError>)
        ensures
            match OrderExpiryReason::decode(s@) {
                Some(v) => r == Ok::<_, BpxError>(v),
                None => r is Err && r->Err_0 is UnknownVariant
                    && r->Err_0->UnknownVariant_input@ == s@,
            },
    {
        if text_eq(s, "AccountTradingSuspended") {
            Ok(OrderExpiryReason::AccountTradingSuspended)
        } else if text_eq(s, "BorrowRequiresLendRedeem") {
            Ok(OrderExpiryReason::BorrowRequiresLendRedeem)
        } else if text_eq(s, "FillOrKill") {
            Ok(OrderExpiryReason::FillOrKill)
        } else if text_eq(s, "InsufficientBorrowableQuantity") {
            Ok(OrderExpiryReason::InsufficientBorrowableQuantity)
        } else if text_eq(s, "InsufficientFunds") {
            Ok(OrderExpiryReason::InsufficientFunds)
        } else if text_eq(s, "InsufficientLiquidity") {
            Ok(OrderExpiryReason::InsufficientLiquidity)
        } else if text_eq(s, "InvalidPrice") {
            Ok(OrderExpiryReason::InvalidPrice)
        } else if text_eq(s, "InvalidQuantity") {
            Ok(OrderExpiryReason::InvalidQuantity)
        } else if text_eq(s, "ImmediateOrCancel") {
            Ok(OrderExpiryReason::ImmediateOrCancel)
        } else if text_eq(s, "InsufficientMargin") {
            Ok(OrderExpiryReason::InsufficientMargin)
        } else if text_eq(s, "Liquidation") {
            Ok(OrderExpiryReason::Liquidation)
        } else if text_eq(s, "NegativeEquity") {
            Ok(OrderExpiryReason::NegativeEquity)
        } else if text_eq(s, "PostOnlyMode") {
            Ok(OrderExpiryReason::PostOnlyMode)
        } else if text_eq(s, "PostOnlyTaker") {
            Ok(OrderExpiryReason::PostOnlyTaker)
        } else if text_eq(s, "PriceOutOfBounds") {
            Ok(OrderExpiryReason::PriceOutOfBounds)
        } else if text_eq(s, "ReduceOnlyNotReduced") {
            Ok(OrderExpiryReason::ReduceOnlyNotReduced)
        } else if text_eq(s, "SelfTradePrevention") {
            Ok(OrderExpiryReason::SelfTradePrevention)
        } else if text_eq(s, "StopWithoutPosition") {
            Ok(OrderExpiryReason::StopWithoutPosition)
        } else if text_eq(s, "PriceImpact") {
            Ok(OrderExpiryReason::PriceImpact)
        } else if text_eq(s, "Unknown") {
            Ok(OrderExpiryReason::Unknown)
        } else if text_eq(s, "UserPermissions") {
            Ok(OrderExpiryReason::UserPermissions)
        } else if text_eq(s, "MaxStopOrdersPerPosition") {
            Ok(OrderExpiryReason::MaxStopOrdersPerPosition)
        } else if text_eq(s, "PositionLimit") {
            Ok(OrderExpiryReason::PositionLimit)
        } else if text_eq(s, "SlippageToleranceExceeded") {
            Ok(OrderExpiryReason::SlippageToleranceExceeded)
        } else {
            Err(BpxError::UnknownVariant { input: s.to_owned() })
        }
    }

    /// Decoding the wire text of a variant gives that variant back, and a text that is
    /// the wire text of no variant decodes to nothing.
    pub proof fn lemma_wire_round_trip(self, s: Seq<char>)
        ensures
            OrderExpiryReason::decode(self.wire()) == Some(self),
            OrderExpiryReason::decode(s) == Some(self) <==> self.wire() == s,
            OrderExpiryReason::decode(s) is None <==> (forall|v: OrderExpiryReason| v.wire() != s),
    {
        reveal_strlit("AccountTradingSuspended");
        reveal_strlit("BorrowRequiresLendRedeem");
        reveal_strlit("FillOrKill");
        reveal_strlit("InsufficientBorrowableQuantity");
        reveal_strlit("InsufficientFunds");
        reveal_strlit("InsufficientLiquidity");
        reveal_strlit("InvalidPrice");
        reveal_strlit("InvalidQuantity");
        reveal_strlit("ImmediateOrCancel");
        reveal_strlit("InsufficientMargin");
        reveal_strlit("Liquidation");
        reveal_strlit("NegativeEquity");
        reveal_strlit("PostOnlyMode");
        reveal_strlit("PostOnlyTaker");
        reveal_strlit("PriceOutOfBounds");
        reveal_strlit("ReduceOnlyNotReduced");
        reveal_strlit("SelfTradePrevention");
        reveal_strlit("StopWithoutPosition");
        reveal_strlit("PriceImpact");
        reveal_strlit("Unknown");
        reveal_strlit("UserPermissions");
        reveal_strlit("MaxStopOrdersPerPosition");
        reveal_strlit("PositionLimit");
        reveal_strlit("SlippageToleranceExceeded");
        assert("AccountTradingSuspended"@.len() == 23);
        assert("BorrowRequiresLendRedeem"@.len() == 24);
        assert("FillOrKill"@.len() == 10);
        assert("InsufficientBorrowableQuantity"@.len() == 30);
        assert("InsufficientFunds"@.len() == 17);
        assert("InsufficientLiquidity"@.len() == 21);
        assert("InvalidPrice"@.len() == 12);
        assert("InvalidQuantity"@.len() == 15);
        assert("ImmediateOrCancel"@.len() == 17);
        assert("InsufficientMargin"@.len() == 18);
        assert("Liquidation"@.len() == 11);
        assert("NegativeEquity"@.len() == 14);
        assert("PostOnlyMode"@.len() == 12);
        assert("PostOnlyTaker"@.len() == 13);
        assert("PriceOutOfBounds"@.len() == 16);
        assert("ReduceOnlyNotReduced"@.len() == 20);
        assert("SelfTradePrevention"@.len() == 19);
        assert("StopWithoutPosition"@.len() == 19);
        assert("PriceImpact"@.len() == 11);
        assert("Unknown"@.len() == 7);
        assert("UserPermissions"@.len() == 15);
        assert("MaxStopOrdersPerPosition"@.len() == 24);
        assert("PositionLimit"@.len() == 13);
        assert("SlippageToleranceExceeded"@.len() == 25);
        assert("BorrowRequiresLendRedeem"@[0] != "MaxStopOrdersPerPosition"@[0]);
        assert("InsufficientFunds"@[1] != "ImmediateOrCancel"@[1]);
        assert("InvalidPrice"@[0] != "PostOnlyMode"@[0]);
        assert("InvalidQuantity"@[0] != "UserPermissions"@[0]);
        assert("Liquidation"@[0] != "PriceImpact"@[0]);
        assert("PostOnlyTaker"@[3] != "PositionLimit"@[3]);
        assert("SelfTradePrevention"@[1] != "StopWithoutPosition"@[1]);
        match self {
            OrderExpiryReason::AccountTradingSuspended => {},
            OrderExpiryReason::BorrowRequiresLendRedeem => {},
            OrderExpiryReason::FillOrKill => {},
            OrderExpiryReason::InsufficientBorrowableQuantity => {},
            OrderExpiryReason::InsufficientFunds => {},
            OrderExpiryReason::InsufficientLiquidity => {},
            OrderExpiryReason::InvalidPrice => {},
            OrderExpiryReason::InvalidQuantity => {},
            OrderExpiryReason::ImmediateOrCancel => {},
            OrderExpiryReason::InsufficientMargin => {},
            OrderExpiryReason::Liquidation => {},
            OrderExpiryReason::NegativeEquity => {},
            OrderExpiryReason::PostOnlyMode => {},
            OrderExpiryReason::PostOnlyTaker => {},
            OrderExpiryReason::PriceOutOfBounds => {},
            OrderExpiryReason::ReduceOnlyNotReduced => {},
            OrderExpiryReason::SelfTradePrevention => {},
            OrderExpiryReason::StopWithoutPosition => {},
            OrderExpiryReason::PriceImpact => {},
            OrderExpiryReason::Unknown => {},
            OrderExpiryReason::UserPermissions => {},
            OrderExpiryReason::MaxStopOrdersPerPosition => {},
            OrderExpiryReason::PositionLimit => {},
            OrderExpiryReason::SlippageToleranceExceeded => {},
        }
        if let Some(v) = OrderExpiryReason::decode(s) {
            assert(v.wire() == s);
        }
    }
}

/// Type of a historical order.
#[derive(Debug, Clone, Copy, PartialEq, Eq, Hash, Structural)]
pub enum HistoricOrderType {
    Limit,
    Market,
}

impl HistoricOrderType {
    /// The wire text of each variant.
    pub open spec fn wire(self) -> Seq<char> {
        match self {
            HistoricOrderType::Limit => "Limit"@,
            HistoricOrderType::Market => "Market"@,
        }
    }

    /// The variant whose wire text is `s`, if there is one.
    pub open spec fn decode(s: Seq<char>) -> Option<HistoricOrderType> {
        if s == "Limit"@ {
            Some(HistoricOrderType::Limit)
        } else if s == "Market"@ {
            Some(HistoricOrderType::Market)
        } else {
            None
        }
    }

    /// The wire text of this variant.
    pub fn to_wire(&self) -> (r: &'static str)
        ensures
            r@ == self.wire(),
    {
        match self {
            HistoricOrderType::Limit => "Limit",
            HistoricOrderType::Market => "Market",
        }
    }

    /// Reads a variant from its wire text; any other text is an unknown variant.
    pub fn from_wire(s: &str) -> (r: Result<HistoricOrderType, BpxError>)
        ensures
            match HistoricOrderType::decode(s@) {
                Some(v) => r == Ok::<_, BpxError>(v),
                None => r is Err && r->Err_0 is UnknownVariant
                    && r->Err_0->UnknownVariant_input@ == s@,
            },
    {
        if text_eq(s, "Limit") {
            Ok(HistoricOrderType::Limit)
        } else if text_eq(s, "Market") {
            Ok(HistoricOrderType::Market)
        } else {
            Err(BpxError::UnknownVariant { input: s.to_owned() })
        }
    }

    /// Decoding the wire text of a variant gives that variant back, and a text that is
    /// the wire text of no variant decodes to nothing.
    pub proof fn lemma_wire_round_trip(self, s: Seq<char>)
        ensures
            HistoricOrderType::decode(self.wire()) == Some(self),
            HistoricOrderType::decode(s) == Some(self) <==> self.wire() == s,
            HistoricOrderType::decode(s) is None <==> (forall|v: HistoricOrderType| v.wire() != s),
    {
        reveal_strlit("Limit");
        reveal_strlit("Market");
        assert("Limit"@.len() == 5);
        assert("Market"@.len() == 6);
        match self {
            HistoricOrderType::Limit => {},
            HistoricOrderType::Market => {},
        }
        if let Some(v) = HistoricOrderType::decode(s) {
            assert(v.wire() == s);
        }
    }
}

/// A fill of one of the user's orders. The side is kept as its wire text.
#[derive(Debug, Clone)]
pub struct HistoricFill {
    pub client_id: Option<String>,
    pub fee: Decimal,
    pub fee_symbol: String,
    pub is_maker: bool,
    pub order_id: String,
    pub price: Decimal,
    pub quantity: Decimal,
    pub side: String,
    pub symbol: String,
    pub system_order_type: Option<SystemOrderType>,
    pub timestamp: Timestamp,
    pub trade_id: Option<i64>,
}

impl HistoricFill {
    /// The members hold each field under its key, of its kind.
    pub open spec fn readable(ms: Seq<MemberView>) -> bool {
        &&& optional_text_field(ms, "clientId"@) is Some
        &&& decimal_field(ms, "fee"@) is Some
        &&& text_field(ms, "feeSymbol"@) is Some
        &&& bool_field(ms, "isMaker"@) is Some
        &&& text_field(ms, "orderId"@) is Some
        &&& decimal_field(ms, "price"@) is Some
        &&& decimal_field(ms, "quantity"@) is Some
        &&& text_field(ms, "side"@) is Some
        &&& text_field(ms, "symbol"@) is Some
        &&& (optional_text_field(ms, "systemOrderType"@) matches Some(o) && (o matches Some(t) ==> SystemOrderType::decode(t) is Some))
        &&& datetime_field(ms, "timestamp"@) is Some
        &&& (optional_integer_field(ms, "tradeId"@) matches Some(o) && (o matches Some(v) ==> i64::MIN <= v <= i64::MAX))
    }

    /// Each field is what the members hold under its key.
    pub open spec fn read_from(&self, ms: Seq<MemberView>) -> bool {
        &&& optional_text_field(ms, "clientId"@) == Some(match self.client_id { Some(t) => Some(t@), None => None })
        &&& decimal_field(ms, "fee"@) == Some(value_pair(self.fee@))
        &&& text_field(ms, "feeSymbol"@) == Some(self.fee_symbol@)
        &&& bool_field(ms, "isMaker"@) == Some(self.is_maker)
        &&& text_field(ms, "orderId"@) == Some(self.order_id@)
        &&& decimal_field(ms, "price"@) == Some(value_pair(self.price@))
        &&& decimal_field(ms, "quantity"@) == Some(value_pair(self.quantity@))
        &&& text_field(ms, "side"@) == Some(self.side@)
        &&& text_field(ms, "symbol"@) == Some(self.symbol@)
        &&& optional_text_field(ms, "systemOrderType"@) == Some(match self.system_order_type { Some(v) => Some(v.wire()), None => None })
        &&& datetime_field(ms, "timestamp"@) == Some((self.timestamp.seconds as int, self.timestamp.nanos as nat))
        &&& optional_integer_field(ms, "tradeId"@) == Some(match self.trade_id { Some(v) => Some(v as int), None => None })
    }

    /// The members of the fields read before `fee` are readable.
    pub open spec fn readable_before_fee(ms: Seq<MemberView>) -> bool {
        &&& optional_text_field(ms, "clientId"@) is Some
    }

    /// The members of the fields read before `price` are readable.
    pub open spec fn readable_before_price(ms: Seq<MemberView>) -> bool {
        &&& HistoricFill::readable_before_fee(ms)
        &&& decimal_field(ms, "fee"@) is Some
        &&& text_field(ms, "feeSymbol"@) is Some
        &&& bool_field(ms, "isMaker"@) is Some
        &&& text_field(ms, "orderId"@) is Some
    }

    /// The members of the fields read before `quantity` are readable.
    pub open spec fn readable_before_quantity(ms: Seq<MemberView>) -> bool {
        &&& HistoricFill::readable_before_price(ms)
        &&& decimal_field(ms, "price"@) is Some
    }

    /// The members of the fields read before `systemOrderType` are readable.
    pub open spec fn readable_before_system_order_type(ms: Seq<MemberView>) -> bool {
        &&& HistoricFill::readable_before_quantity(ms)
        &&& decimal_field(ms, "quantity"@) is Some
        &&& text_field(ms, "side"@) is Some
        &&& text_field(ms, "symbol"@) is Some
    }

    /// The error of reading these members when the fields read before a decimal or
    /// enumeration field are readable and that field's text is not a decimal or names no
    /// variant: a decode error under that field's key, with the text as its cause.
    pub open spec fn reports(ms: Seq<MemberView>, e: BpxError) -> bool {
        &&& match numeral_text(ms, "fee"@) {
            Some(t) => HistoricFill::readable_before_fee(ms) && decimal_of_text(t) is None ==> invalid_decimal_error(e, "fee"@, t),
            _ => true,
        }
        &&& match numeral_text(ms, "price"@) {
            Some(t) => HistoricFill::readable_before_price(ms) && decimal_of_text(t) is None ==> invalid_decimal_error(e, "price"@, t),
            _ => true,
        }
        &&& match numeral_text(ms, "quantity"@) {
            Some(t) => HistoricFill::readable_before_quantity(ms) && decimal_of_text(t) is None ==> invalid_decimal_error(e, "quantity"@, t),
            _ => true,
        }
        &&& match optional_text_field(ms, "systemOrderType"@) {
            Some(Some(t)) => HistoricFill::readable_before_system_order_type(ms) && SystemOrderType::decode(t) is None ==> unknown_variant_error(e, "systemOrderType"@, t),
            _ => true,
        }
    }

    /// A read record holds the variant whose wire text its `systemOrderType` member holds.
    pub proof fn lemma_system_order_type_round_trip(&self, ms: Seq<MemberView>, v: SystemOrderType)
        requires
            self.read_from(ms),
            optional_text_field(ms, "systemOrderType"@) == Some(Some(v.wire())),
        ensures
            self.system_order_type == Some(v),
    {
        if let Some(x) = self.system_order_type {
            v.lemma_wire_round_trip(x.wire());
            x.lemma_wire_round_trip(v.wire());
        }
    }

    /// The members that an error of reading this record can name: its keys and those of
    /// the records nested in it.
    pub open spec fn member_keys() -> Set<Seq<char>> {
        set!["clientId"@, "fee"@, "feeSymbol"@, "isMaker"@, "orderId"@, "price"@, "quantity"@, "side"@, "symbol"@, "systemOrderType"@, "timestamp"@, "tradeId"@]
    }

    /// Reads the record from the members of its JSON object.
    pub fn from_members(ms: &Vec<Member>) -> (r: Result<HistoricFill, BpxError>)
        ensures
            r is Ok <==> HistoricFill::readable(members_view(ms@)),
            r matches Ok(x) ==> x.read_from(members_view(ms@)),
            r matches Err(e) ==> e is Decode && HistoricFill::member_keys().contains(e->Decode_member@),
            r matches Err(e) ==> HistoricFill::reports(members_view(ms@), e),
    {
        let client_id = read_optional_text(ms, "clientId")?;
        let fee = read_decimal(ms, "fee")?;
        let fee_symbol = read_text(ms, "feeSymbol")?;
        let is_maker = read_bool(ms, "isMaker")?;
        let order_id = read_text(ms, "orderId")?;
        let price = read_decimal(ms, "price")?;
        let quantity = read_decimal(ms, "quantity")?;
        let side = read_text(ms, "side")?;
        let symbol = read_text(ms, "symbol")?;
        let system_order_type = match read_optional_text(ms, "systemOrderType")? {
            Some(t) => {
                let v = match SystemOrderType::from_wire(t.as_str()) {
                    Ok(v) => v,
                    Err(_) => return Err(unknown_variant_at("systemOrderType", &t)),
                };
                proof {
                    v.lemma_wire_round_trip(t@);
                }
                Some(v)
            },
            None => None,
        };
        let timestamp = read_datetime(ms, "timestamp")?;
        let trade_id = read_optional_i64(ms, "tradeId")?;
        Ok(HistoricFill {
            client_id,
            fee,
            fee_symbol,
            is_maker,
            order_id,
            price,
            quantity,
            side,
            symbol,
            system_order_type,
            timestamp,
            trade_id,
        })
    }

    /// Reads one record from each list of members, in order.
    pub fn from_member_lists(lists: &Vec<Vec<Member>>) -> (r: Result<Vec<HistoricFill>, BpxError>)
        ensures
            r is Ok <==> forall|i: int| 0 <= i < lists@.len() ==> HistoricFill::readable(members_view((#[trigger] lists@[i])@)),
            r matches Ok(v) ==> v@.len() == lists@.len() && forall|i: int| 0 <= i < lists@.len() ==> (#[trigger] v@[i]).read_from(members_view(lists@[i]@)),
            r matches Err(e) ==> e is Decode && HistoricFill::member_keys().contains(e->Decode_member@),
            r matches Err(e) ==> exists|i: int| 0 <= i < lists@.len() && !HistoricFill::readable(members_view(lists@[i]@)) && (forall|j: int| 0 <= j < i ==> HistoricFill::readable(members_view(lists@[j]@))) && HistoricFill::reports(members_view(lists@[i]@), e),
    {
        let mut out: Vec<HistoricFill> = Vec::new();
        for i in 0..lists.len()
            invariant
                out@.len() == i,
                forall|j: int| 0 <= j < i ==> HistoricFill::readable(members_view((#[trigger] lists@[j])@)) && out@[j].read_from(members_view(lists@[j]@)),
        {
            match HistoricFill::from_members(&lists[i]) {
                Ok(x) => out.push(x),
                Err(e) => {
                    assert(!HistoricFill::readable(members_view(lists@[i as int]@)));
                    assert(HistoricFill::reports(members_view(lists@[i as int]@), e));
                    return Err(e);
                },
            }
        }
        Ok(out)
    }

    /// Reads a JSON array of records, in order.
    pub fn list_from_json(text: &str) -> (r: Result<Vec<HistoricFill>, BpxError>)
        ensures
            match object_list(text@) {
                Some(ls) => (r is Ok <==> forall|i: int| 0 <= i < ls.len() ==> HistoricFill::readable(#[trigger] ls[i])) && (r matches Ok(v) ==> v@.len() == ls.len() && forall|i: int| 0 <= i < ls.len() ==> (#[trigger] v@[i]).read_from(ls[i])) && (r matches Err(e) ==> exists|i: int| 0 <= i < ls.len() && !HistoricFill::readable(ls[i]) && (forall|j: int| 0 <= j < i ==> HistoricFill::readable(ls[j])) && HistoricFill::reports(ls[i], e)),
                None => r is Err,
            },
            r matches Err(e) ==> e is Decode && (e->Decode_member@ == Seq::<char>::empty() || HistoricFill::member_keys().contains(e->Decode_member@)),
    {
        let lists = object_list_members(text)?;
        let r = HistoricFill::from_member_lists(&lists);
        proof {
            let ls = object_list(text@)->Some_0;
            assert(r is Ok <==> forall|i: int| 0 <= i < ls.len() ==> HistoricFill::readable(#[trigger] ls[i])) by {
                assert forall|i: int| 0 <= i < ls.len() implies #[trigger] ls[i] == members_view(lists@[i]@) by {}
            }
            if r is Ok {
                let v = r->Ok_0;
                assert forall|i: int| 0 <= i < ls.len() implies (#[trigger] v@[i]).read_from(ls[i]) by {
                    assert(members_view(lists@[i]@) == ls[i]);
                }
            }
            if r is Err {
                let e = r->Err_0;
                let i = choose|i: int| 0 <= i < lists@.len() && !HistoricFill::readable(members_view(lists@[i]@)) && (forall|j: int| 0 <= j < i ==> HistoricFill::readable(members_view(lists@[j]@))) && HistoricFill::reports(members_view(lists@[i]@), e);
                assert(members_view(lists@[i]@) == ls[i]);
                assert forall|j: int| 0 <= j < i implies HistoricFill::readable(#[trigger] ls[j]) by {
                    assert(members_view(lists@[j]@) == ls[j]);
                }
            }
        }
        r
    }
}

/// An order of the user, as history records it. Self-trade prevention, status, side, time in force, trigger references and slippage tolerance type are kept as their wire texts.
#[derive(Debug, Clone)]
pub struct HistoricOrder {
    pub id: String,
    pub created_at: Timestamp,
    pub executed_quantity: Option<Decimal>,
    pub executed_quote_quantity: Option<Decimal>,
    pub expiry_reason: Option<OrderExpiryReason>,
    pub order_type: HistoricOrderType,
    pub post_only: Option<bool>,
    pub price: Option<Decimal>,
    pub quantity: Option<Decimal>,
    pub quote_quantity: Option<Decimal>,
    pub self_trade_prevention: String,
    pub status: String,
    pub side: String,
    pub stop_loss_trigger_price: Option<Decimal>,
    pub stop_loss_limit_price: Option<Decimal>,
    pub stop_loss_trigger_by: Option<String>,
    pub symbol: String,
    pub take_profit_trigger_price: Option<Decimal>,
    pub take_profit_limit_price: Option<Decimal>,
    pub take_profit_trigger_by: Option<String>,
    pub time_in_force: Option<String>,
    pub trigger_by: Option<String>,
    pub trigger_price: Option<Decimal>,
    pub trigger_quantity: Option<Decimal>,
    pub client_id: Option<u32>,
    pub system_order_type: Option<SystemOrderType>,
    pub strategy_id: Option<String>,
    pub slippage_tolerance: Option<Decimal>,
    pub slippage_tolerance_type: Option<String>,
}

impl HistoricOrder {
    /// The members hold each field under its key, of its kind.
    pub open spec fn readable(ms: Seq<MemberView>) -> bool {
        &&& text_field(ms, "id"@) is Some
        &&& datetime_field(ms, "createdAt"@) is Some
        &&& optional_decimal_field(ms, "executedQuantity"@) is Some
        &&& optional_decimal_field(ms, "executedQuoteQuantity"@) is Some
        &&& (optional_text_field(ms, "expiryReason"@) matches Some(o) && (o matches Some(t) ==> OrderExpiryReason::decode(t) is Some))
        &&& (text_field(ms, "orderType"@) matches Some(t) && HistoricOrderType::decode(t) is Some)
        &&& optional_bool_field(ms, "postOnly"@) is Some
        &&& optional_decimal_field(ms, "price"@) is Some
        &&& optional_decimal_field(ms, "quantity"@) is Some
        &&& optional_decimal_field(ms, "quoteQuantity"@) is Some
        &&& text_field(ms, "selfTradePrevention"@) is Some
        &&& text_field(ms, "status"@) is Some
        &&& text_field(ms, "side"@) is Some
        &&& optional_decimal_field(ms, "stopLossTriggerPrice"@) is Some
        &&& optional_decimal_field(ms, "stopLossLimitPrice"@) is Some
        &&& optional_text_field(ms, "stopLossTriggerBy"@) is Some
        &&& text_field(ms, "symbol"@) is Some
        &&& optional_decimal_field(ms, "takeProfitTriggerPrice"@) is Some
        &&& optional_decimal_field(ms, "takeProfitLimitPrice"@) is Some
        &&& optional_text_field(ms, "takeProfitTriggerBy"@) is Some
        &&& optional_text_field(ms, "timeInForce"@) is Some
        &&& optional_text_field(ms, "triggerBy"@) is Some
        &&& optional_decimal_field(ms, "triggerPrice"@) is Some
        &&& optional_decimal_field(ms, "triggerQuantity"@) is Some
        &&& (optional_integer_field(ms, "clientId"@) matches Some(o) && (o matches Some(v) ==> 0 <= v <= u32::MAX))
        &&& (optional_text_field(ms, "systemOrderType"@) matches Some(o) && (o matches Some(t) ==> SystemOrderType::decode(t) is Some))
        &&& optional_text_field(ms, "strategyId"@) is Some
        &&& optional_decimal_field(ms, "slippageTolerance"@) is Some
        &&& optional_text_field(ms, "slippageToleranceType"@) is Some
    }

    /// Each field is what the members hold under its key.
    pub open spec fn read_from(&self, ms: Seq<MemberView>) -> bool {
        &&& text_field(ms, "id"@) == Some(self.id@)
        &&& datetime_field(ms, "createdAt"@) == Some((self.created_at.seconds as int, self.created_at.nanos as nat))
        &&& optional_decimal_field(ms, "executedQuantity"@) == Some(match self.executed_quantity { Some(d) => Some(value_pair(d@)), None => None })
        &&& optional_decimal_field(ms, "executedQuoteQuantity"@) == Some(match self.executed_quote_quantity { Some(d) => Some(value_pair(d@)), None => None })
        &&& optional_text_field(ms, "expiryReason"@) == Some(match self.expiry_reason { Some(v) => Some(v.wire()), None => None })
        &&& text_field(ms, "orderType"@) == Some(self.order_type.wire())
        &&& optional_bool_field(ms, "postOnly"@) == Some(self.post_only)
        &&& optional_decimal_field(ms, "price"@) == Some(match self.price { Some(d) => Some(value_pair(d@)), None => None })
        &&& optional_decimal_field(ms, "quantity"@) == Some(match self.quantity { Some(d) => Some(value_pair(d@)), None => None })
        &&& optional_decimal_field(ms, "quoteQuantity"@) == Some(match self.quote_quantity { Some(d) => Some(value_pair(d@)), None => None })
        &&& text_field(ms, "selfTradePrevention"@) == Some(self.self_trade_prevention@)
        &&& text_field(ms, "status"@) == Some(self.status@)
        &&& text_field(ms, "side"@) == Some(self.side@)
        &&& optional_decimal_field(ms, "stopLossTriggerPrice"@) == Some(match self.stop_loss_trigger_price { Some(d) => Some(value_pair(d@)), None => None })
        &&& optional_decimal_field(ms, "stopLossLimitPrice"@) == Some(match self.stop_loss_limit_price { Some(d) => Some(value_pair(d@)), None => None })
        &&& optional_text_field(ms, "stopLossTriggerBy"@) == Some(match self.stop_loss_trigger_by { Some(t) => Some(t@), None => None })
        &&& text_field(ms, "symbol"@) == Some(self.symbol@)
        &&& optional_decimal_field(ms, "takeProfitTriggerPrice"@) == Some(match self.take_profit_trigger_price { Some(d) => Some(value_pair(d@)), None => None })
        &&& optional_decimal_field(ms, "takeProfitLimitPrice"@) == Some(match self.take_profit_limit_price { Some(d) => Some(value_pair(d@)), None => None })
        &&& optional_text_field(ms, "takeProfitTriggerBy"@) == Some(match self.take_profit_trigger_by { Some(t) => Some(t@), None => None })
        &&& optional_text_field(ms, "timeInForce"@) == Some(match self.time_in_force { Some(t) => Some(t@), None => None })
        &&& optional_text_field(ms, "triggerBy"@) == Some(match self.trigger_by { Some(t) => Some(t@), None => None })
        &&& optional_decimal_field(ms, "triggerPrice"@) == Some(match self.trigger_price { Some(d) => Some(value_pair(d@)), None => None })
        &&& optional_decimal_field(ms, "triggerQuantity"@) == Some(match self.trigger_quantity { Some(d) => Some(value_pair(d@)), None => None })
        &&& optional_integer_field(ms, "clientId"@) == Some(match self.client_id { Some(v) => Some(v as int), None => None })
        &&& optional_text_field(ms, "systemOrderType"@) == Some(match self.system_order_type { Some(v) => Some(v.wire()), None => None })
        &&& optional_text_field(ms, "strategyId"@) == Some(match self.strategy_id { Some(t) => Some(t@), None => None })
        &&& optional_decimal_field(ms, "slippageTolerance"@) == Some(match self.slippage_tolerance { Some(d) => Some(value_pair(d@)), None => None })
        &&& optional_text_field(ms, "slippageToleranceType"@) == Some(match self.slippage_tolerance_type { Some(t) => Some(t@), None => None })
    }

    /// The members of the fields read before `executedQuantity` are readable.
    pub open spec fn readable_before_executed_quantity(ms: Seq<MemberView>) -> bool {
        &&& text_field(ms, "id"@) is Some
        &&& datetime_field(ms, "createdAt"@) is Some
    }

    /// The members of the fields read before `executedQuoteQuantity` are readable.
    pub open spec fn readable_before_executed_quote_quantity(ms: Seq<MemberView>) -> bool {
        &&& HistoricOrder::readable_before_executed_quantity(ms)
        &&& optional_decimal_field(ms, "executedQuantity"@) is Some
    }

    /// The members of the fields read before `expiryReason` are readable.
    pub open spec fn readable_before_expiry_reason(ms: Seq<MemberView>) -> bool {
        &&& HistoricOrder::readable_before_executed_quote_quantity(ms)
        &&& optional_decimal_field(ms, "executedQuoteQuantity"@) is Some
    }

    /// The members of the fields read before `orderType` are readable.
    pub open spec fn readable_before_order_type(ms: Seq<MemberView>) -> bool {
        &&& HistoricOrder::readable_before_expiry_reason(ms)
        &&& (optional_text_field(ms, "expiryReason"@) matches Some(o) && (o matches Some(t) ==> OrderExpiryReason::decode(t) is Some))
    }

    /// The members of the fields read before `price` are readable.
    pub open spec fn readable_before_price(ms: Seq<MemberView>) -> bool {
        &&& HistoricOrder::readable_before_order_type(ms)
        &&& (text_field(ms, "orderType"@) matches Some(t) && HistoricOrderType::decode(t) is Some)
        &&& optional_bool_field(ms, "postOnly"@) is Some
    }

    /// The members of the fields read before `quantity` are readable.
    pub open spec fn readable_before_quantity(ms: Seq<MemberView>) -> bool {
        &&& HistoricOrder::readable_before_price(ms)
        &&& optional_decimal_field(ms, "price"@) is Some
    }

    /// The members of the fields read before `quoteQuantity` are readable.
    pub open spec fn readable_before_quote_quantity(ms: Seq<MemberView>) -> bool {
        &&& HistoricOrder::readable_before_quantity(ms)
        &&& optional_decimal_field(ms, "quantity"@) is Some
    }

    /// The members of the fields read before `stopLossTriggerPrice` are readable.
    pub open spec fn readable_before_stop_loss_trigger_price(ms: Seq<MemberView>) -> bool {
        &&& HistoricOrder::readable_before_quote_quantity(ms)
        &&& optional_decimal_field(ms, "quoteQuantity"@) is Some
        &&& text_field(ms, "selfTradePrevention"@) is Some
        &&& text_field(ms, "status"@) is Some
        &&& text_field(ms, "side"@) is Some
    }

    /// The members of the fields read before `stopLossLimitPrice` are readable.
    pub open spec fn readable_before_stop_loss_limit_price(ms: Seq<MemberView>) -> bool {
        &&& HistoricOrder::readable_before_stop_loss_trigger_price(ms)
        &&& optional_decimal_field(ms, "stopLossTriggerPrice"@) is Some
    }

    /// The members of the fields read before `takeProfitTriggerPrice` are readable.
    pub open spec fn readable_before_take_profit_trigger_price(ms: Seq<MemberView>) -> bool {
        &&& HistoricOrder::readable_before_stop_loss_limit_price(ms)
        &&& optional_decimal_field(ms, "stopLossLimitPrice"@) is Some
        &&& optional_text_field(ms, "stopLossTriggerBy"@) is Some
        &&& text_field(ms, "symbol"@) is Some
    }

    /// The members of the fields read before `takeProfitLimitPrice` are readable.
    pub open spec fn readable_before_take_profit_limit_price(ms: Seq<MemberView>) -> bool {
        &&& HistoricOrder::readable_before_take_profit_trigger_price(ms)
        &&& optional_decimal_field(ms, "takeProfitTriggerPrice"@) is Some
    }

    /// The members of the fields read before `triggerPrice` are readable.
    pub open spec fn readable_before_trigger_price(ms: Seq<MemberView>) -> bool {
        &&& HistoricOrder::readable_before_take_profit_limit_price(ms)
        &&& optional_decimal_field(ms, "takeProfitLimitPrice"@) is Some
        &&& optional_text_field(ms, "takeProfitTriggerBy"@) is Some
        &&& optional_text_field(ms, "timeInForce"@) is Some
        &&& optional_text_field(ms, "triggerBy"@) is Some
    }

    /// The members of the fields read before `triggerQuantity` are readable.
    pub open spec fn readable_before_trigger_quantity(ms: Seq<MemberView>) -> bool {
        &&& HistoricOrder::readable_before_trigger_price(ms)
        &&& optional_decimal_field(ms, "triggerPrice"@) is Some
    }

    /// The members of the fields read before `systemOrderType` are readable.
    pub open spec fn readable_before_system_order_type(ms: Seq<MemberView>) -> bool {
        &&& HistoricOrder::readable_before_trigger_quantity(ms)
        &&& optional_decimal_field(ms, "triggerQuantity"@) is Some
        &&& (optional_integer_field(ms, "clientId"@) matches Some(o) && (o matches Some(v) ==> 0 <= v <= u32::MAX))
    }

    /// The members of the fields read before `slippageTolerance` are readable.
    pub open spec fn readable_before_slippage_tolerance(ms: Seq<MemberView>) -> bool {
        &&& HistoricOrder::readable_before_system_order_type(ms)
        &&& (optional_text_field(ms, "systemOrderType"@) matches Some(o) && (o matches Some(t) ==> SystemOrderType::decode(t) is Some))
        &&& optional_text_field(ms, "strategyId"@) is Some
    }

    /// The error of reading these members when the fields read before a decimal or
    /// enumeration field are readable and that field's text is not a decimal or names no
    /// variant: a decode error under that field's key, with the text as its cause.
    pub open spec fn reports(ms: Seq<MemberView>, e: BpxError) -> bool {
        &&& match numeral_text(ms, "executedQuantity"@) {
            Some(t) => HistoricOrder::readable_before_executed_quantity(ms) && decimal_of_text(t) is None ==> invalid_decimal_error(e, "executedQuantity"@, t),
            _ => true,
        }
        &&& match numeral_text(ms, "executedQuoteQuantity"@) {
            Some(t) => HistoricOrder::readable_before_executed_quote_quantity(ms) && decimal_of_text(t) is None ==> invalid_decimal_error(e, "executedQuoteQuantity"@, t),
            _ => true,
        }
        &&& match optional_text_field(ms, "expiryReason"@) {
            Some(Some(t)) => HistoricOrder::readable_before_expiry_reason(ms) && OrderExpiryReason::decode(t) is None ==> unknown_variant_error(e, "expiryReason"@, t),
            _ => true,
        }
        &&& match text_field(ms, "orderType"@) {
            Some(t) => HistoricOrder::readable_before_order_type(ms) && HistoricOrderType::decode(t) is None ==> unknown_variant_error(e, "orderType"@, t),
            _ => true,
        }
        &&& match numeral_text(ms, "price"@) {
            Some(t) => HistoricOrder::readable_before_price(ms) && decimal_of_text(t) is None ==> invalid_decimal_error(e, "price"@, t),
            _ => true,
        }
        &&& match numeral_text(ms, "quantity"@) {
            Some(t) => HistoricOrder::readable_before_quantity(ms) && decimal_of_text(t) is None ==> invalid_decimal_error(e, "quantity"@, t),
            _ => true,
        }
        &&& match numeral_text(ms, "quoteQuantity"@) {
            Some(t) => HistoricOrder::readable_before_quote_quantity(ms) && decimal_of_text(t) is None ==> invalid_decimal_error(e, "quoteQuantity"@, t),
            _ => true,
        }
        &&& match numeral_text(ms, "stopLossTriggerPrice"@) {
            Some(t) => HistoricOrder::readable_before_stop_loss_trigger_price(ms) && decimal_of_text(t) is None ==> invalid_decimal_error(e, "stopLossTriggerPrice"@, t),
            _ => true,
        }
        &&& match numeral_text(ms, "stopLossLimitPrice"@) {
            Some(t) => HistoricOrder::readable_before_stop_loss_limit_price(ms) && decimal_of_text(t) is None ==> invalid_decimal_error(e, "stopLossLimitPrice"@, t),
            _ => true,
        }
        &&& match numeral_text(ms, "takeProfitTriggerPrice"@) {
            Some(t) => HistoricOrder::readable_before_take_profit_trigger_price(ms) && decimal_of_text(t) is None ==> invalid_decimal_error(e, "takeProfitTriggerPrice"@, t),
            _ => true,
        }
        &&& match numeral_text(ms, "takeProfitLimitPrice"@) {
            Some(t) => HistoricOrder::readable_before_take_profit_limit_price(ms) && decimal_of_text(t) is None ==> invalid_decimal_error(e, "takeProfitLimitPrice"@, t),
            _ => true,
        }
        &&& match numeral_text(ms, "triggerPrice"@) {
            Some(t) => HistoricOrder::readable_before_trigger_price(ms) && decimal_of_text(t) is None ==> invalid_decimal_error(e, "triggerPrice"@, t),
            _ => true,
        }
        &&& match numeral_text(ms, "triggerQuantity"@) {
            Some(t) => HistoricOrder::readable_before_trigger_quantity(ms) && decimal_of_text(t) is None ==> invalid_decimal_error(e, "triggerQuantity"@, t),
            _ => true,
        }
        &&& match optional_text_field(ms, "systemOrderType"@) {
            Some(Some(t)) => HistoricOrder::readable_before_system_order_type(ms) && SystemOrderType::decode(t) is None ==> unknown_variant_error(e, "systemOrderType"@, t),
            _ => true,
        }
        &&& match numeral_text(ms, "slippageTolerance"@) {
            Some(t) => HistoricOrder::readable_before_slippage_tolerance(ms) && decimal_of_text(t) is None ==> invalid_decimal_error(e, "slippageTolerance"@, t),
            _ => true,
        }
    }

    /// A read record holds the variant whose wire text its `expiryReason` member holds.
    pub proof fn lemma_expiry_reason_round_trip(&self, ms: Seq<MemberView>, v: OrderExpiryReason)
        requires
            self.read_from(ms),
            optional_text_field(ms, "expiryReason"@) == Some(Some(v.wire())),
        ensures
            self.expiry_reason == Some(v),
    {
        if let Some(x) = self.expiry_reason {
            v.lemma_wire_round_trip(x.wire());
            x.lemma_wire_round_trip(v.wire());
        }
    }

    /// A read record holds the variant whose wire text its `orderType` member holds.
    pub proof fn lemma_order_type_round_trip(&self, ms: Seq<MemberView>, v: HistoricOrderType)
        requires
            self.read_from(ms),
            text_field(ms, "orderType"@) == Some(v.wire()),
        ensures
            self.order_type == v,
    {
        v.lemma_wire_round_trip(self.order_type.wire());
        self.order_type.lemma_wire_round_trip(v.wire());
    }

    /// A read record holds the variant whose wire text its `systemOrderType` member holds.
    pub proof fn lemma_system_order_type_round_trip(&self, ms: Seq<MemberView>, v: SystemOrderType)
        requires
            self.read_from(ms),
            optional_text_field(ms, "systemOrderType"@) == Some(Some(v.wire())),
        ensures
            self.system_order_type == Some(v),
    {
        if let Some(x) = self.system_order_type {
            v.lemma_wire_round_trip(x.wire());
            x.lemma_wire_round_trip(v.wire());
        }
    }

    /// The members that an error of reading this record can name: its keys and those of
    /// the records nested in it.
    pub open spec fn member_keys() -> Set<Seq<char>> {
        set!["id"@, "createdAt"@, "executedQuantity"@, "executedQuoteQuantity"@, "expiryReason"@, "orderType"@, "postOnly"@, "price"@, "quantity"@, "quoteQuantity"@, "selfTradePrevention"@, "status"@, "side"@, "stopLossTriggerPrice"@, "stopLossLimitPrice"@, "stopLossTriggerBy"@, "symbol"@, "takeProfitTriggerPrice"@, "takeProfitLimitPrice"@, "takeProfitTriggerBy"@, "timeInForce"@, "triggerBy"@, "triggerPrice"@, "triggerQuantity"@, "clientId"@, "systemOrderType"@, "strategyId"@, "slippageTolerance"@, "slippageToleranceType"@]
    }

    /// Reads the record from the members of its JSON object.
    pub fn from_members(ms: &Vec<Member>) -> (r: Result<HistoricOrder, BpxError>)
        ensures
            r is Ok <==> HistoricOrder::readable(members_view(ms@)),
            r matches Ok(x) ==> x.read_from(members_view(ms@)),
            r matches Err(e) ==> e is Decode && HistoricOrder::member_keys().contains(e->Decode_member@),
            r matches Err(e) ==> HistoricOrder::reports(members_view(ms@), e),
    {
        let id = read_text(ms, "id")?;
        let created_at = read_datetime(ms, "createdAt")?;
        let executed_quantity = read_optional_decimal(ms, "executedQuantity")?;
        let executed_quote_quantity = read_optional_decimal(ms, "executedQuoteQuantity")?;
        let expiry_reason = match read_optional_text(ms, "expiryReason")? {
            Some(t) => {
                let v = match OrderExpiryReason::from_wire(t.as_str()) {
                    Ok(v) => v,
                    Err(_) => return Err(unknown_variant_at("expiryReason", &t)),
                };
                proof {
                    v.lemma_wire_round_trip(t@);
                }
                Some(v)
            },
            None => None,
        };
        let order_type_text = read_text(ms, "orderType")?;
        let order_type = match HistoricOrderType::from_wire(order_type_text.as_str()) {
            Ok(v) => v,
            Err(_) => return Err(unknown_variant_at("orderType", &order_type_text)),
        };
        proof {
            order_type.lemma_wire_round_trip(order_type_text@);
        }
        let post_only = read_optional_bool(ms, "postOnly")?;
        let price = read_optional_decimal(ms, "price")?;
        let quantity = read_optional_decimal(ms, "quantity")?;
        let quote_quantity = read_optional_decimal(ms, "quoteQuantity")?;
        let self_trade_prevention = read_text(ms, "selfTradePrevention")?;
        let status = read_text(ms, "status")?;
        let side = read_text(ms, "side")?;
        let stop_loss_trigger_price = read_optional_decimal(ms, "stopLossTriggerPrice")?;
        let stop_loss_limit_price = read_optional_decimal(ms, "stopLossLimitPrice")?;
        let stop_loss_trigger_by = read_optional_text(ms, "stopLossTriggerBy")?;
        let symbol = read_text(ms, "symbol")?;
        let take_profit_trigger_price = read_optional_decimal(ms, "takeProfitTriggerPrice")?;
        let take_profit_limit_price = read_optional_decimal(ms, "takeProfitLimitPrice")?;
        let take_profit_trigger_by = read_optional_text(ms, "takeProfitTriggerBy")?;
        let time_in_force = read_optional_text(ms, "timeInForce")?;
        let trigger_by = read_optional_text(ms, "triggerBy")?;
        let trigger_price = read_optional_decimal(ms, "triggerPrice")?;
        let trigger_quantity = read_optional_decimal(ms, "triggerQuantity")?;
        let client_id = read_optional_u32(ms, "clientId")?;
        let system_order_type = match read_optional_text(ms, "systemOrderType")? {
            Some(t) => {
                let v = match SystemOrderType::from_wire(t.as_str()) {
                    Ok(v) => v,
                    Err(_) => return Err(unknown_variant_at("systemOrderType", &t)),
                };
                proof {
                    v.lemma_wire_round_trip(t@);
                }
                Some(v)
            },
            None => None,
        };
        let strategy_id = read_optional_text(ms, "strategyId")?;
        let slippage_tolerance = read_optional_decimal(ms, "slippageTolerance")?;
        let slippage_tolerance_type = read_optional_text(ms, "slippageToleranceType")?;
        Ok(HistoricOrder {
            id,
            created_at,
            executed_quantity,
            executed_quote_quantity,
            expiry_reason,
            order_type,
            post_only,
            price,
            quantity,
            quote_quantity,
            self_trade_prevention,
            status,
            side,
            stop_loss_trigger_price,
            stop_loss_limit_price,
            stop_loss_trigger_by,
            symbol,
            take_profit_trigger_price,
            take_profit_limit_price,
            take_profit_trigger_by,
            time_in_force,
            trigger_by,
            trigger_price,
            trigger_quantity,
            client_id,
            system_order_type,
            strategy_id,
            slippage_tolerance,
            slippage_tolerance_type,
        })
    }

    /// Reads one record from each list of members, in order.
    pub fn from_member_lists(lists: &Vec<Vec<Member>>) -> (r: Result<Vec<HistoricOrder>, BpxError>)
        ensures
            r is Ok <==> forall|i: int| 0 <= i < lists@.len() ==> HistoricOrder::readable(members_view((#[trigger] lists@[i])@)),
            r matches Ok(v) ==> v@.len() == lists@.len() && forall|i: int| 0 <= i < lists@.len() ==> (#[trigger] v@[i]).read_from(members_view(lists@[i]@)),
            r matches Err(e) ==> e is Decode && HistoricOrder::member_keys().contains(e->Decode_member@),
            r matches Err(e) ==> exists|i: int| 0 <= i < lists@.len() && !HistoricOrder::readable(members_view(lists@[i]@)) && (forall|j: int| 0 <= j < i ==> HistoricOrder::readable(members_view(lists@[j]@))) && HistoricOrder::reports(members_view(lists@[i]@), e),
    {
        let mut out: Vec<HistoricOrder> = Vec::new();
        for i in 0..lists.len()
            invariant
                out@.len() == i,
                forall|j: int| 0 <= j < i ==> HistoricOrder::readable(members_view((#[trigger] lists@[j])@)) && out@[j].read_from(members_view(lists@[j]@)),
        {
            match HistoricOrder::from_members(&lists[i]) {
                Ok(x) => out.push(x),
                Err(e) => {
                    assert(!HistoricOrder::readable(members_view(lists@[i as int]@)));
                    assert(HistoricOrder::reports(members_view(lists@[i as int]@), e));
                    return Err(e);
                },
            }
        }
        Ok(out)
    }

    /// Reads a JSON array of records, in order.
    pub fn list_from_json(text: &str) -> (r: Result<Vec<HistoricOrder>, BpxError>)
        ensures
            match object_list(text@) {
                Some(ls) => (r is Ok <==> forall|i: int| 0 <= i < ls.len() ==> HistoricOrder::readable(#[trigger] ls[i])) && (r matches Ok(v) ==> v@.len() == ls.len() && forall|i: int| 0 <= i < ls.len() ==> (#[trigger] v@[i]).read_from(ls[i])) && (r matches Err(e) ==> exists|i: int| 0 <= i < ls.len() && !HistoricOrder::readable(ls[i]) && (forall|j: int| 0 <= j < i ==> HistoricOrder::readable(ls[j])) && HistoricOrder::reports(ls[i], e)),
                None => r is Err,
            },
            r matches Err(e) ==> e is Decode && (e->Decode_member@ == Seq::<char>::empty() || HistoricOrder::member_keys().contains(e->Decode_member@)),
    {
        let lists = object_list_members(text)?;
        let r = HistoricOrder::from_member_lists(&lists);
        proof {
            let ls = object_list(text@)->Some_0;
            assert(r is Ok <==> forall|i: int| 0 <= i < ls.len() ==> HistoricOrder::readable(#[trigger] ls[i])) by {
                assert forall|i: int| 0 <= i < ls.len() implies #[trigger] ls[i] == members_view(lists@[i]@) by {}
            }
            if r is Ok {
                let v = r->Ok_0;
                assert forall|i: int| 0 <= i < ls.len() implies (#[trigger] v@[i]).read_from(ls[i]) by {
                    assert(members_view(lists@[i]@) == ls[i]);
                }
            }
            if r is Err {
                let e = r->Err_0;
                let i = choose|i: int| 0 <= i < lists@.len() && !HistoricOrder::readable(members_view(lists@[i]@)) && (forall|j: int| 0 <= j < i ==> HistoricOrder::readable(members_view(lists@[j]@))) && HistoricOrder::reports(members_view(lists@[i]@), e);
                assert(members_view(lists@[i]@) == ls[i]);
                assert forall|j: int| 0 <= j < i implies HistoricOrder::readable(#[trigger] ls[j]) by {
                    assert(members_view(lists@[j]@) == ls[j]);
                }
            }
        }
        r
    }
}

} // verus!
