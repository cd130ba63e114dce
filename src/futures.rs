//! Futures positions and the payloads of the position and open interest streams.
use crate::error::BpxError;
use crate::decimal::{value_pair, Decimal};
use crate::json::{
    unknown_variant_at, composite_field, decimal_field, integer_field, json_members, members_view,
    object_list, object_list_members, object_members, optional_decimal_field,
    optional_integer_field, optional_text_field, read_decimal, read_i64, read_json_text,
    read_optional_decimal, read_optional_text, read_optional_u64, read_text, read_u64, text_field,
    Member, MemberView,
};
use crate::text::text_eq;
use crate::decimal::decimal_of_text;
use crate::error::{invalid_decimal_error, unknown_variant_error};
use crate::json::numeral_text;
use vstd::prelude::*;

verus! {

/// Kind of event on the position stream.
#[derive(Debug, Clone, Copy, PartialEq, Eq, Hash, Structural)]
pub enum PositionUpdateType {
    PositionAdjusted,
    PositionOpened,
    PositionClosed,
}

impl PositionUpdateType {
    /// The wire text of each variant.
    pub open spec fn wire(self) -> Seq<char> {
        match self {
            PositionUpdateType::PositionAdjusted => "positionAdjusted"@,
            PositionUpdateType::PositionOpened => "positionOpened"@,
            PositionUpdateType::PositionClosed => "positionClosed"@,
        }
    }

    /// The variant whose wire text is `s`, if there is one.
    pub open spec fn decode(s: Seq<char>) -> Option<PositionUpdateType> {
        if s == "positionAdjusted"@ {
            Some(PositionUpdateType::PositionAdjusted)
        } else if s == "positionOpened"@ {
            Some(PositionUpdateType::PositionOpened)
        } else if s == "positionClosed"@ {
            Some(PositionUpdateType::PositionClosed)
        } else {
            None
        }
    }

    /// The wire text of this variant.
    pub fn to_wire(&self) -> (r: &'static str)
        ensures
            r@ == self.wire(),
    {
        match self {
            PositionUpdateType::PositionAdjusted => "positionAdjusted",
            PositionUpdateType::PositionOpened => "positionOpened",
            PositionUpdateType::PositionClosed => "positionClosed",
        }
    }

    /// Reads a variant from its wire text; any other text is an unknown variant.
    pub fn from_wire(s: &str) -> (r: Result<PositionUpdateType, BpxError>)
        ensures
            match PositionUpdateType::decode(s@) {
                Some(v) => r == Ok::<_, BpxError>(v),
                None => r is Err && r->Err_0 is UnknownVariant
                    && r->Err_0->UnknownVariant_input@ == s@,
            },
    {
        if text_eq(s, "positionAdjusted") {
            Ok(PositionUpdateType::PositionAdjusted)
        } else if text_eq(s, "positionOpened") {
            Ok(PositionUpdateType::PositionOpened)
        } else if text_eq(s, "positionClosed") {
            Ok(PositionUpdateType::PositionClosed)
        } else {
            Err(BpxError::UnknownVariant { input: s.to_owned() })
        }
    }

    /// Decoding the wire text of a variant gives that variant back, and a text that is
    /// the wire text of no variant decodes to nothing.
    pub proof fn lemma_wire_round_trip(self, s: Seq<char>)
        ensures
            PositionUpdateType::decode(self.wire()) == Some(self),
            PositionUpdateType::decode(s) == Some(self) <==> self.wire() == s,
            PositionUpdateType::decode(s) is None <==> (forall|v: PositionUpdateType| v.wire() != s),
    {
        reveal_strlit("positionAdjusted");
        reveal_strlit("positionOpened");
        reveal_strlit("positionClosed");
        assert("positionAdjusted"@.len() == 16);
        assert("positionOpened"@.len() == 14);
        assert("positionClosed"@.len() == 14);
        assert("positionOpened"@[8] != "positionClosed"@[8]);
        match self {
            PositionUpdateType::PositionAdjusted => {},
            PositionUpdateType::PositionOpened => {},
            PositionUpdateType::PositionClosed => {},
        }
        if let Some(v) = PositionUpdateType::decode(s) {
            assert(v.wire() == s);
        }
    }
}

/// A change to a position, from the position stream.
#[derive(Debug, Clone)]
pub struct PositionUpdate {
    /// Event type, when given. Alias `e`.
    pub event_type: Option<PositionUpdateType>,
    /// Event time, in microseconds. Alias `E`.
    pub event_time: i64,
    /// Market symbol. Alias `s`.
    pub symbol: String,
    /// Alias `b`.
    pub break_even_price: Decimal,
    /// Alias `B`.
    pub entry_price: Decimal,
    /// Initial margin fraction. Alias `f`.
    pub imf: Decimal,
    /// Alias `M`.
    pub mark_price: Decimal,
    /// Maintenance margin fraction. Alias `m`.
    pub mmf: Decimal,
    /// Alias `q`.
    pub net_quantity: Decimal,
    /// Alias `Q`.
    pub net_exposure_quantity: Decimal,
    /// Alias `n`.
    pub net_exposure_notional: Decimal,
    /// Alias `i`.
    pub position_id: u64,
    /// Alias `p`.
    pub pnl_realized: Decimal,
    /// Alias `P`.
    pub pnl_unrealized: Decimal,
    /// Engine time, in microseconds. Alias `T`.
    pub timestamp: u64,
    /// Estimated liquidation price, when given. Alias `l`.
    pub est_liquidation_price: Option<Decimal>,
}

impl PositionUpdate {
    /// The members hold each field under its alias, of its kind.
    pub open spec fn readable(ms: Seq<MemberView>) -> bool {
        &&& (optional_text_field(ms, "e"@) matches Some(o) && (o matches Some(t) ==> PositionUpdateType::decode(t) is Some))
        &&& (integer_field(ms, "E"@) matches Some(v) && i64::MIN <= v <= i64::MAX)
        &&& text_field(ms, "s"@) is Some
        &&& decimal_field(ms, "b"@) is Some
        &&& decimal_field(ms, "B"@) is Some
        &&& decimal_field(ms, "f"@) is Some
        &&& decimal_field(ms, "M"@) is Some
        &&& decimal_field(ms, "m"@) is Some
        &&& decimal_field(ms, "q"@) is Some
        &&& decimal_field(ms, "Q"@) is Some
        &&& decimal_field(ms, "n"@) is Some
        &&& (integer_field(ms, "i"@) matches Some(v) && 0 <= v <= u64::MAX)
        &&& decimal_field(ms, "p"@) is Some
        &&& decimal_field(ms, "P"@) is Some
        &&& (integer_field(ms, "T"@) matches Some(v) && 0 <= v <= u64::MAX)
        &&& optional_decimal_field(ms, "l"@) is Some
    }

    /// Each field is what the members hold under its alias.
    pub open spec fn read_from(&self, ms: Seq<MemberView>) -> bool {
        &&& optional_text_field(ms, "e"@) == Some(match self.event_type { Some(v) => Some(v.wire()), None => None })
        &&& integer_field(ms, "E"@) == Some(self.event_time as int)
        &&& text_field(ms, "s"@) == Some(self.symbol@)
        &&& decimal_field(ms, "b"@) == Some(value_pair(self.break_even_price@))
        &&& decimal_field(ms, "B"@) == Some(value_pair(self.entry_price@))
        &&& decimal_field(ms, "f"@) == Some(value_pair(self.imf@))
        &&& decimal_field(ms, "M"@) == Some(value_pair(self.mark_price@))
        &&& decimal_field(ms, "m"@) == Some(value_pair(self.mmf@))
        &&& decimal_field(ms, "q"@) == Some(value_pair(self.net_quantity@))
        &&& decimal_field(ms, "Q"@) == Some(value_pair(self.net_exposure_quantity@))
        &&& decimal_field(ms, "n"@) == Some(value_pair(self.net_exposure_notional@))
        &&& integer_field(ms, "i"@) == Some(self.position_id as int)
        &&& decimal_field(ms, "p"@) == Some(value_pair(self.pnl_realized@))
        &&& decimal_field(ms, "P"@) == Some(value_pair(self.pnl_unrealized@))
        &&& integer_field(ms, "T"@) == Some(self.timestamp as int)
        &&& optional_decimal_field(ms, "l"@) == Some(match self.est_liquidation_price { Some(d) => Some(value_pair(d@)), None => None })
    }

    /// The members of the fields read before `e` are readable.
    pub open spec fn readable_before_event_type(ms: Seq<MemberView>) -> bool {
        true
    }

    /// The members of the fields read before `b` are readable.
    pub open spec fn readable_before_break_even_price(ms: Seq<MemberView>) -> bool {
        &&& PositionUpdate::readable_before_event_type(ms)
        &&& (optional_text_field(ms, "e"@) matches Some(o) && (o matches Some(t) ==> PositionUpdateType::decode(t) is Some))
        &&& (integer_field(ms, "E"@) matches Some(v) && i64::MIN <= v <= i64::MAX)
        &&& text_field(ms, "s"@) is Some
    }

    /// The members of the fields read before `B` are readable.
    pub open spec fn readable_before_entry_price(ms: Seq<MemberView>) -> bool {
        &&& PositionUpdate::readable_before_break_even_price(ms)
        &&& decimal_field(ms, "b"@) is Some
    }

    /// The members of the fields read before `f` are readable.
    pub open spec fn readable_before_imf(ms: Seq<MemberView>) -> bool {
        &&& PositionUpdate::readable_before_entry_price(ms)
        &&& decimal_field(ms, "B"@) is Some
    }

    /// The members of the fields read before `M` are readable.
    pub open spec fn readable_before_mark_price(ms: Seq<MemberView>) -> bool {
        &&& PositionUpdate::readable_before_imf(ms)
        &&& decimal_field(ms, "f"@) is Some
    }

    /// The members of the fields read before `m` are readable.
    pub open spec fn readable_before_mmf(ms: Seq<MemberView>) -> bool {
        &&& PositionUpdate::readable_before_mark_price(ms)
        &&& decimal_field(ms, "M"@) is Some
    }

    /// The members of the fields read before `q` are readable.
    pub open spec fn readable_before_net_quantity(ms: Seq<MemberView>) -> bool {
        &&& PositionUpdate::readable_before_mmf(ms)
        &&& decimal_field(ms, "m"@) is Some
    }

    /// The members of the fields read before `Q` are readable.
    pub open spec fn readable_before_net_exposure_quantity(ms: Seq<MemberView>) -> bool {
        &&& PositionUpdate::readable_before_net_quantity(ms)
        &&& decimal_field(ms, "q"@) is Some
    }

    /// The members of the fields read before `n` are readable.
    pub open spec fn readable_before_net_exposure_notional(ms: Seq<MemberView>) -> bool {
        &&& PositionUpdate::readable_before_net_exposure_quantity(ms)
        &&& decimal_field(ms, "Q"@) is Some
    }

    /// The members of the fields read before `p` are readable.
    pub open spec fn readable_before_pnl_realized(ms: Seq<MemberView>) -> bool {
        &&& PositionUpdate::readable_before_net_exposure_notional(ms)
        &&& decimal_field(ms, "n"@) is Some
        &&& (integer_field(ms, "i"@) matches Some(v) && 0 <= v <= u64::MAX)
    }

    /// The members of the fields read before `P` are readable.
    pub open spec fn readable_before_pnl_unrealized(ms: Seq<MemberView>) -> bool {
        &&& PositionUpdate::readable_before_pnl_realized(ms)
        &&& decimal_field(ms, "p"@) is Some
    }

    /// The members of the fields read before `l` are readable.
    pub open spec fn readable_before_est_liquidation_price(ms: Seq<MemberView>) -> bool {
        &&& PositionUpdate::readable_before_pnl_unrealized(ms)
        &&& decimal_field(ms, "P"@) is Some
        &&& (integer_field(ms, "T"@) matches Some(v) && 0 <= v <= u64::MAX)
    }

    /// The error of reading these members when the fields read before a decimal or
    /// enumeration field are readable and that field's text is not a decimal or names no
    /// variant: a decode error under that field's key, with the text as its cause.
    pub open spec fn reports(ms: Seq<MemberView>, e: BpxError) -> bool {
        &&& match optional_text_field(ms, "e"@) {
            Some(Some(t)) => PositionUpdate::readable_before_event_type(ms) && PositionUpdateType::decode(t) is None ==> unknown_variant_error(e, "e"@, t),
            _ => true,
        }
        &&& match numeral_text(ms, "b"@) {
            Some(t) => PositionUpdate::readable_before_break_even_price(ms) && decimal_of_text(t) is None ==> invalid_decimal_error(e, "b"@, t),
            _ => true,
        }
        &&& match numeral_text(ms, "B"@) {
            Some(t) => PositionUpdate::readable_before_entry_price(ms) && decimal_of_text(t) is None ==> invalid_decimal_error(e, "B"@, t),
            _ => true,
        }
        &&& match numeral_text(ms, "f"@) {
            Some(t) => PositionUpdate::readable_before_imf(ms) && decimal_of_text(t) is None ==> invalid_decimal_error(e, "f"@, t),
            _ => true,
        }
        &&& match numeral_text(ms, "M"@) {
            Some(t) => PositionUpdate::readable_before_mark_price(ms) && decimal_of_text(t) is None ==> invalid_decimal_error(e, "M"@, t),
            _ => true,
        }
        &&& match numeral_text(ms, "m"@) {
            Some(t) => PositionUpdate::readable_before_mmf(ms) && decimal_of_text(t) is None ==> invalid_decimal_error(e, "m"@, t),
            _ => true,
        }
        &&& match numeral_text(ms, "q"@) {
            Some(t) => PositionUpdate::readable_before_net_quantity(ms) && decimal_of_text(t) is None ==> invalid_decimal_error(e, "q"@, t),
            _ => true,
        }
        &&& match numeral_text(ms, "Q"@) {
            Some(t) => PositionUpdate::readable_before_net_exposure_quantity(ms) && decimal_of_text(t) is None ==> invalid_decimal_error(e, "Q"@, t),
            _ => true,
        }
        &&& match numeral_text(ms, "n"@) {
            Some(t) => PositionUpdate::readable_before_net_exposure_notional(ms) && decimal_of_text(t) is None ==> invalid_decimal_error(e, "n"@, t),
            _ => true,
        }
        &&& match numeral_text(ms, "p"@) {
            Some(t) => PositionUpdate::readable_before_pnl_realized(ms) && decimal_of_text(t) is None ==> invalid_decimal_error(e, "p"@, t),
            _ => true,
        }
        &&& match numeral_text(ms, "P"@) {
            Some(t) => PositionUpdate::readable_before_pnl_unrealized(ms) && decimal_of_text(t) is None ==> invalid_decimal_error(e, "P"@, t),
            _ => true,
        }
        &&& match numeral_text(ms, "l"@) {
            Some(t) => PositionUpdate::readable_before_est_liquidation_price(ms) && decimal_of_text(t) is None ==> invalid_decimal_error(e, "l"@, t),
            _ => true,
        }
    }

    /// A read record holds the variant whose wire text its `e` member holds.
    pub proof fn lemma_event_type_round_trip(&self, ms: Seq<MemberView>, v: PositionUpdateType)
        requires
            self.read_from(ms),
            optional_text_field(ms, "e"@) == Some(Some(v.wire())),
        ensures
            self.event_type == Some(v),
    {
        if let Some(x) = self.event_type {
            v.lemma_wire_round_trip(x.wire());
            x.lemma_wire_round_trip(v.wire());
        }
    }

    /// The members that an error of reading this payload can name: its aliases.
    pub open spec fn member_keys() -> Set<Seq<char>> {
        set!["e"@, "E"@, "s"@, "b"@, "B"@, "f"@, "M"@, "m"@, "q"@, "Q"@, "n"@, "i"@, "p"@, "P"@, "T"@, "l"@]
    }

    /// Reads the payload from the members of its JSON object, by the aliases above.
    pub fn from_members(ms: &Vec<Member>) -> (r: Result<PositionUpdate, BpxError>)
        ensures
            r is Ok <==> PositionUpdate::readable(members_view(ms@)),
            r matches Ok(u) ==> u.read_from(members_view(ms@)),
            r matches Err(e) ==> e is Decode && PositionUpdate::member_keys().contains(e->Decode_member@),
            r matches Err(e) ==> PositionUpdate::reports(members_view(ms@), e),
    {
        let event_type = match read_optional_text(ms, "e")? {
            Some(t) => {
                let v = match PositionUpdateType::from_wire(t.as_str()) {
                    Ok(v) => v,
                    Err(_) => return Err(unknown_variant_at("e", &t)),
                };
                proof {
                    v.lemma_wire_round_trip(t@);
                }
                Some(v)
            },
            None => None,
        };
        let event_time = read_i64(ms, "E")?;
        let symbol = read_text(ms, "s")?;
        let break_even_price = read_decimal(ms, "b")?;
        let entry_price = read_decimal(ms, "B")?;
        let imf = read_decimal(ms, "f")?;
        let mark_price = read_decimal(ms, "M")?;
        let mmf = read_decimal(ms, "m")?;
        let net_quantity = read_decimal(ms, "q")?;
        let net_exposure_quantity = read_decimal(ms, "Q")?;
        let net_exposure_notional = read_decimal(ms, "n")?;
        let position_id = read_u64(ms, "i")?;
        let pnl_realized = read_decimal(ms, "p")?;
        let pnl_unrealized = read_decimal(ms, "P")?;
        let timestamp = read_u64(ms, "T")?;
        let est_liquidation_price = read_optional_decimal(ms, "l")?;
        Ok(PositionUpdate {
            event_type,
            event_time,
            symbol,
            break_even_price,
            entry_price,
            imf,
            mark_price,
            mmf,
            net_quantity,
            net_exposure_quantity,
            net_exposure_notional,
            position_id,
            pnl_realized,
            pnl_unrealized,
            timestamp,
            est_liquidation_price,
        })
    }

    /// Reads the payload from its JSON text.
    pub fn from_json(text: &str) -> (r: Result<PositionUpdate, BpxError>)
        ensures
            match json_members(text@) {
                Some(ms) => (r is Ok <==> PositionUpdate::readable(ms)) && (r matches Ok(u) ==> u.read_from(ms)) && (r matches Err(e) ==> PositionUpdate::reports(ms, e)),
                None => r is Err,
            },
            r matches Err(e) ==> e is Decode && (e->Decode_member@ == Seq::<char>::empty() || PositionUpdate::member_keys().contains(e->Decode_member@)),
    {
        let ms = object_members(text)?;
        PositionUpdate::from_members(&ms)
    }
}

/// Open interest of a market, pushed every 60 seconds by the open interest stream.
#[derive(Debug, Clone)]
pub struct OpenInterestUpdate {
    /// Event type. Alias `e`.
    pub event_type: String,
    /// Event time, in microseconds. Alias `E`.
    pub event_time: i64,
    /// Market symbol. Alias `s`.
    pub symbol: String,
    /// Open interest, in contracts. Alias `o`.
    pub open_interest: Decimal,
}

impl OpenInterestUpdate {
    /// The members hold each field under its alias, of its kind.
    pub open spec fn readable(ms: Seq<MemberView>) -> bool {
        &&& text_field(ms, "e"@) is Some
        &&& (integer_field(ms, "E"@) matches Some(v) && i64::MIN <= v <= i64::MAX)
        &&& text_field(ms, "s"@) is Some
        &&& decimal_field(ms, "o"@) is Some
    }

    /// Each field is what the members hold under its alias.
    pub open spec fn read_from(&self, ms: Seq<MemberView>) -> bool {
        &&& text_field(ms, "e"@) == Some(self.event_type@)
        &&& integer_field(ms, "E"@) == Some(self.event_time as int)
        &&& text_field(ms, "s"@) == Some(self.symbol@)
        &&& decimal_field(ms, "o"@) == Some(value_pair(self.open_interest@))
    }

    /// The members of the fields read before `o` are readable.
    pub open spec fn readable_before_open_interest(ms: Seq<MemberView>) -> bool {
        &&& text_field(ms, "e"@) is Some
        &&& (integer_field(ms, "E"@) matches Some(v) && i64::MIN <= v <= i64::MAX)
        &&& text_field(ms, "s"@) is Some
    }

    /// The error of reading these members when the fields read before a decimal or
    /// enumeration field are readable and that field's text is not a decimal or names no
    /// variant: a decode error under that field's key, with the text as its cause.
    pub open spec fn reports(ms: Seq<MemberView>, e: BpxError) -> bool {
        &&& match numeral_text(ms, "o"@) {
            Some(t) => OpenInterestUpdate::readable_before_open_interest(ms) && decimal_of_text(t) is None ==> invalid_decimal_error(e, "o"@, t),
            _ => true,
        }
    }

    /// The members that an error of reading this payload can name: its aliases.
    pub open spec fn member_keys() -> Set<Seq<char>> {
        set!["e"@, "E"@, "s"@, "o"@]
    }

    /// Reads the payload from the members of its JSON object, by the aliases above.
    pub fn from_members(ms: &Vec<Member>) -> (r: Result<OpenInterestUpdate, BpxError>)
        ensures
            r is Ok <==> OpenInterestUpdate::readable(members_view(ms@)),
            r matches Ok(u) ==> u.read_from(members_view(ms@)),
            r matches Err(e) ==> e is Decode && OpenInterestUpdate::member_keys().contains(e->Decode_member@),
            r matches Err(e) ==> OpenInterestUpdate::reports(members_view(ms@), e),
    {
        let event_type = read_text(ms, "e")?;
        let event_time = read_i64(ms, "E")?;
        let symbol = read_text(ms, "s")?;
        let open_interest = read_decimal(ms, "o")?;
        Ok(OpenInterestUpdate {
            event_type,
            event_time,
            symbol,
            open_interest,
        })
    }

    /// Reads the payload from its JSON text.
    pub fn from_json(text: &str) -> (r: Result<OpenInterestUpdate, BpxError>)
        ensures
            match json_members(text@) {
                Some(ms) => (r is Ok <==> OpenInterestUpdate::readable(ms)) && (r matches Ok(u) ==> u.read_from(ms)) && (r matches Err(e) ==> OpenInterestUpdate::reports(ms, e)),
                None => r is Err,
            },
            r matches Err(e) ==> e is Decode && (e->Decode_member@ == Seq::<char>::empty() || OpenInterestUpdate::member_keys().contains(e->Decode_member@)),
    {
        let ms = object_members(text)?;
        OpenInterestUpdate::from_members(&ms)
    }
}

/// An open futures position.
#[derive(Debug, Clone)]
pub struct FuturePosition {
    pub break_even_price: Decimal,
    pub cumulative_funding_payment: Decimal,
    pub entry_price: Decimal,
    pub est_liquidation_price: Decimal,
    pub imf: Decimal,
    pub imf_function: String,
    pub mark_price: Decimal,
    pub mmf: Decimal,
    pub mmf_function: String,
    pub net_cost: Decimal,
    pub net_exposure_notional: Decimal,
    pub net_exposure_quantity: Decimal,
    pub net_quantity: Decimal,
    pub pnl_realized: Decimal,
    pub pnl_unrealized: Decimal,
    pub position_id: String,
    pub subaccount_id: Option<u64>,
    pub symbol: String,
    pub user_id: u64,
}

impl FuturePosition {
    /// The members hold each field under its key, of its kind.
    pub open spec fn readable(ms: Seq<MemberView>) -> bool {
        &&& decimal_field(ms, "breakEvenPrice"@) is Some
        &&& decimal_field(ms, "cumulativeFundingPayment"@) is Some
        &&& decimal_field(ms, "entryPrice"@) is Some
        &&& decimal_field(ms, "estLiquidationPrice"@) is Some
        &&& decimal_field(ms, "imf"@) is Some
        &&& composite_field(ms, "imfFunction"@) is Some
        &&& decimal_field(ms, "markPrice"@) is Some
        &&& decimal_field(ms, "mmf"@) is Some
        &&& composite_field(ms, "mmfFunction"@) is Some
        &&& decimal_field(ms, "netCost"@) is Some
        &&& decimal_field(ms, "netExposureNotional"@) is Some
        &&& decimal_field(ms, "netExposureQuantity"@) is Some
        &&& decimal_field(ms, "netQuantity"@) is Some
        &&& decimal_field(ms, "pnlRealized"@) is Some
        &&& decimal_field(ms, "pnlUnrealized"@) is Some
        &&& text_field(ms, "positionId"@) is Some
        &&& (optional_integer_field(ms, "subaccountId"@) matches Some(o) && (o matches Some(v) ==> 0 <= v <= u64::MAX))
        &&& text_field(ms, "symbol"@) is Some
        &&& (integer_field(ms, "userId"@) matches Some(v) && 0 <= v <= u64::MAX)
    }

    /// Each field is what the members hold under its key.
    pub open spec fn read_from(&self, ms: Seq<MemberView>) -> bool {
        &&& decimal_field(ms, "breakEvenPrice"@) == Some(value_pair(self.break_even_price@))
        &&& decimal_field(ms, "cumulativeFundingPayment"@) == Some(value_pair(self.cumulative_funding_payment@))
        &&& decimal_field(ms, "entryPrice"@) == Some(value_pair(self.entry_price@))
        &&& decimal_field(ms, "estLiquidationPrice"@) == Some(value_pair(self.est_liquidation_price@))
        &&& decimal_field(ms, "imf"@) == Some(value_pair(self.imf@))
        &&& composite_field(ms, "imfFunction"@) == Some(self.imf_function@)
        &&& decimal_field(ms, "markPrice"@) == Some(value_pair(self.mark_price@))
        &&& decimal_field(ms, "mmf"@) == Some(value_pair(self.mmf@))
        &&& composite_field(ms, "mmfFunction"@) == Some(self.mmf_function@)
        &&& decimal_field(ms, "netCost"@) == Some(value_pair(self.net_cost@))
        &&& decimal_field(ms, "netExposureNotional"@) == Some(value_pair(self.net_exposure_notional@))
        &&& decimal_field(ms, "netExposureQuantity"@) == Some(value_pair(self.net_exposure_quantity@))
        &&& decimal_field(ms, "netQuantity"@) == Some(value_pair(self.net_quantity@))
        &&& decimal_field(ms, "pnlRealized"@) == Some(value_pair(self.pnl_realized@))
        &&& decimal_field(ms, "pnlUnrealized"@) == Some(value_pair(self.pnl_unrealized@))
        &&& text_field(ms, "positionId"@) == Some(self.position_id@)
        &&& optional_integer_field(ms, "subaccountId"@) == Some(match self.subaccount_id { Some(v) => Some(v as int), None => None })
        &&& text_field(ms, "symbol"@) == Some(self.symbol@)
        &&& integer_field(ms, "userId"@) == Some(self.user_id as int)
    }

    /// The members of the fields read before `breakEvenPrice` are readable.
    pub open spec fn readable_before_break_even_price(ms: Seq<MemberView>) -> bool {
        true
    }

    /// The members of the fields read before `cumulativeFundingPayment` are readable.
    pub open spec fn readable_before_cumulative_funding_payment(ms: Seq<MemberView>) -> bool {
        &&& FuturePosition::readable_before_break_even_price(ms)
        &&& decimal_field(ms, "breakEvenPrice"@) is Some
    }

    /// The members of the fields read before `entryPrice` are readable.
    pub open spec fn readable_before_entry_price(ms: Seq<MemberView>) -> bool {
        &&& FuturePosition::readable_before_cumulative_funding_payment(ms)
        &&& decimal_field(ms, "cumulativeFundingPayment"@) is Some
    }

    /// The members of the fields read before `estLiquidationPrice` are readable.
    pub open spec fn readable_before_est_liquidation_price(ms: Seq<MemberView>) -> bool {
        &&& FuturePosition::readable_before_entry_price(ms)
        &&& decimal_field(ms, "entryPrice"@) is Some
    }

    /// The members of the fields read before `imf` are readable.
    pub open spec fn readable_before_imf(ms: Seq<MemberView>) -> bool {
        &&& FuturePosition::readable_before_est_liquidation_price(ms)
        &&& decimal_field(ms, "estLiquidationPrice"@) is Some
    }

    /// The members of the fields read before `markPrice` are readable.
    pub open spec fn readable_before_mark_price(ms: Seq<MemberView>) -> bool {
        &&& FuturePosition::readable_before_imf(ms)
        &&& decimal_field(ms, "imf"@) is Some
        &&& composite_field(ms, "imfFunction"@) is Some
    }

    /// The members of the fields read before `mmf` are readable.
    pub open spec fn readable_before_mmf(ms: Seq<MemberView>) -> bool {
        &&& FuturePosition::readable_before_mark_price(ms)
        &&& decimal_field(ms, "markPrice"@) is Some
    }

    /// The members of the fields read before `netCost` are readable.
    pub open spec fn readable_before_net_cost(ms: Seq<MemberView>) -> bool {
        &&& FuturePosition::readable_before_mmf(ms)
        &&& decimal_field(ms, "mmf"@) is Some
        &&& composite_field(ms, "mmfFunction"@) is Some
    }

    /// The members of the fields read before `netExposureNotional` are readable.
    pub open spec fn readable_before_net_exposure_notional(ms: Seq<MemberView>) -> bool {
        &&& FuturePosition::readable_before_net_cost(ms)
        &&& decimal_field(ms, "netCost"@) is Some
    }

    /// The members of the fields read before `netExposureQuantity` are readable.
    pub open spec fn readable_before_net_exposure_quantity(ms: Seq<MemberView>) -> bool {
        &&& FuturePosition::readable_before_net_exposure_notional(ms)
        &&& decimal_field(ms, "netExposureNotional"@) is Some
    }

    /// The members of the fields read before `netQuantity` are readable.
    pub open spec fn readable_before_net_quantity(ms: Seq<MemberView>) -> bool {
        &&& FuturePosition::readable_before_net_exposure_quantity(ms)
        &&& decimal_field(ms, "netExposureQuantity"@) is Some
    }

    /// The members of the fields read before `pnlRealized` are readable.
    pub open spec fn readable_before_pnl_realized(ms: Seq<MemberView>) -> bool {
        &&& FuturePosition::readable_before_net_quantity(ms)
        &&& decimal_field(ms, "netQuantity"@) is Some
    }

    /// The members of the fields read before `pnlUnrealized` are readable.
    pub open spec fn readable_before_pnl_unrealized(ms: Seq<MemberView>) -> bool {
        &&& FuturePosition::readable_before_pnl_realized(ms)
        &&& decimal_field(ms, "pnlRealized"@) is Some
    }

    /// The error of reading these members when the fields read before a decimal or
    /// enumeration field are readable and that field's text is not a decimal or names no
    /// variant: a decode error under that field's key, with the text as its cause.
    pub open spec fn reports(ms: Seq<MemberView>, e: BpxError) -> bool {
        &&& match numeral_text(ms, "breakEvenPrice"@) {
            Some(t) => FuturePosition::readable_before_break_even_price(ms) && decimal_of_text(t) is None ==> invalid_decimal_error(e, "breakEvenPrice"@, t),
            _ => true,
        }
        &&& match numeral_text(ms, "cumulativeFundingPayment"@) {
            Some(t) => FuturePosition::readable_before_cumulative_funding_payment(ms) && decimal_of_text(t) is None ==> invalid_decimal_error(e, "cumulativeFundingPayment"@, t),
            _ => true,
        }
        &&& match numeral_text(ms, "entryPrice"@) {
            Some(t) => FuturePosition::readable_before_entry_price(ms) && decimal_of_text(t) is None ==> invalid_decimal_error(e, "entryPrice"@, t),
            _ => true,
        }
        &&& match numeral_text(ms, "estLiquidationPrice"@) {
            Some(t) => FuturePosition::readable_before_est_liquidation_price(ms) && decimal_of_text(t) is None ==> invalid_decimal_error(e, "estLiquidationPrice"@, t),
            _ => true,
        }
        &&& match numeral_text(ms, "imf"@) {
            Some(t) => FuturePosition::readable_before_imf(ms) && decimal_of_text(t) is None ==> invalid_decimal_error(e, "imf"@, t),
            _ => true,
        }
        &&& match numeral_text(ms, "markPrice"@) {
            Some(t) => FuturePosition::readable_before_mark_price(ms) && decimal_of_text(t) is None ==> invalid_decimal_error(e, "markPrice"@, t),
            _ => true,
        }
        &&& match numeral_text(ms, "mmf"@) {
            Some(t) => FuturePosition::readable_before_mmf(ms) && decimal_of_text(t) is None ==> invalid_decimal_error(e, "mmf"@, t),
            _ => true,
        }
        &&& match numeral_text(ms, "netCost"@) {
            Some(t) => FuturePosition::readable_before_net_cost(ms) && decimal_of_text(t) is None ==> invalid_decimal_error(e, "netCost"@, t),
            _ => true,
        }
        &&& match numeral_text(ms, "netExposureNotional"@) {
            Some(t) => FuturePosition::readable_before_net_exposure_notional(ms) && decimal_of_text(t) is None ==> invalid_decimal_error(e, "netExposureNotional"@, t),
            _ => true,
        }
        &&& match numeral_text(ms, "netExposureQuantity"@) {
            Some(t) => FuturePosition::readable_before_net_exposure_quantity(ms) && decimal_of_text(t) is None ==> invalid_decimal_error(e, "netExposureQuantity"@, t),
            _ => true,
        }
        &&& match numeral_text(ms, "netQuantity"@) {
            Some(t) => FuturePosition::readable_before_net_quantity(ms) && decimal_of_text(t) is None ==> invalid_decimal_error(e, "netQuantity"@, t),
            _ => true,
        }
        &&& match numeral_text(ms, "pnlRealized"@) {
            Some(t) => FuturePosition::readable_before_pnl_realized(ms) && decimal_of_text(t) is None ==> invalid_decimal_error(e, "pnlRealized"@, t),
            _ => true,
        }
        &&& match numeral_text(ms, "pnlUnrealized"@) {
            Some(t) => FuturePosition::readable_before_pnl_unrealized(ms) && decimal_of_text(t) is None ==> invalid_decimal_error(e, "pnlUnrealized"@, t),
            _ => true,
        }
    }

    /// The members that an error of reading this record can name: its keys and those of
    /// the records nested in it.
    pub open spec fn member_keys() -> Set<Seq<char>> {
        set!["breakEvenPrice"@, "cumulativeFundingPayment"@, "entryPrice"@, "estLiquidationPrice"@, "imf"@, "imfFunction"@, "markPrice"@, "mmf"@, "mmfFunction"@, "netCost"@, "netExposureNotional"@, "netExposureQuantity"@, "netQuantity"@, "pnlRealized"@, "pnlUnrealized"@, "positionId"@, "subaccountId"@, "symbol"@, "userId"@]
    }

    /// Reads the record from the members of its JSON object.
    pub fn from_members(ms: &Vec<Member>) -> (r: Result<FuturePosition, BpxError>)
        ensures
            r is Ok <==> FuturePosition::readable(members_view(ms@)),
            r matches Ok(x) ==> x.read_from(members_view(ms@)),
            r matches Err(e) ==> e is Decode && FuturePosition::member_keys().contains(e->Decode_member@),
            r matches Err(e) ==> FuturePosition::reports(members_view(ms@), e),
    {
        let break_even_price = read_decimal(ms, "breakEvenPrice")?;
        let cumulative_funding_payment = read_decimal(ms, "cumulativeFundingPayment")?;
        let entry_price = read_decimal(ms, "entryPrice")?;
        let est_liquidation_price = read_decimal(ms, "estLiquidationPrice")?;
        let imf = read_decimal(ms, "imf")?;
        let imf_function = read_json_text(ms, "imfFunction")?;
        let mark_price = read_decimal(ms, "markPrice")?;
        let mmf = read_decimal(ms, "mmf")?;
        let mmf_function = read_json_text(ms, "mmfFunction")?;
        let net_cost = read_decimal(ms, "netCost")?;
        let net_exposure_notional = read_decimal(ms, "netExposureNotional")?;
        let net_exposure_quantity = read_decimal(ms, "netExposureQuantity")?;
        let net_quantity = read_decimal(ms, "netQuantity")?;
        let pnl_realized = read_decimal(ms, "pnlRealized")?;
        let pnl_unrealized = read_decimal(ms, "pnlUnrealized")?;
        let position_id = read_text(ms, "positionId")?;
        let subaccount_id = read_optional_u64(ms, "subaccountId")?;
        let symbol = read_text(ms, "symbol")?;
        let user_id = read_u64(ms, "userId")?;
        Ok(FuturePosition {
            break_even_price,
            cumulative_funding_payment,
            entry_price,
            est_liquidation_price,
            imf,
            imf_function,
            mark_price,
            mmf,
            mmf_function,
            net_cost,
            net_exposure_notional,
            net_exposure_quantity,
            net_quantity,
            pnl_realized,
            pnl_unrealized,
            position_id,
            subaccount_id,
            symbol,
            user_id,
        })
    }

    /// Reads one record from each list of members, in order.
    pub fn from_member_lists(lists: &Vec<Vec<Member>>) -> (r: Result<Vec<FuturePosition>, BpxError>)
        ensures
            r is Ok <==> forall|i: int| 0 <= i < lists@.len() ==> FuturePosition::readable(members_view((#[trigger] lists@[i])@)),
            r matches Ok(v) ==> v@.len() == lists@.len() && forall|i: int| 0 <= i < lists@.len() ==> (#[trigger] v@[i]).read_from(members_view(lists@[i]@)),
            r matches Err(e) ==> e is Decode && FuturePosition::member_keys().contains(e->Decode_member@),
            r matches Err(e) ==> exists|i: int| 0 <= i < lists@.len() && !FuturePosition::readable(members_view(lists@[i]@)) && (forall|j: int| 0 <= j < i ==> FuturePosition::readable(members_view(lists@[j]@))) && FuturePosition::reports(members_view(lists@[i]@), e),
    {
        let mut out: Vec<FuturePosition> = Vec::new();
        for i in 0..lists.len()
            invariant
                out@.len() == i,
                forall|j: int| 0 <= j < i ==> FuturePosition::readable(members_view((#[trigger] lists@[j])@)) && out@[j].read_from(members_view(lists@[j]@)),
        {
            match FuturePosition::from_members(&lists[i]) {
                Ok(x) => out.push(x),
                Err(e) => {
                    assert(!FuturePosition::readable(members_view(lists@[i as int]@)));
                    assert(FuturePosition::reports(members_view(lists@[i as int]@), e));
                    return Err(e);
                },
            }
        }
        Ok(out)
    }

    /// Reads a JSON array of records, in order.
    pub fn list_from_json(text: &str) -> (r: Result<Vec<FuturePosition>, BpxError>)
        ensures
            match object_list(text@) {
                Some(ls) => (r is Ok <==> forall|i: int| 0 <= i < ls.len() ==> FuturePosition::readable(#[trigger] ls[i])) && (r matches Ok(v) ==> v@.len() == ls.len() && forall|i: int| 0 <= i < ls.len() ==> (#[trigger] v@[i]).read_from(ls[i])) && (r matches Err(e) ==> exists|i: int| 0 <= i < ls.len() && !FuturePosition::readable(ls[i]) && (forall|j: int| 0 <= j < i ==> FuturePosition::readable(ls[j])) && FuturePosition::reports(ls[i], e)),
                None => r is Err,
            },
            r matches Err(e) ==> e is Decode && (e->Decode_member@ == Seq::<char>::empty() || FuturePosition::member_keys().contains(e->Decode_member@)),
    {
        let lists = object_list_members(text)?;
        let r = FuturePosition::from_member_lists(&lists);
        proof {
            let ls = object_list(text@)->Some_0;
            assert(r is Ok <==> forall|i: int| 0 <= i < ls.len() ==> FuturePosition::readable(#[trigger] ls[i])) by {
                assert forall|i: int| 0 <= i < ls.len() implies #[trigger] ls[i] == members_view(lists@[i]@) by {}
            }
            if r is Ok {
                let v = r->Ok_0;
                assert forall|i: int| 0 <= i < ls.len() implies (#[trigger] v@[i]).read_from(ls[i]) by {
                    assert(members_view(lists@[i]@) == ls[i]);
                }
            }
            if r is Err {
                let e = r->Err_0;
                let i = choose|i: int| 0 <= i < lists@.len() && !FuturePosition::readable(members_view(lists@[i]@)) && (forall|j: int| 0 <= j < i ==> FuturePosition::readable(members_view(lists@[j]@))) && FuturePosition::reports(members_view(lists@[i]@), e);
                assert(members_view(lists@[i]@) == ls[i]);
                assert forall|j: int| 0 <= j < i implies FuturePosition::readable(#[trigger] ls[j]) by {
                    assert(members_view(lists@[j]@) == ls[j]);
                }
            }
        }
        r
    }
}

} // verus!
