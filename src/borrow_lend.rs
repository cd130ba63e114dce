//! Borrow/lend markets and positions.
use crate::error::BpxError;
use crate::decimal::{value_pair, Decimal};
use crate::json::{
    unknown_variant_at, composite_field, decimal_field, members_view, object_list,
    object_list_members, read_decimal, read_json_text, read_text, read_zoned_datetime, text_field,
    zoned_datetime_field, Member, MemberView,
};
use crate::time::ZonedTimestamp;
use crate::text::text_eq;
use crate::decimal::decimal_of_text;
use crate::error::{invalid_decimal_error, unknown_variant_error};
use crate::json::numeral_text;
use vstd::prelude::*;

verus! {

/// Whether a borrow/lend market accepts new activity.
#[derive(Debug, Clone, Copy, PartialEq, Eq, Hash, Structural)]
pub enum BorrowLendMarketState {
    Open,
    Closed,
    RepayOnly,
}

impl BorrowLendMarketState {
    /// The wire text of each variant.
    pub open spec fn wire(self) -> Seq<char> {
        match self {
            BorrowLendMarketState::Open => "Open"@,
            BorrowLendMarketState::Closed => "Closed"@,
            BorrowLendMarketState::RepayOnly => "RepayOnly"@,
        }
    }

    /// The variant whose wire text is `s`, if there is one.
    pub open spec fn decode(s: Seq<char>) -> Option<BorrowLendMarketState> {
        if s == "Open"@ {
            Some(BorrowLendMarketState::Open)
        } else if s == "Closed"@ {
            Some(BorrowLendMarketState::Closed)
        } else if s == "RepayOnly"@ {
            Some(BorrowLendMarketState::RepayOnly)
        } else {
            None
        }
    }

    /// The wire text of this variant.
    pub fn to_wire(&self) -> (r: &'static str)
        ensures
            r@ == self.wire(),
    {
        match self {
            BorrowLendMarketState::Open => "Open",
            BorrowLendMarketState::Closed => "Closed",
            BorrowLendMarketState::RepayOnly => "RepayOnly",
        }
    }

    /// Reads a variant from its wire text; any other text is an unknown variant.
    pub fn from_wire(s: &str) -> (r: Result<BorrowLendMarketState, BpxError>)
        ensures
            match BorrowLendMarketState::decode(s@) {
                Some(v) => r == Ok::<_, BpxError>(v),
                None => r is Err && r->Err_0 is UnknownVariant
                    && r->Err_0->UnknownVariant_input@ == s@,
            },
    {
        if text_eq(s, "Open") {
            Ok(BorrowLendMarketState::Open)
        } else if text_eq(s, "Closed") {
            Ok(BorrowLendMarketState::Closed)
        } else if text_eq(s, "RepayOnly") {
            Ok(BorrowLendMarketState::RepayOnly)
        } else {
            Err(BpxError::UnknownVariant { input: s.to_owned() })
        }
    }

    /// Decoding the wire text of a variant gives that variant back, and a text that is
    /// the wire text of no variant decodes to nothing.
    pub proof fn lemma_wire_round_trip(self, s: Seq<char>)
        ensures
            BorrowLendMarketState::decode(self.wire()) == Some(self),
            BorrowLendMarketState::decode(s) == Some(self) <==> self.wire() == s,
            BorrowLendMarketState::decode(s) is None <==> (forall|v: BorrowLendMarketState| v.wire() != s),
    {
        reveal_strlit("Open");
        reveal_strlit("Closed");
        reveal_strlit("RepayOnly");
        assert("Open"@.len() == 4);
        assert("Closed"@.len() == 6);
        assert("RepayOnly"@.len() == 9);
        match self {
            BorrowLendMarketState::Open => {},
            BorrowLendMarketState::Closed => {},
            BorrowLendMarketState::RepayOnly => {},
        }
        if let Some(v) = BorrowLendMarketState::decode(s) {
            assert(v.wire() == s);
        }
    }
}

/// An open borrow or lend position.
#[derive(Debug, Clone)]
pub struct BorrowLendPosition {
    pub cumulative_interest: Decimal,
    pub id: String,
    pub symbol: String,
    pub imf: Decimal,
    pub imf_function: String,
    pub mark_price: Decimal,
    pub mmf: Decimal,
    pub mmf_function: String,
    pub net_exposure_notional: Decimal,
    pub net_exposure_quantity: Decimal,
    pub net_quantity: Decimal,
}

impl BorrowLendPosition {
    /// The members hold each field under its key, of its kind.
    pub open spec fn readable(ms: Seq<MemberView>) -> bool {
        &&& decimal_field(ms, "cumulativeInterest"@) is Some
        &&& text_field(ms, "id"@) is Some
        &&& text_field(ms, "symbol"@) is Some
        &&& decimal_field(ms, "imf"@) is Some
        &&& composite_field(ms, "imfFunction"@) is Some
        &&& decimal_field(ms, "markPrice"@) is Some
        &&& decimal_field(ms, "mmf"@) is Some
        &&& composite_field(ms, "mmfFunction"@) is Some
        &&& decimal_field(ms, "netExposureNotional"@) is Some
        &&& decimal_field(ms, "netExposureQuantity"@) is Some
        &&& decimal_field(ms, "netQuantity"@) is Some
    }

    /// Each field is what the members hold under its key.
    pub open spec fn read_from(&self, ms: Seq<MemberView>) -> bool {
        &&& decimal_field(ms, "cumulativeInterest"@) == Some(value_pair(self.cumulative_interest@))
        &&& text_field(ms, "id"@) == Some(self.id@)
        &&& text_field(ms, "symbol"@) == Some(self.symbol@)
        &&& decimal_field(ms, "imf"@) == Some(value_pair(self.imf@))
        &&& composite_field(ms, "imfFunction"@) == Some(self.imf_function@)
        &&& decimal_field(ms, "markPrice"@) == Some(value_pair(self.mark_price@))
        &&& decimal_field(ms, "mmf"@) == Some(value_pair(self.mmf@))
        &&& composite_field(ms, "mmfFunction"@) == Some(self.mmf_function@)
        &&& decimal_field(ms, "netExposureNotional"@) == Some(value_pair(self.net_exposure_notional@))
        &&& decimal_field(ms, "netExposureQuantity"@) == Some(value_pair(self.net_exposure_quantity@))
        &&& decimal_field(ms, "netQuantity"@) == Some(value_pair(self.net_quantity@))
    }

    /// The members of the fields read before `cumulativeInterest` are readable.
    pub open spec fn readable_before_cumulative_interest(ms: Seq<MemberView>) -> bool {
        true
    }

    /// The members of the fields read before `imf` are readable.
    pub open spec fn readable_before_imf(ms: Seq<MemberView>) -> bool {
        &&& BorrowLendPosition::readable_before_cumulative_interest(ms)
        &&& decimal_field(ms, "cumulativeInterest"@) is Some
        &&& text_field(ms, "id"@) is Some
        &&& text_field(ms, "symbol"@) is Some
    }

    /// The members of the fields read before `markPrice` are readable.
    pub open spec fn readable_before_mark_price(ms: Seq<MemberView>) -> bool {
        &&& BorrowLendPosition::readable_before_imf(ms)
        &&& decimal_field(ms, "imf"@) is Some
        &&& composite_field(ms, "imfFunction"@) is Some
    }

    /// The members of the fields read before `mmf` are readable.
    pub open spec fn readable_before_mmf(ms: Seq<MemberView>) -> bool {
        &&& BorrowLendPosition::readable_before_mark_price(ms)
        &&& decimal_field(ms, "markPrice"@) is Some
    }

    /// The members of the fields read before `netExposureNotional` are readable.
    pub open spec fn readable_before_net_exposure_notional(ms: Seq<MemberView>) -> bool {
        &&& BorrowLendPosition::readable_before_mmf(ms)
        &&& decimal_field(ms, "mmf"@) is Some
        &&& composite_field(ms, "mmfFunction"@) is Some
    }

    /// The members of the fields read before `netExposureQuantity` are readable.
    pub open spec fn readable_before_net_exposure_quantity(ms: Seq<MemberView>) -> bool {
        &&& BorrowLendPosition::readable_before_net_exposure_notional(ms)
        &&& decimal_field(ms, "netExposureNotional"@) is Some
    }

    /// The members of the fields read before `netQuantity` are readable.
    pub open spec fn readable_before_net_quantity(ms: Seq<MemberView>) -> bool {
        &&& BorrowLendPosition::readable_before_net_exposure_quantity(ms)
        &&& decimal_field(ms, "netExposureQuantity"@) is Some
    }

    /// The error of reading these members when the fields read before a decimal or
    /// enumeration field are readable and that field's text is not a decimal or names no
    /// variant: a decode error under that field's key, with the text as its cause.
    pub open spec fn reports(ms: Seq<MemberView>, e: BpxError) -> bool {
        &&& match numeral_text(ms, "cumulativeInterest"@) {
            Some(t) => BorrowLendPosition::readable_before_cumulative_interest(ms) && decimal_of_text(t) is None ==> invalid_decimal_error(e, "cumulativeInterest"@, t),
            _ => true,
        }
        &&& match numeral_text(ms, "imf"@) {
            Some(t) => BorrowLendPosition::readable_before_imf(ms) && decimal_of_text(t) is None ==> invalid_decimal_error(e, "imf"@, t),
            _ => true,
        }
        &&& match numeral_text(ms, "markPrice"@) {
            Some(t) => BorrowLendPosition::readable_before_mark_price(ms) && decimal_of_text(t) is None ==> invalid_decimal_error(e, "markPrice"@, t),
            _ => true,
        }
        &&& match numeral_text(ms, "mmf"@) {
            Some(t) => BorrowLendPosition::readable_before_mmf(ms) && decimal_of_text(t) is None ==> invalid_decimal_error(e, "mmf"@, t),
            _ => true,
        }
        &&& match numeral_text(ms, "netExposureNotional"@) {
            Some(t) => BorrowLendPosition::readable_before_net_exposure_notional(ms) && decimal_of_text(t) is None ==> invalid_decimal_error(e, "netExposureNotional"@, t),
            _ => true,
        }
        &&& match numeral_text(ms, "netExposureQuantity"@) {
            Some(t) => BorrowLendPosition::readable_before_net_exposure_quantity(ms) && decimal_of_text(t) is None ==> invalid_decimal_error(e, "netExposureQuantity"@, t),
            _ => true,
        }
        &&& match numeral_text(ms, "netQuantity"@) {
            Some(t) => BorrowLendPosition::readable_before_net_quantity(ms) && decimal_of_text(t) is None ==> invalid_decimal_error(e, "netQuantity"@, t),
            _ => true,
        }
    }

    /// The members that an error of reading this record can name: its keys and those of
    /// the records nested in it.
    pub open spec fn member_keys() -> Set<Seq<char>> {
        set!["cumulativeInterest"@, "id"@, "symbol"@, "imf"@, "imfFunction"@, "markPrice"@, "mmf"@, "mmfFunction"@, "netExposureNotional"@, "netExposureQuantity"@, "netQuantity"@]
    }

    /// Reads the record from the members of its JSON object.
    pub fn from_members(ms: &Vec<Member>) -> (r: Result<BorrowLendPosition, BpxError>)
        ensures
            r is Ok <==> BorrowLendPosition::readable(members_view(ms@)),
            r matches Ok(x) ==> x.read_from(members_view(ms@)),
            r matches Err(e) ==> e is Decode && BorrowLendPosition::member_keys().contains(e->Decode_member@),
            r matches Err(e) ==> BorrowLendPosition::reports(members_view(ms@), e),
    {
        let cumulative_interest = read_decimal(ms, "cumulativeInterest")?;
        let id = read_text(ms, "id")?;
        let symbol = read_text(ms, "symbol")?;
        let imf = read_decimal(ms, "imf")?;
        let imf_function = read_json_text(ms, "imfFunction")?;
        let mark_price = read_decimal(ms, "markPrice")?;
        let mmf = read_decimal(ms, "mmf")?;
        let mmf_function = read_json_text(ms, "mmfFunction")?;
        let net_exposure_notional = read_decimal(ms, "netExposureNotional")?;
        let net_exposure_quantity = read_decimal(ms, "netExposureQuantity")?;
        let net_quantity = read_decimal(ms, "netQuantity")?;
        Ok(BorrowLendPosition {
            cumulative_interest,
            id,
            symbol,
            imf,
            imf_function,
            mark_price,
            mmf,
            mmf_function,
            net_exposure_notional,
            net_exposure_quantity,
            net_quantity,
        })
    }

    /// Reads one record from each list of members, in order.
    pub fn from_member_lists(lists: &Vec<Vec<Member>>) -> (r: Result<Vec<BorrowLendPosition>, BpxError>)
        ensures
            r is Ok <==> forall|i: int| 0 <= i < lists@.len() ==> BorrowLendPosition::readable(members_view((#[trigger] lists@[i])@)),
            r matches Ok(v) ==> v@.len() == lists@.len() && forall|i: int| 0 <= i < lists@.len() ==> (#[trigger] v@[i]).read_from(members_view(lists@[i]@)),
            r matches Err(e) ==> e is Decode && BorrowLendPosition::member_keys().contains(e->Decode_member@),
            r matches Err(e) ==> exists|i: int| 0 <= i < lists@.len() && !BorrowLendPosition::readable(members_view(lists@[i]@)) && (forall|j: int| 0 <= j < i ==> BorrowLendPosition::readable(members_view(lists@[j]@))) && BorrowLendPosition::reports(members_view(lists@[i]@), e),
    {
        let mut out: Vec<BorrowLendPosition> = Vec::new();
        for i in 0..lists.len()
            invariant
                out@.len() == i,
                forall|j: int| 0 <= j < i ==> BorrowLendPosition::readable(members_view((#[trigger] lists@[j])@)) && out@[j].read_from(members_view(lists@[j]@)),
        {
            match BorrowLendPosition::from_members(&lists[i]) {
                Ok(x) => out.push(x),
                Err(e) => {
                    assert(!BorrowLendPosition::readable(members_view(lists@[i as int]@)));
                    assert(BorrowLendPosition::reports(members_view(lists@[i as int]@), e));
                    return Err(e);
                },
            }
        }
        Ok(out)
    }

    /// Reads a JSON array of records, in order.
    pub fn list_from_json(text: &str) -> (r: Result<Vec<BorrowLendPosition>, BpxError>)
        ensures
            match object_list(text@) {
                Some(ls) => (r is Ok <==> forall|i: int| 0 <= i < ls.len() ==> BorrowLendPosition::readable(#[trigger] ls[i])) && (r matches Ok(v) ==> v@.len() == ls.len() && forall|i: int| 0 <= i < ls.len() ==> (#[trigger] v@[i]).read_from(ls[i])) && (r matches Err(e) ==> exists|i: int| 0 <= i < ls.len() && !BorrowLendPosition::readable(ls[i]) && (forall|j: int| 0 <= j < i ==> BorrowLendPosition::readable(ls[j])) && BorrowLendPosition::reports(ls[i], e)),
                None => r is Err,
            },
            r matches Err(e) ==> e is Decode && (e->Decode_member@ == Seq::<char>::empty() || BorrowLendPosition::member_keys().contains(e->Decode_member@)),
    {
        let lists = object_list_members(text)?;
        let r = BorrowLendPosition::from_member_lists(&lists);
        proof {
            let ls = object_list(text@)->Some_0;
            assert(r is Ok <==> forall|i: int| 0 <= i < ls.len() ==> BorrowLendPosition::readable(#[trigger] ls[i])) by {
                assert forall|i: int| 0 <= i < ls.len() implies #[trigger] ls[i] == members_view(lists@[i]@) by {}
            }
            if r is Ok {
                let v = r->Ok_0;
                assert forall|i: int| 0 <= i < ls.len() implies (#[trigger] v@[i]).read_from(ls[i]) by {
                    assert(members_view(lists@[i]@) == ls[i]);
                }
            }
            if r is Err {
                let e = r->Err_0;
                let i = choose|i: int| 0 <= i < lists@.len() && !BorrowLendPosition::readable(members_view(lists@[i]@)) && (forall|j: int| 0 <= j < i ==> BorrowLendPosition::readable(members_view(lists@[j]@))) && BorrowLendPosition::reports(members_view(lists@[i]@), e);
                assert(members_view(lists@[i]@) == ls[i]);
                assert forall|j: int| 0 <= j < i implies BorrowLendPosition::readable(#[trigger] ls[j]) by {
                    assert(members_view(lists@[j]@) == ls[j]);
                }
            }
        }
        r
    }
}

/// A borrow/lend market of one asset.
#[derive(Debug, Clone)]
pub struct BorrowLendMarket {
    pub state: BorrowLendMarketState,
    pub asset_mark_price: Decimal,
    pub borrow_interest_rate: Decimal,
    pub borrowed_quantity: Decimal,
    pub fee: Decimal,
    pub lend_interest_rate: Decimal,
    pub lent_quantity: Decimal,
    pub max_utilization: Decimal,
    pub open_borrow_lend_limit: Decimal,
    pub optimal_utilization: Decimal,
    pub symbol: String,
    pub timestamp: ZonedTimestamp,
    pub throttle_utilization_threshold: Decimal,
    pub throttle_utilization_bound: Decimal,
    pub throttle_update_fraction: Decimal,
    pub utilization: Decimal,
    pub step_size: Decimal,
}

impl BorrowLendMarket {
    /// The members hold each field under its key, of its kind.
    pub open spec fn readable(ms: Seq<MemberView>) -> bool {
        &&& (text_field(ms, "state"@) matches Some(t) && BorrowLendMarketState::decode(t) is Some)
        &&& decimal_field(ms, "assetMarkPrice"@) is Some
        &&& decimal_field(ms, "borrowInterestRate"@) is Some
        &&& decimal_field(ms, "borrowedQuantity"@) is Some
        &&& decimal_field(ms, "fee"@) is Some
        &&& decimal_field(ms, "lendInterestRate"@) is Some
        &&& decimal_field(ms, "lentQuantity"@) is Some
        &&& decimal_field(ms, "maxUtilization"@) is Some
        &&& decimal_field(ms, "openBorrowLendLimit"@) is Some
        &&& decimal_field(ms, "optimalUtilization"@) is Some
        &&& text_field(ms, "symbol"@) is Some
        &&& zoned_datetime_field(ms, "timestamp"@) is Some
        &&& decimal_field(ms, "throttleUtilizationThreshold"@) is Some
        &&& decimal_field(ms, "throttleUtilizationBound"@) is Some
        &&& decimal_field(ms, "throttleUpdateFraction"@) is Some
        &&& decimal_field(ms, "utilization"@) is Some
        &&& decimal_field(ms, "stepSize"@) is Some
    }

    /// Each field is what the members hold under its key.
    pub open spec fn read_from(&self, ms: Seq<MemberView>) -> bool {
        &&& text_field(ms, "state"@) == Some(self.state.wire())
        &&& decimal_field(ms, "assetMarkPrice"@) == Some(value_pair(self.asset_mark_price@))
        &&& decimal_field(ms, "borrowInterestRate"@) == Some(value_pair(self.borrow_interest_rate@))
        &&& decimal_field(ms, "borrowedQuantity"@) == Some(value_pair(self.borrowed_quantity@))
        &&& decimal_field(ms, "fee"@) == Some(value_pair(self.fee@))
        &&& decimal_field(ms, "lendInterestRate"@) == Some(value_pair(self.lend_interest_rate@))
        &&& decimal_field(ms, "lentQuantity"@) == Some(value_pair(self.lent_quantity@))
        &&& decimal_field(ms, "maxUtilization"@) == Some(value_pair(self.max_utilization@))
        &&& decimal_field(ms, "openBorrowLendLimit"@) == Some(value_pair(self.open_borrow_lend_limit@))
        &&& decimal_field(ms, "optimalUtilization"@) == Some(value_pair(self.optimal_utilization@))
        &&& text_field(ms, "symbol"@) == Some(self.symbol@)
        &&& zoned_datetime_field(ms, "timestamp"@) == Some((self.timestamp.seconds as int, self.timestamp.nanos as nat, self.timestamp.offset_seconds as int))
        &&& decimal_field(ms, "throttleUtilizationThreshold"@) == Some(value_pair(self.throttle_utilization_threshold@))
        &&& decimal_field(ms, "throttleUtilizationBound"@) == Some(value_pair(self.throttle_utilization_bound@))
        &&& decimal_field(ms, "throttleUpdateFraction"@) == Some(value_pair(self.throttle_update_fraction@))
        &&& decimal_field(ms, "utilization"@) == Some(value_pair(self.utilization@))
        &&& decimal_field(ms, "stepSize"@) == Some(value_pair(self.step_size@))
    }

    /// The members of the fields read before `state` are readable.
    pub open spec fn readable_before_state(ms: Seq<MemberView>) -> bool {
        true
    }

    /// The members of the fields read before `assetMarkPrice` are readable.
    pub open spec fn readable_before_asset_mark_price(ms: Seq<MemberView>) -> bool {
        &&& BorrowLendMarket::readable_before_state(ms)
        &&& (text_field(ms, "state"@) matches Some(t) && BorrowLendMarketState::decode(t) is Some)
    }

    /// The members of the fields read before `borrowInterestRate` are readable.
    pub open spec fn readable_before_borrow_interest_rate(ms: Seq<MemberView>) -> bool {
        &&& BorrowLendMarket::readable_before_asset_mark_price(ms)
        &&& decimal_field(ms, "assetMarkPrice"@) is Some
    }

    /// The members of the fields read before `borrowedQuantity` are readable.
    pub open spec fn readable_before_borrowed_quantity(ms: Seq<MemberView>) -> bool {
        &&& BorrowLendMarket::readable_before_borrow_interest_rate(ms)
        &&& decimal_field(ms, "borrowInterestRate"@) is Some
    }

    /// The members of the fields read before `fee` are readable.
    pub open spec fn readable_before_fee(ms: Seq<MemberView>) -> bool {
        &&& BorrowLendMarket::readable_before_borrowed_quantity(ms)
        &&& decimal_field(ms, "borrowedQuantity"@) is Some
    }

    /// The members of the fields read before `lendInterestRate` are readable.
    pub open spec fn readable_before_lend_interest_rate(ms: Seq<MemberView>) -> bool {
        &&& BorrowLendMarket::readable_before_fee(ms)
        &&& decimal_field(ms, "fee"@) is Some
    }

    /// The members of the fields read before `lentQuantity` are readable.
    pub open spec fn readable_before_lent_quantity(ms: Seq<MemberView>) -> bool {
        &&& BorrowLendMarket::readable_before_lend_interest_rate(ms)
        &&& decimal_field(ms, "lendInterestRate"@) is Some
    }

    /// The members of the fields read before `maxUtilization` are readable.
    pub open spec fn readable_before_max_utilization(ms: Seq<MemberView>) -> bool {
        &&& BorrowLendMarket::readable_before_lent_quantity(ms)
        &&& decimal_field(ms, "lentQuantity"@) is Some
    }

    /// The members of the fields read before `openBorrowLendLimit` are readable.
    pub open spec fn readable_before_open_borrow_lend_limit(ms: Seq<MemberView>) -> bool {
        &&& BorrowLendMarket::readable_before_max_utilization(ms)
        &&& decimal_field(ms, "maxUtilization"@) is Some
    }

    /// The members of the fields read before `optimalUtilization` are readable.
    pub open spec fn readable_before_optimal_utilization(ms: Seq<MemberView>) -> bool {
        &&& BorrowLendMarket::readable_before_open_borrow_lend_limit(ms)
        &&& decimal_field(ms, "openBorrowLendLimit"@) is Some
    }

    /// The members of the fields read before `throttleUtilizationThreshold` are readable.
    pub open spec fn readable_before_throttle_utilization_threshold(ms: Seq<MemberView>) -> bool {
        &&& BorrowLendMarket::readable_before_optimal_utilization(ms)
        &&& decimal_field(ms, "optimalUtilization"@) is Some
        &&& text_field(ms, "symbol"@) is Some
        &&& zoned_datetime_field(ms, "timestamp"@) is Some
    }

    /// The members of the fields read before `throttleUtilizationBound` are readable.
    pub open spec fn readable_before_throttle_utilization_bound(ms: Seq<MemberView>) -> bool {
        &&& BorrowLendMarket::readable_before_throttle_utilization_threshold(ms)
        &&& decimal_field(ms, "throttleUtilizationThreshold"@) is Some
    }

    /// The members of the fields read before `throttleUpdateFraction` are readable.
    pub open spec fn readable_before_throttle_update_fraction(ms: Seq<MemberView>) -> bool {
        &&& BorrowLendMarket::readable_before_throttle_utilization_bound(ms)
        &&& decimal_field(ms, "throttleUtilizationBound"@) is Some
    }

    /// The members of the fields read before `utilization` are readable.
    pub open spec fn readable_before_utilization(ms: Seq<MemberView>) -> bool {
        &&& BorrowLendMarket::readable_before_throttle_update_fraction(ms)
        &&& decimal_field(ms, "throttleUpdateFraction"@) is Some
    }

    /// The members of the fields read before `stepSize` are readable.
    pub open spec fn readable_before_step_size(ms: Seq<MemberView>) -> bool {
        &&& BorrowLendMarket::readable_before_utilization(ms)
        &&& decimal_field(ms, "utilization"@) is Some
    }

    /// The error of reading these members when the fields read before a decimal or
    /// enumeration field are readable and that field's text is not a decimal or names no
    /// variant: a decode error under that field's key, with the text as its cause.
    pub open spec fn reports(ms: Seq<MemberView>, e: BpxError) -> bool {
        &&& match text_field(ms, "state"@) {
            Some(t) => BorrowLendMarket::readable_before_state(ms) && BorrowLendMarketState::decode(t) is None ==> unknown_variant_error(e, "state"@, t),
            _ => true,
        }
        &&& match numeral_text(ms, "assetMarkPrice"@) {
            Some(t) => BorrowLendMarket::readable_before_asset_mark_price(ms) && decimal_of_text(t) is None ==> invalid_decimal_error(e, "assetMarkPrice"@, t),
            _ => true,
        }
        &&& match numeral_text(ms, "borrowInterestRate"@) {
            Some(t) => BorrowLendMarket::readable_before_borrow_interest_rate(ms) && decimal_of_text(t) is None ==> invalid_decimal_error(e, "borrowInterestRate"@, t),
            _ => true,
        }
        &&& match numeral_text(ms, "borrowedQuantity"@) {
            Some(t) => BorrowLendMarket::readable_before_borrowed_quantity(ms) && decimal_of_text(t) is None ==> invalid_decimal_error(e, "borrowedQuantity"@, t),
            _ => true,
        }
        &&& match numeral_text(ms, "fee"@) {
            Some(t) => BorrowLendMarket::readable_before_fee(ms) && decimal_of_text(t) is None ==> invalid_decimal_error(e, "fee"@, t),
            _ => true,
        }
        &&& match numeral_text(ms, "lendInterestRate"@) {
            Some(t) => BorrowLendMarket::readable_before_lend_interest_rate(ms) && decimal_of_text(t) is None ==> invalid_decimal_error(e, "lendInterestRate"@, t),
            _ => true,
        }
        &&& match numeral_text(ms, "lentQuantity"@) {
            Some(t) => BorrowLendMarket::readable_before_lent_quantity(ms) && decimal_of_text(t) is None ==> invalid_decimal_error(e, "lentQuantity"@, t),
            _ => true,
        }
        &&& match numeral_text(ms, "maxUtilization"@) {
            Some(t) => BorrowLendMarket::readable_before_max_utilization(ms) && decimal_of_text(t) is None ==> invalid_decimal_error(e, "maxUtilization"@, t),
            _ => true,
        }
        &&& match numeral_text(ms, "openBorrowLendLimit"@) {
            Some(t) => BorrowLendMarket::readable_before_open_borrow_lend_limit(ms) && decimal_of_text(t) is None ==> invalid_decimal_error(e, "openBorrowLendLimit"@, t),
            _ => true,
        }
        &&& match numeral_text(ms, "optimalUtilization"@) {
            Some(t) => BorrowLendMarket::readable_before_optimal_utilization(ms) && decimal_of_text(t) is None ==> invalid_decimal_error(e, "optimalUtilization"@, t),
            _ => true,
        }
        &&& match numeral_text(ms, "throttleUtilizationThreshold"@) {
            Some(t) => BorrowLendMarket::readable_before_throttle_utilization_threshold(ms) && decimal_of_text(t) is None ==> invalid_decimal_error(e, "throttleUtilizationThreshold"@, t),
            _ => true,
        }
        &&& match numeral_text(ms, "throttleUtilizationBound"@) {
            Some(t) => BorrowLendMarket::readable_before_throttle_utilization_bound(ms) && decimal_of_text(t) is None ==> invalid_decimal_error(e, "throttleUtilizationBound"@, t),
            _ => true,
        }
        &&& match numeral_text(ms, "throttleUpdateFraction"@) {
            Some(t) => BorrowLendMarket::readable_before_throttle_update_fraction(ms) && decimal_of_text(t) is None ==> invalid_decimal_error(e, "throttleUpdateFraction"@, t),
            _ => true,
        }
        &&& match numeral_text(ms, "utilization"@) {
            Some(t) => BorrowLendMarket::readable_before_utilization(ms) && decimal_of_text(t) is None ==> invalid_decimal_error(e, "utilization"@, t),
            _ => true,
        }
        &&& match numeral_text(ms, "stepSize"@) {
            Some(t) => BorrowLendMarket::readable_before_step_size(ms) && decimal_of_text(t) is None ==> invalid_decimal_error(e, "stepSize"@, t),
            _ => true,
        }
    }

    /// A read record holds the variant whose wire text its `state` member holds.
    pub proof fn lemma_state_round_trip(&self, ms: Seq<MemberView>, v: BorrowLendMarketState)
        requires
            self.read_from(ms),
            text_field(ms, "state"@) == Some(v.wire()),
        ensures
            self.state == v,
    {
        v.lemma_wire_round_trip(self.state.wire());
        self.state.lemma_wire_round_trip(v.wire());
    }

    /// The members that an error of reading this record can name: its keys and those of
    /// the records nested in it.
    pub open spec fn member_keys() -> Set<Seq<char>> {
        set!["state"@, "assetMarkPrice"@, "borrowInterestRate"@, "borrowedQuantity"@, "fee"@, "lendInterestRate"@, "lentQuantity"@, "maxUtilization"@, "openBorrowLendLimit"@, "optimalUtilization"@, "symbol"@, "timestamp"@, "throttleUtilizationThreshold"@, "throttleUtilizationBound"@, "throttleUpdateFraction"@, "utilization"@, "stepSize"@]
    }

    /// Reads the record from the members of its JSON object.
    pub fn from_members(ms: &Vec<Member>) -> (r: Result<BorrowLendMarket, BpxError>)
        ensures
            r is Ok <==> BorrowLendMarket::readable(members_view(ms@)),
            r matches Ok(x) ==> x.read_from(members_view(ms@)),
            r matches Err(e) ==> e is Decode && BorrowLendMarket::member_keys().contains(e->Decode_member@),
            r matches Err(e) ==> BorrowLendMarket::reports(members_view(ms@), e),
    {
        let state_text = read_text(ms, "state")?;
        let state = match BorrowLendMarketState::from_wire(state_text.as_str()) {
            Ok(v) => v,
            Err(_) => return Err(unknown_variant_at("state", &state_text)),
        };
        proof {
            state.lemma_wire_round_trip(state_text@);
        }
        let asset_mark_price = read_decimal(ms, "assetMarkPrice")?;
        let borrow_interest_rate = read_decimal(ms, "borrowInterestRate")?;
        let borrowed_quantity = read_decimal(ms, "borrowedQuantity")?;
        let fee = read_decimal(ms, "fee")?;
        let lend_interest_rate = read_decimal(ms, "lendInterestRate")?;
        let lent_quantity = read_decimal(ms, "lentQuantity")?;
        let max_utilization = read_decimal(ms, "maxUtilization")?;
        let open_borrow_lend_limit = read_decimal(ms, "openBorrowLendLimit")?;
        let optimal_utilization = read_decimal(ms, "optimalUtilization")?;
        let symbol = read_text(ms, "symbol")?;
        let timestamp = read_zoned_datetime(ms, "timestamp")?;
        let throttle_utilization_threshold = read_decimal(ms, "throttleUtilizationThreshold")?;
        let throttle_utilization_bound = read_decimal(ms, "throttleUtilizationBound")?;
        let throttle_update_fraction = read_decimal(ms, "throttleUpdateFraction")?;
        let utilization = read_decimal(ms, "utilization")?;
        let step_size = read_decimal(ms, "stepSize")?;
        Ok(BorrowLendMarket {
            state,
            asset_mark_price,
            borrow_interest_rate,
            borrowed_quantity,
            fee,
            lend_interest_rate,
            lent_quantity,
            max_utilization,
            open_borrow_lend_limit,
            optimal_utilization,
            symbol,
            timestamp,
            throttle_utilization_threshold,
            throttle_utilization_bound,
            throttle_update_fraction,
            utilization,
            step_size,
        })
    }

    /// Reads one record from each list of members, in order.
    pub fn from_member_lists(lists: &Vec<Vec<Member>>) -> (r: Result<Vec<BorrowLendMarket>, BpxError>)
        ensures
            r is Ok <==> forall|i: int| 0 <= i < lists@.len() ==> BorrowLendMarket::readable(members_view((#[trigger] lists@[i])@)),
            r matches Ok(v) ==> v@.len() == lists@.len() && forall|i: int| 0 <= i < lists@.len() ==> (#[trigger] v@[i]).read_from(members_view(lists@[i]@)),
            r matches Err(e) ==> e is Decode && BorrowLendMarket::member_keys().contains(e->Decode_member@),
            r matches Err(e) ==> exists|i: int| 0 <= i < lists@.len() && !BorrowLendMarket::readable(members_view(lists@[i]@)) && (forall|j: int| 0 <= j < i ==> BorrowLendMarket::readable(members_view(lists@[j]@))) && BorrowLendMarket::reports(members_view(lists@[i]@), e),
    {
        let mut out: Vec<BorrowLendMarket> = Vec::new();
        for i in 0..lists.len()
            invariant
                out@.len() == i,
                forall|j: int| 0 <= j < i ==> BorrowLendMarket::readable(members_view((#[trigger] lists@[j])@)) && out@[j].read_from(members_view(lists@[j]@)),
        {
            match BorrowLendMarket::from_members(&lists[i]) {
                Ok(x) => out.push(x),
                Err(e) => {
                    assert(!BorrowLendMarket::readable(members_view(lists@[i as int]@)));
                    assert(BorrowLendMarket::reports(members_view(lists@[i as int]@), e));
                    return Err(e);
                },
            }
        }
        Ok(out)
    }

    /// Reads a JSON array of records, in order.
    pub fn list_from_json(text: &str) -> (r: Result<Vec<BorrowLendMarket>, BpxError>)
        ensures
            match object_list(text@) {
                Some(ls) => (r is Ok <==> forall|i: int| 0 <= i < ls.len() ==> BorrowLendMarket::readable(#[trigger] ls[i])) && (r matches Ok(v) ==> v@.len() == ls.len() && forall|i: int| 0 <= i < ls.len() ==> (#[trigger] v@[i]).read_from(ls[i])) && (r matches Err(e) ==> exists|i: int| 0 <= i < ls.len() && !BorrowLendMarket::readable(ls[i]) && (forall|j: int| 0 <= j < i ==> BorrowLendMarket::readable(ls[j])) && BorrowLendMarket::reports(ls[i], e)),
                None => r is Err,
            },
            r matches Err(e) ==> e is Decode && (e->Decode_member@ == Seq::<char>::empty() || BorrowLendMarket::member_keys().contains(e->Decode_member@)),
    {
        let lists = object_list_members(text)?;
        let r = BorrowLendMarket::from_member_lists(&lists);
        proof {
            let ls = object_list(text@)->Some_0;
            assert(r is Ok <==> forall|i: int| 0 <= i < ls.len() ==> BorrowLendMarket::readable(#[trigger] ls[i])) by {
                assert forall|i: int| 0 <= i < ls.len() implies #[trigger] ls[i] == members_view(lists@[i]@) by {}
            }
            if r is Ok {
                let v = r->Ok_0;
                assert forall|i: int| 0 <= i < ls.len() implies (#[trigger] v@[i]).read_from(ls[i]) by {
                    assert(members_view(lists@[i]@) == ls[i]);
                }
            }
            if r is Err {
                let e = r->Err_0;
                let i = choose|i: int| 0 <= i < lists@.len() && !BorrowLendMarket::readable(members_view(lists@[i]@)) && (forall|j: int| 0 <= j < i ==> BorrowLendMarket::readable(members_view(lists@[j]@))) && BorrowLendMarket::reports(members_view(lists@[i]@), e);
                assert(members_view(lists@[i]@) == ls[i]);
                assert forall|j: int| 0 <= j < i implies BorrowLendMarket::readable(#[trigger] ls[j]) by {
                    assert(members_view(lists@[j]@) == ls[j]);
                }
            }
        }
        r
    }
}

} // verus!
