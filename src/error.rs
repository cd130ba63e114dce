//! The failures that the library reports.
use vstd::prelude::*;

verus! {

/// Every failure the library reports. A caller can tell each kind apart and decide whether
/// a retry makes sense.
#[derive(Debug, Clone, PartialEq, Eq)]
pub enum BpxError {
    /// The text is not a base-10 numeral.
    InvalidDecimal { input: String },
    /// The text names no variant of the enumeration.
    UnknownVariant { input: String },
    /// The transport could not complete the exchange.
    Transport { message: String },
    /// The server answered with a status outside 200..=299.
    Api { status: u16, body: String },
    /// The response body does not fit the expected schema: `member` names the offending
    /// member (empty for the document itself) and `cause` says what is wrong with it.
    Decode { member: String, cause: DecodeCause },
}

/// What is wrong with a member of a response.
#[derive(Debug, Clone, PartialEq, Eq)]
pub enum DecodeCause {
    /// The text is not JSON of the expected shape.
    Malformed,
    /// The member is absent, of another JSON kind, or not a value the field can hold.
    Unreadable,
    /// The member's text is not a base-10 numeral.
    InvalidDecimal { input: String },
    /// The member's text names no variant of the field's enumeration.
    UnknownVariant { input: String },
}

/// A decode error under `key` whose text `t` is not a decimal.
pub open spec fn invalid_decimal_error(e: BpxError, key: Seq<char>, t: Seq<char>) -> bool {
    &&& decode_error_at(e, key)
    &&& e->Decode_cause is InvalidDecimal
    &&& e->Decode_cause->InvalidDecimal_input@ == t
}

/// A decode error under `key` whose text `t` names no variant of its enumeration.
pub open spec fn unknown_variant_error(e: BpxError, key: Seq<char>, t: Seq<char>) -> bool {
    &&& decode_error_at(e, key)
    &&& e->Decode_cause is UnknownVariant
    &&& e->Decode_cause->UnknownVariant_input@ == t
}

/// A decode error that names `key` as the offending member.
pub open spec fn decode_error_at(e: BpxError, key: Seq<char>) -> bool {
    e is Decode && e->Decode_member@ == key
}

} // verus!
