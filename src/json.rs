//! Top-level members of a JSON object, and typed reads of them by key.
use crate::decimal::{decimal_of_text, all_digits, digits_value, value_pair, Decimal};
use crate::time::{Timestamp, ZonedTimestamp};
use crate::error::{decode_error_at, invalid_decimal_error, BpxError, DecodeCause};
use crate::markets::pairs_view;
use crate::text::{digit_value, is_digit, text_eq};
use vstd::prelude::*;

verus! {

/// A member's value: scalars as their texts, arrays and objects as their JSON text.
#[derive(Debug, Clone, PartialEq, Eq)]
pub enum JsonScalar {
    Null,
    Bool(bool),
    /// A number, as the token it was in the JSON text.
    Number(String),
    /// A string's content.
    Text(String),
    /// An array or an object, as JSON text.
    Composite(String),
}

pub ghost enum JsonScalarView {
    Null,
    Bool(bool),
    Number(Seq<char>),
    Text(Seq<char>),
    Composite(Seq<char>),
}

impl View for JsonScalar {
    type V = JsonScalarView;

    open spec fn view(&self) -> JsonScalarView {
        match self {
            JsonScalar::Null => JsonScalarView::Null,
            JsonScalar::Bool(b) => JsonScalarView::Bool(*b),
            JsonScalar::Number(t) => JsonScalarView::Number(t@),
            JsonScalar::Text(t) => JsonScalarView::Text(t@),
            JsonScalar::Composite(t) => JsonScalarView::Composite(t@),
        }
    }
}

pub type Member = (String, JsonScalar);

pub type MemberView = (Seq<char>, JsonScalarView);

pub open spec fn members_view(ms: Seq<Member>) -> Seq<MemberView> {
    ms.map_values(|m: Member| (m.0@, m.1@))
}

/// The members that serde_json reads from a text holding one JSON object.
pub uninterp spec fn json_members(text: Seq<char>) -> Option<Seq<MemberView>>;

/// The (string, string) pairs that serde_json reads from a text holding one JSON array of
/// two-string arrays.
pub uninterp spec fn json_string_pairs(text: Seq<char>) -> Option<Seq<(Seq<char>, Seq<char>)>>;

/// Relies on `serde_json::from_str` into a `serde_json::Map` (a function of the text); each
/// value is moved into its variant here. With serde_json's `arbitrary_precision`, a number's
/// `Display` is the token it had in the text; arrays and objects are printed as JSON.
#[verifier::external_body]
fn serde_json_object(text: &str) -> (r: Option<Vec<Member>>)
    ensures
        match r {
            Some(ms) => json_members(text@) == Some(members_view(ms@)),
            None => json_members(text@) is None,
        },
{
    let map = serde_json::from_str::<serde_json::Map<String, serde_json::Value>>(text).ok()?;
    Some(map.into_iter().map(|(k, v)| (k, match v {
        serde_json::Value::Null => JsonScalar::Null,
        serde_json::Value::Bool(b) => JsonScalar::Bool(b),
        serde_json::Value::Number(n) => JsonScalar::Number(n.to_string()),
        serde_json::Value::String(s) => JsonScalar::Text(s),
        other => JsonScalar::Composite(other.to_string()),
    })).collect())
}

/// The JSON texts of the items of a JSON array, as serde_json prints them.
pub uninterp spec fn json_array_items(text: Seq<char>) -> Option<Seq<Seq<char>>>;

/// Relies on `serde_json::from_str` into `Vec<serde_json::Value>` (a function of the text)
/// and on serde_json's `Display` for each item.
#[verifier::external_body]
fn serde_json_array_items(text: &str) -> (r: Option<Vec<String>>)
    ensures
        match r {
            Some(items) => json_array_items(text@) == Some(
                items@.map_values(|t: String| t@),
            ),
            None => json_array_items(text@) is None,
        },
{
    let items = serde_json::from_str::<Vec<serde_json::Value>>(text).ok()?;
    Some(items.into_iter().map(|v| v.to_string()).collect())
}

/// Relies on `serde_json::from_str` into `Vec<(String, String)>`, a function of the text.
#[verifier::external_body]
fn serde_json_string_pairs(text: &str) -> (r: Option<Vec<(String, String)>>)
    ensures
        match r {
            Some(ps) => json_string_pairs(text@) == Some(pairs_view(ps@)),
            None => json_string_pairs(text@) is None,
        },
{
    serde_json::from_str::<Vec<(String, String)>>(text).ok()
}

/// The members of a JSON object text; a decode error when the text is not one.
pub fn object_members(text: &str) -> (r: Result<Vec<Member>, BpxError>)
    ensures
        match r {
            Ok(ms) => json_members(text@) == Some(members_view(ms@)),
            Err(e) => json_members(text@) is None && decode_error_at(e, Seq::<char>::empty()),
        },
{
    match serde_json_object(text) {
        Some(ms) => Ok(ms),
        None => Err(malformed()),
    }
}

/// The pairs of a JSON array of two-string arrays; a decode error otherwise.
pub fn string_pairs(text: &str) -> (r: Result<Vec<(String, String)>, BpxError>)
    ensures
        match r {
            Ok(ps) => json_string_pairs(text@) == Some(pairs_view(ps@)),
            Err(e) => json_string_pairs(text@) is None && decode_error_at(e, Seq::<char>::empty()),
        },
{
    match serde_json_string_pairs(text) {
        Some(ps) => Ok(ps),
        None => Err(malformed()),
    }
}

/// The members of each object of a JSON array, when every item is an object.
pub open spec fn object_list(text: Seq<char>) -> Option<Seq<Seq<MemberView>>> {
    match json_array_items(text) {
        Some(items) => if forall|i: int| 0 <= i < items.len() ==> json_members(#[trigger] items[i]) is Some {
            Some(items.map_values(|t: Seq<char>| json_members(t)->Some_0))
        } else {
            None
        },
        None => None,
    }
}

/// The members of each object of a JSON array text; a decode error when the text is not
/// an array of objects.
pub fn object_list_members(text: &str) -> (r: Result<Vec<Vec<Member>>, BpxError>)
    ensures
        match object_list(text@) {
            Some(ls) => r matches Ok(v) && v@.len() == ls.len() && forall|i: int|
                0 <= i < ls.len() ==> members_view((#[trigger] v@[i])@) == ls[i],
            None => r matches Err(e) && decode_error_at(e, Seq::<char>::empty()),
        },
{
    let items = match serde_json_array_items(text) {
        Some(items) => items,
        None => return Err(malformed()),
    };
    let ghost texts = items@.map_values(|t: String| t@);
    let mut lists: Vec<Vec<Member>> = Vec::new();
    for i in 0..items.len()
        invariant
            texts == items@.map_values(|t: String| t@),
            json_array_items(text@) == Some(texts),
            lists@.len() == i,
            forall|j: int| 0 <= j < i ==> json_members(#[trigger] texts[j]) == Some(members_view(lists@[j]@)),
    {
        match object_members(items[i].as_str()) {
            Ok(ms) => lists.push(ms),
            Err(e) => {
                assert(json_members(texts[i as int]) is None);
                return Err(e);
            },
        }
    }
    assert(object_list(text@) == Some(lists@.map_values(|l: Vec<Member>| members_view(l@)))) by {
        assert(texts.map_values(|t: Seq<char>| json_members(t)->Some_0) =~= lists@.map_values(
            |l: Vec<Member>| members_view(l@),
        ));
    }
    Ok(lists)
}

/// The value of the first member named `key`.
pub open spec fn lookup(ms: Seq<MemberView>, key: Seq<char>) -> Option<JsonScalarView>
    decreases ms.len(),
{
    if ms.len() == 0 {
        None
    } else if ms[0].0 == key {
        Some(ms[0].1)
    } else {
        lookup(ms.drop_first(), key)
    }
}

/// The value of the first member named `key`, if there is one.
pub fn find_member<'a>(ms: &'a Vec<Member>, key: &str) -> (r: Option<&'a JsonScalar>)
    ensures
        match r {
            Some(v) => lookup(members_view(ms@), key@) == Some(v@),
            None => lookup(members_view(ms@), key@) is None,
        },
{
    let ghost view = members_view(ms@);
    assert(view.skip(0) =~= view);
    for i in 0..ms.len()
        invariant
            view == members_view(ms@),
            lookup(view, key@) == lookup(view.skip(i as int), key@),
    {
        assert(view.skip(i as int)[0] == view[i as int]);
        assert(view.skip(i as int).drop_first() =~= view.skip(i + 1));
        if text_eq(ms[i].0.as_str(), key) {
            return Some(&ms[i].1);
        }
    }
    assert(view.skip(ms.len() as int) =~= Seq::<MemberView>::empty());
    None
}

/// The integer a text holds: an optional `-` and at least one digit.
pub open spec fn int_of_text(t: Seq<char>) -> Option<int> {
    if t.len() > 0 && t[0] == '-' {
        let d = t.drop_first();
        if d.len() > 0 && all_digits(d) {
            Some(-digits_value(d))
        } else {
            None
        }
    } else if t.len() > 0 && all_digits(t) {
        Some(digits_value(t) as int)
    } else {
        None
    }
}

/// 2^64, where reading an integer stops counting.
pub open spec fn integer_cap() -> int {
    0x1_0000_0000_0000_0000
}

pub open spec fn capped(v: int) -> int {
    if v < integer_cap() {
        v
    } else {
        integer_cap()
    }
}

/// The integer that a text holds, when its magnitude is below 2^64.
pub fn integer_of_text(s: &str) -> (r: Option<i128>)
    ensures
        match r {
            Some(v) => int_of_text(s@) == Some(v as int) && -integer_cap() < v < integer_cap(),
            None => int_of_text(s@) matches Some(v) ==> (v <= -integer_cap() || v >= integer_cap()),
        },
{
    let n = s.unicode_len();
    if n == 0 {
        return None;
    }
    let negative = s.get_char(0) == '-';
    let start: usize = if negative {
        1
    } else {
        0
    };
    if start >= n {
        return None;
    }
    let ghost digits = s@.skip(start as int);
    let mut acc: u128 = 0;
    let mut i: usize = start;
    while i < n
        invariant
            n == s@.len(),
            n > 0,
            start <= i <= n,
            start == (if negative {
                1usize
            } else {
                0usize
            }),
            negative == (s@[0] == '-'),
            digits == s@.skip(start as int),
            forall|j: int| 0 <= j < i - start ==> is_digit(#[trigger] digits[j]),
            acc == capped(digits_value(digits.take(i - start)) as int),
        decreases n - i,
    {
        let c = s.get_char(i);
        if !('0' <= c && c <= '9') {
            proof {
                assert(digits[i - start] == c);
                assert(!all_digits(digits));
                if negative {
                    assert(s@.drop_first() =~= digits);
                } else {
                    assert(s@ =~= digits);
                }
            }
            return None;
        }
        let d: u128 = (c as u32 - '0' as u32) as u128;
        proof {
            assert(digits[i - start] == c);
            let p = digits.take(i - start);
            assert(digits.take(i + 1 - start).drop_last() =~= p);
            assert(digit_value(c) == d);
            assert(digits_value(digits.take(i + 1 - start)) == digits_value(p) * 10 + d);
        }
        if acc >= 0x1_0000_0000_0000_0000 {
            proof {
                let p = digits.take(i - start);
                assert(digits_value(p) * 10 + d >= integer_cap()) by (nonlinear_arith)
                    requires
                        digits_value(p) >= integer_cap(),
                        d >= 0,
                ;
            }
        } else {
            acc = acc * 10 + d;
            if acc > 0x1_0000_0000_0000_0000 {
                acc = 0x1_0000_0000_0000_0000;
            }
        }
        i = i + 1;
    }
    proof {
        assert(digits.take(n - start) =~= digits);
        assert(all_digits(digits));
        if negative {
            assert(s@.drop_first() =~= digits);
        } else {
            assert(s@ =~= digits);
        }
    }
    if acc >= 0x1_0000_0000_0000_0000 {
        None
    } else if negative {
        Some(-(acc as i128))
    } else {
        Some(acc as i128)
    }
}

pub open spec fn text_field(ms: Seq<MemberView>, key: Seq<char>) -> Option<Seq<char>> {
    match lookup(ms, key) {
        Some(JsonScalarView::Text(t)) => Some(t),
        _ => None,
    }
}

/// A string member, or nothing when the member is absent or null.
pub open spec fn optional_text_field(ms: Seq<MemberView>, key: Seq<char>) -> Option<Option<Seq<char>>> {
    match lookup(ms, key) {
        None => Some(None),
        Some(JsonScalarView::Null) => Some(None),
        Some(JsonScalarView::Text(t)) => Some(Some(t)),
        _ => None,
    }
}

/// The text of a string or number member.
pub open spec fn numeral_text(ms: Seq<MemberView>, key: Seq<char>) -> Option<Seq<char>> {
    match lookup(ms, key) {
        Some(JsonScalarView::Text(t)) => Some(t),
        Some(JsonScalarView::Number(t)) => Some(t),
        _ => None,
    }
}

/// A decimal member, given as a string or a number.
pub open spec fn decimal_field(ms: Seq<MemberView>, key: Seq<char>) -> Option<(int, nat)> {
    match lookup(ms, key) {
        Some(JsonScalarView::Text(t)) => decimal_of_text(t),
        Some(JsonScalarView::Number(t)) => decimal_of_text(t),
        _ => None,
    }
}

/// A decimal member, or nothing when the member is absent or null.
pub open spec fn optional_decimal_field(ms: Seq<MemberView>, key: Seq<char>) -> Option<
    Option<(int, nat)>,
> {
    match lookup(ms, key) {
        None => Some(None),
        Some(JsonScalarView::Null) => Some(None),
        Some(JsonScalarView::Text(t)) => match decimal_of_text(t) {
            Some(p) => Some(Some(p)),
            None => None,
        },
        Some(JsonScalarView::Number(t)) => match decimal_of_text(t) {
            Some(p) => Some(Some(p)),
            None => None,
        },
        _ => None,
    }
}

pub open spec fn integer_field(ms: Seq<MemberView>, key: Seq<char>) -> Option<int> {
    match lookup(ms, key) {
        Some(JsonScalarView::Number(t)) => int_of_text(t),
        _ => None,
    }
}

pub open spec fn bool_field(ms: Seq<MemberView>, key: Seq<char>) -> Option<bool> {
    match lookup(ms, key) {
        Some(JsonScalarView::Bool(b)) => Some(b),
        _ => None,
    }
}

/// An array member of two-string arrays.
pub open spec fn pairs_field(ms: Seq<MemberView>, key: Seq<char>) -> Option<Seq<(Seq<char>, Seq<char>)>> {
    match lookup(ms, key) {
        Some(JsonScalarView::Composite(t)) => json_string_pairs(t),
        _ => None,
    }
}

/// A date-time member, as chrono reads it from a string.
pub open spec fn datetime_field(ms: Seq<MemberView>, key: Seq<char>) -> Option<(int, nat)> {
    match text_field(ms, key) {
        Some(t) => parsed_datetime(t),
        None => None,
    }
}

/// The (seconds since 1970-01-01T00:00:00, nanoseconds) that chrono reads from a text as a
/// date-time without zone.
pub uninterp spec fn parsed_datetime(text: Seq<char>) -> Option<(int, nat)>;

/// Relies on `<chrono::NaiveDateTime as FromStr>::from_str`, a function of the text, and on
/// its `and_utc().timestamp()` and `timestamp_subsec_nanos()`.
#[verifier::external_body]
fn chrono_naive_datetime(text: &str) -> (r: Option<(i64, u32)>)
    ensures
        match r {
            Some(p) => parsed_datetime(text@) == Some((p.0 as int, p.1 as nat)),
            None => parsed_datetime(text@) is None,
        },
{
    let t = text.parse::<chrono::NaiveDateTime>().ok()?.and_utc();
    Some((t.timestamp(), t.timestamp_subsec_nanos()))
}

pub open spec fn optional_integer_field(ms: Seq<MemberView>, key: Seq<char>) -> Option<Option<int>> {
    match lookup(ms, key) {
        None => Some(None),
        Some(JsonScalarView::Null) => Some(None),
        Some(JsonScalarView::Number(t)) => match int_of_text(t) {
            Some(v) => Some(Some(v)),
            None => None,
        },
        _ => None,
    }
}

pub open spec fn optional_bool_field(ms: Seq<MemberView>, key: Seq<char>) -> Option<Option<bool>> {
    match lookup(ms, key) {
        None => Some(None),
        Some(JsonScalarView::Null) => Some(None),
        Some(JsonScalarView::Bool(b)) => Some(Some(b)),
        _ => None,
    }
}

/// An array or object member, as its JSON text.
pub open spec fn composite_field(ms: Seq<MemberView>, key: Seq<char>) -> Option<Seq<char>> {
    match lookup(ms, key) {
        Some(JsonScalarView::Composite(t)) => Some(t),
        _ => None,
    }
}

pub open spec fn optional_composite_field(ms: Seq<MemberView>, key: Seq<char>) -> Option<Option<Seq<char>>> {
    match lookup(ms, key) {
        None => Some(None),
        Some(JsonScalarView::Null) => Some(None),
        Some(JsonScalarView::Composite(t)) => Some(Some(t)),
        _ => None,
    }
}

/// The members of an object member.
pub open spec fn object_field(ms: Seq<MemberView>, key: Seq<char>) -> Option<Seq<MemberView>> {
    match composite_field(ms, key) {
        Some(t) => json_members(t),
        None => None,
    }
}

/// The members of an object member, or nothing when the member is absent or null.
pub open spec fn optional_object_field(ms: Seq<MemberView>, key: Seq<char>) -> Option<Option<Seq<MemberView>>> {
    match optional_composite_field(ms, key) {
        Some(Some(t)) => match json_members(t) {
            Some(m) => Some(Some(m)),
            None => None,
        },
        Some(None) => Some(None),
        None => None,
    }
}

/// The members of each object of an array member.
pub open spec fn object_list_field(ms: Seq<MemberView>, key: Seq<char>) -> Option<Seq<Seq<MemberView>>> {
    match composite_field(ms, key) {
        Some(t) => object_list(t),
        None => None,
    }
}

/// A date-time with a UTC offset, as chrono reads it from a string.
pub open spec fn zoned_datetime_field(ms: Seq<MemberView>, key: Seq<char>) -> Option<(int, nat, int)> {
    match text_field(ms, key) {
        Some(t) => parsed_zoned_datetime(t),
        None => None,
    }
}

/// The (seconds since the epoch in UTC, nanoseconds, offset east of UTC in seconds) that
/// chrono reads from a text as a date-time with an offset.
pub uninterp spec fn parsed_zoned_datetime(text: Seq<char>) -> Option<(int, nat, int)>;

/// Relies on `<chrono::DateTime<chrono::FixedOffset> as FromStr>::from_str`, a function of
/// the text, and on its `timestamp()`, `timestamp_subsec_nanos()` and
/// `offset().local_minus_utc()`.
#[verifier::external_body]
fn chrono_zoned_datetime(text: &str) -> (r: Option<(i64, u32, i32)>)
    ensures
        match r {
            Some(p) => parsed_zoned_datetime(text@) == Some((p.0 as int, p.1 as nat, p.2 as int)),
            None => parsed_zoned_datetime(text@) is None,
        },
{
    let t = text.parse::<chrono::DateTime<chrono::FixedOffset>>().ok()?;
    Some((t.timestamp(), t.timestamp_subsec_nanos(), t.offset().local_minus_utc()))
}

fn malformed() -> (r: BpxError)
    ensures
        decode_error_at(r, Seq::<char>::empty()),
        r->Decode_cause is Malformed,
{
    BpxError::Decode { member: String::new(), cause: DecodeCause::Malformed }
}

fn unreadable(key: &str) -> (r: BpxError)
    ensures
        decode_error_at(r, key@),
        r->Decode_cause is Unreadable,
{
    BpxError::Decode { member: key.to_owned(), cause: DecodeCause::Unreadable }
}

/// The error for a member whose text is not a decimal.
fn invalid_decimal_at(key: &str, text: &String) -> (r: BpxError)
    ensures
        decode_error_at(r, key@),
        r->Decode_cause is InvalidDecimal,
        r->Decode_cause->InvalidDecimal_input@ == text@,
{
    BpxError::Decode { member: key.to_owned(), cause: DecodeCause::InvalidDecimal { input: text.clone() } }
}

/// The error for a member whose text names no variant of its enumeration.
pub fn unknown_variant_at(key: &str, text: &String) -> (r: BpxError)
    ensures
        decode_error_at(r, key@),
        r->Decode_cause is UnknownVariant,
        r->Decode_cause->UnknownVariant_input@ == text@,
{
    BpxError::Decode { member: key.to_owned(), cause: DecodeCause::UnknownVariant { input: text.clone() } }
}

/// The error for a member whose levels hold a text that is not a decimal.
pub fn level_error_at(key: &str, e: BpxError) -> (r: BpxError)
    ensures
        decode_error_at(r, key@),
        e matches BpxError::InvalidDecimal { input } ==> r->Decode_cause == (
        DecodeCause::InvalidDecimal { input }),
{
    match e {
        BpxError::InvalidDecimal { input } => BpxError::Decode {
            member: key.to_owned(),
            cause: DecodeCause::InvalidDecimal { input },
        },
        _ => unreadable(key),
    }
}

/// Reads a string member.
pub fn read_text(ms: &Vec<Member>, key: &str) -> (r: Result<String, BpxError>)
    ensures
        match text_field(members_view(ms@), key@) {
            Some(t) => r matches Ok(v) && v@ == t,
            None => r matches Err(e) && decode_error_at(e, key@),
        },
{
    match find_member(ms, key) {
        Some(JsonScalar::Text(t)) => Ok(t.clone()),
        _ => Err(unreadable(key)),
    }
}

/// Reads a string member that may be absent or null.
pub fn read_optional_text(ms: &Vec<Member>, key: &str) -> (r: Result<Option<String>, BpxError>)
    ensures
        match optional_text_field(members_view(ms@), key@) {
            Some(Some(t)) => r matches Ok(Some(v)) && v@ == t,
            Some(None) => r matches Ok(None),
            None => r matches Err(e) && decode_error_at(e, key@),
        },
{
    match find_member(ms, key) {
        None => Ok(None),
        Some(JsonScalar::Null) => Ok(None),
        Some(JsonScalar::Text(t)) => Ok(Some(t.clone())),
        _ => Err(unreadable(key)),
    }
}

/// Reads a decimal member.
pub fn read_decimal(ms: &Vec<Member>, key: &str) -> (r: Result<Decimal, BpxError>)
    ensures
        match decimal_field(members_view(ms@), key@) {
            Some(p) => r matches Ok(d) && value_pair(d@) == p,
            None => r matches Err(e) && decode_error_at(e, key@),
        },
        match numeral_text(members_view(ms@), key@) {
            Some(t) => decimal_of_text(t) is None ==> (r matches Err(e) && invalid_decimal_error(
                e,
                key@,
                t,
            )),
            None => true,
        },
{
    let text = match find_member(ms, key) {
        Some(JsonScalar::Text(t)) => t,
        Some(JsonScalar::Number(t)) => t,
        _ => return Err(unreadable(key)),
    };
    match Decimal::parse(text.as_str()) {
        Ok(d) => Ok(d),
        Err(_) => Err(invalid_decimal_at(key, text)),
    }
}

/// Reads a decimal member that may be absent or null.
pub fn read_optional_decimal(ms: &Vec<Member>, key: &str) -> (r: Result<Option<Decimal>, BpxError>)
    ensures
        match optional_decimal_field(members_view(ms@), key@) {
            Some(Some(p)) => r matches Ok(Some(d)) && value_pair(d@) == p,
            Some(None) => r matches Ok(None),
            None => r matches Err(e) && decode_error_at(e, key@),
        },
        match numeral_text(members_view(ms@), key@) {
            Some(t) => decimal_of_text(t) is None ==> (r matches Err(e) && invalid_decimal_error(
                e,
                key@,
                t,
            )),
            None => true,
        },
{
    let text = match find_member(ms, key) {
        None => return Ok(None),
        Some(JsonScalar::Null) => return Ok(None),
        Some(JsonScalar::Text(t)) => t,
        Some(JsonScalar::Number(t)) => t,
        _ => return Err(unreadable(key)),
    };
    match Decimal::parse(text.as_str()) {
        Ok(d) => Ok(Some(d)),
        Err(_) => Err(invalid_decimal_at(key, text)),
    }
}

fn read_integer(ms: &Vec<Member>, key: &str) -> (r: Option<i128>)
    ensures
        match r {
            Some(v) => integer_field(members_view(ms@), key@) == Some(v as int),
            None => integer_field(members_view(ms@), key@) matches Some(v) ==> (v <= -integer_cap()
                || v >= integer_cap()),
        },
{
    match find_member(ms, key) {
        Some(JsonScalar::Number(t)) => integer_of_text(t.as_str()),
        _ => None,
    }
}

/// Reads a signed 64-bit integer member.
pub fn read_i64(ms: &Vec<Member>, key: &str) -> (r: Result<i64, BpxError>)
    ensures
        match integer_field(members_view(ms@), key@) {
            Some(v) => if i64::MIN <= v <= i64::MAX {
                r == Ok::<i64, BpxError>(v as i64)
            } else {
                r matches Err(e) && decode_error_at(e, key@)
            },
            None => r matches Err(e) && decode_error_at(e, key@),
        },
{
    match read_integer(ms, key) {
        Some(v) => if -0x8000_0000_0000_0000 <= v && v <= 0x7fff_ffff_ffff_ffff {
            Ok(v as i64)
        } else {
            Err(unreadable(key))
        },
        None => Err(unreadable(key)),
    }
}

/// Reads an unsigned 64-bit integer member.
pub fn read_u64(ms: &Vec<Member>, key: &str) -> (r: Result<u64, BpxError>)
    ensures
        match integer_field(members_view(ms@), key@) {
            Some(v) => if 0 <= v <= u64::MAX {
                r == Ok::<u64, BpxError>(v as u64)
            } else {
                r matches Err(e) && decode_error_at(e, key@)
            },
            None => r matches Err(e) && decode_error_at(e, key@),
        },
{
    match read_integer(ms, key) {
        Some(v) => if 0 <= v && v <= 0xffff_ffff_ffff_ffff {
            Ok(v as u64)
        } else {
            Err(unreadable(key))
        },
        None => Err(unreadable(key)),
    }
}

/// Reads a boolean member.
pub fn read_bool(ms: &Vec<Member>, key: &str) -> (r: Result<bool, BpxError>)
    ensures
        match bool_field(members_view(ms@), key@) {
            Some(b) => r == Ok::<bool, BpxError>(b),
            None => r matches Err(e) && decode_error_at(e, key@),
        },
{
    match find_member(ms, key) {
        Some(JsonScalar::Bool(b)) => Ok(*b),
        _ => Err(unreadable(key)),
    }
}

/// Reads an array member of two-string arrays.
pub fn read_pairs(ms: &Vec<Member>, key: &str) -> (r: Result<Vec<(String, String)>, BpxError>)
    ensures
        match pairs_field(members_view(ms@), key@) {
            Some(ps) => r matches Ok(v) && pairs_view(v@) == ps,
            None => r matches Err(e) && decode_error_at(e, key@),
        },
{
    match find_member(ms, key) {
        Some(JsonScalar::Composite(t)) => match string_pairs(t.as_str()) {
            Ok(ps) => Ok(ps),
            Err(_) => Err(unreadable(key)),
        },
        _ => Err(unreadable(key)),
    }
}

/// Reads a date-time member.
pub fn read_datetime(ms: &Vec<Member>, key: &str) -> (r: Result<Timestamp, BpxError>)
    ensures
        match datetime_field(members_view(ms@), key@) {
            Some(p) => r matches Ok(t) && t.seconds == p.0 && t.nanos == p.1,
            None => r matches Err(e) && decode_error_at(e, key@),
        },
{
    let text = read_text(ms, key)?;
    match chrono_naive_datetime(text.as_str()) {
        Some(p) => Ok(Timestamp { seconds: p.0, nanos: p.1 }),
        None => Err(unreadable(key)),
    }
}

fn read_optional_integer(ms: &Vec<Member>, key: &str) -> (r: Result<Option<i128>, BpxError>)
    ensures
        match r {
            Ok(Some(v)) => optional_integer_field(members_view(ms@), key@) == Some(Some(v as int)),
            Ok(None) => optional_integer_field(members_view(ms@), key@) == Some(None::<int>),
            Err(e) => decode_error_at(e, key@) && (optional_integer_field(members_view(ms@), key@) matches Some(
                o,
            ) ==> (o matches Some(v) && (v <= -integer_cap() || v >= integer_cap()))),
        },
{
    match find_member(ms, key) {
        None => Ok(None),
        Some(JsonScalar::Null) => Ok(None),
        Some(JsonScalar::Number(t)) => match integer_of_text(t.as_str()) {
            Some(v) => Ok(Some(v)),
            None => Err(unreadable(key)),
        },
        _ => Err(unreadable(key)),
    }
}

/// Reads an unsigned 64-bit integer member that may be absent or null.
pub fn read_optional_u64(ms: &Vec<Member>, key: &str) -> (r: Result<Option<u64>, BpxError>)
    ensures
        match optional_integer_field(members_view(ms@), key@) {
            Some(Some(v)) => if 0 <= v <= u64::MAX {
                r == Ok::<Option<u64>, BpxError>(Some(v as u64))
            } else {
                r matches Err(e) && decode_error_at(e, key@)
            },
            Some(None) => r == Ok::<Option<u64>, BpxError>(None),
            None => r matches Err(e) && decode_error_at(e, key@),
        },
{
    match read_optional_integer(ms, key)? {
        Some(v) => if 0 <= v && v <= 0xffff_ffff_ffff_ffff {
            Ok(Some(v as u64))
        } else {
            Err(unreadable(key))
        },
        None => Ok(None),
    }
}

/// Reads a signed 64-bit integer member that may be absent or null.
pub fn read_optional_i64(ms: &Vec<Member>, key: &str) -> (r: Result<Option<i64>, BpxError>)
    ensures
        match optional_integer_field(members_view(ms@), key@) {
            Some(Some(v)) => if i64::MIN <= v <= i64::MAX {
                r == Ok::<Option<i64>, BpxError>(Some(v as i64))
            } else {
                r matches Err(e) && decode_error_at(e, key@)
            },
            Some(None) => r == Ok::<Option<i64>, BpxError>(None),
            None => r matches Err(e) && decode_error_at(e, key@),
        },
{
    match read_optional_integer(ms, key)? {
        Some(v) => if -0x8000_0000_0000_0000 <= v && v <= 0x7fff_ffff_ffff_ffff {
            Ok(Some(v as i64))
        } else {
            Err(unreadable(key))
        },
        None => Ok(None),
    }
}

/// Reads an unsigned 32-bit integer member that may be absent or null.
pub fn read_optional_u32(ms: &Vec<Member>, key: &str) -> (r: Result<Option<u32>, BpxError>)
    ensures
        match optional_integer_field(members_view(ms@), key@) {
            Some(Some(v)) => if 0 <= v <= u32::MAX {
                r == Ok::<Option<u32>, BpxError>(Some(v as u32))
            } else {
                r matches Err(e) && decode_error_at(e, key@)
            },
            Some(None) => r == Ok::<Option<u32>, BpxError>(None),
            None => r matches Err(e) && decode_error_at(e, key@),
        },
{
    match read_optional_integer(ms, key)? {
        Some(v) => if 0 <= v && v <= 0xffff_ffff {
            Ok(Some(v as u32))
        } else {
            Err(unreadable(key))
        },
        None => Ok(None),
    }
}

/// Reads a signed 32-bit integer member.
pub fn read_i32(ms: &Vec<Member>, key: &str) -> (r: Result<i32, BpxError>)
    ensures
        match integer_field(members_view(ms@), key@) {
            Some(v) => if i32::MIN <= v <= i32::MAX {
                r == Ok::<i32, BpxError>(v as i32)
            } else {
                r matches Err(e) && decode_error_at(e, key@)
            },
            None => r matches Err(e) && decode_error_at(e, key@),
        },
{
    match read_integer(ms, key) {
        Some(v) => if -0x8000_0000 <= v && v <= 0x7fff_ffff {
            Ok(v as i32)
        } else {
            Err(unreadable(key))
        },
        None => Err(unreadable(key)),
    }
}

/// Reads a boolean member that may be absent or null.
pub fn read_optional_bool(ms: &Vec<Member>, key: &str) -> (r: Result<Option<bool>, BpxError>)
    ensures
        match optional_bool_field(members_view(ms@), key@) {
            Some(o) => r == Ok::<Option<bool>, BpxError>(o),
            None => r matches Err(e) && decode_error_at(e, key@),
        },
{
    match find_member(ms, key) {
        None => Ok(None),
        Some(JsonScalar::Null) => Ok(None),
        Some(JsonScalar::Bool(b)) => Ok(Some(*b)),
        _ => Err(unreadable(key)),
    }
}

/// Reads an array or object member as its JSON text.
pub fn read_json_text(ms: &Vec<Member>, key: &str) -> (r: Result<String, BpxError>)
    ensures
        match composite_field(members_view(ms@), key@) {
            Some(t) => r matches Ok(v) && v@ == t,
            None => r matches Err(e) && decode_error_at(e, key@),
        },
{
    match find_member(ms, key) {
        Some(JsonScalar::Composite(t)) => Ok(t.clone()),
        _ => Err(unreadable(key)),
    }
}

/// Reads an array or object member as its JSON text, when it is neither absent nor null.
pub fn read_optional_json_text(ms: &Vec<Member>, key: &str) -> (r: Result<Option<String>, BpxError>)
    ensures
        match optional_composite_field(members_view(ms@), key@) {
            Some(Some(t)) => r matches Ok(Some(v)) && v@ == t,
            Some(None) => r matches Ok(None),
            None => r matches Err(e) && decode_error_at(e, key@),
        },
{
    match find_member(ms, key) {
        None => Ok(None),
        Some(JsonScalar::Null) => Ok(None),
        Some(JsonScalar::Composite(t)) => Ok(Some(t.clone())),
        _ => Err(unreadable(key)),
    }
}

/// Reads the members of an object member.
pub fn read_object(ms: &Vec<Member>, key: &str) -> (r: Result<Vec<Member>, BpxError>)
    ensures
        match object_field(members_view(ms@), key@) {
            Some(m) => r matches Ok(v) && members_view(v@) == m,
            None => r matches Err(e) && decode_error_at(e, key@),
        },
{
    match find_member(ms, key) {
        Some(JsonScalar::Composite(t)) => match object_members(t.as_str()) {
            Ok(m) => Ok(m),
            Err(_) => Err(unreadable(key)),
        },
        _ => Err(unreadable(key)),
    }
}

/// Reads the members of an object member that may be absent or null.
pub fn read_optional_object(ms: &Vec<Member>, key: &str) -> (r: Result<Option<Vec<Member>>, BpxError>)
    ensures
        match optional_object_field(members_view(ms@), key@) {
            Some(Some(m)) => r matches Ok(Some(v)) && members_view(v@) == m,
            Some(None) => r matches Ok(None),
            None => r matches Err(e) && decode_error_at(e, key@),
        },
{
    match find_member(ms, key) {
        None => Ok(None),
        Some(JsonScalar::Null) => Ok(None),
        Some(JsonScalar::Composite(t)) => match object_members(t.as_str()) {
            Ok(m) => Ok(Some(m)),
            Err(_) => Err(unreadable(key)),
        },
        _ => Err(unreadable(key)),
    }
}

/// Reads the members of each object of an array member.
pub fn read_object_list(ms: &Vec<Member>, key: &str) -> (r: Result<Vec<Vec<Member>>, BpxError>)
    ensures
        match object_list_field(members_view(ms@), key@) {
            Some(ls) => r matches Ok(v) && v@.len() == ls.len() && forall|i: int|
                0 <= i < ls.len() ==> members_view((#[trigger] v@[i])@) == ls[i],
            None => r matches Err(e) && decode_error_at(e, key@),
        },
{
    match find_member(ms, key) {
        Some(JsonScalar::Composite(t)) => match object_list_members(t.as_str()) {
            Ok(ls) => Ok(ls),
            Err(_) => Err(unreadable(key)),
        },
        _ => Err(unreadable(key)),
    }
}

/// Reads a date-time member with a UTC offset.
pub fn read_zoned_datetime(ms: &Vec<Member>, key: &str) -> (r: Result<ZonedTimestamp, BpxError>)
    ensures
        match zoned_datetime_field(members_view(ms@), key@) {
            Some(p) => r matches Ok(t) && t.seconds == p.0 && t.nanos == p.1 && t.offset_seconds
                == p.2,
            None => r matches Err(e) && decode_error_at(e, key@),
        },
{
    let text = read_text(ms, key)?;
    match chrono_zoned_datetime(text.as_str()) {
        Some(p) => Ok(ZonedTimestamp { seconds: p.0, nanos: p.1, offset_seconds: p.2 }),
        None => Err(unreadable(key)),
    }
}

} // verus!
