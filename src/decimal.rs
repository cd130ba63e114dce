//! Exact base-10 fixed-point numbers, carried as a mantissa and a scale.
use crate::error::BpxError;
use crate::text::{
    digit_value, first_index_of, is_digit, lacks_char, lemma_first_index_after,
    lemma_nat_text_lacks, nat_text,
};
use vstd::prelude::*;

verus! {

/// Largest number of fractional digits a decimal may carry.
pub const MAX_SCALE: u32 = 28;

/// Mantissas are bounded in magnitude by 2^96.
pub open spec fn mantissa_bound() -> int {
    0x1_0000_0000_0000_0000_0000_0000
}

/// The mathematical content of a decimal: `mantissa * 10^-scale`, with its scale kept.
pub ghost struct DecimalValue {
    pub mantissa: int,
    pub scale: nat,
}

impl DecimalValue {
    pub open spec fn wf(self) -> bool {
        -mantissa_bound() < self.mantissa < mantissa_bound() && self.scale <= MAX_SCALE
    }
}

pub open spec fn value_pair(v: DecimalValue) -> (int, nat) {
    (v.mantissa, v.scale)
}

pub open spec fn decimal_value(mantissa: int, scale: nat) -> DecimalValue {
    DecimalValue { mantissa, scale }
}

pub open spec fn pow10(n: nat) -> nat
    decreases n,
{
    if n == 0 {
        1
    } else {
        10 * pow10((n - 1) as nat)
    }
}

/// `t` preceded by as many `0` as make it `width` long.
pub open spec fn zero_pad(t: Seq<char>, width: nat) -> Seq<char> {
    if t.len() >= width {
        t
    } else {
        Seq::new((width - t.len()) as nat, |i: int| '0') + t
    }
}

/// The canonical text of a decimal: a `-` when negative, the integer part without leading
/// zeros, then, when the scale is positive, a `.` and exactly `scale` fractional digits.
pub open spec fn decimal_text(v: DecimalValue) -> Seq<char> {
    let m: nat = if v.mantissa < 0 {
        (-v.mantissa) as nat
    } else {
        v.mantissa as nat
    };
    let sign: Seq<char> = if v.mantissa < 0 {
        seq!['-']
    } else {
        seq![]
    };
    let whole = nat_text(m / pow10(v.scale));
    if v.scale == 0 {
        sign + whole
    } else {
        sign + whole + seq!['.'] + zero_pad(nat_text(m % pow10(v.scale)), v.scale)
    }
}

/// Index of the first `.` in `s`, or `s.len()` when there is none.
pub open spec fn first_dot(s: Seq<char>) -> int {
    first_index_of(s, '.')
}

/// Number of characters after the first `.` of `s`; zero when there is no `.`.
pub open spec fn fraction_len(s: Seq<char>) -> nat {
    if first_dot(s) < s.len() {
        (s.len() - first_dot(s) - 1) as nat
    } else {
        0
    }
}

/// `s` without one leading sign character.
pub open spec fn unsigned_part(s: Seq<char>) -> Seq<char> {
    if s.len() > 0 && (s[0] == '-' || s[0] == '+') {
        s.drop_first()
    } else {
        s
    }
}

pub open spec fn integer_digits(s: Seq<char>) -> Seq<char> {
    let b = unsigned_part(s);
    b.take(first_dot(b))
}

pub open spec fn fraction_digits(s: Seq<char>) -> Seq<char> {
    let b = unsigned_part(s);
    if first_dot(b) < b.len() {
        b.skip(first_dot(b) + 1)
    } else {
        seq![]
    }
}

pub open spec fn all_digits(t: Seq<char>) -> bool {
    forall|i: int| 0 <= i < t.len() ==> is_digit(#[trigger] t[i])
}

/// The number that a string of digits denotes.
pub open spec fn digits_value(t: Seq<char>) -> nat
    decreases t.len(),
{
    if t.len() == 0 {
        0
    } else {
        digits_value(t.drop_last()) * 10 + digit_value(t.last())
    }
}

/// A plain numeral: an optional sign, at least one integer digit, and optionally a `.`
/// followed by at least one digit; at most 28 fractional digits, and all its digits read
/// as one integer below 2^96 (leading zeros do not count).
pub open spec fn is_plain_numeral(s: Seq<char>) -> bool {
    let b = unsigned_part(s);
    &&& integer_digits(s).len() >= 1
    &&& all_digits(integer_digits(s))
    &&& all_digits(fraction_digits(s))
    &&& (first_dot(b) < b.len() ==> fraction_digits(s).len() >= 1)
    &&& fraction_digits(s).len() <= MAX_SCALE
    &&& digits_value(integer_digits(s) + fraction_digits(s)) < mantissa_bound()
}

/// What a plain numeral denotes: all its digits as the mantissa, its fractional digits as
/// the scale. A negative zero is zero.
pub open spec fn plain_value(s: Seq<char>) -> DecimalValue {
    let magnitude = digits_value(integer_digits(s) + fraction_digits(s));
    DecimalValue {
        mantissa: if s.len() > 0 && s[0] == '-' {
            -magnitude
        } else {
            magnitude as int
        },
        scale: fraction_digits(s).len(),
    }
}

pub open spec fn lacks_digits(s: Seq<char>) -> bool {
    forall|i: int| 0 <= i < s.len() ==> !is_digit(#[trigger] s[i])
}

/// `s` holds a character that no decimal numeral holds.
pub open spec fn has_foreign_char(s: Seq<char>) -> bool {
    exists|i: int|
        0 <= i < s.len() && !is_digit(#[trigger] s[i]) && s[i] != '.' && s[i] != '-' && s[i]
            != '+' && s[i] != '_'
}

pub open spec fn has_exponent_mark(s: Seq<char>) -> bool {
    exists|i: int| 0 <= i < s.len() && (#[trigger] s[i] == 'e' || s[i] == 'E')
}

proof fn lemma_first_index_bound(s: Seq<char>, c: char)
    ensures
        0 <= first_index_of(s, c) <= s.len(),
    decreases s.len(),
{
    if s.len() > 0 {
        lemma_first_index_bound(s.drop_first(), c);
    }
}

proof fn lemma_nat_text_len(n: nat, k: nat)
    requires
        k >= 1,
        n < pow10(k),
    ensures
        nat_text(n).len() <= k,
    decreases k,
{
    if n >= 10 {
        assert(k >= 2) by {
            if k == 1 {
                assert(pow10(1) == 10 * pow10(0));
            }
        }
        assert(pow10(k) == 10 * pow10((k - 1) as nat));
        lemma_nat_text_len(n / 10, (k - 1) as nat);
    }
}

proof fn lemma_pow10_positive(n: nat)
    ensures
        pow10(n) >= 1,
    decreases n,
{
    if n > 0 {
        lemma_pow10_positive((n - 1) as nat);
    }
}

/// The canonical text of a decimal has exactly `scale` fractional digits.
pub proof fn lemma_text_fraction_len(v: DecimalValue)
    ensures
        fraction_len(decimal_text(v)) == v.scale,
{
    let m: nat = if v.mantissa < 0 {
        (-v.mantissa) as nat
    } else {
        v.mantissa as nat
    };
    let sign: Seq<char> = if v.mantissa < 0 {
        seq!['-']
    } else {
        seq![]
    };
    lemma_pow10_positive(v.scale);
    let whole = nat_text(m / pow10(v.scale));
    lemma_nat_text_lacks(m / pow10(v.scale), '.');
    let head = sign + whole;
    assert(lacks_char(head, '.')) by {
        assert forall|i: int| 0 <= i < head.len() implies #[trigger] head[i] != '.' by {
            if i >= sign.len() {
                assert(head[i] == whole[i - sign.len()]);
            }
        }
    }
    if v.scale == 0 {
        lemma_first_index_after(head, seq![], '.');
        assert(head + seq![] =~= head);
    } else {
        let frac = zero_pad(nat_text(m % pow10(v.scale)), v.scale);
        lemma_nat_text_len(m % pow10(v.scale), v.scale);
        assert(frac.len() == v.scale);
        let rest = seq!['.'] + frac;
        lemma_first_index_after(head, rest, '.');
        assert(decimal_text(v) =~= head + rest);
    }
}

/// A plain numeral's fractional digits are the characters after its `.`.
proof fn lemma_plain_fraction_len(s: Seq<char>)
    requires
        is_plain_numeral(s),
    ensures
        fraction_len(s) == fraction_digits(s).len(),
{
    let b = unsigned_part(s);
    lemma_first_index_bound(b, '.');
    if s.len() > 0 && (s[0] == '-' || s[0] == '+') {
        assert(first_dot(s) == 1 + first_dot(b));
    }
}

/// Reading a plain numeral with N fractional digits and writing the decimal back gives a
/// text with exactly N fractional digits: no trailing zero dropped, none added.
pub proof fn lemma_fraction_digits_kept(s: Seq<char>)
    requires
        is_plain_numeral(s),
    ensures
        fraction_len(decimal_text(plain_value(s))) == fraction_len(s),
{
    lemma_text_fraction_len(plain_value(s));
    lemma_plain_fraction_len(s);
}

/// The (mantissa, scale) read from a text: a plain numeral's own digits and scale, and for
/// any other text what rust_decimal's parser reads from it, if anything.
pub open spec fn decimal_of_text(t: Seq<char>) -> Option<(int, nat)> {
    if is_plain_numeral(t) {
        Some(value_pair(plain_value(t)))
    } else {
        parsed_decimal(t)
    }
}

/// The (mantissa, scale) that rust_decimal's parser reads from a text, if it accepts it.
pub uninterp spec fn parsed_decimal(s: Seq<char>) -> Option<(int, nat)>;

/// Relies on `<rust_decimal::Decimal as FromStr>::from_str`: it reads a plain numeral
/// exactly (mantissa from all digits, scale from the fractional ones, negative zero made
/// positive), since no prefix of its digits reaches 2^96 and its scale stays within 28;
/// it refuses a text without digits or with a character outside digits, `.`, `+`, `-`,
/// `_` (when no exponent mark calls the scientific parser); what it accepts lies within
/// its 96-bit mantissa and scale 28.
#[verifier::external_body]
fn rust_decimal_from_str(s: &str) -> (r: Option<(i128, u32)>)
    ensures
        match r {
            Some(p) => parsed_decimal(s@) == Some((p.0 as int, p.1 as nat)) && -mantissa_bound()
                < p.0 < mantissa_bound() && p.1 <= MAX_SCALE,
            None => parsed_decimal(s@) is None,
        },
        is_plain_numeral(s@) ==> r is Some && r->Some_0.0 == plain_value(s@).mantissa
            && r->Some_0.1 == plain_value(s@).scale,
        !has_exponent_mark(s@) && (lacks_digits(s@) || has_foreign_char(s@)) ==> r is None,
{
    <rust_decimal::Decimal as std::str::FromStr>::from_str(s).ok().map(|d| (d.mantissa(), d.scale()))
}

/// Relies on rust_decimal's `Display` for `Decimal`, on a value built by
/// `Decimal::from_i128_with_scale` (which panics only out of the bounds required here).
#[verifier::external_body]
fn rust_decimal_to_string(mantissa: i128, scale: u32) -> (r: String)
    requires
        -mantissa_bound() < mantissa < mantissa_bound(),
        scale <= MAX_SCALE,
    ensures
        r@ == decimal_text(decimal_value(mantissa as int, scale as nat)),
{
    rust_decimal::Decimal::from_i128_with_scale(mantissa, scale).to_string()
}

/// `a` and `b` compared as numbers: `a.mantissa * 10^-a.scale` against `b.mantissa * 10^-b.scale`,
/// each scaled up to the larger scale.
pub open spec fn value_cmp(a: DecimalValue, b: DecimalValue) -> std::cmp::Ordering {
    let x = a.mantissa * pow10(b.scale);
    let y = b.mantissa * pow10(a.scale);
    if x < y {
        std::cmp::Ordering::Less
    } else if x == y {
        std::cmp::Ordering::Equal
    } else {
        std::cmp::Ordering::Greater
    }
}

/// Relies on rust_decimal's `Ord` for `Decimal`, which compares numeric values (after
/// aligning scales), on values built by `Decimal::from_i128_with_scale` within its bounds.
#[verifier::external_body]
fn rust_decimal_cmp(a_mantissa: i128, a_scale: u32, b_mantissa: i128, b_scale: u32) -> (r:
    std::cmp::Ordering)
    requires
        -mantissa_bound() < a_mantissa < mantissa_bound(),
        -mantissa_bound() < b_mantissa < mantissa_bound(),
        a_scale <= MAX_SCALE,
        b_scale <= MAX_SCALE,
    ensures
        r == value_cmp(
            decimal_value(a_mantissa as int, a_scale as nat),
            decimal_value(b_mantissa as int, b_scale as nat),
        ),
{
    let a = rust_decimal::Decimal::from_i128_with_scale(a_mantissa, a_scale);
    let b = rust_decimal::Decimal::from_i128_with_scale(b_mantissa, b_scale);
    a.cmp(&b)
}

/// The (mantissa, scale) of rust_decimal's checked sum of two decimals, given as
/// (mantissa, scale), when it does not overflow.
pub uninterp spec fn decimal_sum(a: (int, nat), b: (int, nat)) -> Option<(int, nat)>;

/// The (mantissa, scale) of rust_decimal's checked difference of two decimals, given as
/// (mantissa, scale), when it does not overflow.
pub uninterp spec fn decimal_difference(a: (int, nat), b: (int, nat)) -> Option<(int, nat)>;

/// Relies on `rust_decimal::Decimal::checked_add`, a function of its operands (`None` on
/// overflow), on values built by `Decimal::from_i128_with_scale` within its bounds; what
/// it returns lies within the 96-bit mantissa and scale 28.
#[verifier::external_body]
fn rust_decimal_checked_add(a: (i128, u32), b: (i128, u32)) -> (r: Option<(i128, u32)>)
    requires
        -mantissa_bound() < a.0 < mantissa_bound(),
        -mantissa_bound() < b.0 < mantissa_bound(),
        a.1 <= MAX_SCALE,
        b.1 <= MAX_SCALE,
    ensures
        match r {
            Some(p) => decimal_sum((a.0 as int, a.1 as nat), (b.0 as int, b.1 as nat)) == Some(
                (p.0 as int, p.1 as nat),
            ) && -mantissa_bound() < p.0 < mantissa_bound() && p.1 <= MAX_SCALE,
            None => decimal_sum((a.0 as int, a.1 as nat), (b.0 as int, b.1 as nat)) is None,
        },
{
    let x = rust_decimal::Decimal::from_i128_with_scale(a.0, a.1);
    let y = rust_decimal::Decimal::from_i128_with_scale(b.0, b.1);
    x.checked_add(y).map(|d| (d.mantissa(), d.scale()))
}

/// Relies on `rust_decimal::Decimal::checked_sub`, a function of its operands (`None` on
/// overflow), on values built by `Decimal::from_i128_with_scale` within its bounds; what
/// it returns lies within the 96-bit mantissa and scale 28.
#[verifier::external_body]
fn rust_decimal_checked_sub(a: (i128, u32), b: (i128, u32)) -> (r: Option<(i128, u32)>)
    requires
        -mantissa_bound() < a.0 < mantissa_bound(),
        -mantissa_bound() < b.0 < mantissa_bound(),
        a.1 <= MAX_SCALE,
        b.1 <= MAX_SCALE,
    ensures
        match r {
            Some(p) => decimal_difference((a.0 as int, a.1 as nat), (b.0 as int, b.1 as nat))
                == Some((p.0 as int, p.1 as nat)) && -mantissa_bound() < p.0 < mantissa_bound()
                && p.1 <= MAX_SCALE,
            None => decimal_difference((a.0 as int, a.1 as nat), (b.0 as int, b.1 as nat)) is None,
        },
{
    let x = rust_decimal::Decimal::from_i128_with_scale(a.0, a.1);
    let y = rust_decimal::Decimal::from_i128_with_scale(b.0, b.1);
    x.checked_sub(y).map(|d| (d.mantissa(), d.scale()))
}

/// An exact decimal number that keeps its scale: `1.50` and `1.5` are different values of
/// this type, as they are different texts on the wire.
#[derive(Debug, Clone, Copy, PartialEq, Eq, Hash)]
pub struct Decimal {
    mantissa: i128,
    scale: u32,
}

impl View for Decimal {
    type V = DecimalValue;

    closed spec fn view(&self) -> DecimalValue {
        DecimalValue { mantissa: self.mantissa as int, scale: self.scale as nat }
    }
}

impl Decimal {
    #[verifier::type_invariant]
    spec fn well_formed(self) -> bool {
        -mantissa_bound() < self.mantissa < mantissa_bound() && self.scale <= MAX_SCALE
    }

    /// The decimal `mantissa * 10^-scale`, when both lie within bounds.
    pub fn try_from_i128_with_scale(mantissa: i128, scale: u32) -> (r: Option<Decimal>)
        ensures
            r is Some <==> decimal_value(mantissa as int, scale as nat).wf(),
            r is Some ==> r->Some_0@ == decimal_value(mantissa as int, scale as nat),
    {
        if -0x1_0000_0000_0000_0000_0000_0000 < mantissa && mantissa
            < 0x1_0000_0000_0000_0000_0000_0000 && scale <= MAX_SCALE {
            Some(Decimal { mantissa, scale })
        } else {
            None
        }
    }

    /// Reads a decimal from its text.
    pub fn parse(s: &str) -> (r: Result<Decimal, BpxError>)
        ensures
            match r {
                Ok(d) => parsed_decimal(s@) == Some((d@.mantissa, d@.scale)),
                Err(e) => parsed_decimal(s@) is None && e is InvalidDecimal
                    && e->InvalidDecimal_input@ == s@,
            },
            is_plain_numeral(s@) ==> r is Ok && r->Ok_0@ == plain_value(s@),
            match r {
                Ok(d) => decimal_of_text(s@) == Some(value_pair(d@)),
                Err(_) => decimal_of_text(s@) is None,
            },
            !has_exponent_mark(s@) && (lacks_digits(s@) || has_foreign_char(s@)) ==> r is Err,
    {
        match rust_decimal_from_str(s) {
            Some(p) => Ok(Decimal { mantissa: p.0, scale: p.1 }),
            None => Err(BpxError::InvalidDecimal { input: s.to_owned() }),
        }
    }

    /// The canonical text of this decimal, with exactly `scale` fractional digits.
    pub fn to_wire_string(&self) -> (r: String)
        ensures
            r@ == decimal_text(self@),
    {
        proof {
            use_type_invariant(self);
        }
        rust_decimal_to_string(self.mantissa, self.scale)
    }

    /// Compares the numbers that two decimals denote, whatever their scales: `1.5` and
    /// `1.50` are equal here.
    pub fn compare(&self, other: &Decimal) -> (r: std::cmp::Ordering)
        ensures
            r == value_cmp(self@, other@),
    {
        proof {
            use_type_invariant(self);
            use_type_invariant(other);
        }
        rust_decimal_cmp(self.mantissa, self.scale, other.mantissa, other.scale)
    }

    /// The sum of two decimals, or `None` when it overflows.
    pub fn checked_add(&self, other: &Decimal) -> (r: Option<Decimal>)
        ensures
            match decimal_sum(value_pair(self@), value_pair(other@)) {
                Some(p) => r matches Some(d) && value_pair(d@) == p,
                None => r is None,
            },
    {
        proof {
            use_type_invariant(self);
            use_type_invariant(other);
        }
        match rust_decimal_checked_add((self.mantissa, self.scale), (other.mantissa, other.scale)) {
            Some(p) => Some(Decimal { mantissa: p.0, scale: p.1 }),
            None => None,
        }
    }

    /// The difference of two decimals, or `None` when it overflows.
    pub fn checked_sub(&self, other: &Decimal) -> (r: Option<Decimal>)
        ensures
            match decimal_difference(value_pair(self@), value_pair(other@)) {
                Some(p) => r matches Some(d) && value_pair(d@) == p,
                None => r is None,
            },
    {
        proof {
            use_type_invariant(self);
            use_type_invariant(other);
        }
        match rust_decimal_checked_sub((self.mantissa, self.scale), (other.mantissa, other.scale)) {
            Some(p) => Some(Decimal { mantissa: p.0, scale: p.1 }),
            None => None,
        }
    }

    /// Number of fractional digits.
    pub fn scale(&self) -> (r: u32)
        ensures
            r == self@.scale,
    {
        self.scale
    }

    /// All digits as one signed integer.
    pub fn mantissa(&self) -> (r: i128)
        ensures
            r == self@.mantissa,
    {
        self.mantissa
    }
}

} // verus!
