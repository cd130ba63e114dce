//! Query strings built from a sparse, ordered set of optional filters.
use crate::decimal::{decimal_text, Decimal};
use crate::text::{
    hex_char, is_unreserved, pct_bytes, pct_char, pct_encode, pct_encode_text, bool_text,
    bool_text_spec, first_index_of, i64_text, int_text, lacks_char, lemma_first_index_after,
    nat_text, u64_text,
};
use vstd::prelude::*;
use vstd::utf8::encode_utf8;

verus! {

/// One filter of a query: its key and, when the caller set it, its value as wire text.
pub struct QueryField {
    pub key: &'static str,
    pub value: Option<String>,
}

/// A filter as a key and an optional value text.
pub type FieldText = (Seq<char>, Option<Seq<char>>);

pub open spec fn opt_text(o: Option<String>) -> Option<Seq<char>> {
    match o {
        Some(s) => Some(s@),
        None => None,
    }
}

pub open spec fn opt_nat_text(o: Option<u64>) -> Option<Seq<char>> {
    match o {
        Some(n) => Some(nat_text(n as nat)),
        None => None,
    }
}

pub open spec fn opt_int_text(o: Option<i64>) -> Option<Seq<char>> {
    match o {
        Some(n) => Some(int_text(n as int)),
        None => None,
    }
}

pub open spec fn opt_str_text(o: Option<&'static str>) -> Option<Seq<char>> {
    match o {
        Some(s) => Some(s@),
        None => None,
    }
}

pub open spec fn opt_bool_text(o: Option<bool>) -> Option<Seq<char>> {
    match o {
        Some(b) => Some(bool_text_spec(b)),
        None => None,
    }
}

pub open spec fn opt_decimal_text(o: Option<Decimal>) -> Option<Seq<char>> {
    match o {
        Some(d) => Some(decimal_text(d@)),
        None => None,
    }
}

impl QueryField {
    /// A field whose value is a boolean, as `true` or `false`.
    pub fn flag(key: &'static str, value: Option<bool>) -> (r: QueryField)
        ensures
            r@ == (key@, opt_bool_text(value)),
    {
        let value = match value {
            Some(b) => Some(String::from_str(bool_text(b))),
            None => None,
        };
        QueryField { key, value }
    }

    /// A field whose value is a decimal, in its exact text.
    pub fn decimal(key: &'static str, value: Option<Decimal>) -> (r: QueryField)
        ensures
            r@ == (key@, opt_decimal_text(value)),
    {
        let value = match value {
            Some(d) => Some(d.to_wire_string()),
            None => None,
        };
        QueryField { key, value }
    }

    /// A field whose value is a caller's text.
    pub fn text(key: &'static str, value: &Option<String>) -> (r: QueryField)
        ensures
            r@ == (key@, opt_text(*value)),
    {
        let value = match value {
            Some(v) => Some(v.clone()),
            None => None,
        };
        QueryField { key, value }
    }

    /// A field whose value is an unsigned integer, in base 10.
    pub fn unsigned(key: &'static str, value: Option<u64>) -> (r: QueryField)
        ensures
            r@ == (key@, opt_nat_text(value)),
    {
        let value = match value {
            Some(n) => Some(u64_text(n)),
            None => None,
        };
        QueryField { key, value }
    }

    /// A field whose value is a signed integer, in base 10.
    pub fn signed(key: &'static str, value: Option<i64>) -> (r: QueryField)
        ensures
            r@ == (key@, opt_int_text(value)),
    {
        let value = match value {
            Some(n) => Some(i64_text(n)),
            None => None,
        };
        QueryField { key, value }
    }

    /// A field whose value is a fixed wire text, such as an enumeration variant's.
    pub fn wire(key: &'static str, value: Option<&'static str>) -> (r: QueryField)
        ensures
            r@ == (key@, opt_str_text(value)),
    {
        let value = match value {
            Some(s) => Some(String::from_str(s)),
            None => None,
        };
        QueryField { key, value }
    }
}

impl View for QueryField {
    type V = FieldText;

    open spec fn view(&self) -> FieldText {
        (self.key@, opt_text(self.value))
    }
}

/// `key=value` for each field that is set, in the fields' order, the value percent-encoded.
pub open spec fn set_pairs(fields: Seq<FieldText>) -> Seq<Seq<char>>
    decreases fields.len(),
{
    if fields.len() == 0 {
        seq![]
    } else {
        let rest = set_pairs(fields.drop_last());
        match fields.last().1 {
            Some(v) => rest.push(fields.last().0 + seq!['='] + pct_encode(v)),
            None => rest,
        }
    }
}

/// The keys of the fields that are set, in the fields' order.
pub open spec fn set_keys(fields: Seq<FieldText>) -> Seq<Seq<char>>
    decreases fields.len(),
{
    if fields.len() == 0 {
        seq![]
    } else {
        let rest = set_keys(fields.drop_last());
        match fields.last().1 {
            Some(v) => rest.push(fields.last().0),
            None => rest,
        }
    }
}

/// The parts joined by `&`.
pub open spec fn join_amp(parts: Seq<Seq<char>>) -> Seq<char>
    decreases parts.len(),
{
    if parts.len() == 0 {
        seq![]
    } else if parts.len() == 1 {
        parts[0]
    } else {
        join_amp(parts.drop_last()) + seq!['&'] + parts.last()
    }
}

/// The query string of the fields: empty when none is set, else `?` and the pairs of the
/// set fields joined by `&`, each value percent-encoded.
pub open spec fn query_text(fields: Seq<FieldText>) -> Seq<char> {
    let pairs = set_pairs(fields);
    if pairs.len() == 0 {
        seq![]
    } else {
        seq!['?'] + join_amp(pairs)
    }
}

/// The parts of `s` between its `&` separators, as a server splits a query.
pub open spec fn split_amp(s: Seq<char>) -> Seq<Seq<char>>
    decreases s.len(),
{
    if s.len() == 0 {
        seq![seq![]]
    } else {
        let init = split_amp(s.drop_last());
        if s.last() == '&' {
            init.push(seq![])
        } else {
            init.update(init.len() - 1, init.last().push(s.last()))
        }
    }
}

/// The key of a `key=value` pair: the text before its first `=`.
pub open spec fn key_of(pair: Seq<char>) -> Seq<char> {
    pair.take(first_index_of(pair, '='))
}

/// The keys that a server reads from a query string: the text after the leading `?` split
/// on `&`, and each part cut at its first `=`.
pub open spec fn observed_keys(q: Seq<char>) -> Seq<Seq<char>> {
    if q.len() == 0 {
        seq![]
    } else {
        split_amp(q.drop_first()).map_values(|p: Seq<char>| key_of(p))
    }
}

/// Keys free of `&` and `=`, so that a server reads them back.
pub open spec fn fields_separable(fields: Seq<FieldText>) -> bool {
    forall|i: int|
        0 <= i < fields.len() ==> lacks_char((#[trigger] fields[i]).0, '&') && lacks_char(
            fields[i].0,
            '=',
        )
}

/// A percent-encoded text holds no reserved character but the `%` of its escapes.
pub proof fn lemma_pct_encode_lacks(v: Seq<char>, c: char)
    requires
        !is_unreserved(c),
        c != '%',
    ensures
        lacks_char(pct_encode(v), c),
    decreases v.len(),
{
    if v.len() > 0 {
        lemma_pct_encode_lacks(v.drop_last(), c);
        let last = v.last();
        if !is_unreserved(last) {
            lemma_pct_bytes_lacks(encode_utf8(seq![last]), c);
        }
        let a = pct_encode(v.drop_last());
        let b = pct_char(last);
        assert forall|i: int| 0 <= i < (a + b).len() implies #[trigger] (a + b)[i] != c by {
            if i >= a.len() {
                assert((a + b)[i] == b[i - a.len()]);
            }
        }
    }
}

proof fn lemma_pct_bytes_lacks(bs: Seq<u8>, c: char)
    requires
        !is_unreserved(c),
        c != '%',
    ensures
        lacks_char(pct_bytes(bs), c),
    decreases bs.len(),
{
    if bs.len() > 0 {
        lemma_pct_bytes_lacks(bs.drop_last(), c);
        let a = pct_bytes(bs.drop_last());
        let b = seq!['%', hex_char((bs.last() / 16) as nat), hex_char((bs.last() % 16) as nat)];
        assert forall|i: int| 0 <= i < (a + b).len() implies #[trigger] (a + b)[i] != c by {
            if i >= a.len() {
                assert((a + b)[i] == b[i - a.len()]);
            }
        }
    }
}

pub open spec fn all_unset(fields: Seq<FieldText>) -> bool {
    forall|i: int| 0 <= i < fields.len() ==> (#[trigger] fields[i]).1 is None
}

proof fn lemma_split_nonempty(s: Seq<char>)
    ensures
        split_amp(s).len() >= 1,
    decreases s.len(),
{
    if s.len() > 0 {
        lemma_split_nonempty(s.drop_last());
    }
}

proof fn lemma_split_extend(a: Seq<char>, x: Seq<char>)
    requires
        lacks_char(x, '&'),
    ensures
        split_amp(a + x) == split_amp(a).update(
            split_amp(a).len() - 1,
            split_amp(a).last() + x,
        ),
    decreases x.len(),
{
    lemma_split_nonempty(a);
    if x.len() == 0 {
        assert(a + x =~= a);
        assert(split_amp(a).last() + x =~= split_amp(a).last());
        assert(split_amp(a).update(split_amp(a).len() - 1, split_amp(a).last()) =~= split_amp(a));
    } else {
        assert((a + x).drop_last() =~= a + x.drop_last());
        assert(x.last() == x[x.len() - 1]);
        lemma_split_extend(a, x.drop_last());
        assert((split_amp(a).last() + x.drop_last()).push(x.last()) =~= split_amp(a).last() + x);
        assert(split_amp(a + x) =~= split_amp(a).update(
            split_amp(a).len() - 1,
            split_amp(a).last() + x,
        ));
    }
}

proof fn lemma_split_join(parts: Seq<Seq<char>>)
    requires
        parts.len() >= 1,
        forall|i: int| 0 <= i < parts.len() ==> lacks_char(#[trigger] parts[i], '&'),
    ensures
        split_amp(join_amp(parts)) == parts,
    decreases parts.len(),
{
    if parts.len() == 1 {
        lemma_split_extend(seq![], parts[0]);
        assert(seq![] + parts[0] =~= parts[0]);
        assert(split_amp(seq![]).update(0, split_amp(seq![]).last() + parts[0]) =~= parts);
    } else {
        let init = parts.drop_last();
        let j = join_amp(init);
        lemma_split_join(init);
        let ja = j + seq!['&'];
        assert(ja.drop_last() =~= j);
        assert(split_amp(ja) == init.push(seq![]));
        lemma_split_extend(ja, parts.last());
        assert(join_amp(parts) =~= ja + parts.last());
        assert(seq![] + parts.last() =~= parts.last());
        assert(init.push(seq![]).update(init.len() as int, parts.last()) =~= parts);
    }
}

proof fn lemma_pairs_keys(fields: Seq<FieldText>)
    requires
        fields_separable(fields),
    ensures
        set_pairs(fields).len() == set_keys(fields).len(),
        forall|i: int|
            0 <= i < set_pairs(fields).len() ==> lacks_char(#[trigger] set_pairs(fields)[i], '&')
                && key_of(set_pairs(fields)[i]) == set_keys(fields)[i],
    decreases fields.len(),
{
    if fields.len() > 0 {
        let init = fields.drop_last();
        assert forall|i: int| 0 <= i < init.len() implies lacks_char(
            (#[trigger] init[i]).0,
            '&',
        ) && lacks_char(init[i].0, '=') by {
            assert(init[i] == fields[i]);
        }
        lemma_pairs_keys(init);
        let last = fields.last();
        assert(last == fields[fields.len() - 1]);
        if let Some(raw) = last.1 {
            let v = pct_encode(raw);
            lemma_pct_encode_lacks(raw, '&');
            let pair = last.0 + seq!['='] + v;
            lemma_first_index_after(last.0, seq!['='] + v, '=');
            assert(pair =~= last.0 + (seq!['='] + v));
            assert(key_of(pair) =~= last.0);
            assert(lacks_char(pair, '&')) by {
                assert forall|i: int| 0 <= i < pair.len() implies #[trigger] pair[i] != '&' by {
                    if i < last.0.len() {
                        assert(pair[i] == last.0[i]);
                    } else if i > last.0.len() {
                        assert(pair[i] == v[i - last.0.len() - 1]);
                    }
                }
            }
        }
    }
}

/// A key is among the set keys exactly when a field with that key is set.
proof fn lemma_set_keys_contains(fields: Seq<FieldText>, k: Seq<char>)
    ensures
        set_keys(fields).contains(k) <==> exists|i: int|
            0 <= i < fields.len() && (#[trigger] fields[i]).0 == k && fields[i].1 is Some,
    decreases fields.len(),
{
    if fields.len() > 0 {
        let init = fields.drop_last();
        let last = fields.last();
        assert(last == fields[fields.len() - 1]);
        lemma_set_keys_contains(init, k);
        let keys = set_keys(fields);
        let init_keys = set_keys(init);
        if keys.contains(k) {
            let j = choose|j: int| 0 <= j < keys.len() && keys[j] == k;
            if j < init_keys.len() {
                assert(keys[j] == init_keys[j]);
                assert(init_keys.contains(k));
                let i = choose|i: int| 0 <= i < init.len() && (#[trigger] init[i]).0 == k && init[i].1 is Some;
                assert(fields[i] == init[i]);
            } else {
                assert(last.1 is Some && last.0 == k);
            }
        }
        if exists|i: int| 0 <= i < fields.len() && (#[trigger] fields[i]).0 == k && fields[i].1 is Some {
            let i = choose|i: int| 0 <= i < fields.len() && (#[trigger] fields[i]).0 == k && fields[i].1 is Some;
            if i < init.len() {
                assert(init[i] == fields[i]);
                assert(init_keys.contains(k));
                let j = choose|j: int| 0 <= j < init_keys.len() && init_keys[j] == k;
                assert(keys[j] == init_keys[j]);
            } else {
                assert(keys[keys.len() - 1] == k);
            }
        }
    }
}

/// A query whose fields are all unset is empty.
pub proof fn lemma_unset_query_is_empty(fields: Seq<FieldText>)
    requires
        all_unset(fields),
    ensures
        query_text(fields) == Seq::<char>::empty(),
        set_keys(fields) == Seq::<Seq<char>>::empty(),
    decreases fields.len(),
{
    if fields.len() > 0 {
        let init = fields.drop_last();
        assert forall|i: int| 0 <= i < init.len() implies (#[trigger] init[i]).1 is None by {
            assert(init[i] == fields[i]);
        }
        lemma_unset_query_is_empty(init);
        assert(fields.last() == fields[fields.len() - 1]);
    }
}

/// The keys a server reads from an encoded query are exactly the keys of the fields that
/// are set, in their order: none added, none lost.
pub proof fn lemma_observed_keys(fields: Seq<FieldText>)
    requires
        fields_separable(fields),
    ensures
        observed_keys(query_text(fields)) == set_keys(fields),
        forall|k: Seq<char>|
            #![trigger observed_keys(query_text(fields)).contains(k)]
            observed_keys(query_text(fields)).contains(k) <==> exists|i: int|
                0 <= i < fields.len() && (#[trigger] fields[i]).0 == k && fields[i].1 is Some,
{
    assert forall|k: Seq<char>|
        #![trigger observed_keys(query_text(fields)).contains(k)]
        set_keys(fields).contains(k) <==> exists|i: int|
            0 <= i < fields.len() && (#[trigger] fields[i]).0 == k && fields[i].1 is Some by {
        lemma_set_keys_contains(fields, k);
    }
    lemma_pairs_keys(fields);
    let pairs = set_pairs(fields);
    if pairs.len() > 0 {
        lemma_split_join(pairs);
        assert((seq!['?'] + join_amp(pairs)).drop_first() =~= join_amp(pairs));
        assert(pairs.map_values(|p: Seq<char>| key_of(p)) =~= set_keys(fields));
    } else {
        assert(set_keys(fields) =~= Seq::<Seq<char>>::empty());
    }
}

/// Encodes the fields that are set as a query string, in the order given.
pub fn encode_query(fields: &Vec<QueryField>) -> (r: String)
    ensures
        r@ == query_text(fields@.map_values(|f: QueryField| f@)),
{
    let ghost view = fields@.map_values(|f: QueryField| f@);
    let mut out = String::new();
    let mut any = false;
    proof {
        reveal_strlit("&");
        reveal_strlit("=");
        reveal_strlit("?");
        assert(view.take(0) =~= seq![]);
    }
    for i in 0..fields.len()
        invariant
            view == fields@.map_values(|f: QueryField| f@),
            out@ == join_amp(set_pairs(view.take(i as int))),
            any == (set_pairs(view.take(i as int)).len() > 0),
    {
        proof {
            assert(view.take(i + 1).drop_last() =~= view.take(i as int));
        }
        let field = &fields[i];
        match &field.value {
            Some(v) => {
                let ghost before = out@;
                let ghost pairs = set_pairs(view.take(i as int));
                let ghost pair = field.key@ + seq!['='] + pct_encode(v@);
                if any {
                    out.append("&");
                }
                out.append(field.key);
                out.append("=");
                let encoded = pct_encode_text(v.as_str());
                out.append(encoded.as_str());
                any = true;
                proof {
                    reveal_strlit("&");
                    reveal_strlit("=");
                    assert(set_pairs(view.take(i + 1)) == pairs.push(pair));
                    assert(pairs.push(pair).drop_last() =~= pairs);
                    if pairs.len() > 0 {
                        assert(out@ =~= before + seq!['&'] + pair);
                    } else {
                        assert(out@ =~= pair);
                    }
                }
            },
            None => {},
        }
    }
    proof {
        assert(view.take(fields.len() as int) =~= view);
    }
    if any {
        String::from_str("?").concat(out.as_str())
    } else {
        out
    }
}

} // verus!
