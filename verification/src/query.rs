//! Queries of the form `key[expectedType][expectedRegex]` and their results.
use vstd::prelude::*;

use crate::text::{
    ascii_upper, chars_of, find_char, find_in, lemma_find_char, string_of, to_ascii_upper,
};

verus! {

/// A parsed query.
#[derive(Debug)]
pub struct QueryInput {
    /// The configuration key (or `$variable`) to look up.
    pub query: String,
    /// The type the value must have, if given.
    pub expected_type: Option<String>,
    /// The regex the value must match, if given.
    pub expected_regex: Option<String>,
    /// The key names a variable (`$name`).
    pub is_dynamic_variable: bool,
}

/// The answer to one query.
#[derive(Debug)]
pub struct QueryResult {
    /// The queried key, as given.
    pub key: String,
    /// The value, empty when `value_type` is `NULL`.
    pub value: String,
    /// `INT`, `FLOAT`, `STRING`, `VEC2`, `COLOR`, `CUSTOM` or `NULL`.
    pub value_type: String,
}

/// The characters of an optional string.
pub open spec fn opt_view(o: Option<String>) -> Option<Seq<char>> {
    match o {
        Some(s) => Some(s@),
        None => None,
    }
}

/// An empty filter is no filter.
pub open spec fn opt_text(s: Seq<char>) -> Option<Seq<char>> {
    if s.len() == 0 {
        None
    } else {
        Some(s)
    }
}

/// The parts `(key, expected type, expected regex)` of a raw query.
///
/// The key runs up to the first `[`; then comes `[type]`, where the type
/// runs up to the first `]`, and optionally `[regex]`, where the regex is
/// everything up to the final `]` (so it may itself hold brackets). An
/// empty type or regex is no filter. A raw query that does not have this
/// shape, or whose key would be empty, is a key without filters.
pub open spec fn spec_parse_query(raw: Seq<char>) -> (Seq<char>, Option<Seq<char>>, Option<Seq<char>>) {
    let b = find_char(raw, '[');
    if b <= 0 {
        (raw, None, None)
    } else {
        let key = raw.subrange(0, b);
        let rest = raw.subrange(b + 1, raw.len() as int);
        let c = find_char(rest, ']');
        if c < 0 {
            (raw, None, None)
        } else {
            let ty = rest.subrange(0, c);
            let after = rest.subrange(c + 1, rest.len() as int);
            if after.len() == 0 {
                (key, opt_text(ty), None)
            } else if after.len() >= 2 && after[0] == '[' && after.last() == ']' {
                (key, opt_text(ty), opt_text(after.subrange(1, after.len() - 1)))
            } else {
                (raw, None, None)
            }
        }
    }
}

/// A key names a variable when it starts with `$`.
pub open spec fn is_variable_key(key: Seq<char>) -> bool {
    key.len() > 0 && key[0] == '$'
}

/// `q` is the parse of `raw`.
pub open spec fn parsed_from(q: QueryInput, raw: Seq<char>) -> bool {
    let p = spec_parse_query(raw);
    &&& q.query@ == p.0
    &&& opt_view(q.expected_type) == p.1
    &&& opt_view(q.expected_regex) == p.2
    &&& q.is_dynamic_variable == is_variable_key(p.0)
}

/// `Some` of the string `v[lo..hi]`, or `None` when that is empty.
fn opt_string(v: &Vec<char>, lo: usize, hi: usize) -> (r: Option<String>)
    requires
        lo <= hi <= v.len(),
    ensures
        opt_view(r) == opt_text(v@.subrange(lo as int, hi as int)),
{
    if lo == hi {
        None
    } else {
        Some(string_of(v, lo, hi))
    }
}

/// Parses one query of the form `key[expectedType][expectedRegex]`.
pub fn parse_query_input(raw: &str) -> (q: QueryInput)
    ensures
        parsed_from(q, raw@),
{
    let v = chars_of(raw);
    let n = v.len();
    let b = find_in(&v, '[', 0, n);
    assert(v@.subrange(0, n as int) =~= v@);
    if b == 0 || b == n {
        let query = string_of(&v, 0, n);
        let dynamic = n > 0 && v[0] == '$';
        return QueryInput {
            query,
            expected_type: None,
            expected_regex: None,
            is_dynamic_variable: dynamic,
        };
    }
    let c = find_in(&v, ']', b + 1, n);
    let ghost rest = v@.subrange(b + 1, n as int);
    if c == n {
        let query = string_of(&v, 0, n);
        let dynamic = v[0] == '$';
        return QueryInput {
            query,
            expected_type: None,
            expected_regex: None,
            is_dynamic_variable: dynamic,
        };
    }
    assert(rest.subrange(0, c - (b + 1)) =~= v@.subrange(b + 1, c as int));
    let ghost after = rest.subrange(c - (b + 1) + 1, rest.len() as int);
    assert(after =~= v@.subrange(c + 1, n as int));
    let key = string_of(&v, 0, b);
    let dynamic = v[0] == '$';
    let ty = opt_string(&v, b + 1, c);
    if c + 1 == n {
        return QueryInput {
            query: key,
            expected_type: ty,
            expected_regex: None,
            is_dynamic_variable: dynamic,
        };
    }
    if n - (c + 1) >= 2 && v[c + 1] == '[' && v[n - 1] == ']' {
        assert(after.subrange(1, after.len() - 1) =~= v@.subrange(c + 2, n - 1));
        let rx = opt_string(&v, c + 2, n - 1);
        QueryInput { query: key, expected_type: ty, expected_regex: rx, is_dynamic_variable: dynamic }
    } else {
        let query = string_of(&v, 0, n);
        QueryInput {
            query,
            expected_type: None,
            expected_regex: None,
            is_dynamic_variable: dynamic,
        }
    }
}

/// Parses every raw query, in order.
pub fn parse_query_inputs(raws: &Vec<String>) -> (qs: Vec<QueryInput>)
    ensures
        qs.len() == raws.len(),
        forall|i: int| 0 <= i < raws.len() ==> parsed_from(#[trigger] qs[i], raws[i]@),
{
    let mut qs: Vec<QueryInput> = Vec::new();
    let mut i: usize = 0;
    while i < raws.len()
        invariant
            0 <= i <= raws.len(),
            qs.len() == i,
            forall|k: int| 0 <= k < i ==> parsed_from(#[trigger] qs[k], raws[k]@),
        decreases raws.len() - i,
    {
        let q = parse_query_input(raws[i].as_str());
        qs.push(q);
        i = i + 1;
    }
    qs
}

/// The canonical spelling of a type name: its ASCII upper case, so that
/// `int` and `INT` name the same type.
pub fn normalize_type(t: &str) -> (r: String)
    ensures
        r@ == ascii_upper(t@),
{
    to_ascii_upper(t)
}

/// Law (query syntax): a key without `[`, a type without `]` and any
/// regex, written as `key[type][regex]`, parse back into those three parts;
/// written as `key[type]`, into the key and the type; and a key alone,
/// into itself with no filters.
pub proof fn law_query_syntax_round_trip(key: Seq<char>, ty: Seq<char>, rx: Seq<char>)
    requires
        key.len() > 0,
        !key.contains('['),
        ty.len() > 0,
        !ty.contains(']'),
        rx.len() > 0,
    ensures
        spec_parse_query(key + seq!['['] + ty + seq![']'] + seq!['['] + rx + seq![']']) == (
            key,
            Some(ty),
            Some(rx),
        ),
        spec_parse_query(key + seq!['['] + ty + seq![']']) == (key, Some(ty), None::<Seq<char>>),
        spec_parse_query(key) == (key, None::<Seq<char>>, None::<Seq<char>>),
{
    let tail = seq!['['] + rx + seq![']'];
    let raw1 = key + seq!['['] + ty + seq![']'] + tail;
    let raw2 = key + seq!['['] + ty + seq![']'];
    assert(raw1 =~= key + seq!['['] + ty + seq![']'] + seq!['['] + rx + seq![']']);
    assert forall|k: int| 0 <= k < key.len() implies raw1[k] != '[' by {
        assert(raw1[k] == key[k]);
        assert(key.contains(key[k]));
    }
    lemma_find_char(raw1, '[', key.len() as int);
    let rest1 = raw1.subrange(key.len() as int + 1, raw1.len() as int);
    assert(rest1 =~= ty + seq![']'] + tail);
    assert forall|k: int| 0 <= k < ty.len() implies rest1[k] != ']' by {
        assert(rest1[k] == ty[k]);
        assert(ty.contains(ty[k]));
    }
    lemma_find_char(rest1, ']', ty.len() as int);
    assert(rest1.subrange(0, ty.len() as int) =~= ty);
    assert(rest1.subrange(ty.len() as int + 1, rest1.len() as int) =~= tail);
    assert(tail.subrange(1, tail.len() - 1) =~= rx);
    assert(tail[0] == '[' && tail.last() == ']');
    assert(raw1.subrange(0, key.len() as int) =~= key);

    assert forall|k: int| 0 <= k < key.len() implies raw2[k] != '[' by {
        assert(raw2[k] == key[k]);
        assert(key.contains(key[k]));
    }
    lemma_find_char(raw2, '[', key.len() as int);
    let rest2 = raw2.subrange(key.len() as int + 1, raw2.len() as int);
    assert(rest2 =~= ty + seq![']']);
    assert forall|k: int| 0 <= k < ty.len() implies rest2[k] != ']' by {
        assert(rest2[k] == ty[k]);
        assert(ty.contains(ty[k]));
    }
    lemma_find_char(rest2, ']', ty.len() as int);
    assert(rest2.subrange(0, ty.len() as int) =~= ty);
    assert(rest2.subrange(ty.len() as int + 1, rest2.len() as int) =~= Seq::<char>::empty());
    assert(raw2.subrange(0, key.len() as int) =~= key);

    assert forall|k: int| 0 <= k < key.len() implies key[k] != '[' by {
        assert(key.contains(key[k]));
    }
    lemma_find_char(key, '[', key.len() as int);
}

} // verus!
