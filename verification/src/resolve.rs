//! Turning configuration lookups into query results.
//!
//! A query's key is looked up in the parsed configuration. A `$variable`
//! query is answered through an injected line `Dynamic_<hash>=$variable`,
//! whose value the configuration parser expands; when that line is absent
//! the variable table is consulted directly. The result then passes the
//! query's type and regex filters.
use vstd::prelude::*;
use vstd::string::StringExecFns;

use crate::error::{AppError, ErrorKind};
use crate::filter::{apply_filters, regex_accepts, regex_is_match, spec_filter, type_mismatch};
use crate::query::{law_query_syntax_round_trip, opt_view, parsed_from, QueryInput, QueryResult};
use crate::text::{has_prefix, same_text};
use crate::value::{decimal, hash_string, string_hash, u64_text};

verus! {

/// The key under which a `$variable` query's injected line is stored.
pub open spec fn dynamic_key_spec(query: Seq<char>) -> Seq<char> {
    "Dynamic_"@ + decimal(string_hash(query) as nat)
}

/// The configuration key that answers `q`.
pub open spec fn lookup_key_spec(q: QueryInput) -> Seq<char> {
    if q.is_dynamic_variable {
        dynamic_key_spec(q.query@)
    } else {
        q.query@
    }
}

/// The line injected into the configuration text for a `$variable` query.
pub open spec fn injection_line(query: Seq<char>) -> Seq<char> {
    "\n"@ + dynamic_key_spec(query) + "="@ + query + "\n"@
}

/// `content` followed by the injected line of each `$variable` query of
/// `qs`, in order.
pub open spec fn injected(content: Seq<char>, qs: Seq<QueryInput>) -> Seq<char>
    decreases qs.len(),
{
    if qs.len() == 0 {
        content
    } else {
        injected(content, qs.drop_last()) + if qs.last().is_dynamic_variable {
            injection_line(qs.last().query@)
        } else {
            Seq::empty()
        }
    }
}

/// `Dynamic_<hash of query>`: the key of a `$variable` query's injected line.
pub fn dynamic_key(query: &str) -> (r: String)
    ensures
        r@ == dynamic_key_spec(query@),
{
    let mut r = String::from_str("Dynamic_");
    let digits = u64_text(hash_string(query));
    r.append(digits.as_str());
    r
}

/// The configuration key to look up for `q`.
pub fn lookup_key(q: &QueryInput) -> (r: String)
    ensures
        r@ == lookup_key_spec(*q),
{
    if q.is_dynamic_variable {
        dynamic_key(q.query.as_str())
    } else {
        q.query.clone()
    }
}

/// The line `\n<key>=<query>\n` that makes the configuration parser
/// expand a `$variable` query.
pub fn dynamic_line(query: &str) -> (r: String)
    ensures
        r@ == injection_line(query@),
{
    let mut r = String::from_str("\n");
    let key = dynamic_key(query);
    r.append(key.as_str());
    r.append("=");
    r.append(query);
    r.append("\n");
    r
}

/// The configuration text with one line appended per `$variable` query.
pub fn inject_dynamic_lines(content: String, queries: &Vec<QueryInput>) -> (r: String)
    ensures
        r@ == injected(content@, queries@),
{
    let ghost original = content@;
    let mut r = content;
    let mut i: usize = 0;
    while i < queries.len()
        invariant
            0 <= i <= queries.len(),
            r@ == injected(original, queries@.take(i as int)),
        decreases queries.len() - i,
    {
        let q = &queries[i];
        assert(queries@.take(i + 1).drop_last() =~= queries@.take(i as int));
        if q.is_dynamic_variable {
            let line = dynamic_line(q.query.as_str());
            r.append(line.as_str());
        } else {
            assert(r@ =~= r@ + Seq::<char>::empty());
        }
        i = i + 1;
    }
    assert(queries@.take(queries.len() as int) =~= queries@);
    r
}

/// `piece` occurs in `text` at position `a`.
pub open spec fn occurs_at(text: Seq<char>, piece: Seq<char>, a: int) -> bool {
    0 <= a && a + piece.len() <= text.len() && text.subrange(a, a + piece.len()) == piece
}

/// Law (injected lines answer variable queries): for every `$variable`
/// query, the configuration text handed to the parser holds the line
/// `\n<key>=<query>\n`, where `<key>` is exactly the key that the query is
/// then looked up under.
pub proof fn law_injection_defines_lookup_key(content: Seq<char>, qs: Seq<QueryInput>, i: int)
    requires
        0 <= i < qs.len(),
        qs[i].is_dynamic_variable,
    ensures
        exists|a: int|
            occurs_at(
                injected(content, qs),
                "\n"@ + lookup_key_spec(qs[i]) + "="@ + qs[i].query@ + "\n"@,
                a,
            ),
    decreases qs.len(),
{
    let line = "\n"@ + lookup_key_spec(qs[i]) + "="@ + qs[i].query@ + "\n"@;
    let prefix = injected(content, qs.drop_last());
    let whole = injected(content, qs);
    if i == qs.len() - 1 {
        assert(whole =~= prefix + line);
        assert(whole.subrange(prefix.len() as int, prefix.len() + line.len() as int) =~= line);
        assert(occurs_at(whole, line, prefix.len() as int));
    } else {
        law_injection_defines_lookup_key(content, qs.drop_last(), i);
        assert(qs.drop_last()[i] == qs[i]);
        let a = choose|a: int| occurs_at(prefix, line, a);
        assert(whole.subrange(a, a + line.len()) =~= prefix.subrange(a, a + line.len()));
        assert(occurs_at(whole, line, a));
    }
}

/// A value found in the configuration: its text and its type name.
#[derive(Debug)]
pub struct Found {
    /// The value as text.
    pub text: String,
    /// `INT`, `FLOAT`, `STRING`, `VEC2`, `COLOR` or `CUSTOM`.
    pub value_type: String,
}

/// What the configuration holds for one query.
#[derive(Debug)]
pub struct Lookup {
    /// The value under the query's lookup key, if any.
    pub found: Option<Found>,
    /// For a `$variable` query, the variable's value, if it is defined.
    pub variable: Option<String>,
}

/// The `(value, type)` a query resolves to before filtering.
///
/// A found value answers the query, except that a `$variable` query whose
/// injected line came back unexpanded (the value is the query itself) is
/// `NULL`. Without a found value, a `$variable` query takes the variable's
/// value as a `STRING`; anything else is `NULL`.
pub open spec fn resolved(q: QueryInput, l: Lookup) -> (Seq<char>, Seq<char>) {
    match l.found {
        Some(f) => if q.is_dynamic_variable && f.text@ == q.query@ {
            (Seq::empty(), "NULL"@)
        } else {
            (f.text@, f.value_type@)
        },
        None => if q.is_dynamic_variable {
            match l.variable {
                Some(v) => (v@, "STRING"@),
                None => (Seq::empty(), "NULL"@),
            }
        } else {
            (Seq::empty(), "NULL"@)
        },
    }
}

/// What a query yields: `Some((value, type))`, or `None` when its regex
/// does not compile.
pub open spec fn outcome(q: QueryInput, l: Lookup) -> Option<(Seq<char>, Seq<char>)> {
    let r = resolved(q, l);
    spec_filter(r.0, r.1, opt_view(q.expected_type), opt_view(q.expected_regex))
}

/// The variable name of a `$variable` query: the query without its `$`.
pub fn variable_name(q: &QueryInput) -> (r: String)
    ensures
        q.query@.len() > 0 ==> r@ == q.query@.drop_first(),
        q.query@.len() == 0 ==> r@ == Seq::<char>::empty(),
{
    let v = crate::text::chars_of(q.query.as_str());
    if v.len() == 0 {
        String::new()
    } else {
        let r = crate::text::string_of(&v, 1, v.len());
        assert(r@ =~= q.query@.drop_first());
        r
    }
}

/// The `(value, type)` that `q` resolves to, before filtering.
pub fn resolve_lookup(q: &QueryInput, lookup: Lookup) -> (r: (String, String))
    ensures
        (r.0@, r.1@) == resolved(*q, lookup),
{
    match lookup.found {
        Some(f) => {
            if q.is_dynamic_variable && same_text(f.text.as_str(), q.query.as_str()) {
                (String::new(), String::from_str("NULL"))
            } else {
                (f.text, f.value_type)
            }
        },
        None => {
            if q.is_dynamic_variable {
                match lookup.variable {
                    Some(v) => (v, String::from_str("STRING")),
                    None => (String::new(), String::from_str("NULL")),
                }
            } else {
                (String::new(), String::from_str("NULL"))
            }
        },
    }
}

/// Answers one query from its lookup: resolve, then filter.
pub fn resolve_query(q: &QueryInput, lookup: Lookup) -> (r: Result<QueryResult, AppError>)
    ensures
        match outcome(*q, lookup) {
            Some(out) => r matches Ok(res) && res.key@ == q.query@ && res.value@ == out.0
                && res.value_type@ == out.1,
            None => r matches Err(e) && e.kind == ErrorKind::BadRequest && has_prefix(
                e.message@,
                "Invalid query format: "@,
            ),
        },
{
    let (value, type_str) = resolve_lookup(q, lookup);
    let (final_value, final_type) = apply_filters(
        value,
        type_str.as_str(),
        &q.expected_type,
        &q.expected_regex,
    )?;
    Ok(QueryResult { key: q.query.clone(), value: final_value, value_type: final_type })
}

/// `rs` answers `qs[..n]` given `ls[..n]`, result by result.
pub open spec fn answers(rs: Seq<QueryResult>, qs: Seq<QueryInput>, ls: Seq<Lookup>, n: int) -> bool {
    &&& rs.len() == n
    &&& forall|i: int|
        0 <= i < n ==> {
            let out = #[trigger] outcome(qs[i], ls[i]);
            &&& out is Some
            &&& rs[i].key@ == qs[i].query@
            &&& rs[i].value@ == out.unwrap().0
            &&& rs[i].value_type@ == out.unwrap().1
        }
}

/// Answers every query from its lookup, in order.
///
/// Fails with the error of the first query whose regex does not compile;
/// succeeds exactly when every query's regex (if any is tried) compiles.
pub fn resolve_all(queries: &Vec<QueryInput>, lookups: Vec<Lookup>) -> (r: Result<
    Vec<QueryResult>,
    AppError,
>)
    requires
        queries.len() == lookups.len(),
    ensures
        r is Ok <==> forall|i: int| 0 <= i < queries.len() ==> #[trigger] outcome(queries[i], lookups[i]) is Some,
        r matches Ok(rs) ==> answers(rs@, queries@, lookups@, queries.len() as int),
        r matches Err(e) ==> e.kind == ErrorKind::BadRequest && has_prefix(
            e.message@,
            "Invalid query format: "@,
        ),
{
    let ghost ls = lookups@;
    let mut results: Vec<QueryResult> = Vec::new();
    let mut remaining = lookups;
    let mut i: usize = 0;
    while i < queries.len()
        invariant
            0 <= i <= queries.len(),
            ls.len() == queries.len(),
            ls == lookups@,
            remaining@ == ls.skip(i as int),
            answers(results@, queries@, ls, i as int),
        decreases queries.len() - i,
    {
        let lookup = remaining.remove(0);
        assert(remaining@ =~= ls.skip(i + 1));
        let ghost l = lookup;
        assert(l == ls[i as int]);
        match resolve_query(&queries[i], lookup) {
            Ok(res) => {
                results.push(res);
            },
            Err(e) => {
                assert(!(outcome(queries[i as int], ls[i as int]) is Some));
                return Err(e);
            },
        }
        i = i + 1;
    }
    Ok(results)
}

/// Some query names a variable, so the configuration text needs the
/// injected lines.
pub fn has_dynamic(queries: &Vec<QueryInput>) -> (b: bool)
    ensures
        b == exists|i: int| 0 <= i < queries.len() && (#[trigger] queries[i]).is_dynamic_variable,
{
    let mut i: usize = 0;
    while i < queries.len()
        invariant
            0 <= i <= queries.len(),
            forall|k: int| 0 <= k < i ==> !(#[trigger] queries[k]).is_dynamic_variable,
        decreases queries.len() - i,
    {
        if queries[i].is_dynamic_variable {
            return true;
        }
        i = i + 1;
    }
    false
}

/// What a configuration parse error means for the run: in strict mode it
/// ends the run with `Failed to parse configuration: <error>`; otherwise
/// the run goes on with what was parsed.
pub fn check_parse(parse_error: Option<String>, strict: bool) -> (r: Result<(), AppError>)
    ensures
        r is Err <==> (parse_error is Some && strict),
        r matches Err(e) ==> e.kind == ErrorKind::BadRequest && e.message@
            == "Failed to parse configuration: "@ + parse_error.unwrap()@,
{
    match parse_error {
        Some(msg) => if strict {
            Err(AppError::config_parse(msg.as_str()))
        } else {
            Ok(())
        },
        None => Ok(()),
    }
}

/// Law (filters turn mismatches into NULL): a query written
/// `key[type][regex]` whose key's value is found, has another type than
/// `type` (up to case), or is not matched by a compiling `regex`, answers
/// `NULL` with an empty value; a value that passes both filters is
/// answered unchanged.
pub proof fn law_filtered_query(
    key: Seq<char>,
    ty: Seq<char>,
    rx: Seq<char>,
    q: QueryInput,
    l: Lookup,
)
    requires
        key.len() > 0,
        !key.contains('['),
        key[0] != '$',
        ty.len() > 0,
        !ty.contains(']'),
        rx.len() > 0,
        parsed_from(q, key + seq!['['] + ty + seq![']'] + seq!['['] + rx + seq![']']),
        l.found is Some,
        regex_accepts(rx),
    ensures
        ({
            let f = l.found.unwrap();
            let passes = !type_mismatch(f.value_type@, Some(ty)) && regex_is_match(rx, f.text@);
            &&& passes ==> outcome(q, l) == Some((f.text@, f.value_type@))
            &&& !passes ==> outcome(q, l) == Some((Seq::<char>::empty(), "NULL"@))
        }),
{
    law_query_syntax_round_trip(key, ty, rx);
}

/// Some result is `NULL`.
pub open spec fn has_null(rs: Seq<QueryResult>) -> bool {
    exists|i: int| 0 <= i < rs.len() && (#[trigger] rs[i]).value_type@ == "NULL"@
}

/// The exit code of a run: `1` when some query returned `NULL` and missing
/// values are not allowed, `0` otherwise.
pub fn exit_code(results: &Vec<QueryResult>, allow_missing: bool) -> (code: i32)
    ensures
        code == (if has_null(results@) && !allow_missing {
            1i32
        } else {
            0i32
        }),
{
    let mut i: usize = 0;
    while i < results.len()
        invariant
            0 <= i <= results.len(),
            forall|k: int| 0 <= k < i ==> (#[trigger] results@[k]).value_type@ != "NULL"@,
        decreases results.len() - i,
    {
        if same_text(results[i].value_type.as_str(), "NULL") {
            assert(results@[i as int].value_type@ == "NULL"@);
            return if allow_missing {
                0
            } else {
                1
            };
        }
        i = i + 1;
    }
    0
}

/// Law (a found value keeps its own type): whenever the lookup found a
/// value, and it is not the unexpanded `$variable` query itself, the query
/// resolves to that value with the type the configuration gave it, for a
/// `$variable` query exactly as for a plain key.
pub proof fn law_found_value_keeps_its_type(q: QueryInput, l: Lookup)
    requires
        l.found is Some,
        !(q.is_dynamic_variable && l.found.unwrap().text@ == q.query@),
    ensures
        resolved(q, l) == (l.found.unwrap().text@, l.found.unwrap().value_type@),
{
}

/// Law (a value that was not found): a plain key that the configuration
/// does not hold is `NULL`; a `$variable` query without a found value takes
/// the variable's value as a `STRING`, and is `NULL` when the variable is
/// not defined either.
pub proof fn law_missing_value(q: QueryInput, l: Lookup)
    requires
        l.found is None,
    ensures
        !q.is_dynamic_variable ==> resolved(q, l) == (Seq::<char>::empty(), "NULL"@),
        q.is_dynamic_variable && l.variable is Some ==> resolved(q, l) == (
            l.variable.unwrap()@,
            "STRING"@,
        ),
        q.is_dynamic_variable && l.variable is None ==> resolved(q, l) == (
            Seq::<char>::empty(),
            "NULL"@,
        ),
{
}

} // verus!
