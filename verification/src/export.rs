//! The three output formats: plain text, environment variables and JSON.
//!
//! This module builds what is written; writing it is left to the caller.
use vstd::prelude::*;
use vstd::string::StringExecFns;

use crate::query::{opt_view, QueryInput, QueryResult};
use crate::text::{
    all_ascii, ascii_upper, join, replace_all, replace_char, same_text, to_uppercase, unicode_upper,
};

verus! {

/// The output format a run uses.
#[derive(Debug, Clone, Copy, PartialEq, Eq, Structural)]
pub enum ExportFormat {
    /// A JSON object or array.
    Json,
    /// `NAME="value"` lines.
    Env,
    /// Values joined by the delimiter.
    Plain,
}

/// The format that `--export` selects: `json` and `env` by name, plain
/// text for anything else or when the option is absent.
pub open spec fn format_of(export: Option<Seq<char>>) -> ExportFormat {
    match export {
        Some(e) => if e == "json"@ {
            ExportFormat::Json
        } else if e == "env"@ {
            ExportFormat::Env
        } else {
            ExportFormat::Plain
        },
        None => ExportFormat::Plain,
    }
}

/// The output format named by the `--export` option.
pub fn export_format(export: &Option<String>) -> (f: ExportFormat)
    ensures
        f == format_of(opt_view(*export)),
{
    match export {
        Some(e) => if same_text(e.as_str(), "json") {
            ExportFormat::Json
        } else if same_text(e.as_str(), "env") {
            ExportFormat::Env
        } else {
            ExportFormat::Plain
        },
        None => ExportFormat::Plain,
    }
}

/// The result is `NULL`.
pub open spec fn is_null(r: QueryResult) -> bool {
    r.value_type@ == "NULL"@
}

/// What a result shows: its value, or nothing when it is `NULL`.
pub open spec fn shown_value(r: QueryResult) -> Seq<char> {
    if is_null(r) {
        Seq::empty()
    } else {
        r.value@
    }
}

/// Plain output: the shown values joined by the delimiter.
pub open spec fn plain_text(rs: Seq<QueryResult>, delimiter: Seq<char>) -> Seq<char> {
    join(rs.map_values(|r: QueryResult| shown_value(r)), delimiter)
}

/// Whether a result is `NULL`.
pub fn result_is_null(r: &QueryResult) -> (b: bool)
    ensures
        b == is_null(*r),
{
    same_text(r.value_type.as_str(), "NULL")
}

/// The plain output: each result's value (empty for `NULL`), separated by
/// `delimiter`.
pub fn render_plain(results: &Vec<QueryResult>, delimiter: &str) -> (out: String)
    ensures
        out@ == plain_text(results@, delimiter@),
{
    let ghost shown = results@.map_values(|r: QueryResult| shown_value(r));
    let mut out = String::new();
    let mut i: usize = 0;
    while i < results.len()
        invariant
            0 <= i <= results.len(),
            shown == results@.map_values(|r: QueryResult| shown_value(r)),
            out@ == join(shown.take(i as int), delimiter@),
        decreases results.len() - i,
    {
        assert(shown.take(i + 1).drop_last() =~= shown.take(i as int));
        if i > 0 {
            out.append(delimiter);
        } else {
            assert(shown.take(1) =~= seq![shown[0]]);
        }
        if !result_is_null(&results[i]) {
            out.append(results[i].value.as_str());
        } else {
            assert(out@ =~= out@ + Seq::<char>::empty());
        }
        i = i + 1;
    }
    assert(shown.take(results.len() as int) =~= shown);
    out
}

/// `s` without one leading `$`.
pub open spec fn strip_dollar(s: Seq<char>) -> Seq<char> {
    if s.len() > 0 && s[0] == '$' {
        s.drop_first()
    } else {
        s
    }
}

/// The environment variable named after a query: without its `$`, with
/// `:` turned into `_`, in upper case.
pub open spec fn env_name_spec(query: Seq<char>) -> Seq<char> {
    unicode_upper(replace_char(strip_dollar(query), ':', '_'))
}

/// The `NAME="value"` line of result `i`. The name comes from the query of
/// the same position, or from the result's key when there is no such query.
pub open spec fn env_line(rs: Seq<QueryResult>, qs: Seq<QueryInput>, i: int) -> Seq<char> {
    let name = if i < qs.len() {
        env_name_spec(qs[i].query@)
    } else {
        unicode_upper(replace_char(rs[i].key@, ':', '_'))
    };
    name + "=\""@ + rs[i].value@ + "\""@
}

/// The lines for the first `n` results; `NULL` results have no line.
pub open spec fn env_lines(rs: Seq<QueryResult>, qs: Seq<QueryInput>, n: int) -> Seq<Seq<char>>
    decreases n,
{
    if n <= 0 {
        Seq::empty()
    } else {
        env_lines(rs, qs, n - 1) + if is_null(rs[n - 1]) {
            Seq::<Seq<char>>::empty()
        } else {
            seq![env_line(rs, qs, n - 1)]
        }
    }
}

/// The environment variable name for a query.
pub fn env_var_name(query: &str) -> (r: String)
    ensures
        r@ == env_name_spec(query@),
        all_ascii(query@) ==> r@ == ascii_upper(replace_char(strip_dollar(query@), ':', '_')),
{
    let v = crate::text::chars_of(query);
    let stripped = if v.len() > 0 && v[0] == '$' {
        crate::text::string_of(&v, 1, v.len())
    } else {
        crate::text::string_of(&v, 0, v.len())
    };
    assert(v@.subrange(0, v@.len() as int) =~= v@);
    assert(v@.len() > 0 ==> v@.subrange(1, v@.len() as int) =~= v@.drop_first());
    let replaced = replace_all(stripped.as_str(), ':', '_');
    proof {
        if all_ascii(query@) {
            assert(all_ascii(stripped@)) by {
                assert forall|i: int| 0 <= i < stripped@.len() implies (stripped@[i] as int) < 128 by {
                    if v@.len() > 0 && v@[0] == '$' {
                        assert(stripped@[i] == query@[i + 1]);
                    } else {
                        assert(stripped@[i] == query@[i]);
                    }
                }
            }
            assert(all_ascii(replaced@));
        }
    }
    to_uppercase(replaced.as_str())
}

/// The `NAME="value"` lines of the environment output, one per result that
/// is not `NULL`, in order.
pub fn render_env(results: &Vec<QueryResult>, queries: &Vec<QueryInput>) -> (lines: Vec<String>)
    ensures
        lines.len() == env_lines(results@, queries@, results.len() as int).len(),
        forall|j: int|
            0 <= j < lines.len() ==> #[trigger] lines[j]@ == env_lines(
                results@,
                queries@,
                results.len() as int,
            )[j],
{
    let mut lines: Vec<String> = Vec::new();
    let mut i: usize = 0;
    while i < results.len()
        invariant
            0 <= i <= results.len(),
            lines.len() == env_lines(results@, queries@, i as int).len(),
            forall|j: int|
                0 <= j < lines.len() ==> #[trigger] lines[j]@ == env_lines(
                    results@,
                    queries@,
                    i as int,
                )[j],
        decreases results.len() - i,
    {
        let result = &results[i];
        if !result_is_null(result) {
            let name = if i < queries.len() {
                env_var_name(queries[i].query.as_str())
            } else {
                let replaced = replace_all(result.key.as_str(), ':', '_');
                to_uppercase(replaced.as_str())
            };
            let mut line = name;
            line.append("=\"");
            line.append(result.value.as_str());
            line.append("\"");
            assert(line@ == env_line(results@, queries@, i as int));
            lines.push(line);
        }
        i = i + 1;
    }
    lines
}

/// One entry of the JSON output.
#[derive(Debug)]
pub struct JsonRecord {
    /// The queried key.
    pub key: String,
    /// The value, absent (JSON `null`) for a `NULL` result.
    pub value: Option<String>,
    /// The value's type name.
    pub value_type: String,
}

/// The JSON document: a single object for exactly one result, an array of
/// objects otherwise.
#[derive(Debug)]
pub enum JsonExport {
    /// Exactly one result.
    Single(JsonRecord),
    /// Any other number of results.
    List(Vec<JsonRecord>),
}

/// `rec` is the JSON entry of `r`.
pub open spec fn record_of(r: QueryResult, rec: JsonRecord) -> bool {
    &&& rec.key@ == r.key@
    &&& rec.value_type@ == r.value_type@
    &&& opt_view(rec.value) == if is_null(r) {
        None
    } else {
        Some(r.value@)
    }
}

/// The JSON entry of one result.
pub fn json_record(r: &QueryResult) -> (rec: JsonRecord)
    ensures
        record_of(*r, rec),
{
    let value = if result_is_null(r) {
        None
    } else {
        Some(r.value.clone())
    };
    JsonRecord { key: r.key.clone(), value, value_type: r.value_type.clone() }
}

/// The JSON document for the results.
pub fn json_export(results: &Vec<QueryResult>) -> (doc: JsonExport)
    ensures
        match doc {
            JsonExport::Single(rec) => results.len() == 1 && record_of(results[0], rec),
            JsonExport::List(recs) => results.len() != 1 && recs.len() == results.len() && forall|
                i: int,
            | 0 <= i < results.len() ==> record_of(results[i], #[trigger] recs[i]),
        },
{
    if results.len() == 1 {
        return JsonExport::Single(json_record(&results[0]));
    }
    let mut recs: Vec<JsonRecord> = Vec::new();
    let mut i: usize = 0;
    while i < results.len()
        invariant
            0 <= i <= results.len(),
            recs.len() == i,
            forall|k: int| 0 <= k < i ==> record_of(results[k], #[trigger] recs[k]),
        decreases results.len() - i,
    {
        recs.push(json_record(&results[i]));
        i = i + 1;
    }
    JsonExport::List(recs)
}

/// The text `serde_json::to_string_pretty` gives for a JSON object with the
/// members `"key"`, `"value"` and `"type"`: the two strings, and the value
/// as a string or as `null` when it is absent.
pub uninterp spec fn json_pretty_record(
    key: Seq<char>,
    value: Option<Seq<char>>,
    value_type: Seq<char>,
) -> Seq<char>;

/// The text `serde_json::to_string_pretty` gives for a JSON array of such
/// objects, one for each triple of key, value and type, in order.
pub uninterp spec fn json_pretty_records(
    recs: Seq<(Seq<char>, Option<Seq<char>>, Seq<char>)>,
) -> Seq<char>;

/// The three fields of a JSON entry as plain values.
pub open spec fn record_fields(rec: JsonRecord) -> (Seq<char>, Option<Seq<char>>, Seq<char>) {
    (rec.key@, opt_view(rec.value), rec.value_type@)
}

/// The key, value (absent for `NULL`) and type that result `r` is exported
/// with.
pub open spec fn result_fields(r: QueryResult) -> (Seq<char>, Option<Seq<char>>, Seq<char>) {
    (r.key@, if is_null(r) { None } else { Some(r.value@) }, r.value_type@)
}

/// The JSON output: the object of the one result when there is exactly
/// one, else the array of the objects of all results.
pub open spec fn json_text(rs: Seq<QueryResult>) -> Seq<char> {
    if rs.len() == 1 {
        let f = result_fields(rs[0]);
        json_pretty_record(f.0, f.1, f.2)
    } else {
        json_pretty_records(rs.map_values(|r: QueryResult| result_fields(r)))
    }
}

/// Pretty-prints one entry as a JSON object with `serde_json`.
///
/// Trusted: `serde_json::to_string_pretty` on a `Value::Object` built from
/// the entry. Its text is named, not stated; the contract claims only that
/// it is a function of the three fields. A `Value` never fails to
/// serialise, so the `unwrap_or_default` never takes the empty string.
#[verifier::external_body]
fn json_record_text(rec: &JsonRecord) -> (text: String)
    ensures
        text@ == json_pretty_record(rec.key@, opt_view(rec.value), rec.value_type@),
{
    let mut object = serde_json::Map::new();
    object.insert("key".to_string(), serde_json::Value::String(rec.key.clone()));
    let value = rec.value.clone().map_or(serde_json::Value::Null, serde_json::Value::String);
    object.insert("value".to_string(), value);
    object.insert("type".to_string(), serde_json::Value::String(rec.value_type.clone()));
    serde_json::to_string_pretty(&serde_json::Value::Object(object)).unwrap_or_default()
}

/// Pretty-prints the entries as a JSON array of objects with `serde_json`.
///
/// Trusted: `serde_json::to_string_pretty` on a `Value::Array` of objects
/// built as in `json_record_text`. Its text is named, not stated; the
/// contract claims only that it is a function of the entries' fields, in
/// order.
#[verifier::external_body]
fn json_records_text(recs: &Vec<JsonRecord>) -> (text: String)
    ensures
        text@ == json_pretty_records(recs@.map_values(|rec: JsonRecord| record_fields(rec))),
{
    let values: Vec<serde_json::Value> = recs.iter().map(|rec| {
        let mut object = serde_json::Map::new();
        object.insert("key".to_string(), serde_json::Value::String(rec.key.clone()));
        let value = rec.value.clone().map_or(serde_json::Value::Null, serde_json::Value::String);
        object.insert("value".to_string(), value);
        object.insert("type".to_string(), serde_json::Value::String(rec.value_type.clone()));
        serde_json::Value::Object(object)
    }).collect();
    serde_json::to_string_pretty(&values).unwrap_or_default()
}

/// The JSON output for the results: one pretty-printed object for exactly
/// one result, a pretty-printed array of objects otherwise. `NULL` values
/// are written as JSON `null`.
pub fn render_json(results: &Vec<QueryResult>) -> (text: String)
    ensures
        text@ == json_text(results@),
{
    match json_export(results) {
        JsonExport::Single(rec) => json_record_text(&rec),
        JsonExport::List(recs) => {
            proof {
                assert(recs@.map_values(|rec: JsonRecord| record_fields(rec)) =~= results@.map_values(
                    |r: QueryResult| result_fields(r),
                )) by {
                    assert forall|i: int| 0 <= i < recs.len() implies record_fields(
                        #[trigger] recs@[i],
                    ) == result_fields(results@[i]) by {
                        assert(record_of(results[i], recs[i]));
                    }
                }
            }
            json_records_text(&recs)
        },
    }
}

/// Law (NULL values are never exported as variables): the environment
/// output has one line per non-`NULL` result, so it has no more lines than
/// there are results, and a run whose results are all `NULL` prints none.
pub proof fn law_env_lines_skip_null(rs: Seq<QueryResult>, qs: Seq<QueryInput>, n: int)
    requires
        0 <= n <= rs.len(),
    ensures
        env_lines(rs, qs, n).len() <= n,
        (forall|i: int| 0 <= i < n ==> is_null(#[trigger] rs[i])) ==> env_lines(rs, qs, n).len()
            == 0,
    decreases n,
{
    if n > 0 {
        law_env_lines_skip_null(rs, qs, n - 1);
    }
}

/// Law (environment names are the queries' variable names): the line of
/// result `i` that has a query is the name `env_var_name` gives for that
/// query, `="`, the value and `"`. That name is the upper case of the query
/// without its `$` and with every `:` replaced by `_`, so the text that is
/// upper-cased holds no `:`; for an ASCII query (whose upper case
/// `env_var_name` states as `ascii_upper`) the name holds no `:` either.
pub proof fn law_env_lines_use_variable_names(rs: Seq<QueryResult>, qs: Seq<QueryInput>, i: int)
    requires
        0 <= i < rs.len(),
        i < qs.len(),
    ensures
        env_line(rs, qs, i) == env_name_spec(qs[i].query@) + "=\""@ + rs[i].value@ + "\""@,
        env_name_spec(qs[i].query@) == unicode_upper(
            replace_char(strip_dollar(qs[i].query@), ':', '_'),
        ),
        !replace_char(strip_dollar(qs[i].query@), ':', '_').contains(':'),
        !ascii_upper(replace_char(strip_dollar(qs[i].query@), ':', '_')).contains(':'),
{
    let t = replace_char(strip_dollar(qs[i].query@), ':', '_');
    assert forall|k: int| 0 <= k < t.len() implies t[k] != ':' by {}
    assert forall|k: int| 0 <= k < t.len() implies ascii_upper(t)[k] != ':' by {
        assert(t[k] != ':');
    }
}

} // verus!
