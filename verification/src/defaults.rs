//! `--get-defaults`: the list of every key a schema defines.
use vstd::prelude::*;
use vstd::string::StringExecFns;

use crate::error::{AppError, ErrorKind};
use crate::export::ExportFormat;
use crate::text::push_char;

verus! {

/// The text `serde_json::to_string_pretty` gives for a JSON array of the
/// given strings, in order.
pub uninterp spec fn json_pretty_strings(keys: Seq<Seq<char>>) -> Seq<char>;

/// Each key followed by a newline.
pub open spec fn key_lines(keys: Seq<Seq<char>>) -> Seq<char>
    decreases keys.len(),
{
    if keys.len() == 0 {
        Seq::empty()
    } else {
        key_lines(keys.drop_last()) + keys.last().push('\n')
    }
}

/// What `--get-defaults` prints: a pretty JSON array of the keys and a
/// newline for `--export json`, one key per line otherwise.
pub open spec fn defaults_text(keys: Seq<Seq<char>>, format: ExportFormat) -> Seq<char> {
    match format {
        ExportFormat::Json => json_pretty_strings(keys).push('\n'),
        _ => key_lines(keys),
    }
}

/// Pretty-prints the keys as a JSON array of strings with `serde_json`.
///
/// Trusted: `serde_json::to_string_pretty` on a `Vec` of `Value::String`.
/// Its text is named, not stated; the contract claims only that it is a
/// function of the keys, in order. A `Value` never fails to serialise, so
/// the `unwrap_or_default` never takes the empty string.
#[verifier::external_body]
fn json_string_array(keys: &Vec<String>) -> (r: String)
    ensures
        r@ == json_pretty_strings(keys@.map_values(|k: String| k@)),
{
    let values: Vec<serde_json::Value> = keys.iter().map(|k| serde_json::Value::String(k.clone())).collect();
    serde_json::to_string_pretty(&values).unwrap_or_default()
}

/// The schema file that `--get-defaults` reads: the `--schema` argument,
/// which it cannot do without.
pub fn defaults_schema(schema: &Option<String>) -> (r: Result<String, AppError>)
    ensures
        match schema {
            Some(p) => r matches Ok(q) && q@ == p@,
            None => r matches Err(e) && e.kind == ErrorKind::NotFound && e.message@
                == "Schema file not found: Schema file required for --get-defaults"@,
        },
{
    match schema {
        Some(p) => Ok(p.clone()),
        None => {
            let e = AppError::schema_not_found("Schema file required for --get-defaults");
            proof {
                reveal_strlit("Schema file not found: ");
                reveal_strlit("Schema file required for --get-defaults");
                reveal_strlit("Schema file not found: Schema file required for --get-defaults");
                assert(e.message@ =~= "Schema file not found: Schema file required for --get-defaults"@);
            }
            Err(e)
        },
    }
}

/// The output of `--get-defaults` for the schema's keys.
pub fn defaults_listing(keys: &Vec<String>, format: ExportFormat) -> (out: String)
    ensures
        out@ == defaults_text(keys@.map_values(|k: String| k@), format),
{
    let ghost views = keys@.map_values(|k: String| k@);
    match format {
        ExportFormat::Json => {
            let mut out = json_string_array(keys);
            push_char(&mut out, '\n');
            out
        },
        _ => {
            let mut out = String::new();
            let mut i: usize = 0;
            while i < keys.len()
                invariant
                    0 <= i <= keys.len(),
                    views == keys@.map_values(|k: String| k@),
                    out@ == key_lines(views.take(i as int)),
                decreases keys.len() - i,
            {
                assert(views.take(i + 1).drop_last() =~= views.take(i as int));
                out.append(keys[i].as_str());
                push_char(&mut out, '\n');
                i = i + 1;
            }
            assert(views.take(keys.len() as int) =~= views);
            out
        },
    }
}

} // verus!
