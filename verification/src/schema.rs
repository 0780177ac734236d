//! Schema files: the options they define and the default values they give.
//!
//! A schema is a JSON document
//! `{"hyprlang_schema": [{"value": key, "type": TYPE, "data": {"default": ..}}]}`.
//! Reading and decoding the JSON is left to the caller, which hands over
//! the decoded document as a `Schema`.
use vstd::prelude::*;

use crate::text::same_text;

verus! {

/// A JSON number, as the values it can be read as.
#[derive(Debug)]
pub struct JsonNumber {
    /// The number as an `i64`, when it is an integer in range.
    pub int: Option<i64>,
    /// The number as an `f64`, by its IEEE-754 bit pattern.
    pub float_bits: Option<u64>,
}

/// A JSON value, as far as schema defaults read it.
#[derive(Debug)]
pub enum JsonValue {
    /// `null`.
    Null,
    /// `true` or `false`.
    Bool(bool),
    /// A number.
    Number(JsonNumber),
    /// A string.
    String(String),
    /// An array.
    Array(Vec<JsonValue>),
    /// An object (its members are never read).
    Object,
}

/// Schema option data with default value.
#[derive(Debug)]
pub struct SchemaData {
    /// Default value for the option.
    pub default: Option<JsonValue>,
}

/// Single schema option definition.
#[derive(Debug)]
pub struct SchemaOption {
    /// Configuration key path.
    pub value: String,
    /// Type of the value (`INT`, `FLOAT`, `STRING_SHORT`, ...).
    pub option_type: String,
    /// Data with default.
    pub data: SchemaData,
}

/// Root schema structure.
#[derive(Debug)]
pub struct Schema {
    /// List of schema options.
    pub hyprlang_schema: Vec<SchemaOption>,
}

/// A default value to register in the configuration.
#[derive(Debug)]
pub enum DefaultValue {
    /// An integer (also used for booleans: 1 or 0).
    Int(i64),
    /// A float, by its bit pattern.
    Float(u64),
    /// A string.
    Str(String),
    /// A 2D vector, by the bit patterns of its components.
    Vec2(u64, u64),
}

/// The value of a JSON number read as a float.
pub open spec fn float_of(v: JsonValue) -> Option<u64> {
    match v {
        JsonValue::Number(n) => n.float_bits,
        _ => None,
    }
}

/// The string types of a schema.
pub open spec fn is_string_type(ty: Seq<char>) -> bool {
    ty == "STRING_SHORT"@ || ty == "STRING_LONG"@ || ty == "GRADIENT"@ || ty == "COLOR"@
}

/// The default value that an option of type `ty` with default `d` gives:
/// an integer for `INT`, 1 or 0 for `BOOL`, a float for `FLOAT`, a string
/// for the string types, a vector for a two-number `VECTOR`; nothing when
/// the default does not have the type's shape or the type is unknown.
pub open spec fn default_of(ty: Seq<char>, d: JsonValue) -> Option<DefaultValue> {
    if ty == "INT"@ {
        match d {
            JsonValue::Number(n) => match n.int {
                Some(i) => Some(DefaultValue::Int(i)),
                None => None,
            },
            _ => None,
        }
    } else if ty == "BOOL"@ {
        match d {
            JsonValue::Bool(b) => Some(DefaultValue::Int(if b { 1 } else { 0 })),
            _ => None,
        }
    } else if ty == "FLOAT"@ {
        match float_of(d) {
            Some(f) => Some(DefaultValue::Float(f)),
            None => None,
        }
    } else if is_string_type(ty) {
        match d {
            JsonValue::String(s) => Some(DefaultValue::Str(s)),
            _ => None,
        }
    } else if ty == "VECTOR"@ {
        match d {
            JsonValue::Array(items) => if items.len() == 2 {
                match (float_of(items[0]), float_of(items[1])) {
                    (Some(x), Some(y)) => Some(DefaultValue::Vec2(x, y)),
                    _ => None,
                }
            } else {
                None
            },
            _ => None,
        }
    } else {
        None
    }
}

/// The default an option contributes, if any.
pub open spec fn option_default(o: SchemaOption) -> Option<DefaultValue> {
    match o.data.default {
        Some(d) => default_of(o.option_type@, d),
        None => None,
    }
}

/// The `(key, default)` pairs of the options that contribute a default,
/// in schema order.
pub open spec fn defaults_spec(opts: Seq<SchemaOption>) -> Seq<(Seq<char>, DefaultValue)>
    decreases opts.len(),
{
    if opts.len() == 0 {
        Seq::empty()
    } else {
        let rest = defaults_spec(opts.drop_last());
        match option_default(opts.last()) {
            Some(v) => rest.push((opts.last().value@, v)),
            None => rest,
        }
    }
}

/// A JSON value read as a float.
fn float_value(v: &JsonValue) -> (r: Option<u64>)
    ensures
        r == float_of(*v),
{
    match v {
        JsonValue::Number(n) => n.float_bits,
        _ => None,
    }
}

/// The default value of type `ty` given by `d`, if `d` has the type's shape.
pub fn default_value(ty: &str, d: &JsonValue) -> (r: Option<DefaultValue>)
    ensures
        r == default_of(ty@, *d),
{
    if same_text(ty, "INT") {
        match d {
            JsonValue::Number(n) => match n.int {
                Some(i) => Some(DefaultValue::Int(i)),
                None => None,
            },
            _ => None,
        }
    } else if same_text(ty, "BOOL") {
        match d {
            JsonValue::Bool(b) => Some(
                DefaultValue::Int(
                    if *b {
                        1
                    } else {
                        0
                    },
                ),
            ),
            _ => None,
        }
    } else if same_text(ty, "FLOAT") {
        match float_value(d) {
            Some(f) => Some(DefaultValue::Float(f)),
            None => None,
        }
    } else if same_text(ty, "STRING_SHORT") || same_text(ty, "STRING_LONG") || same_text(
        ty,
        "GRADIENT",
    ) || same_text(ty, "COLOR") {
        match d {
            JsonValue::String(s) => Some(DefaultValue::Str(s.clone())),
            _ => None,
        }
    } else if same_text(ty, "VECTOR") {
        match d {
            JsonValue::Array(items) => {
                if items.len() == 2 {
                    match (float_value(&items[0]), float_value(&items[1])) {
                        (Some(x), Some(y)) => Some(DefaultValue::Vec2(x, y)),
                        _ => None,
                    }
                } else {
                    None
                }
            },
            _ => None,
        }
    } else {
        None
    }
}

/// The `(key, default)` pairs to register in the configuration, in schema
/// order; options without a usable default are skipped.
pub fn schema_defaults(schema: &Schema) -> (r: Vec<(String, DefaultValue)>)
    ensures
        r.len() == defaults_spec(schema.hyprlang_schema@).len(),
        forall|k: int|
            0 <= k < r.len() ==> {
                let want = defaults_spec(schema.hyprlang_schema@)[k];
                &&& (#[trigger] r[k]).0@ == want.0
                &&& r[k].1 == want.1
            },
{
    let opts = &schema.hyprlang_schema;
    let mut r: Vec<(String, DefaultValue)> = Vec::new();
    let mut i: usize = 0;
    while i < opts.len()
        invariant
            0 <= i <= opts.len(),
            r.len() == defaults_spec(opts@.take(i as int)).len(),
            forall|k: int|
                0 <= k < r.len() ==> {
                    let want = defaults_spec(opts@.take(i as int))[k];
                    &&& (#[trigger] r[k]).0@ == want.0
                    &&& r[k].1 == want.1
                },
        decreases opts.len() - i,
    {
        let opt = &opts[i];
        assert(opts@.take(i + 1).drop_last() =~= opts@.take(i as int));
        assert(opts@.take(i + 1).last() == opts@[i as int]);
        let contributed = match &opt.data.default {
            Some(d) => default_value(opt.option_type.as_str(), d),
            None => None,
        };
        match contributed {
            Some(v) => {
                r.push((opt.value.clone(), v));
            },
            None => {},
        }
        i = i + 1;
    }
    assert(opts@.take(opts.len() as int) =~= opts@);
    r
}

/// The keys of all options, in schema order.
pub fn schema_keys(schema: &Schema) -> (keys: Vec<String>)
    ensures
        keys.len() == schema.hyprlang_schema.len(),
        forall|k: int|
            0 <= k < keys.len() ==> (#[trigger] keys[k])@ == schema.hyprlang_schema[k].value@,
{
    let mut keys: Vec<String> = Vec::new();
    let mut i: usize = 0;
    while i < schema.hyprlang_schema.len()
        invariant
            0 <= i <= schema.hyprlang_schema.len(),
            keys.len() == i,
            forall|k: int|
                0 <= k < i ==> (#[trigger] keys[k])@ == schema.hyprlang_schema[k].value@,
        decreases schema.hyprlang_schema.len() - i,
    {
        keys.push(schema.hyprlang_schema[i].value.clone());
        i = i + 1;
    }
    keys
}

/// Law (booleans become integers): a `BOOL` option's default `true` is
/// registered as the integer 1 and `false` as 0.
pub proof fn law_bool_default_is_int(b: bool)
    ensures
        default_of("BOOL"@, JsonValue::Bool(b)) == Some(DefaultValue::Int(if b { 1 } else { 0 })),
{
    reveal_strlit("BOOL");
    reveal_strlit("INT");
    assert("BOOL"@[0] != "INT"@[0]);
}

/// Law (string defaults are kept): an option of type `STRING_SHORT`,
/// `STRING_LONG`, `GRADIENT` or `COLOR` whose default is a JSON string
/// contributes that string as its default, whatever the string is.
pub proof fn law_string_types_keep_string_defaults(s: String)
    ensures
        default_of("STRING_SHORT"@, JsonValue::String(s)) == Some(DefaultValue::Str(s)),
        default_of("STRING_LONG"@, JsonValue::String(s)) == Some(DefaultValue::Str(s)),
        default_of("GRADIENT"@, JsonValue::String(s)) == Some(DefaultValue::Str(s)),
        default_of("COLOR"@, JsonValue::String(s)) == Some(DefaultValue::Str(s)),
{
    reveal_strlit("STRING_SHORT");
    reveal_strlit("STRING_LONG");
    reveal_strlit("GRADIENT");
    reveal_strlit("COLOR");
    reveal_strlit("INT");
    reveal_strlit("BOOL");
    reveal_strlit("FLOAT");
    assert("STRING_SHORT"@[0] == 'S' && "STRING_LONG"@[0] == 'S' && "GRADIENT"@[0] == 'G');
    assert("COLOR"@[0] == 'C' && "INT"@[0] == 'I' && "BOOL"@[0] == 'B' && "FLOAT"@[0] == 'F');
}

} // verus!
