//! Configuration values: their type names, the text of integers and
//! colors, and the hash that names dynamic-variable lookups.
use std::collections::hash_map::DefaultHasher;
use std::hash::Hasher;

use vstd::prelude::*;
use vstd::std_specs::hash::DefaultHasherAdditionalSpecFns;
use vstd::string::StringExecFns;
use vstd::utf8::encode_utf8;

use crate::text::push_char;

verus! {

/// A configuration value as the query logic sees it.
///
/// Floating-point components are held as their IEEE-754 bit patterns
/// (`f64::to_bits`), which identify them exactly.
#[derive(Debug)]
pub enum ConfigValue {
    /// 64-bit signed integer.
    Int(i64),
    /// 64-bit float, as its bit pattern.
    Float(u64),
    /// String value.
    String(String),
    /// 2D vector, as the bit patterns of `x` and `y`.
    Vec2(u64, u64),
    /// RGBA color.
    Color(u8, u8, u8, u8),
    /// Value of a custom type, with the type's name.
    Custom(String),
}

/// The type name of a value.
pub open spec fn type_name_of(v: ConfigValue) -> Seq<char> {
    match v {
        ConfigValue::Int(_) => "INT"@,
        ConfigValue::Float(_) => "FLOAT"@,
        ConfigValue::String(_) => "STRING"@,
        ConfigValue::Vec2(_, _) => "VEC2"@,
        ConfigValue::Color(_, _, _, _) => "COLOR"@,
        ConfigValue::Custom(_) => "CUSTOM"@,
    }
}

/// The type name of a value: one of `INT`, `FLOAT`, `STRING`, `VEC2`,
/// `COLOR`, `CUSTOM`.
pub fn config_value_type_name(value: &ConfigValue) -> (r: &'static str)
    ensures
        r@ == type_name_of(*value),
{
    match value {
        ConfigValue::Int(_) => "INT",
        ConfigValue::Float(_) => "FLOAT",
        ConfigValue::String(_) => "STRING",
        ConfigValue::Vec2(_, _) => "VEC2",
        ConfigValue::Color(_, _, _, _) => "COLOR",
        ConfigValue::Custom(_) => "CUSTOM",
    }
}

/// The hash `hash_string` gives: std's `DefaultHasher` fed the bytes that
/// `Hash for str` writes, namely the UTF-8 bytes and then `0xff`.
pub open spec fn string_hash(s: Seq<char>) -> u64 {
    DefaultHasher::spec_finish(seq![encode_utf8(s), seq![0xffu8]])
}

/// Hash a string with std's `DefaultHasher`, as `str::hash` does.
///
/// `DefaultHasher::new` always starts from the same keys, so the hash is a
/// function of the string alone within one build.
pub fn hash_string(s: &str) -> (h: u64)
    ensures
        h == string_hash(s@),
{
    let mut hasher = DefaultHasher::new();
    let bytes = s.as_bytes();
    assert(bytes@ == encode_utf8(s@));
    hasher.write(bytes);
    let mut end: Vec<u8> = Vec::new();
    end.push(0xffu8);
    assert(end@ =~= seq![0xffu8]);
    hasher.write(end.as_slice());
    assert(hasher@ =~= seq![encode_utf8(s@), seq![0xffu8]]);
    hasher.finish()
}

/// The decimal digit `d` (`d < 10`).
pub open spec fn digit_char(d: nat) -> char {
    if d == 0 {
        '0'
    } else if d == 1 {
        '1'
    } else if d == 2 {
        '2'
    } else if d == 3 {
        '3'
    } else if d == 4 {
        '4'
    } else if d == 5 {
        '5'
    } else if d == 6 {
        '6'
    } else if d == 7 {
        '7'
    } else if d == 8 {
        '8'
    } else {
        '9'
    }
}

/// The value of a decimal digit character.
pub open spec fn digit_value(c: char) -> nat {
    if c == '0' {
        0
    } else if c == '1' {
        1
    } else if c == '2' {
        2
    } else if c == '3' {
        3
    } else if c == '4' {
        4
    } else if c == '5' {
        5
    } else if c == '6' {
        6
    } else if c == '7' {
        7
    } else if c == '8' {
        8
    } else {
        9
    }
}

/// The decimal notation of `n`, without leading zeros.
pub open spec fn decimal(n: nat) -> Seq<char>
    decreases n,
{
    if n < 10 {
        seq![digit_char(n)]
    } else {
        decimal(n / 10).push(digit_char(n % 10))
    }
}

/// The decimal notation of a signed integer, with `-` before negatives.
pub open spec fn signed_decimal(i: int) -> Seq<char> {
    if i < 0 {
        seq!['-'] + decimal((-i) as nat)
    } else {
        decimal(i as nat)
    }
}

/// The number that a sequence of decimal digits denotes.
pub open spec fn decimal_value(s: Seq<char>) -> nat
    decreases s.len(),
{
    if s.len() == 0 {
        0
    } else {
        decimal_value(s.drop_last()) * 10 + digit_value(s.last())
    }
}

fn digit(d: u64) -> (c: char)
    requires
        d < 10,
    ensures
        c == digit_char(d as nat),
{
    if d == 0 {
        '0'
    } else if d == 1 {
        '1'
    } else if d == 2 {
        '2'
    } else if d == 3 {
        '3'
    } else if d == 4 {
        '4'
    } else if d == 5 {
        '5'
    } else if d == 6 {
        '6'
    } else if d == 7 {
        '7'
    } else if d == 8 {
        '8'
    } else {
        '9'
    }
}

/// Decimal notation of an unsigned integer, as its `Display` gives it.
pub fn u64_text(n: u64) -> (r: String)
    ensures
        r@ == decimal(n as nat),
    decreases n,
{
    if n < 10 {
        let mut r = String::new();
        push_char(&mut r, digit(n));
        assert(r@ =~= decimal(n as nat));
        r
    } else {
        let mut r = u64_text(n / 10);
        push_char(&mut r, digit(n % 10));
        r
    }
}

/// Decimal notation of a signed integer, as its `Display` gives it.
pub fn int_text(i: i64) -> (r: String)
    ensures
        r@ == signed_decimal(i as int),
{
    if i < 0 {
        let magnitude: u64 = if i == i64::MIN {
            9223372036854775808u64
        } else {
            (-i) as u64
        };
        let digits = u64_text(magnitude);
        let mut r = String::from_str("-");
        r.append(digits.as_str());
        proof {
            reveal_strlit("-");
        }
        assert(r@ =~= seq!['-'] + decimal((-i) as nat));
        r
    } else {
        u64_text(i as u64)
    }
}

/// Text of a color, `rgba(r, g, b, a)` with decimal components.
pub open spec fn color_spec(r: u8, g: u8, b: u8, a: u8) -> Seq<char> {
    "rgba("@ + decimal(r as nat) + ", "@ + decimal(g as nat) + ", "@ + decimal(b as nat) + ", "@
        + decimal(a as nat) + ")"@
}

/// Text of a color: `rgba(r, g, b, a)`.
pub fn color_text(r: u8, g: u8, b: u8, a: u8) -> (s: String)
    ensures
        s@ == color_spec(r, g, b, a),
{
    let mut s = String::from_str("rgba(");
    s.append(u64_text(r as u64).as_str());
    s.append(", ");
    s.append(u64_text(g as u64).as_str());
    s.append(", ");
    s.append(u64_text(b as u64).as_str());
    s.append(", ");
    s.append(u64_text(a as u64).as_str());
    s.append(")");
    s
}

/// Reading the decimal notation of `n` gives back `n`.
pub proof fn lemma_decimal_value(n: nat)
    ensures
        decimal_value(decimal(n)) == n,
    decreases n,
{
    assert(decimal_value(Seq::<char>::empty()) == 0);
    if n < 10 {
        assert(decimal(n).drop_last() =~= Seq::<char>::empty());
    } else {
        lemma_decimal_value(n / 10);
        assert(decimal(n).drop_last() =~= decimal(n / 10));
        assert((n / 10) * 10 + n % 10 == n) by (nonlinear_arith);
    }
}

/// Law (hash determinism): hashing the same text twice gives the same
/// hash, so a dynamic variable's lookup key is the same wherever it is
/// computed.
pub proof fn law_hash_deterministic(a: Seq<char>, b: Seq<char>)
    requires
        a == b,
    ensures
        string_hash(a) == string_hash(b),
{
}

/// Law (decimal notation is unambiguous): different numbers have
/// different decimal notations.
pub proof fn law_decimal_injective(a: nat, b: nat)
    requires
        decimal(a) == decimal(b),
    ensures
        a == b,
{
    lemma_decimal_value(a);
    lemma_decimal_value(b);
}

} // verus!
