//! Type and regex filters on looked-up values.
use vstd::prelude::*;
use vstd::string::StringExecFns;

use crate::error::{AppError, ErrorKind};
use crate::query::{normalize_type, opt_view};
use crate::text::{ascii_upper, has_prefix};

verus! {

#[verifier::external_type_specification]
#[verifier::external_body]
pub struct ExRegex(regex::Regex);

#[verifier::external_type_specification]
#[verifier::external_body]
pub struct ExRegexError(regex::Error);

/// Whether `regex::Regex::new` accepts `pattern`.
pub uninterp spec fn regex_accepts(pattern: Seq<char>) -> bool;

/// Whether the regex compiled from `pattern` matches somewhere in
/// `haystack`, as `regex::Regex::is_match` answers.
pub uninterp spec fn regex_is_match(pattern: Seq<char>, haystack: Seq<char>) -> bool;

/// Compiles `pattern` with `regex::Regex::new`.
///
/// The contract claims only that the call succeeds exactly when
/// `regex_accepts(pattern)`: whether a pattern compiles depends on the
/// pattern alone (and on the crate's fixed default size limits). Which
/// error comes back is left unsaid.
#[verifier::external_body]
fn regex_new(pattern: &str) -> (r: Result<regex::Regex, regex::Error>)
    ensures
        r is Ok <==> regex_accepts(pattern@),
{
    regex::Regex::new(pattern)
}

/// A compiled regex together with the pattern it was compiled from.
///
/// The fields are private and `Matcher::new` is the only constructor, so
/// `compiled` is always the result of compiling `pattern`.
pub(crate) struct Matcher {
    pattern: String,
    compiled: regex::Regex,
}

impl Matcher {
    /// The pattern this matcher was compiled from.
    pub(crate) closed spec fn source(&self) -> Seq<char> {
        self.pattern@
    }

    /// Compiles `pattern`; fails exactly when the regex crate rejects it.
    pub(crate) fn new(pattern: &str) -> (r: Result<Matcher, regex::Error>)
        ensures
            r is Ok <==> regex_accepts(pattern@),
            r matches Ok(m) ==> m.source() == pattern@,
    {
        match regex_new(pattern) {
            Ok(compiled) => Ok(Matcher { pattern: String::from_str(pattern), compiled }),
            Err(e) => Err(e),
        }
    }

    /// Whether the regex matches somewhere in `text`, with
    /// `regex::Regex::is_match`.
    ///
    /// The contract names the answer `regex_is_match` of the pattern the
    /// regex was compiled from and of `text`: the answer depends on those
    /// two alone.
    #[verifier::external_body]
    pub(crate) fn is_match(&self, text: &str) -> (b: bool)
        ensures
            b == regex_is_match(self.source(), text@),
    {
        self.compiled.is_match(text)
    }
}

/// The error a rejected regex gives: `Invalid query format: ` followed by
/// the regex crate's description of the problem.
pub fn regex_error(e: &regex::Error) -> (r: AppError)
    ensures
        r.kind == ErrorKind::BadRequest,
        has_prefix(r.message@, "Invalid query format: "@),
{
    let text = e.to_string();
    let r = AppError::invalid_query(text.as_str());
    assert(r.message@.subrange(0, "Invalid query format: "@.len() as int) =~= "Invalid query format: "@);
    r
}

/// The value's type differs from the expected one, up to ASCII case.
pub open spec fn type_mismatch(type_str: Seq<char>, expected: Option<Seq<char>>) -> bool {
    match expected {
        Some(t) => ascii_upper(type_str) != ascii_upper(t),
        None => false,
    }
}

/// What the filters make of a value: `Some((value, type))` to keep,
/// `Some(("", "NULL"))` when a filter rejects it, `None` when the expected
/// regex does not compile. The type filter is tried first.
pub open spec fn spec_filter(
    value: Seq<char>,
    type_str: Seq<char>,
    expected_type: Option<Seq<char>>,
    expected_regex: Option<Seq<char>>,
) -> Option<(Seq<char>, Seq<char>)> {
    if type_mismatch(type_str, expected_type) {
        Some((Seq::empty(), "NULL"@))
    } else {
        match expected_regex {
            Some(p) => if !regex_accepts(p) {
                None
            } else if !regex_is_match(p, value) {
                Some((Seq::empty(), "NULL"@))
            } else {
                Some((value, type_str))
            },
            None => Some((value, type_str)),
        }
    }
}

/// Applies the type and regex filters of a query to a resolved value.
///
/// A value whose type differs from the expected type (compared in upper
/// case), or that the expected regex does not match, becomes `("",
/// "NULL")`; otherwise value and type come back unchanged. A regex that
/// does not compile is an `Invalid query format` error.
pub fn apply_filters(
    value: String,
    type_str: &str,
    expected_type: &Option<String>,
    expected_regex: &Option<String>,
) -> (r: Result<(String, String), AppError>)
    ensures
        match spec_filter(value@, type_str@, opt_view(*expected_type), opt_view(*expected_regex)) {
            Some(out) => r matches Ok(res) && res.0@ == out.0 && res.1@ == out.1,
            None => r matches Err(e) && e.kind == ErrorKind::BadRequest && has_prefix(
                e.message@,
                "Invalid query format: "@,
            ),
        },
{
    if let Some(exp_type) = expected_type {
        let actual = normalize_type(type_str);
        let wanted = normalize_type(exp_type.as_str());
        if actual != wanted {
            return Ok((String::new(), String::from_str("NULL")));
        }
    }
    if let Some(pattern) = expected_regex {
        let rx = match Matcher::new(pattern.as_str()) {
            Ok(m) => m,
            Err(e) => return Err(regex_error(&e)),
        };
        if !rx.is_match(value.as_str()) {
            return Ok((String::new(), String::from_str("NULL")));
        }
    }
    Ok((value, String::from_str(type_str)))
}

/// Law (the type filter alone): with an expected type and no regex, a
/// value is kept, with its type, exactly when its type equals the expected
/// one up to ASCII case; otherwise the query is `NULL`. No other type
/// passes, whatever the two types are.
pub proof fn law_type_filter_alone(value: Seq<char>, type_str: Seq<char>, expected: Seq<char>)
    ensures
        spec_filter(value, type_str, Some(expected), None) == if ascii_upper(type_str)
            == ascii_upper(expected) {
            Some((value, type_str))
        } else {
            Some((Seq::<char>::empty(), "NULL"@))
        },
{
}

} // verus!
