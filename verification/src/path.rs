//! Path text: quote stripping, shell expansion and the glob patterns of
//! `source` directives. Touching the file system is left to the caller.
use vstd::prelude::*;
use vstd::string::StringExecFns;

use crate::error::{AppError, ErrorKind};
use crate::text::{chars_of, find_char, has_prefix, string_of};

verus! {

/// `s` without one pair of enclosing double or single quotes.
pub open spec fn strip_quotes_spec(s: Seq<char>) -> Seq<char> {
    if s.len() >= 2 && ((s[0] == '"' && s.last() == '"') || (s[0] == '\'' && s.last() == '\'')) {
        s.subrange(1, s.len() - 1)
    } else {
        s
    }
}

/// A lone quote character, which is both the opening and the closing quote.
pub open spec fn is_lone_quote(s: Seq<char>) -> bool {
    s.len() == 1 && (s[0] == '"' || s[0] == '\'')
}

/// Whether `path` is a lone quote character, which `strip_quotes` and
/// `expand_path` do not take.
pub fn is_lone_quote_text(path: &str) -> (b: bool)
    ensures
        b == is_lone_quote(path@),
{
    let v = chars_of(path);
    v.len() == 1 && (v[0] == '"' || v[0] == '\'')
}

/// Removes one pair of enclosing quotes (`"..."` or `'...'`).
///
/// A lone quote character is refused by `requires`: both the opening and
/// the closing quote would be that one character.
pub fn strip_quotes(path: &str) -> (r: String)
    requires
        !is_lone_quote(path@),
    ensures
        r@ == strip_quotes_spec(path@),
{
    let v = chars_of(path);
    let n = v.len();
    assert(v@.subrange(0, n as int) =~= v@);
    if n >= 2 && ((v[0] == '"' && v[n - 1] == '"') || (v[0] == '\'' && v[n - 1] == '\'')) {
        string_of(&v, 1, n - 1)
    } else {
        string_of(&v, 0, n)
    }
}

/// `s` contains no `$`, so shell expansion has no variable to look up.
pub open spec fn no_variables(s: Seq<char>) -> bool {
    !s.contains('$')
}

/// `s` does not start with `~`, so shell expansion has no home directory to
/// put in.
pub open spec fn no_tilde(s: Seq<char>) -> bool {
    !(s.len() > 0 && s[0] == '~')
}

/// A leading `~` that stands for the home directory: alone, or followed
/// by `/` (on Windows also by `\`).
pub open spec fn home_tilde(s: Seq<char>) -> bool {
    s.len() > 0 && s[0] == '~' && (s.len() == 1 || s[1] == '/' || s[1] == '\\')
}

/// What holds of every shell expansion `e` of `s`, whatever the
/// environment:
/// - without `$` and a leading `~`, `e` is `s`;
/// - without `$` but with a leading `~`, `e` is `s`, or, when that `~`
///   stands for the home directory, some directory followed by the rest of
///   `s` after the `~`;
/// - with `$` but without a leading `~`, `e` starts with the text of `s`
///   before its first `$`;
/// - with `$` and a leading `~`, `e` starts with that text, or with some
///   directory followed by that text after the `~`.
pub open spec fn expansion_outcome(s: Seq<char>, e: Seq<char>) -> bool {
    &&& no_variables(s) && no_tilde(s) ==> e == s
    &&& no_variables(s) && !no_tilde(s) ==> (e == s || (home_tilde(s) && exists|h: Seq<char>|
        #[trigger] (h + s.drop_first()) == e))
    &&& !no_variables(s) && no_tilde(s) ==> has_prefix(e, s.subrange(0, find_char(s, '$')))
    &&& !no_variables(s) && !no_tilde(s) ==> (has_prefix(e, s.subrange(0, find_char(s, '$')))
        || exists|h: Seq<char>| has_prefix(e, #[trigger] (h + s.subrange(1, find_char(s, '$')))))
}

/// Expands environment variables and a leading `~` with
/// `shellexpand::full`.
///
/// The result depends on the process environment, so no function of the
/// input names it. The contract states what the crate's source shows for
/// every environment: an input without `$` never fails (only variable
/// lookups fail), and every result is an `expansion_outcome` of the input.
/// Which values the variables and the home directory have is left unsaid,
/// and a failure is converted to the error's text.
#[verifier::external_body]
fn shell_expand(s: &str) -> (r: Result<String, String>)
    ensures
        no_variables(s@) ==> (r is Ok),
        r is Ok ==> expansion_outcome(s@, r.unwrap()@),
{
    match shellexpand::full(s) {
        Ok(expanded) => Ok(expanded.into_owned()),
        Err(e) => Err(e.to_string()),
    }
}

/// `r` is a path-resolution error.
pub open spec fn is_path_error(e: AppError) -> bool {
    e.kind == ErrorKind::BadRequest && has_prefix(e.message@, "Path resolution error: "@)
}

/// The error for a failed expansion: `Path resolution error: <cause>`.
fn path_error(cause: &str) -> (e: AppError)
    ensures
        is_path_error(e),
{
    let e = AppError::path_resolution(cause);
    assert(e.message@.subrange(0, "Path resolution error: "@.len() as int)
        =~= "Path resolution error: "@);
    e
}

/// Strips enclosing quotes from a path and expands it like a shell does.
///
/// A path without quotes, `$` and a leading `~` comes back unchanged; in
/// every case the result is an expansion of the path without its quotes.
pub fn expand_path(path: &str) -> (r: Result<String, AppError>)
    requires
        !is_lone_quote(path@),
    ensures
        no_variables(strip_quotes_spec(path@)) ==> r is Ok,
        r is Ok ==> expansion_outcome(strip_quotes_spec(path@), r.unwrap()@),
        r matches Err(e) ==> is_path_error(e),
{
    let stripped = strip_quotes(path);
    match shell_expand(stripped.as_str()) {
        Ok(expanded) => Ok(expanded),
        Err(cause) => Err(path_error(cause.as_str())),
    }
}

/// `rel` appended to the directory `base`, as `Path::join` does for a
/// relative path: with a `/` between them unless `base` is empty or
/// already ends with one.
pub open spec fn join_spec(base: Seq<char>, rel: Seq<char>) -> Seq<char> {
    if base.len() == 0 {
        rel
    } else if base.last() == '/' {
        base + rel
    } else {
        base + "/"@ + rel
    }
}

/// The pattern a `source` path stands for after expansion: an absolute
/// (or `~`) path as it is, anything else relative to `base_dir`.
pub open spec fn full_pattern_spec(expanded: Seq<char>, base_dir: Seq<char>) -> Seq<char> {
    if expanded.len() > 0 && (expanded[0] == '/' || expanded[0] == '~') {
        expanded
    } else {
        join_spec(base_dir, expanded)
    }
}

/// Joins a relative path onto a directory.
pub fn join_path(base: &str, rel: &str) -> (r: String)
    ensures
        r@ == join_spec(base@, rel@),
{
    let b = chars_of(base);
    let mut r = String::from_str(base);
    if b.len() > 0 && b[b.len() - 1] != '/' {
        r.append("/");
    }
    r.append(rel);
    r
}

/// The glob pattern for an already expanded `source` path.
pub fn full_pattern(expanded: &str, base_dir: &str) -> (r: String)
    ensures
        r@ == full_pattern_spec(expanded@, base_dir@),
{
    let v = chars_of(expanded);
    if v.len() > 0 && (v[0] == '/' || v[0] == '~') {
        String::from_str(expanded)
    } else {
        join_path(base_dir, expanded)
    }
}

/// The glob pattern of a `source` path: expanded like a shell does, then
/// taken relative to `base_dir` unless absolute.
pub fn glob_pattern(pattern: &str, base_dir: &str) -> (r: Result<String, AppError>)
    ensures
        no_variables(pattern@) ==> r is Ok,
        r is Ok ==> exists|e: Seq<char>|
            expansion_outcome(pattern@, e) && r.unwrap()@ == #[trigger] full_pattern_spec(
                e,
                base_dir@,
            ),
        r matches Err(e) ==> is_path_error(e),
{
    match shell_expand(pattern) {
        Ok(expanded) => Ok(full_pattern(expanded.as_str(), base_dir)),
        Err(cause) => Err(path_error(cause.as_str())),
    }
}

/// The files a `source` pattern resolves to: the glob's matches, or, when
/// there are none, the pattern itself taken as a path if its parent
/// directory exists.
pub fn resolved_sources(matches: Vec<String>, pattern: String, parent_exists: bool) -> (r: Vec<
    String,
>)
    ensures
        matches.len() == 0 && parent_exists ==> r@ == seq![pattern],
        !(matches.len() == 0 && parent_exists) ==> r@ == matches@,
{
    if matches.len() == 0 && parent_exists {
        let mut r: Vec<String> = Vec::new();
        r.push(pattern);
        r
    } else {
        matches
    }
}

/// Law (paths without expansion stay put): a `source` path that holds no
/// `$`, starts with neither `~` nor `/`, is looked up relative to the
/// directory of the file that names it.
pub proof fn law_relative_source_under_base(pattern: Seq<char>, base_dir: Seq<char>)
    requires
        no_variables(pattern),
        no_tilde(pattern),
        !(pattern.len() > 0 && pattern[0] == '/'),
        base_dir.len() > 0,
        base_dir.last() != '/',
    ensures
        full_pattern_spec(pattern, base_dir) == base_dir + "/"@ + pattern,
{
}

/// Law (expanding a plain path changes nothing): a path that is not
/// wrapped in quotes and holds no `$` and no leading `~` has itself as its
/// only expansion, so `expand_path` gives it back unchanged. This is the
/// part of normalising an already normalised path that does not depend on
/// the file system.
pub proof fn law_plain_path_expands_to_itself(s: Seq<char>)
    requires
        strip_quotes_spec(s) == s,
        no_variables(s),
        no_tilde(s),
    ensures
        no_variables(strip_quotes_spec(s)),
        forall|e: Seq<char>| #[trigger] expansion_outcome(strip_quotes_spec(s), e) ==> e == s,
{
}

} // verus!
