//! Character-level helpers shared by the parsers and renderers.
//!
//! Strings are handled as `Seq<char>` in specifications; the executable
//! code works on `Vec<char>` ranges `[lo, hi)` and turns them back into
//! `String`s.
use vstd::prelude::*;

verus! {

/// The characters with the Unicode `White_Space` property, which is what
/// `char::is_whitespace` tests and what `str::trim` strips.
pub open spec fn is_space(c: char) -> bool {
    let u = c as int;
    ||| 0x09 <= u <= 0x0d
    ||| u == 0x20
    ||| u == 0x85
    ||| u == 0xa0
    ||| u == 0x1680
    ||| 0x2000 <= u <= 0x200a
    ||| u == 0x2028
    ||| u == 0x2029
    ||| u == 0x202f
    ||| u == 0x205f
    ||| u == 0x3000
}

/// `s` without its leading white space.
pub open spec fn trim_start(s: Seq<char>) -> Seq<char>
    decreases s.len(),
{
    if s.len() > 0 && is_space(s[0]) {
        trim_start(s.drop_first())
    } else {
        s
    }
}

/// `s` without its trailing white space.
pub open spec fn trim_end(s: Seq<char>) -> Seq<char>
    decreases s.len(),
{
    if s.len() > 0 && is_space(s.last()) {
        trim_end(s.drop_last())
    } else {
        s
    }
}

/// `s` without leading and trailing white space, as `str::trim` gives it.
pub open spec fn trim(s: Seq<char>) -> Seq<char> {
    trim_end(trim_start(s))
}

/// Index of the first `c` in `s`, or `-1` when `s` holds none.
pub open spec fn find_char(s: Seq<char>, c: char) -> int
    decreases s.len(),
{
    if s.len() == 0 {
        -1
    } else if s[0] == c {
        0
    } else {
        let r = find_char(s.drop_first(), c);
        if r < 0 {
            -1
        } else {
            r + 1
        }
    }
}

/// `p` is a prefix of `s`.
pub open spec fn has_prefix(s: Seq<char>, p: Seq<char>) -> bool {
    p.len() <= s.len() && s.subrange(0, p.len() as int) == p
}

/// `s` with every `from` replaced by `to`.
pub open spec fn replace_char(s: Seq<char>, from: char, to: char) -> Seq<char> {
    s.map_values(|c: char| if c == from { to } else { c })
}

/// ASCII upper case of one character; other characters are unchanged.
pub open spec fn ascii_upper_char(c: char) -> char {
    if 'a' <= c <= 'z' {
        ((c as int) - 32) as char
    } else {
        c
    }
}

/// ASCII upper case of a string: `a`-`z` become `A`-`Z`, every other
/// character is kept.
pub open spec fn ascii_upper(s: Seq<char>) -> Seq<char> {
    s.map_values(|c: char| ascii_upper_char(c))
}

/// ASCII upper case of a string, as `str::to_ascii_uppercase` gives it.
pub fn to_ascii_upper(s: &str) -> (r: String)
    ensures
        r@ == ascii_upper(s@),
{
    let v = chars_of(s);
    let mut r = String::new();
    let mut i: usize = 0;
    while i < v.len()
        invariant
            0 <= i <= v.len(),
            r@ == ascii_upper(v@.subrange(0, i as int)),
        decreases v.len() - i,
    {
        let c = v[i];
        let u = if 'a' <= c && c <= 'z' {
            (((c as u32) - 32) as u8) as char
        } else {
            c
        };
        push_char(&mut r, u);
        i = i + 1;
        assert(r@ =~= ascii_upper(v@.subrange(0, i as int)));
    }
    assert(v@.subrange(0, v@.len() as int) =~= v@);
    r
}

/// Every character of `s` is ASCII.
pub open spec fn all_ascii(s: Seq<char>) -> bool {
    forall|i: int| 0 <= i < s.len() ==> (s[i] as int) < 128
}

/// Joins `parts` with `sep` between consecutive parts.
pub open spec fn join(parts: Seq<Seq<char>>, sep: Seq<char>) -> Seq<char>
    decreases parts.len(),
{
    if parts.len() == 0 {
        Seq::empty()
    } else if parts.len() == 1 {
        parts[0]
    } else {
        join(parts.drop_last(), sep) + sep + parts.last()
    }
}

/// The result of `str::to_uppercase`: the Unicode upper case of a string.
pub uninterp spec fn unicode_upper(s: Seq<char>) -> Seq<char>;

/// Upper-cases a string with `str::to_uppercase`.
///
/// The contract names the result `unicode_upper`, a function of the input
/// alone (std maps each character by the Unicode `Uppercase` tables), and
/// states the part std's documentation fixes in a few lines: on ASCII input
/// the result maps `a`-`z` to `A`-`Z` and keeps every other character.
/// What the Unicode tables do to other characters is left unsaid.
#[verifier::external_body]
pub(crate) fn to_uppercase(s: &str) -> (r: String)
    ensures
        r@ == unicode_upper(s@),
        all_ascii(s@) ==> r@ == ascii_upper(s@),
{
    s.to_uppercase()
}

/// Appends one character to a `String`, with `String::push`.
#[verifier::external_body]
pub(crate) fn push_char(s: &mut String, c: char)
    ensures
        final(s)@ == old(s)@.push(c),
{
    s.push(c);
}

/// The characters of `s`, in order.
pub fn chars_of(s: &str) -> (r: Vec<char>)
    ensures
        r@ == s@,
{
    let mut r: Vec<char> = Vec::new();
    for c in it: s.chars()
        invariant
            r@ == it.seq().take(it.index()),
    {
        r.push(c);
    }
    r
}

/// The string made of `v[lo..hi]`.
pub fn string_of(v: &Vec<char>, lo: usize, hi: usize) -> (r: String)
    requires
        lo <= hi <= v.len(),
    ensures
        r@ == v@.subrange(lo as int, hi as int),
{
    let mut r = String::new();
    let mut i = lo;
    while i < hi
        invariant
            lo <= i <= hi <= v.len(),
            r@ == v@.subrange(lo as int, i as int),
        decreases hi - i,
    {
        push_char(&mut r, v[i]);
        i = i + 1;
        assert(r@ =~= v@.subrange(lo as int, i as int));
    }
    r
}

/// Whether `c` is white space in the sense of `is_space`.
pub fn is_space_char(c: char) -> (r: bool)
    ensures
        r == is_space(c),
{
    let u = c as u32;
    (0x09 <= u && u <= 0x0d) || u == 0x20 || u == 0x85 || u == 0xa0 || u == 0x1680 || (0x2000
        <= u && u <= 0x200a) || u == 0x2028 || u == 0x2029 || u == 0x202f || u == 0x205f || u
        == 0x3000
}

/// Bounds `(a, b)` of the trimmed part of `v[lo..hi]`.
pub fn trim_range(v: &Vec<char>, lo: usize, hi: usize) -> (r: (usize, usize))
    requires
        lo <= hi <= v.len(),
    ensures
        lo <= r.0 <= r.1 <= hi,
        v@.subrange(r.0 as int, r.1 as int) == trim(v@.subrange(lo as int, hi as int)),
{
    let mut a = lo;
    while a < hi && is_space_char(v[a])
        invariant
            lo <= a <= hi <= v.len(),
            trim_start(v@.subrange(lo as int, hi as int)) == trim_start(
                v@.subrange(a as int, hi as int),
            ),
        decreases hi - a,
    {
        assert(v@.subrange(a as int, hi as int).drop_first() =~= v@.subrange(
            a + 1,
            hi as int,
        ));
        a = a + 1;
    }
    let mut b = hi;
    while b > a && is_space_char(v[b - 1])
        invariant
            lo <= a <= b <= hi <= v.len(),
            trim_start(v@.subrange(lo as int, hi as int)) == v@.subrange(a as int, hi as int),
            trim_end(v@.subrange(a as int, hi as int)) == trim_end(
                v@.subrange(a as int, b as int),
            ),
        decreases b - a,
    {
        assert(v@.subrange(a as int, b as int).drop_last() =~= v@.subrange(
            a as int,
            b - 1,
        ));
        b = b - 1;
    }
    (a, b)
}

/// One step of `find_char`: a scan that has seen no `c` in `s[..i]` and
/// finds `c` at `i`, or reaches the end, has found what `find_char` gives.
pub proof fn lemma_find_char(s: Seq<char>, c: char, i: int)
    requires
        0 <= i <= s.len(),
        forall|k: int| 0 <= k < i ==> s[k] != c,
    ensures
        i < s.len() && s[i] == c ==> find_char(s, c) == i,
        i == s.len() ==> find_char(s, c) == -1,
    decreases i,
{
    if i > 0 {
        lemma_find_char(s.drop_first(), c, i - 1);
    }
}

/// The result of `find_char` is a position that holds `c`, with no `c`
/// before it; `-1` means that `s` holds no `c`.
pub proof fn lemma_find_char_facts(s: Seq<char>, c: char)
    ensures
        -1 <= find_char(s, c) < s.len(),
        find_char(s, c) >= 0 ==> s[find_char(s, c)] == c,
        forall|k: int|
            0 <= k < s.len() && (find_char(s, c) < 0 || k < find_char(s, c)) ==> s[k] != c,
    decreases s.len(),
{
    if s.len() > 0 {
        lemma_find_char_facts(s.drop_first(), c);
        assert forall|k: int|
            0 <= k < s.len() && (find_char(s, c) < 0 || k < find_char(s, c)) implies s[k]
            != c by {
            if k > 0 {
                assert(s[k] == s.drop_first()[k - 1]);
            }
        }
    }
}

/// Position of the first `c` in `v[lo..hi]`, or `hi` when there is none.
pub fn find_in(v: &Vec<char>, c: char, lo: usize, hi: usize) -> (r: usize)
    requires
        lo <= hi <= v.len(),
    ensures
        lo <= r <= hi,
        r < hi ==> find_char(v@.subrange(lo as int, hi as int), c) == r - lo,
        r == hi ==> find_char(v@.subrange(lo as int, hi as int), c) == -1,
{
    let mut i = lo;
    while i < hi && v[i] != c
        invariant
            lo <= i <= hi <= v.len(),
            forall|k: int| lo <= k < i ==> v@[k] != c,
        decreases hi - i,
    {
        i = i + 1;
    }
    proof {
        let s = v@.subrange(lo as int, hi as int);
        lemma_find_char(s, c, i - lo);
    }
    i
}

/// Whether `v[lo..hi]` starts with `p`.
pub fn starts_with_at(v: &Vec<char>, lo: usize, hi: usize, p: &Vec<char>) -> (r: bool)
    requires
        lo <= hi <= v.len(),
    ensures
        r == has_prefix(v@.subrange(lo as int, hi as int), p@),
{
    if p.len() > hi - lo {
        return false;
    }
    let mut i: usize = 0;
    while i < p.len()
        invariant
            p.len() <= hi - lo,
            lo <= hi <= v.len(),
            0 <= i <= p.len(),
            forall|k: int| 0 <= k < i ==> v@[lo + k] == p@[k],
        decreases p.len() - i,
    {
        if v[lo + i] != p[i] {
            assert(v@.subrange(lo as int, hi as int).subrange(0, p@.len() as int)[i as int]
                != p@[i as int]);
            return false;
        }
        i = i + 1;
    }
    assert(v@.subrange(lo as int, hi as int).subrange(0, p@.len() as int) =~= p@);
    true
}

/// Whether `a` and `b` hold the same characters.
pub fn same_text(a: &str, b: &str) -> (r: bool)
    ensures
        r == (a@ == b@),
{
    let va = chars_of(a);
    let vb = chars_of(b);
    if va.len() != vb.len() {
        return false;
    }
    let mut i: usize = 0;
    while i < va.len()
        invariant
            va.len() == vb.len(),
            va@ == a@,
            vb@ == b@,
            0 <= i <= va.len(),
            forall|k: int| 0 <= k < i ==> va@[k] == vb@[k],
        decreases va.len() - i,
    {
        if va[i] != vb[i] {
            assert(a@[i as int] != b@[i as int]);
            return false;
        }
        i = i + 1;
    }
    assert(va@ =~= vb@);
    true
}

/// `s` with every `from` replaced by `to`, as `str::replace` does for a
/// single character pattern and a single character replacement.
pub fn replace_all(s: &str, from: char, to: char) -> (r: String)
    ensures
        r@ == replace_char(s@, from, to),
{
    let v = chars_of(s);
    let mut r = String::new();
    let mut i: usize = 0;
    while i < v.len()
        invariant
            0 <= i <= v.len(),
            r@ == replace_char(v@.subrange(0, i as int), from, to),
        decreases v.len() - i,
    {
        let c = if v[i] == from {
            to
        } else {
            v[i]
        };
        push_char(&mut r, c);
        i = i + 1;
        assert(r@ =~= replace_char(v@.subrange(0, i as int), from, to));
    }
    assert(v@.subrange(0, v@.len() as int) =~= v@);
    r
}

} // verus!
