//! `source = path` directives: finding them in a configuration text, and
//! keeping track of the files already parsed so that each is parsed once.
use vstd::prelude::*;

use crate::query::opt_view;
use crate::text::{
    chars_of, find_char, find_in, is_space, lemma_find_char, lemma_find_char_facts,
    starts_with_at, string_of, trim, trim_end, trim_range, trim_start,
};

verus! {

/// The lines of `s`: the pieces between `\n` characters.
///
/// Unlike `str::lines` this keeps a final empty piece after a trailing
/// `\n` and a `\r` before each `\n`; neither can hold a directive, since a
/// directive is read from the trimmed line and needs a non-empty path.
pub open spec fn split_lines(s: Seq<char>) -> Seq<Seq<char>>
    decreases s.len(),
{
    let j = find_char(s, '\n');
    if j < 0 {
        seq![s]
    } else {
        proof {
            lemma_find_char_facts(s, '\n');
        }
        seq![s.subrange(0, j)] + split_lines(s.subrange(j + 1, s.len() as int))
    }
}

/// The path a line's `source` directive names, if the line is one.
///
/// The line must hold an `=`, and the text before the first `=`, trimmed,
/// must be the keyword `source`; the path is what follows the first `=`,
/// up to any `#` comment, trimmed. An empty path is no directive.
pub open spec fn source_directive(line: Seq<char>) -> Option<Seq<char>> {
    let t = trim(line);
    let eq = find_char(t, '=');
    if eq < 0 {
        None
    } else {
        if trim(t.subrange(0, eq)) != "source"@ {
            None
        } else {
            let after = trim(t.subrange(eq + 1, t.len() as int));
            let h = find_char(after, '#');
            let p = trim(
                if h < 0 {
                    after
                } else {
                    after.subrange(0, h)
                },
            );
            if p.len() == 0 {
                None
            } else {
                Some(p)
            }
        }
    }
}

/// Law (directives are found): the line `source = <path>` names `<path>`,
/// for any non-empty path that holds no `#` and neither starts nor ends
/// with white space.
pub proof fn law_source_line_names_path(p: Seq<char>)
    requires
        p.len() > 0,
        !p.contains('#'),
        !is_space(p[0]),
        !is_space(p.last()),
    ensures
        source_directive("source = "@ + p) == Some(p),
{
    reveal_strlit("source = ");
    reveal_strlit("source");
    let line = "source = "@ + p;
    assert(line[0] == 's');
    assert(trim_start(line) == line);
    assert(line.last() == p.last());
    assert(trim_end(line) == line);
    assert(trim(line) == line);
    let key = line.subrange(0, 7);
    assert(key =~= seq!['s', 'o', 'u', 'r', 'c', 'e', ' ']);
    assert(trim_start(key) == key);
    assert(key.drop_last() =~= "source"@);
    assert(trim_end(key.drop_last()) == key.drop_last());
    assert(trim_end(key) == "source"@);
    assert forall|k: int| 0 <= k < 7 implies line[k] != '=' by {
        assert(line[k] == "source = "@[k]);
    }
    assert(line[7] == '=');
    lemma_find_char(line, '=', 7);
    let rest = line.subrange(8, line.len() as int);
    assert(rest =~= seq![' '] + p);
    assert(rest.drop_first() =~= p);
    assert(trim_start(rest) == trim_start(p));
    assert(trim_start(p) == p);
    assert(trim_end(p) == p);
    assert forall|k: int| 0 <= k < p.len() implies p[k] != '#' by {
        assert(p.contains(p[k]));
    }
    lemma_find_char(p, '#', p.len() as int);
}

/// The paths named by the directives among `lines`, in order.
pub open spec fn directive_paths(lines: Seq<Seq<char>>) -> Seq<Seq<char>>
    decreases lines.len(),
{
    if lines.len() == 0 {
        Seq::empty()
    } else {
        let head = match source_directive(lines[0]) {
            Some(p) => seq![p],
            None => Seq::empty(),
        };
        head + directive_paths(lines.drop_first())
    }
}

/// The paths named by the `source` directives of a configuration text.
pub open spec fn content_sources(content: Seq<char>) -> Seq<Seq<char>> {
    directive_paths(split_lines(content))
}

/// The directive path of the line `v[lo..hi]`.
fn directive_in(v: &Vec<char>, lo: usize, hi: usize) -> (r: Option<String>)
    requires
        lo <= hi <= v.len(),
    ensures
        opt_view(r) == source_directive(v@.subrange(lo as int, hi as int)),
{
    let (a, b) = trim_range(v, lo, hi);
    let ghost t = v@.subrange(a as int, b as int);
    let eq = find_in(v, '=', a, b);
    if eq == b {
        return None;
    }
    assert(t.subrange(0, eq - a) =~= v@.subrange(a as int, eq as int));
    let (ka, kb) = trim_range(v, a, eq);
    let keyword = chars_of("source");
    if kb - ka != keyword.len() || !starts_with_at(v, ka, kb, &keyword) {
        proof {
            let key = v@.subrange(ka as int, kb as int);
            if key == "source"@ {
                assert(key.subrange(0, keyword@.len() as int) =~= key);
            }
        }
        return None;
    }
    assert(v@.subrange(ka as int, kb as int) =~= v@.subrange(ka as int, kb as int).subrange(0, keyword@.len() as int));
    assert(t.subrange(eq - a + 1, t.len() as int) =~= v@.subrange(eq + 1, b as int));
    let (c, d) = trim_range(v, eq + 1, b);
    let ghost after = v@.subrange(c as int, d as int);
    let h = find_in(v, '#', c, d);
    assert(h < d ==> after.subrange(0, h - c) =~= v@.subrange(c as int, h as int));
    assert(h == d ==> after =~= v@.subrange(c as int, h as int));
    let (e, f) = trim_range(v, c, h);
    if e == f {
        None
    } else {
        Some(string_of(v, e, f))
    }
}

/// The path named by a `source` directive on `line`, if it is one.
pub fn source_directive_path(line: &str) -> (r: Option<String>)
    ensures
        opt_view(r) == source_directive(line@),
{
    let v = chars_of(line);
    assert(v@.subrange(0, v@.len() as int) =~= v@);
    directive_in(&v, 0, v.len())
}

/// The paths named by the `source` directives of a configuration text, in
/// the order of their lines.
pub fn source_directives(content: &str) -> (paths: Vec<String>)
    ensures
        paths.len() == content_sources(content@).len(),
        forall|k: int|
            0 <= k < paths.len() ==> #[trigger] paths[k]@ == content_sources(content@)[k],
{
    let v = chars_of(content);
    let n = v.len();
    let mut paths: Vec<String> = Vec::new();
    let ghost mut seen: Seq<Seq<char>> = Seq::empty();
    let mut i: usize = 0;
    let mut done = false;
    assert(v@.subrange(0, n as int) =~= v@);
    while !done
        invariant
            n == v.len(),
            v@ == content@,
            0 <= i <= n,
            paths.len() == seen.len(),
            forall|k: int| 0 <= k < paths.len() ==> #[trigger] paths[k]@ == seen[k],
            !done ==> content_sources(content@) == seen + directive_paths(
                split_lines(v@.subrange(i as int, n as int)),
            ),
            done ==> content_sources(content@) == seen,
        decreases (n - i) as int + if done {
            0int
        } else {
            1int
        },
    {
        let j = find_in(&v, '\n', i, n);
        let ghost s = v@.subrange(i as int, n as int);
        let ghost lines = split_lines(s);
        let d = directive_in(&v, i, j);
        let ghost head = match source_directive(v@.subrange(i as int, j as int)) {
            Some(p) => seq![p],
            None => Seq::<Seq<char>>::empty(),
        };
        if j < n {
            assert(s.subrange(0, j - i) =~= v@.subrange(i as int, j as int));
            assert(s.subrange(j - i + 1, s.len() as int) =~= v@.subrange(j + 1, n as int));
            assert(lines =~= seq![v@.subrange(i as int, j as int)] + split_lines(
                v@.subrange(j + 1, n as int),
            ));
            assert(lines.drop_first() =~= split_lines(v@.subrange(j + 1, n as int)));
        } else {
            assert(s =~= v@.subrange(i as int, j as int));
            assert(lines =~= seq![s]);
            assert(lines.drop_first() =~= Seq::<Seq<char>>::empty());
        }
        assert(lines[0] == v@.subrange(i as int, j as int));
        assert(directive_paths(lines) == head + directive_paths(lines.drop_first()));
        let ghost old_seen = seen;
        match d {
            Some(p) => {
                paths.push(p);
                proof {
                    seen = seen.push(p@);
                }
            },
            None => {},
        }
        assert(seen =~= old_seen + head);
        assert(old_seen + (head + directive_paths(lines.drop_first())) =~= seen + directive_paths(
            lines.drop_first(),
        ));
        if j < n {
            i = j + 1;
        } else {
            done = true;
        }
    }
    paths
}

/// The set of files already parsed while following `source` directives.
pub struct SourceVisits {
    visited: Vec<String>,
}

/// One step of the walk: whether `path` is new, and the visited set after
/// it.
pub open spec fn visit_step(visited: Set<Seq<char>>, path: Seq<char>) -> (bool, Set<Seq<char>>) {
    (!visited.contains(path), visited.insert(path))
}

impl View for SourceVisits {
    type V = Set<Seq<char>>;

    closed spec fn view(&self) -> Set<Seq<char>> {
        Set::new(|p: Seq<char>| exists|i: int| 0 <= i < self.visited.len() && self.visited[i]@ == p)
    }
}

impl SourceVisits {
    /// A walk that starts at the file `root`, which counts as visited.
    pub fn new(root: &str) -> (r: SourceVisits)
        ensures
            r@ == Set::<Seq<char>>::empty().insert(root@),
    {
        let mut visited: Vec<String> = Vec::new();
        visited.push(string_of(&chars_of(root), 0, chars_of(root).len()));
        let r = SourceVisits { visited };
        proof {
            assert(r.visited[0]@ =~= root@);
            assert(r@ =~= Set::<Seq<char>>::empty().insert(root@));
        }
        r
    }

    /// Whether `path` was visited already.
    pub fn contains(&self, path: &str) -> (b: bool)
        ensures
            b == self@.contains(path@),
    {
        let mut i: usize = 0;
        while i < self.visited.len()
            invariant
                0 <= i <= self.visited.len(),
                forall|k: int| 0 <= k < i ==> self.visited[k]@ != path@,
            decreases self.visited.len() - i,
        {
            if crate::text::same_text(self.visited[i].as_str(), path) {
                assert(self@.contains(path@));
                return true;
            }
            i = i + 1;
        }
        false
    }

    /// Records a visit of `path`; `true` when it had not been visited, in
    /// which case the caller parses the file, `false` when it had, in which
    /// case the caller skips it.
    pub fn visit(&mut self, path: &str) -> (fresh: bool)
        ensures
            (fresh, final(self)@) == visit_step(old(self)@, path@),
    {
        if self.contains(path) {
            proof {
                assert(self@.insert(path@) =~= self@);
            }
            false
        } else {
            let ghost before = self@;
            let p = string_of(&chars_of(path), 0, chars_of(path).len());
            self.visited.push(p);
            proof {
                assert(self.visited[self.visited.len() - 1]@ =~= path@);
                assert forall|q: Seq<char>| self@.contains(q) == before.insert(path@).contains(q) by {
                    if before.contains(q) {
                        let k = choose|k: int| 0 <= k < old(self).visited.len() && old(self).visited[k]@ == q;
                        assert(self.visited[k]@ == q);
                    }
                }
                assert(self@ =~= before.insert(path@));
            }
            true
        }
    }
}

/// Law (cycle detection): once a file has been visited, visiting it
/// again is refused, whatever else was visited in between; and the
/// visited set only grows.
pub proof fn law_source_parsed_once(visited: Set<Seq<char>>, path: Seq<char>, others: Seq<Seq<char>>)
    ensures
        visited.subset_of(visit_step(visited, path).1),
        !visit_step(visit_all(visit_step(visited, path).1, others), path).0,
    decreases others.len(),
{
    lemma_visit_all_grows(visit_step(visited, path).1, others);
}

/// The visited set after visiting each of `paths` in turn.
pub open spec fn visit_all(visited: Set<Seq<char>>, paths: Seq<Seq<char>>) -> Set<Seq<char>>
    decreases paths.len(),
{
    if paths.len() == 0 {
        visited
    } else {
        visit_all(visit_step(visited, paths[0]).1, paths.drop_first())
    }
}

/// Visiting more paths never forgets a visited one.
pub proof fn lemma_visit_all_grows(visited: Set<Seq<char>>, paths: Seq<Seq<char>>)
    ensures
        visited.subset_of(visit_all(visited, paths)),
    decreases paths.len(),
{
    if paths.len() > 0 {
        lemma_visit_all_grows(visit_step(visited, paths[0]).1, paths.drop_first());
    }
}

} // verus!
