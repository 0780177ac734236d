//! The walk over `source` directives, as a state machine.
//!
//! The walk goes depth first: the directives of a file in order, and for
//! each directive the files its pattern resolves to in order, each parsed
//! and walked before the next. Reading files, resolving glob patterns and
//! parsing are left to the caller: `next` says what to do, and the caller
//! hands back what it found with `read` and `resolved`.
use vstd::prelude::*;
use vstd::string::StringExecFns;

use crate::source::{content_sources, source_directives, SourceVisits};

verus! {

/// What the file system says of one path that a `source` pattern
/// resolved to.
pub struct SourceCandidate {
    /// The path as resolved.
    pub path: String,
    /// Its canonical form, or the path itself when it has none.
    pub canonical: String,
    /// The path names an existing regular file.
    pub is_file: bool,
    /// The directory holding the path, when it has one.
    pub parent: Option<String>,
}

/// Work the walk has still to do.
pub enum WalkItem {
    /// A directive's pattern, to be resolved relative to `dir`.
    Directive { pattern: String, dir: String },
    /// A resolved path, whose own directives resolve relative to `dir`.
    Candidate { path: String, canonical: String, is_file: bool, dir: String },
}

/// A pending item as plain values.
pub enum Pending {
    /// Resolve a pattern (first) relative to a directory (second).
    Resolve(Seq<char>, Seq<char>),
    /// Consider a path, with its canonical form, whether it is a file, and
    /// the directory its directives resolve against.
    Consider(Seq<char>, Seq<char>, bool, Seq<char>),
}

/// The plain values of an item.
pub open spec fn pending_of(item: WalkItem) -> Pending {
    match item {
        WalkItem::Directive { pattern, dir } => Pending::Resolve(pattern@, dir@),
        WalkItem::Candidate { path, canonical, is_file, dir } => Pending::Consider(
            path@,
            canonical@,
            is_file,
            dir@,
        ),
    }
}

/// What the caller does next.
pub enum WalkAction {
    /// Resolve `pattern` relative to `dir`, then call `resolved`.
    Resolve { pattern: String, dir: String },
    /// Parse the file `path` into the configuration, read it, and call
    /// `read` with its content and `dir`.
    Parse { path: String, dir: String },
    /// The file with this canonical path was parsed already; nothing to do.
    Skip { canonical: String },
    /// The path is not an existing file; nothing to do.
    NotAFile,
    /// The walk is over.
    Done,
}

/// The canonical path of a pending file, as a set of at most one element.
pub open spec fn file_of(p: Pending) -> Set<Seq<char>> {
    match p {
        Pending::Consider(_, canonical, true, _) => Set::empty().insert(canonical),
        _ => Set::empty(),
    }
}

/// The canonical paths of the existing files among `ps`.
pub open spec fn files_of(ps: Seq<Pending>) -> Set<Seq<char>>
    decreases ps.len(),
{
    if ps.len() == 0 {
        Set::empty()
    } else {
        files_of(ps.drop_last()).union(file_of(ps.last()))
    }
}

/// The items that `read` adds for the directives `paths` of a file whose
/// directives resolve against `dir`: the first directive last, so that it
/// is taken first.
pub open spec fn directive_items(paths: Seq<Seq<char>>, dir: Seq<char>) -> Seq<Pending> {
    Seq::new(paths.len(), |j: int| Pending::Resolve(paths[paths.len() - 1 - j], dir))
}

/// The item for a resolved candidate of a directive that resolved
/// against `dir`: its own directives resolve against its parent, or
/// against `dir` when it has none.
pub open spec fn candidate_item(c: SourceCandidate, dir: Seq<char>) -> Pending {
    Pending::Consider(
        c.path@,
        c.canonical@,
        c.is_file,
        match c.parent {
            Some(p) => p@,
            None => dir,
        },
    )
}

/// The items that `resolved` adds: the first candidate last, so that it
/// is taken first.
pub open spec fn candidate_items(cs: Seq<SourceCandidate>, dir: Seq<char>) -> Seq<Pending> {
    Seq::new(cs.len(), |j: int| candidate_item(cs[cs.len() - 1 - j], dir))
}

/// Adding an item adds its file.
proof fn lemma_files_of_push(ps: Seq<Pending>, x: Pending)
    ensures
        files_of(ps.push(x)) == files_of(ps).union(file_of(x)),
{
    assert(ps.push(x).drop_last() =~= ps);
}

/// A walk over `source` directives: the files visited, and the work left.
pub struct SourceWalk {
    visits: SourceVisits,
    pending: Vec<WalkItem>,
    dir: String,
    start: Ghost<Set<Seq<char>>>,
    parsed: Ghost<Seq<Seq<char>>>,
    reported: Ghost<Set<Seq<char>>>,
}

impl SourceWalk {
    /// The canonical paths of the files visited so far.
    pub closed spec fn visited(&self) -> Set<Seq<char>> {
        self.visits@
    }

    /// The work left; the last item is taken first.
    pub closed spec fn pending(&self) -> Seq<Pending> {
        self.pending@.map_values(|i: WalkItem| pending_of(i))
    }

    /// The directory of the directive handed out last.
    pub closed spec fn resolving_dir(&self) -> Seq<char> {
        self.dir@
    }

    /// The files visited when the walk began.
    pub closed spec fn start(&self) -> Set<Seq<char>> {
        self.start@
    }

    /// The files handed out for parsing, in order.
    pub closed spec fn parsed(&self) -> Seq<Seq<char>> {
        self.parsed@
    }

    /// Every existing file that a pattern has resolved to so far.
    pub closed spec fn reported(&self) -> Set<Seq<char>> {
        self.reported@
    }

    /// What every walk keeps: the visited files are the starting ones and
    /// the parsed ones; no file is parsed twice, nor one visited at the
    /// start; every pending file was reported, and every reported file is
    /// visited or pending.
    pub closed spec fn wf(&self) -> bool {
        &&& self.visits@ == self.start@.union(self.parsed@.to_set())
        &&& self.parsed@.no_duplicates()
        &&& forall|i: int| 0 <= i < self.parsed@.len() ==> !self.start@.contains(#[trigger] self.parsed@[i])
        &&& files_of(self.pending()).subset_of(self.reported@)
        &&& self.parsed@.to_set().subset_of(self.reported@)
        &&& self.reported@.subset_of(self.visits@.union(files_of(self.pending())))
    }

    /// A walk from the files already visited; nothing is pending until the
    /// first `read`.
    pub fn new(visits: SourceVisits) -> (w: SourceWalk)
        ensures
            w.wf(),
            w.visited() == visits@,
            w.start() == visits@,
            w.parsed() == Seq::<Seq<char>>::empty(),
            w.reported() == Set::<Seq<char>>::empty(),
            w.pending() == Seq::<Pending>::empty(),
    {
        let ghost start = visits@;
        let w = SourceWalk {
            visits,
            pending: Vec::new(),
            dir: String::new(),
            start: Ghost(start),
            parsed: Ghost(Seq::empty()),
            reported: Ghost(Set::empty()),
        };
        proof {
            assert(w.parsed@.to_set() =~= Set::empty());
            assert(w.visits@ =~= w.start@.union(w.parsed@.to_set()));
            assert(w.pending() =~= Seq::<Pending>::empty());
        }
        w
    }

    /// Adds the directives of a file just read, whose content is
    /// `content` and whose directives resolve against `dir`.
    pub fn read(&mut self, content: &str, dir: &str)
        requires
            old(self).wf(),
        ensures
            final(self).wf(),
            final(self).pending() == old(self).pending() + directive_items(
                content_sources(content@),
                dir@,
            ),
            final(self).visited() == old(self).visited(),
            final(self).start() == old(self).start(),
            final(self).parsed() == old(self).parsed(),
            final(self).reported() == old(self).reported(),
            final(self).resolving_dir() == old(self).resolving_dir(),
    {
        let paths = source_directives(content);
        let ghost srcs = content_sources(content@);
        let ghost before = self.pending();
        let n = paths.len();
        let mut i = n;
        assert(paths@.map_values(|p: String| p@) =~= srcs);
        while i > 0
            invariant
                0 <= i <= n,
                n == paths.len(),
                n == srcs.len(),
                forall|k: int| 0 <= k < n ==> #[trigger] paths[k]@ == srcs[k],
                self.wf(),
                self.pending() == before + Seq::new(
                    (n - i) as nat,
                    |j: int| Pending::Resolve(srcs[n - 1 - j], dir@),
                ),
                files_of(self.pending()) == files_of(before),
                self.visited() == old(self).visited(),
                self.start() == old(self).start(),
                self.parsed() == old(self).parsed(),
                self.reported() == old(self).reported(),
                self.resolving_dir() == old(self).resolving_dir(),
            decreases i,
        {
            i = i - 1;
            let ghost ps = self.pending();
            let item = WalkItem::Directive { pattern: paths[i].clone(), dir: String::from_str(dir) };
            self.pending.push(item);
            proof {
                assert(self.pending() =~= ps.push(Pending::Resolve(srcs[i as int], dir@)));
                lemma_files_of_push(ps, Pending::Resolve(srcs[i as int], dir@));
                assert(file_of(Pending::Resolve(srcs[i as int], dir@)) =~= Set::empty());
                assert(files_of(self.pending()) =~= files_of(ps));
                assert(self.pending() =~= before + Seq::new(
                    (n - i) as nat,
                    |j: int| Pending::Resolve(srcs[n - 1 - j], dir@),
                ));
            }
        }
        proof {
            assert(directive_items(srcs, dir@) =~= Seq::new(
                (n - i) as nat,
                |j: int| Pending::Resolve(srcs[n - 1 - j], dir@),
            ));
        }
    }

    /// Takes the next item of work and says what to do with it. A
    /// directive is handed out for resolving; a path that is not an
    /// existing file is passed over; a file already visited is skipped;
    /// any other file is marked visited and handed out for parsing.
    pub fn next(&mut self) -> (a: WalkAction)
        requires
            old(self).wf(),
        ensures
            final(self).wf(),
            final(self).start() == old(self).start(),
            final(self).reported() == old(self).reported(),
            old(self).pending().len() == 0 ==> a is Done && final(self).pending() == old(
                self,
            ).pending(),
            old(self).pending().len() > 0 ==> final(self).pending() == old(
                self,
            ).pending().drop_last(),
            !(a is Parse) ==> final(self).visited() == old(self).visited() && final(self).parsed()
                == old(self).parsed(),
            !(a is Resolve) ==> final(self).resolving_dir() == old(self).resolving_dir(),
            old(self).pending().len() > 0 ==> match old(self).pending().last() {
                Pending::Resolve(pattern, dir) => a matches WalkAction::Resolve { pattern: p, dir: d }
                    && p@ == pattern && d@ == dir && final(self).resolving_dir() == dir,
                Pending::Consider(path, canonical, is_file, dir) => if !is_file {
                    a is NotAFile
                } else if old(self).visited().contains(canonical) {
                    a matches WalkAction::Skip { canonical: c } && c@ == canonical
                } else {
                    &&& a matches WalkAction::Parse { path: p, dir: d } && p@ == path && d@ == dir
                    &&& final(self).visited() == old(self).visited().insert(canonical)
                    &&& final(self).parsed() == old(self).parsed().push(canonical)
                },
            },
    {
        let ghost ps = self.pending();
        if self.pending.len() == 0 {
            return WalkAction::Done;
        } else {
            proof {
                lemma_files_of_push(ps.drop_last(), ps.last());
                assert(ps.drop_last().push(ps.last()) =~= ps);
            }
        }
        let ghost v0 = self.visits@;
        let top = self.pending.pop();
        proof {
            if ps.len() > 0 {
                assert(self.pending() =~= ps.drop_last());
            }
        }
        match top {
            None => WalkAction::Done,
            Some(WalkItem::Directive { pattern, dir }) => {
                self.dir = dir.clone();
                WalkAction::Resolve { pattern, dir }
            },
            Some(WalkItem::Candidate { path, canonical, is_file, dir }) => {
                if !is_file {
                    WalkAction::NotAFile
                } else if self.visits.visit(canonical.as_str()) {
                    let ghost before = self.parsed@;
                    self.parsed = Ghost(self.parsed@.push(canonical@));
                    proof {
                        before.lemma_push_to_set_commute(canonical@);
                        assert(self.parsed@.to_set() =~= before.to_set().insert(canonical@));
                        assert(self.visits@ =~= self.start@.union(self.parsed@.to_set()));
                        assert forall|i: int, j: int|
                            0 <= i < self.parsed@.len() && 0 <= j < self.parsed@.len() && i != j
                            implies self.parsed@[i] != self.parsed@[j] by {
                            if i < before.len() && j < before.len() {
                            } else if i == before.len() {
                                assert(before.to_set().contains(before[j]));
                            } else {
                                assert(before.to_set().contains(before[i]));
                            }
                        }
                    }
                    WalkAction::Parse { path, dir }
                } else {
                    proof {
                        assert(self.visits@ =~= v0);
                    }
                    WalkAction::Skip { canonical }
                }
            },
        }
    }

    /// Adds the paths that the directive handed out last resolved to, in
    /// order; the existing files among them count as reported.
    pub fn resolved(&mut self, candidates: &Vec<SourceCandidate>)
        requires
            old(self).wf(),
        ensures
            final(self).wf(),
            final(self).pending() == old(self).pending() + candidate_items(
                candidates@,
                old(self).resolving_dir(),
            ),
            final(self).reported() == old(self).reported().union(
                files_of(candidate_items(candidates@, old(self).resolving_dir())),
            ),
            final(self).visited() == old(self).visited(),
            final(self).start() == old(self).start(),
            final(self).parsed() == old(self).parsed(),
            final(self).resolving_dir() == old(self).resolving_dir(),
    {
        let ghost before = self.pending();
        let ghost dir = self.dir@;
        let ghost items = candidate_items(candidates@, dir);
        let n = candidates.len();
        let mut i = n;
        while i > 0
            invariant
                0 <= i <= n,
                n == candidates.len(),
                dir == self.dir@,
                items == candidate_items(candidates@, dir),
                self.wf(),
                self.pending() == before + items.subrange(0, (n - i) as int),
                self.reported() == old(self).reported().union(
                    files_of(items.subrange(0, (n - i) as int)),
                ),
                self.visited() == old(self).visited(),
                self.start() == old(self).start(),
                self.parsed() == old(self).parsed(),
            decreases i,
        {
            i = i - 1;
            let c = &candidates[i];
            let d = match &c.parent {
                Some(p) => p.clone(),
                None => self.dir.clone(),
            };
            let item = WalkItem::Candidate {
                path: c.path.clone(),
                canonical: c.canonical.clone(),
                is_file: c.is_file,
                dir: d,
            };
            let ghost ps = self.pending();
            let ghost x = pending_of(item);
            assert(x == items[(n - 1 - i) as int]);
            self.pending.push(item);
            self.reported = Ghost(self.reported@.union(file_of(x)));
            proof {
                assert(self.pending() =~= ps.push(x));
                lemma_files_of_push(ps, x);
                let sub = items.subrange(0, (n - 1 - i) as int);
                assert(items.subrange(0, (n - i) as int) =~= sub.push(x));
                lemma_files_of_push(sub, x);
                assert(self.pending() =~= before + items.subrange(0, (n - i) as int));
                assert(self.reported@ =~= old(self).reported().union(
                    files_of(items.subrange(0, (n - i) as int)),
                ));
            }
        }
        proof {
            assert(items.subrange(0, n as int) =~= items);
        }
    }
}

/// Law (each sourced file is parsed once, and cycles are cut): once no
/// work is left, the visited files are exactly those visited at the start
/// together with every existing file that a `source` pattern resolved to
/// during the walk. Each of those not visited at the start was handed out
/// for parsing exactly once, and none visited at the start was handed out.
pub proof fn law_walk_parses_reachable_once(w: SourceWalk)
    requires
        w.wf(),
        w.pending().len() == 0,
    ensures
        w.visited() == w.start().union(w.reported()),
        w.parsed().to_set() == w.reported().difference(w.start()),
        w.parsed().no_duplicates(),
        forall|i: int| 0 <= i < w.parsed().len() ==> !w.start().contains(#[trigger] w.parsed()[i]),
{
    assert(files_of(w.pending()) =~= Set::empty());
    assert(w.visited() =~= w.start().union(w.reported()));
    assert forall|p: Seq<char>| #[trigger] w.parsed().to_set().contains(p) implies !w.start().contains(p) by {
        let i = choose|i: int| 0 <= i < w.parsed().len() && w.parsed()[i] == p;
        assert(!w.start().contains(w.parsed()[i]));
    }
    assert(w.parsed().to_set() =~= w.reported().difference(w.start()));
}

/// Law (the files of one pattern are taken in glob order): after the
/// candidates `cs` of a directive are added to the pending work, the `j`-th
/// candidate sits `j` places below the top, so `next` (which takes the top
/// first) considers `cs[0]`, then `cs[1]`, and so on, each with its own
/// path, canonical path and kind, resolving its directives in its parent
/// directory (or `dir` when it has none).
pub proof fn law_candidates_taken_in_order(
    pending: Seq<Pending>,
    cs: Seq<SourceCandidate>,
    dir: Seq<char>,
)
    ensures
        (pending + candidate_items(cs, dir)).len() == pending.len() + cs.len(),
        forall|j: int|
            0 <= j < cs.len() ==> (pending + candidate_items(cs, dir))[pending.len() + cs.len() - 1
                - j] == Pending::Consider(
                cs[j].path@,
                cs[j].canonical@,
                cs[j].is_file,
                match cs[j].parent {
                    Some(p) => p@,
                    None => dir,
                },
            ),
{
    assert forall|j: int| 0 <= j < cs.len() implies (pending + candidate_items(cs, dir))[pending.len()
        + cs.len() - 1 - j] == candidate_item(cs[j], dir) by {
        assert(candidate_items(cs, dir)[cs.len() - 1 - j] == candidate_item(cs[j], dir));
    }
}

/// Law (directives are taken in file order): after the directives `paths`
/// of a file are added to the pending work, the `j`-th directive sits `j`
/// places below the top, so `next` hands out `paths[0]` first, then
/// `paths[1]`, and so on, each to be resolved against `dir`.
pub proof fn law_directives_taken_in_order(pending: Seq<Pending>, paths: Seq<Seq<char>>, dir: Seq<char>)
    ensures
        (pending + directive_items(paths, dir)).len() == pending.len() + paths.len(),
        forall|j: int|
            0 <= j < paths.len() ==> (pending + directive_items(paths, dir))[pending.len()
                + paths.len() - 1 - j] == Pending::Resolve(paths[j], dir),
{
}

} // verus!
