//! Bounded content search over a directory tree, as a worklist machine: the
//! caller pops a path, reports what is there, and the search decides what is
//! scanned, what is pruned and when to stop.
use vstd::prelude::*;
use vstd::string::StringSliceAdditionalSpecFns;
use crate::text::{contains_bytes, contains_seq, lines_of, split_lines};

verus! {

/// Default bound on the number of matches.
pub const DEFAULT_MAX_RESULTS: usize = 30;

/// What `str::to_lowercase` makes of the text with these UTF-8 bytes, as bytes.
pub uninterp spec fn lowercase_of(b: Seq<u8>) -> Seq<u8>;

/// What `str::trim` leaves of the text with these UTF-8 bytes.
pub uninterp spec fn trimmed_of(b: Seq<u8>) -> Seq<char>;

/// Relies on `str::to_lowercase`: the result depends on the text alone.
#[verifier::external_body]
fn lowercase_bytes(b: &[u8]) -> (r: Vec<u8>)
    ensures
        r@ == lowercase_of(b@),
{
    String::from_utf8_lossy(b).to_lowercase().into_bytes()
}

/// Relies on `str::trim`: the result depends on the text alone.
#[verifier::external_body]
fn trimmed_text(b: &[u8]) -> (r: String)
    ensures
        r@ == trimmed_of(b@),
{
    String::from_utf8_lossy(b).trim().to_string()
}

/// Relies on `Path::extension`: the text after the last dot of the final
/// component, or nothing. What a component is depends on the platform's
/// separators, so nothing is stated of the result.
#[verifier::external_body]
pub(crate) fn path_extension(p: &str) -> (r: String) {
    match std::path::Path::new(p).extension() {
        Some(e) => e.to_string_lossy().into_owned(),
        None => String::new(),
    }
}

/// One matching line.
pub struct SearchMatch {
    pub file_path: String,
    /// One-based.
    pub line_number: usize,
    /// The line with surrounding whitespace removed.
    pub content: String,
}

/// A directory entry as listed: its name, and the path to reach it.
pub struct ChildEntry {
    pub name: String,
    pub path: String,
}

/// Entries pruned without descending: hidden names and conventional
/// version-control, dependency and build output directories.
pub open spec fn is_ignored_name(name: Seq<char>) -> bool {
    (name.len() > 0 && name[0] == '.') || name == "node_modules"@ || name == "target"@ || name
        == "__pycache__"@ || name == ".git"@
}

/// Whether an entry name is pruned from the walk.
pub fn is_ignored_entry(name: &String) -> (r: bool)
    ensures
        r == is_ignored_name(name@),
{
    if name.as_str().unicode_len() > 0 && name.as_str().get_char(0) == '.' {
        return true;
    }
    *name == String::from_str("node_modules") || *name == String::from_str("target") || *name
        == String::from_str("__pycache__") || *name == String::from_str(".git")
}

/// Whether a line, compared as the search is configured, contains `query`
/// (already lowercased when the search ignores case).
pub open spec fn line_matches(line: Seq<u8>, query: Seq<u8>, case_sensitive: bool) -> bool {
    if case_sensitive {
        contains_seq(line, query)
    } else {
        contains_seq(lowercase_of(line), query)
    }
}

/// Zero-based indices, in ascending order, of the matching lines among the
/// first `n`.
pub open spec fn matching_indices(
    lines: Seq<Seq<u8>>,
    query: Seq<u8>,
    case_sensitive: bool,
    n: int,
) -> Seq<int>
    decreases n,
{
    if n <= 0 {
        Seq::empty()
    } else if line_matches(lines[n - 1], query, case_sensitive) {
        matching_indices(lines, query, case_sensitive, n - 1).push(n - 1)
    } else {
        matching_indices(lines, query, case_sensitive, n - 1)
    }
}

/// Paths pushed for a directory's entries: those not pruned, last entry
/// first, so that popping visits them in listing order.
pub open spec fn pushed_paths(entries: Seq<ChildEntry>) -> Seq<String>
    decreases entries.len(),
{
    if entries.len() == 0 {
        Seq::empty()
    } else if is_ignored_name(entries[0].name@) {
        pushed_paths(entries.drop_first())
    } else {
        pushed_paths(entries.drop_first()).push(entries[0].path)
    }
}

/// A search in progress.
pub struct ContentSearch {
    /// The text looked for, lowercased when case is ignored.
    pub query: Vec<u8>,
    pub case_sensitive: bool,
    /// Only files with exactly this extension are scanned.
    pub extension: Option<String>,
    pub max_results: usize,
    /// Paths still to visit; the last one is visited next.
    pub pending: Vec<String>,
    pub results: Vec<SearchMatch>,
}

impl ContentSearch {
    /// The bound on matches is respected.
    pub open spec fn wf(&self) -> bool {
        self.results@.len() <= self.max_results
    }

    /// The search is over once the bound is reached.
    pub open spec fn spec_is_full(&self) -> bool {
        self.results@.len() >= self.max_results
    }

    /// A search rooted at `root`.
    pub fn new(
        root: &str,
        query: &str,
        case_sensitive: bool,
        extension: Option<String>,
        max_results: usize,
    ) -> (r: ContentSearch)
        ensures
            r.wf(),
            r.pending@.len() == 1,
            r.pending@[0]@ == root@,
            r.results@.len() == 0,
            r.query@ == (if case_sensitive {
                query.spec_bytes()
            } else {
                lowercase_of(query.spec_bytes())
            }),
            r.case_sensitive == case_sensitive,
            r.extension == extension,
            r.max_results == max_results,
    {
        let q = if case_sensitive {
            let b = query.as_bytes();
            let mut v: Vec<u8> = Vec::new();
            let mut i: usize = 0;
            while i < b.len()
                invariant
                    i <= b@.len(),
                    v@ == b@.subrange(0, i as int),
                decreases b@.len() - i,
            {
                v.push(b[i]);
                assert(b@.subrange(0, i + 1) =~= b@.subrange(0, i as int).push(b@[i as int]));
                i = i + 1;
            }
            assert(b@.subrange(0, b@.len() as int) =~= b@);
            v
        } else {
            lowercase_bytes(query.as_bytes())
        };
        let mut pending: Vec<String> = Vec::new();
        pending.push(root.to_owned());
        ContentSearch {
            query: q,
            case_sensitive,
            extension,
            max_results,
            pending,
            results: Vec::new(),
        }
    }

    /// Whether the bound on matches has been reached.
    pub fn is_full(&self) -> (r: bool)
        ensures
            r == self.spec_is_full(),
    {
        self.results.len() >= self.max_results
    }

    /// The next path to visit, or `None` when the search is over: the bound
    /// is reached or nothing is pending.
    pub fn next_path(&mut self) -> (r: Option<String>)
        requires
            old(self).wf(),
        ensures
            final(self).wf(),
            final(self).results == old(self).results,
            final(self).query == old(self).query,
            final(self).case_sensitive == old(self).case_sensitive,
            final(self).extension == old(self).extension,
            final(self).max_results == old(self).max_results,
            old(self).spec_is_full() || old(self).pending@.len() == 0 ==> r is None
                && final(self).pending == old(self).pending,
            !old(self).spec_is_full() && old(self).pending@.len() > 0 ==> r == Some(
                old(self).pending@.last(),
            ) && final(self).pending@ == old(self).pending@.drop_last(),
    {
        if self.is_full() || self.pending.len() == 0 {
            return None;
        }
        self.pending.pop()
    }

    /// Whether a file with extension `ext` (empty for none) passes the
    /// filter: the extension must equal the filter exactly.
    pub fn wants_extension(&self, ext: &String) -> (r: bool)
        ensures
            r == (match self.extension {
                Some(e) => ext@ == e@,
                None => true,
            }),
    {
        match &self.extension {
            Some(e) => *ext == *e,
            None => true,
        }
    }

    /// Whether the file at `path` passes the extension filter, its extension
    /// taken as the platform's path rules give it.
    pub fn wants_file(&self, path: &str) -> (r: bool)
        ensures
            self.extension is None ==> r,
    {
        self.wants_extension(&path_extension(path))
    }

    /// Queues a directory's entries, in listing order, skipping pruned names.
    pub fn push_children(&mut self, entries: &Vec<ChildEntry>)
        requires
            old(self).wf(),
        ensures
            final(self).wf(),
            final(self).results == old(self).results,
            final(self).query == old(self).query,
            final(self).case_sensitive == old(self).case_sensitive,
            final(self).extension == old(self).extension,
            final(self).max_results == old(self).max_results,
            final(self).pending@ == old(self).pending@ + pushed_paths(entries@),
    {
        let mut i: usize = entries.len();
        while i > 0
            invariant
                i <= entries@.len(),
                self.wf(),
                self.results == old(self).results,
                self.query == old(self).query,
                self.case_sensitive == old(self).case_sensitive,
                self.extension == old(self).extension,
                self.max_results == old(self).max_results,
                self.pending@ == old(self).pending@ + pushed_paths(
                    entries@.subrange(i as int, entries@.len() as int),
                ),
            decreases i,
        {
            i = i - 1;
            let ghost tail = entries@.subrange(i as int, entries@.len() as int);
            assert(tail.drop_first() =~= entries@.subrange(i + 1, entries@.len() as int));
            let e = &entries[i];
            if !is_ignored_entry(&e.name) {
                self.pending.push(e.path.clone());
            }
        }
        assert(entries@.subrange(0, entries@.len() as int) =~= entries@);
    }

    /// Scans the text of the file at `path`, line by line, recording each
    /// matching line until the bound is reached.
    pub fn scan_file(&mut self, path: &str, content: &str)
        requires
            old(self).wf(),
        ensures
            final(self).wf(),
            final(self).pending == old(self).pending,
            final(self).query == old(self).query,
            final(self).case_sensitive == old(self).case_sensitive,
            final(self).extension == old(self).extension,
            final(self).max_results == old(self).max_results,
            ({
                let lines = lines_of(content.spec_bytes());
                let m = matching_indices(
                    lines,
                    old(self).query@,
                    old(self).case_sensitive,
                    lines.len() as int,
                );
                let start = old(self).results@.len();
                let taken = taken_count(old(self).max_results - start, m.len());
                &&& final(self).results@.len() == start + taken
                &&& start + m.len() >= old(self).max_results ==> final(self).results@.len()
                    == old(self).max_results
                &&& forall|k: int|
                    0 <= k < start ==> final(self).results@[k] == old(self).results@[k]
                &&& forall|k: int|
                    start <= k < start + taken ==> records(
                        #[trigger] final(self).results@[k],
                        path@,
                        lines,
                        m[k - start],
                    )
            }),
    {
        let lines = split_lines(content.as_bytes());
        let ghost ls = lines_of(content.spec_bytes());
        let ghost q = self.query@;
        let ghost cs = self.case_sensitive;
        let ghost start = self.results@.len();
        let ghost room: int = self.max_results - start;
        let mut i: usize = 0;
        while i < lines.len() && self.results.len() < self.max_results
            invariant
                lines.deep_view() == ls,
                i <= ls.len(),
                self.wf(),
                q == self.query@,
                cs == self.case_sensitive,
                start == old(self).results@.len(),
                room == old(self).max_results - start,
                self.pending == old(self).pending,
                self.query == old(self).query,
                self.case_sensitive == old(self).case_sensitive,
                self.extension == old(self).extension,
                self.max_results == old(self).max_results,
                self.results@.len() == start + taken_count(
                    room,
                    matching_indices(ls, q, cs, i as int).len(),
                ),
                forall|k: int| 0 <= k < start ==> self.results@[k] == old(self).results@[k],
                forall|k: int|
                    start <= k < self.results@.len() ==> records(
                        #[trigger] self.results@[k],
                        path@,
                        ls,
                        matching_indices(ls, q, cs, i as int)[k - start],
                    ),
            decreases ls.len() - i,
        {
            let line = &lines[i];
            assert(line@ == ls[i as int]);
            let hit = if self.case_sensitive {
                contains_bytes(line.as_slice(), self.query.as_slice())
            } else {
                let lowered = lowercase_bytes(line.as_slice());
                contains_bytes(lowered.as_slice(), self.query.as_slice())
            };
            let ghost before = matching_indices(ls, q, cs, i as int);
            if hit {
                let m = SearchMatch {
                    file_path: path.to_owned(),
                    line_number: i + 1,
                    content: trimmed_text(line.as_slice()),
                };
                self.results.push(m);
            }
            i = i + 1;
            assert(matching_indices(ls, q, cs, i as int) == if hit {
                before.push(i - 1)
            } else {
                before
            });
        }
        proof {
            lemma_matching_prefix(ls, q, cs, i as int, ls.len() as int);
        }
    }
}

/// `r` records line `idx` (zero-based) of the file at `path`.
pub open spec fn records(r: SearchMatch, path: Seq<char>, lines: Seq<Seq<u8>>, idx: int) -> bool {
    &&& r.file_path@ == path
    &&& r.line_number == idx + 1
    &&& r.content@ == trimmed_of(lines[idx])
}

/// How many of `available` matches fit in `room` free places.
pub open spec fn taken_count(room: int, available: nat) -> nat {
    if room <= 0 {
        0
    } else if available <= room {
        available
    } else {
        room as nat
    }
}

/// The matches among the first `i` lines are the first matches among the
/// first `n`.
pub proof fn lemma_matching_prefix(
    lines: Seq<Seq<u8>>,
    query: Seq<u8>,
    case_sensitive: bool,
    i: int,
    n: int,
)
    requires
        0 <= i <= n,
    ensures
        matching_indices(lines, query, case_sensitive, i).len() <= matching_indices(
            lines,
            query,
            case_sensitive,
            n,
        ).len(),
        forall|k: int|
            0 <= k < matching_indices(lines, query, case_sensitive, i).len() ==> matching_indices(
                lines,
                query,
                case_sensitive,
                i,
            )[k] == matching_indices(lines, query, case_sensitive, n)[k],
    decreases n - i,
{
    if i < n {
        lemma_matching_prefix(lines, query, case_sensitive, i, n - 1);
    }
}

/// Entry paths in the order the walk visits them: listing order, pruned
/// names left out.
pub open spec fn visit_order(entries: Seq<ChildEntry>) -> Seq<String>
    decreases entries.len(),
{
    if entries.len() == 0 {
        Seq::empty()
    } else if is_ignored_name(entries[0].name@) {
        visit_order(entries.drop_first())
    } else {
        seq![entries[0].path] + visit_order(entries.drop_first())
    }
}

/// The paths that `push_children` queues, popped one by one from the end,
/// come out in listing order with pruned names left out: the walk is depth
/// first in the order directories are listed.
pub proof fn lemma_children_in_listing_order(entries: Seq<ChildEntry>)
    ensures
        pushed_paths(entries).reverse() == visit_order(entries),
    decreases entries.len(),
{
    if entries.len() > 0 {
        lemma_children_in_listing_order(entries.drop_first());
        let rest = pushed_paths(entries.drop_first());
        if !is_ignored_name(entries[0].name@) {
            assert(rest.push(entries[0].path).reverse() =~= seq![entries[0].path] + rest.reverse());
        }
    } else {
        assert(pushed_paths(entries).reverse() =~= Seq::<String>::empty());
    }
}

} // verus!
