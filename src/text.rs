//! Byte-level text operations behind the edit engine and the search:
//! non-overlapping occurrence counting, replacement, line splitting and
//! joining.
use vstd::prelude::*;

verus! {

/// Byte value of a line feed.
pub const LF: u8 = 10;

/// Byte value of a carriage return.
pub const CR: u8 = 13;

/// `p` occurs in `s` starting at offset `i`.
pub open spec fn occurs_at(s: Seq<u8>, p: Seq<u8>, i: int) -> bool {
    0 <= i && i + p.len() <= s.len() && s.subrange(i, i + p.len()) == p
}

/// `p` occurs somewhere in `s`.
pub open spec fn contains_seq(s: Seq<u8>, p: Seq<u8>) -> bool {
    exists|i: int| occurs_at(s, p, i)
}

/// Number of non-overlapping occurrences of a non-empty `p` in `s` at or after
/// offset `i`, taken leftmost first.
pub open spec fn count_from(s: Seq<u8>, p: Seq<u8>, i: int) -> nat
    decreases s.len() - i,
{
    if p.len() == 0 || i < 0 || i + p.len() > s.len() {
        0
    } else if occurs_at(s, p, i) {
        1 + count_from(s, p, i + p.len())
    } else {
        count_from(s, p, i + 1)
    }
}

/// Number of non-overlapping occurrences of `p` in `s`.
pub open spec fn count_occurrences(s: Seq<u8>, p: Seq<u8>) -> nat {
    count_from(s, p, 0)
}

/// Offset of the first occurrence of a non-empty `p` at or after `i`.
pub open spec fn first_from(s: Seq<u8>, p: Seq<u8>, i: int) -> Option<int>
    decreases s.len() - i,
{
    if p.len() == 0 || i < 0 || i + p.len() > s.len() {
        None
    } else if occurs_at(s, p, i) {
        Some(i)
    } else {
        first_from(s, p, i + 1)
    }
}

/// `s` from offset `i` on, with every non-overlapping occurrence of `p`
/// replaced by `r`.
pub open spec fn replace_all_from(s: Seq<u8>, p: Seq<u8>, r: Seq<u8>, i: int) -> Seq<u8>
    decreases s.len() - i,
{
    if i < 0 || i >= s.len() {
        Seq::empty()
    } else if p.len() > 0 && occurs_at(s, p, i) {
        r + replace_all_from(s, p, r, i + p.len())
    } else {
        seq![s[i]] + replace_all_from(s, p, r, i + 1)
    }
}

/// `s` with every non-overlapping occurrence of `p` replaced by `r`.
pub open spec fn replace_all(s: Seq<u8>, p: Seq<u8>, r: Seq<u8>) -> Seq<u8> {
    replace_all_from(s, p, r, 0)
}

/// `s` with its first occurrence of `p` replaced by `r` (unchanged if none).
pub open spec fn replace_first(s: Seq<u8>, p: Seq<u8>, r: Seq<u8>) -> Seq<u8> {
    match first_from(s, p, 0) {
        Some(j) => s.subrange(0, j) + r + s.subrange(j + p.len(), s.len() as int),
        None => s,
    }
}

/// A line's text without the carriage return that ended it.
pub open spec fn strip_cr(l: Seq<u8>) -> Seq<u8> {
    if l.len() > 0 && l.last() == CR {
        l.drop_last()
    } else {
        l
    }
}

/// Lines of `s` for a scan at offset `k` whose current line began at `start`:
/// a line ends at each line feed, which is removed together with a carriage
/// return right before it; a final line without a line feed is kept as it is,
/// and no empty line follows a final line feed.
pub open spec fn lines_scan(s: Seq<u8>, start: int, k: int) -> Seq<Seq<u8>>
    decreases s.len() - k,
{
    if k < 0 || k >= s.len() {
        if 0 <= start < s.len() {
            seq![s.subrange(start, s.len() as int)]
        } else {
            Seq::empty()
        }
    } else if s[k] == LF {
        seq![strip_cr(s.subrange(start, k))] + lines_scan(s, k + 1, k + 1)
    } else {
        lines_scan(s, start, k + 1)
    }
}

/// Lines of `s`.
pub open spec fn lines_of(s: Seq<u8>) -> Seq<Seq<u8>> {
    lines_scan(s, 0, 0)
}

/// The lines joined with a single line feed between each two.
pub open spec fn join_lines(ls: Seq<Seq<u8>>) -> Seq<u8>
    decreases ls.len(),
{
    if ls.len() == 0 {
        Seq::empty()
    } else if ls.len() == 1 {
        ls[0]
    } else {
        join_lines(ls.drop_last()) + seq![LF] + ls.last()
    }
}

/// Whether `p` occurs in `s` at offset `i`.
pub fn occurs_at_exec(s: &[u8], p: &[u8], i: usize) -> (r: bool)
    ensures
        r == occurs_at(s@, p@, i as int),
{
    if i > s.len() || p.len() > s.len() - i {
        return false;
    }
    let n = s.len();
    let mut k: usize = 0;
    while k < p.len()
        invariant
            n == s@.len(),
            i <= s@.len(),
            i + p@.len() <= s@.len(),
            k <= p@.len(),
            forall|m: int| 0 <= m < k ==> s@[i + m] == p@[m],
        decreases p@.len() - k,
    {
        if s[i + k] != p[k] {
            assert(s@.subrange(i as int, i + p@.len())[k as int] != p@[k as int]);
            return false;
        }
        k = k + 1;
    }
    assert(s@.subrange(i as int, i + p@.len()) =~= p@);
    true
}

/// Whether `p` occurs anywhere in `s`.
pub fn contains_bytes(s: &[u8], p: &[u8]) -> (r: bool)
    ensures
        r == contains_seq(s@, p@),
{
    if p.len() == 0 {
        assert(s@.subrange(0, 0) =~= p@);
        assert(occurs_at(s@, p@, 0));
        return true;
    }
    let mut i: usize = 0;
    while i < s.len()
        invariant
            i <= s@.len(),
            p@.len() > 0,
            forall|m: int| 0 <= m < i ==> !occurs_at(s@, p@, m),
        decreases s@.len() - i,
    {
        if occurs_at_exec(s, p, i) {
            return true;
        }
        i = i + 1;
    }
    assert forall|m: int| !occurs_at(s@, p@, m) by {
        if 0 <= m < i {
        } else if m >= i {
            assert(m + p@.len() > s@.len());
        }
    }
    false
}

/// Number of non-overlapping occurrences of a non-empty `p` in `s`.
pub fn count_occurrences_exec(s: &[u8], p: &[u8]) -> (r: usize)
    requires
        p@.len() > 0,
    ensures
        r == count_occurrences(s@, p@),
{
    let mut c: usize = 0;
    let mut i: usize = 0;
    while i < s.len()
        invariant
            p@.len() > 0,
            i <= s@.len(),
            c <= i,
            count_occurrences(s@, p@) == c + count_from(s@, p@, i as int),
        decreases s@.len() - i,
    {
        if occurs_at_exec(s, p, i) {
            c = c + 1;
            i = i + p.len();
        } else {
            i = i + 1;
        }
    }
    c
}

/// Offset of the first occurrence of a non-empty `p` in `s`.
pub fn find_first(s: &[u8], p: &[u8]) -> (r: Option<usize>)
    requires
        p@.len() > 0,
    ensures
        r matches Some(j) ==> first_from(s@, p@, 0) == Some(j as int) && occurs_at(
            s@,
            p@,
            j as int,
        ),
        r is None ==> first_from(s@, p@, 0) is None,
{
    let mut i: usize = 0;
    while i < s.len()
        invariant
            p@.len() > 0,
            i <= s@.len(),
            first_from(s@, p@, 0) == first_from(s@, p@, i as int),
        decreases s@.len() - i,
    {
        if occurs_at_exec(s, p, i) {
            return Some(i);
        }
        i = i + 1;
    }
    None
}

/// Copies `s[from..to]` onto the end of `out`.
fn extend_range(out: &mut Vec<u8>, s: &[u8], from: usize, to: usize)
    requires
        from <= to <= s@.len(),
    ensures
        final(out)@ == old(out)@ + s@.subrange(from as int, to as int),
{
    let mut k: usize = from;
    while k < to
        invariant
            from <= k <= to <= s@.len(),
            out@ == old(out)@ + s@.subrange(from as int, k as int),
        decreases to - k,
    {
        out.push(s[k]);
        assert(s@.subrange(from as int, k + 1) =~= s@.subrange(from as int, k as int).push(
            s@[k as int],
        ));
        k = k + 1;
    }
}

/// `s` with every non-overlapping occurrence of a non-empty `p` replaced by `r`.
pub fn replace_all_exec(s: &[u8], p: &[u8], r: &[u8]) -> (out: Vec<u8>)
    requires
        p@.len() > 0,
    ensures
        out@ == replace_all(s@, p@, r@),
{
    let mut out: Vec<u8> = Vec::new();
    let mut i: usize = 0;
    while i < s.len()
        invariant
            p@.len() > 0,
            i <= s@.len(),
            replace_all(s@, p@, r@) == out@ + replace_all_from(s@, p@, r@, i as int),
        decreases s@.len() - i,
    {
        if occurs_at_exec(s, p, i) {
            let ghost prev = out@;
            extend_range(&mut out, r, 0, r.len());
            assert(r@.subrange(0, r@.len() as int) =~= r@);
            assert(prev + (r@ + replace_all_from(s@, p@, r@, i + p@.len())) =~= out@
                + replace_all_from(s@, p@, r@, i + p@.len()));
            i = i + p.len();
        } else {
            let ghost prev = out@;
            out.push(s[i]);
            assert(prev + (seq![s@[i as int]] + replace_all_from(s@, p@, r@, i + 1)) =~= out@
                + replace_all_from(s@, p@, r@, i + 1));
            i = i + 1;
        }
    }
    out
}

/// `s` with the first occurrence of a non-empty `p` replaced by `r`.
pub fn replace_first_exec(s: &[u8], p: &[u8], r: &[u8]) -> (out: Vec<u8>)
    requires
        p@.len() > 0,
    ensures
        out@ == replace_first(s@, p@, r@),
{
    let mut out: Vec<u8> = Vec::new();
    match find_first(s, p) {
        Some(j) => {
            let n = s.len();
            assert(j + p@.len() <= n);
            extend_range(&mut out, s, 0, j);
            extend_range(&mut out, r, 0, r.len());
            extend_range(&mut out, s, j + p.len(), s.len());
            assert(r@.subrange(0, r@.len() as int) =~= r@);
        },
        None => {
            extend_range(&mut out, s, 0, s.len());
            assert(s@.subrange(0, s@.len() as int) =~= s@);
        },
    }
    out
}

/// Splits `s` into its lines (see `lines_of`).
pub fn split_lines(s: &[u8]) -> (out: Vec<Vec<u8>>)
    ensures
        out.deep_view() == lines_of(s@),
{
    let mut out: Vec<Vec<u8>> = Vec::new();
    let mut start: usize = 0;
    let mut k: usize = 0;
    while k < s.len()
        invariant
            start <= k <= s@.len(),
            lines_of(s@) == out.deep_view() + lines_scan(s@, start as int, k as int),
        decreases s@.len() - k,
    {
        if s[k] == LF {
            let mut line: Vec<u8> = Vec::new();
            if k > start && s[k - 1] == CR {
                extend_range(&mut line, s, start, k - 1);
                assert(line@ =~= strip_cr(s@.subrange(start as int, k as int)));
            } else {
                extend_range(&mut line, s, start, k);
                assert(line@ =~= strip_cr(s@.subrange(start as int, k as int)));
            }
            let ghost prev = out.deep_view();
            let ghost lv = line@;
            assert(line.deep_view() =~= lv);
            out.push(line);
            assert(out.deep_view() =~= prev.push(lv));
            assert(prev + lines_scan(s@, start as int, k as int) =~= out.deep_view()
                + lines_scan(s@, k + 1, k + 1));
            start = k + 1;
        }
        k = k + 1;
    }
    if start < s.len() {
        let mut line: Vec<u8> = Vec::new();
        extend_range(&mut line, s, start, s.len());
        let ghost prev = out.deep_view();
        let ghost lv = line@;
        assert(line.deep_view() =~= lv);
        out.push(line);
        assert(out.deep_view() =~= prev.push(lv));
        assert(prev + lines_scan(s@, start as int, k as int) =~= out.deep_view());
    } else {
        assert(out.deep_view() + lines_scan(s@, start as int, k as int) =~= out.deep_view());
    }
    out
}

/// Joins `ls` with a single line feed between each two lines.
pub fn join_with_newlines(ls: &Vec<Vec<u8>>) -> (out: Vec<u8>)
    ensures
        out@ == join_lines(ls.deep_view()),
{
    let mut out: Vec<u8> = Vec::new();
    let mut i: usize = 0;
    while i < ls.len()
        invariant
            i <= ls@.len(),
            out@ == join_lines(ls.deep_view().subrange(0, i as int)),
        decreases ls@.len() - i,
    {
        let ghost before = ls.deep_view().subrange(0, i as int);
        let ghost after = ls.deep_view().subrange(0, i + 1);
        assert(after.drop_last() =~= before);
        if i > 0 {
            out.push(LF);
        }
        let line = &ls[i];
        extend_range(&mut out, line.as_slice(), 0, line.len());
        assert(line@.subrange(0, line@.len() as int) =~= line@);
        if i == 0 {
            assert(out@ =~= join_lines(after));
        } else {
            assert(out@ =~= join_lines(after));
        }
        i = i + 1;
    }
    assert(ls.deep_view().subrange(0, ls@.len() as int) =~= ls.deep_view());
    out
}

/// Number of line feeds in `s` at or after offset `k`.
pub open spec fn count_lf_from(s: Seq<u8>, k: int) -> nat
    decreases s.len() - k,
{
    if k < 0 || k >= s.len() {
        0
    } else if s[k] == LF {
        1 + count_lf_from(s, k + 1)
    } else {
        count_lf_from(s, k + 1)
    }
}

/// Number of newline-delimited segments of `s`: one per line feed, plus an
/// unterminated last one.
pub open spec fn newline_segments(s: Seq<u8>) -> nat {
    count_lf_from(s, 0) + if s.len() > 0 && s.last() != LF {
        1nat
    } else {
        0nat
    }
}

proof fn lemma_scan_count(s: Seq<u8>, start: int, k: int)
    requires
        0 <= start <= k <= s.len(),
        forall|m: int| start <= m < k ==> s[m] != LF,
        start == 0 || s[start - 1] == LF,
    ensures
        lines_scan(s, start, k).len() == newline_segments(s) - count_lf_from(s, 0) + count_lf_from(s, k),
    decreases s.len() - k,
{
    if k < s.len() {
        if s[k] == LF {
            lemma_scan_count(s, k + 1, k + 1);
        } else {
            lemma_scan_count(s, start, k + 1);
        }
    } else {
        if start < s.len() {
            assert(s[s.len() - 1] != LF);
        }
    }
}

/// The number of lines is the number of newline-delimited segments.
pub proof fn lemma_line_count(s: Seq<u8>)
    ensures
        lines_of(s).len() == newline_segments(s),
{
    lemma_scan_count(s, 0, 0);
}

} // verus!
