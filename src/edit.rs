//! The edit engine: substring mode (exact text, unique unless all are
//! replaced) and line mode (a line number plus the fingerprint the caller saw).
use vstd::prelude::*;
use crate::error::{ToolError, decimal, render_decimal};
use crate::fingerprint::{fingerprint_of, fingerprint_bytes, render_fingerprint};
use crate::text::{
    count_occurrences,
    count_occurrences_exec,
    join_lines,
    join_with_newlines,
    lines_of,
    replace_all,
    replace_all_exec,
    replace_first,
    replace_first_exec,
    split_lines,
};

verus! {

/// Why an edit was refused. Nothing is written in any of these cases.
#[derive(Debug)]
pub enum EditError {
    /// The text to find equals its replacement.
    SameStrings,
    /// The text to find is empty.
    EmptyPattern,
    /// The text to find does not occur in the file.
    NotFound,
    /// The text to find occurs `count` times and replacing all was not asked.
    Ambiguous { count: usize },
    /// The addressed line lies past the last line.
    LineOutOfRange { line_number: u64, line_count: usize },
    /// The addressed line's current fingerprint differs from the caller's.
    FingerprintMismatch { expected: String, actual: String },
}

/// Outcome of substring mode on file bytes `content`.
pub open spec fn substring_edit_outcome(
    content: Seq<u8>,
    old: Seq<u8>,
    new: Seq<u8>,
    all: bool,
) -> Result<Seq<u8>, EditError> {
    if old == new {
        Err(EditError::SameStrings)
    } else if old.len() == 0 {
        Err(EditError::EmptyPattern)
    } else if count_occurrences(content, old) == 0 {
        Err(EditError::NotFound)
    } else if count_occurrences(content, old) > 1 && !all {
        Err(EditError::Ambiguous { count: count_occurrences(content, old) as usize })
    } else if all {
        Ok(replace_all(content, old, new))
    } else {
        Ok(replace_first(content, old, new))
    }
}

/// Zero-based index addressed by a one-based line number (zero addresses the
/// first line as well).
pub open spec fn line_index(line_number: u64) -> int {
    if line_number == 0 {
        0
    } else {
        line_number - 1
    }
}

/// The file after replacing line `idx` by `new_line` and joining all lines
/// with line feeds.
pub open spec fn with_line_replaced(content: Seq<u8>, idx: int, new_line: Seq<u8>) -> Seq<u8> {
    join_lines(lines_of(content).update(idx, new_line))
}

/// An edit result with the new file contents seen as a byte sequence.
pub open spec fn edit_result_view(r: Result<Vec<u8>, EditError>) -> Result<Seq<u8>, EditError> {
    match r {
        Ok(v) => Ok(v@),
        Err(e) => Err(e),
    }
}

/// Outcome of line mode: the line must exist and its current fingerprint
/// must be the expected one; then it is replaced and the lines rejoined.
pub open spec fn line_edit_holds(
    r: Result<Vec<u8>, EditError>,
    content: Seq<u8>,
    line_number: u64,
    expected: Seq<char>,
    new_line: Seq<u8>,
) -> bool {
    let lines = lines_of(content);
    let idx = line_index(line_number);
    if idx >= lines.len() {
        r matches Err(EditError::LineOutOfRange { line_number: n, line_count: c }) && n
            == line_number && c == lines.len()
    } else if fingerprint_of(lines[idx]) != expected {
        r matches Err(EditError::FingerprintMismatch { expected: e, actual: a }) && e@ == expected
            && a@ == fingerprint_of(lines[idx])
    } else {
        r matches Ok(v) && v@ == with_line_replaced(content, idx, new_line)
    }
}

/// Checks the arguments of substring mode that need no file contents.
pub fn check_substring_args(old: &[u8], new: &[u8]) -> (r: Result<(), EditError>)
    ensures
        old@ == new@ ==> r == Err::<(), EditError>(EditError::SameStrings),
        old@ != new@ && old@.len() == 0 ==> r == Err::<(), EditError>(EditError::EmptyPattern),
        old@ != new@ && old@.len() > 0 ==> r is Ok,
{
    if old.len() == new.len() {
        let mut i: usize = 0;
        let mut same = true;
        while i < old.len()
            invariant
                old@.len() == new@.len(),
                i <= old@.len(),
                same == (forall|k: int| 0 <= k < i ==> old@[k] == new@[k]),
            decreases old@.len() - i,
        {
            if old[i] != new[i] {
                same = false;
            }
            i = i + 1;
        }
        if same {
            assert(old@ =~= new@);
            return Err(EditError::SameStrings);
        }
    }
    if old.len() == 0 {
        return Err(EditError::EmptyPattern);
    }
    Ok(())
}

/// Substring mode: replaces the single occurrence of `old` in `content` by
/// `new`, or every occurrence when `all` is set.
pub fn edit_substring(content: &[u8], old: &[u8], new: &[u8], all: bool) -> (r: Result<
    Vec<u8>,
    EditError,
>)
    ensures
        edit_result_view(r) == substring_edit_outcome(content@, old@, new@, all),
{
    match check_substring_args(old, new) {
        Err(e) => {
            return Err(e);
        },
        Ok(()) => {},
    }
    let count = count_occurrences_exec(content, old);
    if count == 0 {
        return Err(EditError::NotFound);
    }
    if count > 1 && !all {
        return Err(EditError::Ambiguous { count });
    }
    if all {
        Ok(replace_all_exec(content, old, new))
    } else {
        Ok(replace_first_exec(content, old, new))
    }
}

/// Line mode: replaces line `line_number` (one-based) of `content` by
/// `new_line`, provided its current fingerprint is `expected`; the lines are
/// then joined with line feeds.
pub fn edit_line(content: &[u8], line_number: u64, expected: &str, new_line: &[u8]) -> (r: Result<
    Vec<u8>,
    EditError,
>)
    ensures
        line_edit_holds(r, content@, line_number, expected@, new_line@),
{
    let mut lines = split_lines(content);
    let idx: usize = if line_number == 0 {
        0
    } else if line_number - 1 >= lines.len() as u64 {
        return Err(EditError::LineOutOfRange { line_number, line_count: lines.len() });
    } else {
        (line_number - 1) as usize
    };
    if idx >= lines.len() {
        return Err(EditError::LineOutOfRange { line_number, line_count: lines.len() });
    }
    let actual = render_fingerprint(fingerprint_bytes(lines[idx].as_slice()));
    assert(lines[idx as int]@ == lines.deep_view()[idx as int]);
    let wanted = expected.to_owned();
    if actual != wanted {
        return Err(EditError::FingerprintMismatch { expected: wanted, actual });
    }
    let mut replacement: Vec<u8> = Vec::new();
    let mut k: usize = 0;
    while k < new_line.len()
        invariant
            k <= new_line@.len(),
            replacement@ == new_line@.subrange(0, k as int),
        decreases new_line@.len() - k,
    {
        replacement.push(new_line[k]);
        assert(new_line@.subrange(0, k + 1) =~= new_line@.subrange(0, k as int).push(
            new_line@[k as int],
        ));
        k = k + 1;
    }
    assert(new_line@.subrange(0, new_line@.len() as int) =~= new_line@);
    let ghost before = lines.deep_view();
    let ghost rv = replacement@;
    assert(replacement.deep_view() =~= rv);
    lines.set(idx, replacement);
    assert(lines.deep_view() =~= before.update(idx as int, new_line@));
    Ok(join_with_newlines(&lines))
}

/// Message text of an edit failure.
pub open spec fn edit_error_message(e: EditError) -> Seq<char> {
    match e {
        EditError::SameStrings => "old_string and new_string must be different"@,
        EditError::EmptyPattern => "old_string must not be empty"@,
        EditError::NotFound => "old_string not found in the file; check indentation and whitespace"@,
        EditError::Ambiguous { count } => "old_string found "@ + decimal(count as nat)
            + " times; add context to make it unique, or set replace_all=true"@,
        EditError::LineOutOfRange { line_number, line_count } => "line "@ + decimal(
            line_number as nat,
        ) + " does not exist (file has "@ + decimal(line_count as nat) + " lines)"@,
        EditError::FingerprintMismatch { expected, actual } => "fingerprint mismatch: expected '"@
            + expected@ + "' but found '"@ + actual@
            + "'; the line changed since it was read"@,
    }
}

impl EditError {
    /// Whether the failure is an argument error rather than a refusal on the
    /// file's current contents.
    pub open spec fn spec_is_invalid_parameters(&self) -> bool {
        self is SameStrings || self is EmptyPattern
    }

    /// The tool error reported for this failure.
    pub fn to_tool_error(&self) -> (r: ToolError)
        ensures
            self.spec_is_invalid_parameters() ==> (r matches ToolError::InvalidParameters(d)
                && d@ == edit_error_message(*self)),
            !self.spec_is_invalid_parameters() ==> (r matches ToolError::ExecutionFailed(d)
                && d@ == edit_error_message(*self)),
    {
        match self {
            EditError::SameStrings => ToolError::InvalidParameters(
                String::from_str("old_string and new_string must be different"),
            ),
            EditError::EmptyPattern => ToolError::InvalidParameters(
                String::from_str("old_string must not be empty"),
            ),
            EditError::NotFound => ToolError::ExecutionFailed(
                String::from_str(
                    "old_string not found in the file; check indentation and whitespace",
                ),
            ),
            EditError::Ambiguous { count } => {
                let mut m = String::from_str("old_string found ");
                m.append(render_decimal(*count as u64).as_str());
                m.append(" times; add context to make it unique, or set replace_all=true");
                ToolError::ExecutionFailed(m)
            },
            EditError::LineOutOfRange { line_number, line_count } => {
                let mut m = String::from_str("line ");
                m.append(render_decimal(*line_number).as_str());
                m.append(" does not exist (file has ");
                m.append(render_decimal(*line_count as u64).as_str());
                m.append(" lines)");
                ToolError::ExecutionFailed(m)
            },
            EditError::FingerprintMismatch { expected, actual } => {
                let mut m = String::from_str("fingerprint mismatch: expected '");
                m.append(expected.as_str());
                m.append("' but found '");
                m.append(actual.as_str());
                m.append("'; the line changed since it was read");
                ToolError::ExecutionFailed(m)
            },
        }
    }
}

/// Substring mode refuses a replacement equal to the text it replaces, as an
/// argument error, whatever the file holds; nothing is produced to write.
pub proof fn lemma_same_strings_rejected(content: Seq<u8>, s: Seq<u8>, all: bool)
    ensures
        substring_edit_outcome(content, s, s, all) == Err::<Seq<u8>, EditError>(
            EditError::SameStrings,
        ),
        EditError::SameStrings.spec_is_invalid_parameters(),
{
}

/// With more than one occurrence and without replacing all, substring mode
/// fails on the file's state, reporting the count; nothing is produced to
/// write.
pub proof fn lemma_ambiguous_rejected(content: Seq<u8>, old: Seq<u8>, new: Seq<u8>)
    requires
        old != new,
        old.len() > 0,
        count_occurrences(content, old) > 1,
    ensures
        substring_edit_outcome(content, old, new, false) == Err::<Seq<u8>, EditError>(
            EditError::Ambiguous { count: count_occurrences(content, old) as usize },
        ),
        !(EditError::Ambiguous { count: count_occurrences(content, old) as usize }).spec_is_invalid_parameters(),
{
}

/// A line edit made with the fingerprint read from an earlier version of the
/// file fails, reporting both fingerprints, once that line has changed to
/// text with another fingerprint.
pub proof fn lemma_stale_line_rejected(
    seen: Seq<u8>,
    now: Seq<u8>,
    line_number: u64,
    new_line: Seq<u8>,
    r: Result<Vec<u8>, EditError>,
)
    requires
        line_index(line_number) < lines_of(seen).len(),
        line_index(line_number) < lines_of(now).len(),
        fingerprint_of(lines_of(now)[line_index(line_number)]) != fingerprint_of(
            lines_of(seen)[line_index(line_number)],
        ),
        line_edit_holds(
            r,
            now,
            line_number,
            fingerprint_of(lines_of(seen)[line_index(line_number)]),
            new_line,
        ),
    ensures
        r matches Err(EditError::FingerprintMismatch { expected: e, actual: a }) && e@
            == fingerprint_of(lines_of(seen)[line_index(line_number)]) && a@ == fingerprint_of(
            lines_of(now)[line_index(line_number)],
        ),
{
}

} // verus!
