//! The tool catalogue: each operation's identity and the decisions it takes
//! on arguments and on the state of the filesystem before touching it.
use vstd::prelude::*;
use vstd::string::StringSliceAdditionalSpecFns;
use vstd::utf8::encode_utf8;
use crate::edit::{EditError, edit_line, edit_substring};
use crate::error::ToolError;
use crate::search::{ContentSearch, DEFAULT_MAX_RESULTS, lowercase_of, path_extension};
use crate::size::{format_size, size_text};
use crate::text::{lines_of, split_lines};

verus! {

/// Files at or above this size get no line count when inspected.
pub const LINE_COUNT_CEILING: u64 = 10000000;

/// What a path names, following symbolic links where the platform does.
#[derive(Clone, Copy, PartialEq, Eq, Structural, Debug)]
pub enum EntryKind {
    File,
    Directory,
    Symlink,
    Other,
}

/// Failure for a precondition on the filesystem, with a message naming `path`.
pub open spec fn failed_with(r: ToolError, before: Seq<char>, path: Seq<char>, after: Seq<char>) -> bool {
    r matches ToolError::ExecutionFailed(d) && d@ == before + path + after
}

fn failure(before: &str, path: &str, after: &str) -> (r: ToolError)
    ensures
        failed_with(r, before@, path@, after@),
{
    let mut m = String::from_str(before);
    m.append(path);
    m.append(after);
    ToolError::ExecutionFailed(m)
}

/// Edits a file by exact text or by a fingerprinted line.
pub struct FileEditTool;

/// Creates a file, refusing to replace one unless asked.
pub struct FileCreateTool;

/// Deletes a file or a directory.
pub struct FileDeleteTool;

/// Moves or renames a file or directory.
pub struct FileMoveTool;

/// Reports metadata of a file or directory.
pub struct FileInfoTool;

/// Creates a directory with all its parents.
pub struct DirectoryCreateTool;

/// Copies a file.
pub struct FileCopyTool;

/// Searches file contents under a directory.
pub struct FileSearchContentTool;

/// A validated edit request.
pub enum EditRequest {
    /// Replace `old_string` (unique unless `replace_all`) by `new_string`.
    Substring { path: String, old_string: String, new_string: String, replace_all: bool },
    /// Replace line `line_number` (one-based), whose fingerprint the caller saw
    /// as `fingerprint`, by `new_string`.
    Line { path: String, line_number: u64, fingerprint: String, new_string: String },
}

impl FileEditTool {
    pub fn name(&self) -> (r: &'static str)
        ensures
            r@ == "file_edit"@,
    {
        "file_edit"
    }

    pub fn description(&self) -> &'static str {
        "Edit a file by replacing an exact string with a new string. Two modes:\n1. str_replace: old_string (exact match) + new_string\n2. Hashline: line_number + hash + new_string (hash from file_read output)\nREQUIRES APPROVAL."
    }

    /// Checks what can be checked before the file is read: in substring mode
    /// the text to find must be non-empty and differ from its replacement.
    pub fn precheck(&self, req: &EditRequest) -> (r: Result<(), ToolError>)
        ensures
            (r is Err) <==> (req matches EditRequest::Substring { old_string, new_string, .. } && (
            old_string@ == new_string@ || old_string@.len() == 0)),
            r matches Err(e) ==> e is InvalidParameters,
    {
        match req {
            EditRequest::Substring { old_string, new_string, .. } => {
                match crate::edit::check_substring_args(
                    old_string.as_str().as_bytes(),
                    new_string.as_str().as_bytes(),
                ) {
                    Ok(()) => {
                        proof {
                            lemma_bytes_eq(old_string@, new_string@);
                        }
                        Ok(())
                    },
                    Err(e) => {
                        proof {
                            lemma_bytes_eq(old_string@, new_string@);
                            lemma_empty_bytes(old_string@);
                        }
                        Err(e.to_tool_error())
                    },
                }
            },
            EditRequest::Line { .. } => Ok(()),
        }
    }

    /// The new file contents for `req`, given the current contents.
    pub fn apply(&self, req: &EditRequest, content: &str) -> (r: Result<Vec<u8>, EditError>)
        ensures
            (match req {
                EditRequest::Substring { old_string, new_string, replace_all, .. } => {
                    crate::edit::edit_result_view(r) == crate::edit::substring_edit_outcome(
                        content.spec_bytes(),
                        encode_utf8(old_string@),
                        encode_utf8(new_string@),
                        *replace_all,
                    )
                },
                EditRequest::Line { line_number, fingerprint, new_string, .. } => {
                    crate::edit::line_edit_holds(
                        r,
                        content.spec_bytes(),
                        *line_number,
                        fingerprint@,
                        encode_utf8(new_string@),
                    )
                },
            }),
    {
        match req {
            EditRequest::Substring { old_string, new_string, replace_all, .. } => {
                edit_substring(
                    content.as_bytes(),
                    old_string.as_str().as_bytes(),
                    new_string.as_str().as_bytes(),
                    *replace_all,
                )
            },
            EditRequest::Line { line_number, fingerprint, new_string, .. } => {
                edit_line(
                    content.as_bytes(),
                    *line_number,
                    fingerprint.as_str(),
                    new_string.as_str().as_bytes(),
                )
            },
        }
    }
}

/// What a delete removes.
#[derive(Clone, Copy, PartialEq, Eq, Structural, Debug)]
pub enum DeleteAction {
    RemoveFile,
    /// Fails, leaving everything in place, if the directory is not empty.
    RemoveEmptyDirectory,
    RemoveDirectoryTree,
}

/// What a directory creation does.
#[derive(Clone, Copy, PartialEq, Eq, Structural, Debug)]
pub enum MkdirAction {
    CreateAll,
    AlreadyExists,
}

/// Sizes reported for a created file.
pub struct CreateSummary {
    pub bytes: usize,
    pub lines: usize,
}

/// Metadata reported by an inspection.
pub struct FileInfo {
    pub kind: EntryKind,
    pub size: u64,
    pub size_human: String,
    pub readonly: bool,
    /// Seconds since the epoch, when the platform gives it.
    pub modified: Option<u64>,
    pub created: Option<u64>,
    /// Empty when the path has none.
    pub extension: String,
    pub line_count: Option<usize>,
}

/// Number of lines of a text, as create and inspect report it.
pub open spec fn line_count_of(text: Seq<u8>) -> nat {
    lines_of(text).len()
}

/// Whether inspection counts lines of an entry of this kind and size.
pub open spec fn spec_counts_lines(kind: EntryKind, size: u64) -> bool {
    kind == EntryKind::File && size < LINE_COUNT_CEILING
}

impl FileCreateTool {
    pub fn name(&self) -> (r: &'static str)
        ensures
            r@ == "file_create"@,
    {
        "file_create"
    }

    pub fn description(&self) -> &'static str {
        "Create a new file with content. Fails if the file already exists. Creates parent directories automatically. REQUIRES APPROVAL."
    }

    /// A file may be created where nothing exists, or over an existing one
    /// when `overwrite` is set.
    pub fn check(&self, path: &str, target_exists: bool, overwrite: bool) -> (r: Result<(), ToolError>)
        ensures
            (r is Ok) <==> (!target_exists || overwrite),
            r matches Err(e) ==> failed_with(
                e,
                "file '"@,
                path@,
                "' already exists; set overwrite=true to replace it, or use file_edit"@,
            ),
    {
        if target_exists && !overwrite {
            return Err(
                failure(
                    "file '",
                    path,
                    "' already exists; set overwrite=true to replace it, or use file_edit",
                ),
            );
        }
        Ok(())
    }

    /// Byte and line counts of the content written.
    pub fn summary(&self, content: &str) -> (r: CreateSummary)
        ensures
            r.bytes == content.spec_bytes().len(),
            r.lines == line_count_of(content.spec_bytes()),
    {
        let b = content.as_bytes();
        let lines = split_lines(b);
        CreateSummary { bytes: b.len(), lines: lines.len() }
    }
}

impl FileDeleteTool {
    pub fn name(&self) -> (r: &'static str)
        ensures
            r@ == "file_delete"@,
    {
        "file_delete"
    }

    pub fn description(&self) -> &'static str {
        "Delete a file or empty directory. For safety, cannot delete non-empty directories unless recursive=true. REQUIRES APPROVAL."
    }

    /// What to remove at `path`, whose kind is `kind` (`None`: nothing there).
    /// A directory tree is removed only when `recursive` is set.
    pub fn plan(&self, path: &str, kind: Option<EntryKind>, recursive: bool) -> (r: Result<
        DeleteAction,
        ToolError,
    >)
        ensures
            kind is None ==> (r matches Err(e) && failed_with(e, "path '"@, path@, "' does not exist"@)),
            kind == Some(EntryKind::File) ==> r == Ok::<DeleteAction, ToolError>(DeleteAction::RemoveFile),
            kind == Some(EntryKind::Directory) && recursive ==> r == Ok::<DeleteAction, ToolError>(
                DeleteAction::RemoveDirectoryTree,
            ),
            kind == Some(EntryKind::Directory) && !recursive ==> r == Ok::<DeleteAction, ToolError>(
                DeleteAction::RemoveEmptyDirectory,
            ),
            kind == Some(EntryKind::Symlink) || kind == Some(EntryKind::Other) ==> (r matches Err(e)
                && failed_with(e, "unsupported path type: "@, path@, ""@)),
    {
        proof {
            reveal_strlit("");
        }
        match kind {
            None => Err(failure("path '", path, "' does not exist")),
            Some(EntryKind::File) => Ok(DeleteAction::RemoveFile),
            Some(EntryKind::Directory) => {
                if recursive {
                    Ok(DeleteAction::RemoveDirectoryTree)
                } else {
                    Ok(DeleteAction::RemoveEmptyDirectory)
                }
            },
            Some(_) => Err(failure("unsupported path type: ", path, "")),
        }
    }
}

impl FileMoveTool {
    pub fn name(&self) -> (r: &'static str)
        ensures
            r@ == "file_move"@,
    {
        "file_move"
    }

    pub fn description(&self) -> &'static str {
        "Move or rename a file or directory. Creates parent directories for destination automatically. REQUIRES APPROVAL."
    }

    /// The source must exist and the destination must not.
    pub fn check(
        &self,
        source: &str,
        destination: &str,
        source_exists: bool,
        destination_exists: bool,
    ) -> (r: Result<(), ToolError>)
        ensures
            (r is Ok) <==> (source_exists && !destination_exists),
            !source_exists ==> (r matches Err(e) && failed_with(e, "source '"@, source@, "' does not exist"@)),
            source_exists && destination_exists ==> (r matches Err(e) && failed_with(
                e,
                "destination '"@,
                destination@,
                "' already exists"@,
            )),
    {
        if !source_exists {
            return Err(failure("source '", source, "' does not exist"));
        }
        if destination_exists {
            return Err(failure("destination '", destination, "' already exists"));
        }
        Ok(())
    }
}

impl FileCopyTool {
    pub fn name(&self) -> (r: &'static str)
        ensures
            r@ == "file_copy"@,
    {
        "file_copy"
    }

    pub fn description(&self) -> &'static str {
        "Copy a file to a new location. Creates parent directories automatically. REQUIRES APPROVAL."
    }

    /// The source must exist.
    pub fn check(&self, source: &str, source_exists: bool) -> (r: Result<(), ToolError>)
        ensures
            (r is Ok) <==> source_exists,
            r matches Err(e) ==> failed_with(e, "source '"@, source@, "' does not exist"@),
    {
        if !source_exists {
            return Err(failure("source '", source, "' does not exist"));
        }
        Ok(())
    }
}

impl DirectoryCreateTool {
    pub fn name(&self) -> (r: &'static str)
        ensures
            r@ == "directory_create"@,
    {
        "directory_create"
    }

    pub fn description(&self) -> &'static str {
        "Create a directory and all parent directories if they don't exist (like mkdir -p). REQUIRES APPROVAL."
    }

    /// Creates where nothing exists, succeeds without change on an existing
    /// directory, and fails on anything else.
    pub fn plan(&self, path: &str, kind: Option<EntryKind>) -> (r: Result<MkdirAction, ToolError>)
        ensures
            kind is None ==> r == Ok::<MkdirAction, ToolError>(MkdirAction::CreateAll),
            kind == Some(EntryKind::Directory) ==> r == Ok::<MkdirAction, ToolError>(
                MkdirAction::AlreadyExists,
            ),
            kind is Some && kind != Some(EntryKind::Directory) ==> (r matches Err(e) && failed_with(
                e,
                "a file already exists at this path: "@,
                path@,
                ""@,
            )),
    {
        proof {
            reveal_strlit("");
        }
        match kind {
            None => Ok(MkdirAction::CreateAll),
            Some(EntryKind::Directory) => Ok(MkdirAction::AlreadyExists),
            Some(_) => Err(failure("a file already exists at this path: ", path, "")),
        }
    }
}

impl FileInfoTool {
    pub fn name(&self) -> (r: &'static str)
        ensures
            r@ == "file_info"@,
    {
        "file_info"
    }

    pub fn description(&self) -> &'static str {
        "Get detailed information about a file or directory (size, permissions, timestamps, type)."
    }

    /// Whether the text of an entry is read to count its lines: files under
    /// the size ceiling only.
    pub fn counts_lines(&self, kind: EntryKind, size: u64) -> (r: bool)
        ensures
            r == spec_counts_lines(kind, size),
    {
        kind == EntryKind::File && size < LINE_COUNT_CEILING
    }

    /// The report for `path`; `text` is its contents when they were read and
    /// decoded.
    pub fn inspect(
        &self,
        path: &str,
        kind: EntryKind,
        size: u64,
        readonly: bool,
        modified: Option<u64>,
        created: Option<u64>,
        text: Option<&str>,
    ) -> (r: FileInfo)
        ensures
            r.kind == kind,
            r.size == size,
            r.size_human@ == size_text(size as nat),
            r.readonly == readonly,
            r.modified == modified,
            r.created == created,
            r.line_count == (match text {
                Some(t) => if spec_counts_lines(kind, size) {
                    Some(line_count_of(t.spec_bytes()) as usize)
                } else {
                    None
                },
                None => None::<usize>,
            }),
    {
        let line_count = match text {
            Some(t) => if self.counts_lines(kind, size) {
                Some(split_lines(t.as_bytes()).len())
            } else {
                None
            },
            None => None,
        };
        FileInfo {
            kind,
            size,
            size_human: format_size(size),
            readonly,
            modified,
            created,
            extension: path_extension(path),
            line_count,
        }
    }
}

impl FileSearchContentTool {
    pub fn name(&self) -> (r: &'static str)
        ensures
            r@ == "file_search"@,
    {
        "file_search"
    }

    pub fn description(&self) -> &'static str {
        "Search for text content across files in a directory. Returns matching files with line numbers and context."
    }

    /// Starts a search for `query` under `root` (default `.`), case-insensitive
    /// unless asked, keeping at most `max_results` matches (default 30).
    pub fn start(
        &self,
        root: Option<&str>,
        query: &str,
        case_sensitive: Option<bool>,
        extension: Option<String>,
        max_results: Option<usize>,
    ) -> (r: ContentSearch)
        ensures
            r.wf(),
            r.results@.len() == 0,
            r.pending@.len() == 1,
            r.pending@[0]@ == (match root {
                Some(p) => p@,
                None => "."@,
            }),
            r.case_sensitive == (case_sensitive == Some(true)),
            r.query@ == (if case_sensitive == Some(true) {
                query.spec_bytes()
            } else {
                lowercase_of(query.spec_bytes())
            }),
            r.extension == extension,
            r.max_results == (match max_results {
                Some(m) => m,
                None => DEFAULT_MAX_RESULTS,
            }),
    {
        let cs = match case_sensitive {
            Some(b) => b,
            None => false,
        };
        let max = match max_results {
            Some(m) => m,
            None => DEFAULT_MAX_RESULTS,
        };
        let root = match root {
            Some(p) => p,
            None => ".",
        };
        ContentSearch::new(root, query, cs, extension, max)
    }
}

/// Two texts are equal exactly when their UTF-8 encodings are.
pub proof fn lemma_bytes_eq(a: Seq<char>, b: Seq<char>)
    ensures
        (vstd::utf8::encode_utf8(a) == vstd::utf8::encode_utf8(b)) == (a == b),
{
    if vstd::utf8::encode_utf8(a) == vstd::utf8::encode_utf8(b) {
        vstd::utf8::encode_utf8_decode_utf8(a);
        vstd::utf8::encode_utf8_decode_utf8(b);
    }
}

/// Only the empty text has no bytes.
pub proof fn lemma_empty_bytes(a: Seq<char>)
    ensures
        (vstd::utf8::encode_utf8(a).len() == 0) == (a.len() == 0),
{
    vstd::utf8::encode_utf8_decode_utf8(a);
    if a.len() == 0 {
        assert(vstd::utf8::encode_utf8(a) =~= Seq::empty());
    } else if vstd::utf8::encode_utf8(a).len() == 0 {
        assert(vstd::utf8::encode_utf8(a) =~= Seq::empty());
        assert(vstd::utf8::decode_utf8(Seq::empty()) =~= Seq::<char>::empty());
    }
}

/// Creating a file with content `c` and then inspecting it reports, for the
/// bytes written, a size equal to their number and, below the size ceiling,
/// the same line count as the creation did: the number of newline-delimited
/// segments.
pub proof fn lemma_create_then_inspect(c: Seq<u8>)
    requires
        c.len() < LINE_COUNT_CEILING,
    ensures
        spec_counts_lines(EntryKind::File, c.len() as u64),
        line_count_of(c) == crate::text::newline_segments(c),
{
    crate::text::lemma_line_count(c);
}

} // verus!
