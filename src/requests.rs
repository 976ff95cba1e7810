//! Typed requests: each operation's argument bundle is validated once into a
//! request value before anything is executed.
use vstd::prelude::*;
use crate::error::ToolError;
use crate::tools::{
    DirectoryCreateTool,
    EditRequest,
    FileCopyTool,
    FileCreateTool,
    FileDeleteTool,
    FileEditTool,
    FileInfoTool,
    FileMoveTool,
    FileSearchContentTool,
};

verus! {

#[verifier::external_type_specification]
#[verifier::external_body]
pub struct ExValue(serde_json::Value);

pub assume_specification[ serde_json::Value::as_str ](v: &serde_json::Value) -> Option<&str>;

pub assume_specification[ serde_json::Value::as_bool ](v: &serde_json::Value) -> Option<bool>;

pub assume_specification[ serde_json::Value::as_u64 ](v: &serde_json::Value) -> Option<u64>;

/// Relies on `serde_json::Value::get`: the member named `key` of an object.
#[verifier::external_body]
fn member<'a>(v: &'a serde_json::Value, key: &str) -> (r: Option<&'a serde_json::Value>) {
    v.get(key)
}

/// The string member `key`, if present and a string.
fn str_member(v: &serde_json::Value, key: &str) -> Option<String> {
    match member(v, key) {
        Some(x) => match x.as_str() {
            Some(s) => Some(s.to_owned()),
            None => None,
        },
        None => None,
    }
}

/// The boolean member `key`, if present and a boolean.
fn bool_member(v: &serde_json::Value, key: &str) -> Option<bool> {
    match member(v, key) {
        Some(x) => x.as_bool(),
        None => None,
    }
}

/// The unsigned integer member `key`, if present and one.
fn u64_member(v: &serde_json::Value, key: &str) -> Option<u64> {
    match member(v, key) {
        Some(x) => x.as_u64(),
        None => None,
    }
}

/// Whether `v` has a member `key`, whatever its value.
fn has_member(v: &serde_json::Value, key: &str) -> bool {
    member(v, key).is_some()
}

/// `r` is an argument error with message `msg`.
pub open spec fn invalid_with<T>(r: Result<T, ToolError>, msg: Seq<char>) -> bool {
    r matches Err(ToolError::InvalidParameters(d)) && d@ == msg
}

fn invalid<T>(msg: &str) -> (r: Result<T, ToolError>)
    ensures
        invalid_with(r, msg@),
{
    Err(ToolError::InvalidParameters(String::from_str(msg)))
}

/// `r` is an argument error of either kind's shape: only argument errors
/// come out of validation.
pub open spec fn only_invalid<T>(r: Result<T, ToolError>) -> bool {
    r matches Err(e) ==> e is InvalidParameters
}

/// The members an edit reads.
pub struct EditFields {
    pub path: Option<String>,
    pub new_string: Option<String>,
    pub has_line_number: bool,
    pub has_hash: bool,
    pub line_number: Option<u64>,
    pub hash: Option<String>,
    pub old_string: Option<String>,
    pub replace_all: Option<bool>,
}

/// Arguments of a create.
pub struct CreateRequest {
    pub path: String,
    pub content: String,
    pub overwrite: bool,
}

/// Arguments of a delete.
pub struct DeleteRequest {
    pub path: String,
    pub recursive: bool,
}

/// Arguments of a move or a copy.
pub struct TransferRequest {
    pub source: String,
    pub destination: String,
}

/// Arguments of a search.
pub struct SearchRequest {
    pub query: String,
    pub root: Option<String>,
    pub extension: Option<String>,
    pub case_sensitive: Option<bool>,
    pub max_results: Option<u64>,
}

impl FileEditTool {
    /// Line mode is chosen when both a line number and a fingerprint are
    /// given (whatever their values); otherwise substring mode, which needs
    /// the text to find.
    pub fn request_from(&self, f: EditFields) -> (r: Result<EditRequest, ToolError>)
        ensures
            f.path is None ==> invalid_with(r, "path is required"@),
            f.path is Some && f.new_string is None ==> invalid_with(r, "new_string is required"@),
            ({
                let line_mode = f.has_line_number && f.has_hash;
                f.path is Some && f.new_string is Some ==> if line_mode {
                    if f.line_number is None {
                        invalid_with(r, "line_number must be a number"@)
                    } else if f.hash is None {
                        invalid_with(r, "hash must be a string"@)
                    } else {
                        r == Ok::<EditRequest, ToolError>(
                            EditRequest::Line {
                                path: f.path.unwrap(),
                                line_number: f.line_number.unwrap(),
                                fingerprint: f.hash.unwrap(),
                                new_string: f.new_string.unwrap(),
                            },
                        )
                    }
                } else if f.old_string is None {
                    invalid_with(r, "old_string is required (or give line_number and hash)"@)
                } else {
                    r == Ok::<EditRequest, ToolError>(
                        EditRequest::Substring {
                            path: f.path.unwrap(),
                            old_string: f.old_string.unwrap(),
                            new_string: f.new_string.unwrap(),
                            replace_all: f.replace_all == Some(true),
                        },
                    )
                }
            }),
    {
        let path = match f.path {
            Some(p) => p,
            None => {
                return invalid("path is required");
            },
        };
        let new_string = match f.new_string {
            Some(s) => s,
            None => {
                return invalid("new_string is required");
            },
        };
        if f.has_line_number && f.has_hash {
            let line_number = match f.line_number {
                Some(n) => n,
                None => {
                    return invalid("line_number must be a number");
                },
            };
            let fingerprint = match f.hash {
                Some(h) => h,
                None => {
                    return invalid("hash must be a string");
                },
            };
            Ok(EditRequest::Line { path, line_number, fingerprint, new_string })
        } else {
            let old_string = match f.old_string {
                Some(s) => s,
                None => {
                    return invalid("old_string is required (or give line_number and hash)");
                },
            };
            let replace_all = match f.replace_all {
                Some(b) => b,
                None => false,
            };
            Ok(EditRequest::Substring { path, old_string, new_string, replace_all })
        }
    }

    /// Validates an argument bundle into an edit request.
    pub fn parse(&self, params: &serde_json::Value) -> (r: Result<EditRequest, ToolError>)
        ensures
            only_invalid(r),
    {
        let f = EditFields {
            path: str_member(params, "path"),
            new_string: str_member(params, "new_string"),
            has_line_number: has_member(params, "line_number"),
            has_hash: has_member(params, "hash"),
            line_number: u64_member(params, "line_number"),
            hash: str_member(params, "hash"),
            old_string: str_member(params, "old_string"),
            replace_all: bool_member(params, "replace_all"),
        };
        self.request_from(f)
    }
}

impl FileCreateTool {
    /// A create needs a path and content; `overwrite` defaults to false.
    pub fn request_from(
        &self,
        path: Option<String>,
        content: Option<String>,
        overwrite: Option<bool>,
    ) -> (r: Result<CreateRequest, ToolError>)
        ensures
            path is None ==> invalid_with(r, "path is required"@),
            path is Some && content is None ==> invalid_with(r, "content is required"@),
            path is Some && content is Some ==> (r matches Ok(q) && q.path == path.unwrap()
                && q.content == content.unwrap() && q.overwrite == (overwrite == Some(true))),
    {
        let path = match path {
            Some(p) => p,
            None => {
                return invalid("path is required");
            },
        };
        let content = match content {
            Some(c) => c,
            None => {
                return invalid("content is required");
            },
        };
        let overwrite = match overwrite {
            Some(b) => b,
            None => false,
        };
        Ok(CreateRequest { path, content, overwrite })
    }

    /// Validates an argument bundle into a create request.
    pub fn parse(&self, params: &serde_json::Value) -> (r: Result<CreateRequest, ToolError>)
        ensures
            only_invalid(r),
    {
        self.request_from(
            str_member(params, "path"),
            str_member(params, "content"),
            bool_member(params, "overwrite"),
        )
    }
}

impl FileDeleteTool {
    /// A delete needs a path; `recursive` defaults to false.
    pub fn request_from(&self, path: Option<String>, recursive: Option<bool>) -> (r: Result<
        DeleteRequest,
        ToolError,
    >)
        ensures
            path is None ==> invalid_with(r, "path is required"@),
            path is Some ==> (r matches Ok(q) && q.path == path.unwrap() && q.recursive == (
            recursive == Some(true))),
    {
        let path = match path {
            Some(p) => p,
            None => {
                return invalid("path is required");
            },
        };
        let recursive = match recursive {
            Some(b) => b,
            None => false,
        };
        Ok(DeleteRequest { path, recursive })
    }

    /// Validates an argument bundle into a delete request.
    pub fn parse(&self, params: &serde_json::Value) -> (r: Result<DeleteRequest, ToolError>)
        ensures
            only_invalid(r),
    {
        self.request_from(str_member(params, "path"), bool_member(params, "recursive"))
    }
}

/// A move or copy needs a source and a destination.
pub fn transfer_from(source: Option<String>, destination: Option<String>) -> (r: Result<
    TransferRequest,
    ToolError,
>)
    ensures
        source is None ==> invalid_with(r, "source is required"@),
        source is Some && destination is None ==> invalid_with(r, "destination is required"@),
        source is Some && destination is Some ==> (r matches Ok(q) && q.source == source.unwrap()
            && q.destination == destination.unwrap()),
{
    let source = match source {
        Some(s) => s,
        None => {
            return invalid("source is required");
        },
    };
    let destination = match destination {
        Some(d) => d,
        None => {
            return invalid("destination is required");
        },
    };
    Ok(TransferRequest { source, destination })
}

/// An operation on one path needs that path.
pub fn path_from(path: Option<String>) -> (r: Result<String, ToolError>)
    ensures
        path is None ==> invalid_with(r, "path is required"@),
        path is Some ==> r == Ok::<String, ToolError>(path.unwrap()),
{
    match path {
        Some(p) => Ok(p),
        None => invalid("path is required"),
    }
}

impl FileMoveTool {
    /// Validates an argument bundle into a move request.
    pub fn parse(&self, params: &serde_json::Value) -> (r: Result<TransferRequest, ToolError>)
        ensures
            only_invalid(r),
    {
        transfer_from(str_member(params, "source"), str_member(params, "destination"))
    }
}

impl FileCopyTool {
    /// Validates an argument bundle into a copy request.
    pub fn parse(&self, params: &serde_json::Value) -> (r: Result<TransferRequest, ToolError>)
        ensures
            only_invalid(r),
    {
        transfer_from(str_member(params, "source"), str_member(params, "destination"))
    }
}

impl FileInfoTool {
    /// Validates an argument bundle into the path to inspect.
    pub fn parse(&self, params: &serde_json::Value) -> (r: Result<String, ToolError>)
        ensures
            only_invalid(r),
    {
        path_from(str_member(params, "path"))
    }
}

impl DirectoryCreateTool {
    /// Validates an argument bundle into the directory to create.
    pub fn parse(&self, params: &serde_json::Value) -> (r: Result<String, ToolError>)
        ensures
            only_invalid(r),
    {
        path_from(str_member(params, "path"))
    }
}

impl FileSearchContentTool {
    /// A search needs a query; the rest is optional.
    pub fn request_from(
        &self,
        query: Option<String>,
        root: Option<String>,
        extension: Option<String>,
        case_sensitive: Option<bool>,
        max_results: Option<u64>,
    ) -> (r: Result<SearchRequest, ToolError>)
        ensures
            query is None ==> invalid_with(r, "query is required"@),
            query is Some ==> (r matches Ok(q) && q.query == query.unwrap() && q.root == root
                && q.extension == extension && q.case_sensitive == case_sensitive && q.max_results
                == max_results),
    {
        let query = match query {
            Some(q) => q,
            None => {
                return invalid("query is required");
            },
        };
        Ok(SearchRequest { query, root, extension, case_sensitive, max_results })
    }

    /// Validates an argument bundle into a search request.
    pub fn parse(&self, params: &serde_json::Value) -> (r: Result<SearchRequest, ToolError>)
        ensures
            only_invalid(r),
    {
        self.request_from(
            str_member(params, "query"),
            str_member(params, "path"),
            str_member(params, "file_pattern"),
            bool_member(params, "case_sensitive"),
            u64_member(params, "max_results"),
        )
    }
}

} // verus!
