//! File-manipulation operations for an automated coding agent: a dual-mode
//! edit engine guarded by line fingerprints, a bounded content search, and
//! the precondition logic of the create / delete / move / copy / inspect /
//! mkdir operations.
pub mod fingerprint;
pub mod text;
pub mod error;
pub mod edit;
pub mod search;
pub mod size;
pub mod tools;
pub mod requests;

pub use fingerprint::compute_line_hash;
pub use size::format_size;
pub use error::ToolError;
pub use tools::{
    DirectoryCreateTool,
    FileCopyTool,
    FileCreateTool,
    FileDeleteTool,
    FileEditTool,
    FileInfoTool,
    FileMoveTool,
    FileSearchContentTool,
};
