use agent_fs_tools::error::ToolError;
use agent_fs_tools::format_size;
use agent_fs_tools::tools::{
    DeleteAction, DirectoryCreateTool, EntryKind, FileCopyTool, FileCreateTool, FileDeleteTool,
    FileInfoTool, FileMoveTool, MkdirAction,
};

#[test]
fn format_size_values() {
    assert_eq!(format_size(0), "0 B");
    assert_eq!(format_size(1023), "1023 B");
    assert_eq!(format_size(1024), "1.0 KB");
    assert_eq!(format_size(1536), "1.5 KB");
    assert_eq!(format_size(1280), "1.2 KB");
    assert_eq!(format_size(1048575), "1024.0 KB");
    assert_eq!(format_size(1048576), "1.0 MB");
    assert_eq!(format_size(5 * 1048576 + 104858), "5.1 MB");
    assert_eq!(format_size(1073741824), "1.0 GB");
    assert_eq!(format_size(3 * 1073741824 + 536870912), "3.5 GB");
}

#[test]
fn create_refuses_existing_file_without_overwrite() {
    let t = FileCreateTool;
    assert!(t.check("a.txt", false, false).is_ok());
    assert!(t.check("a.txt", true, true).is_ok());
    let e = t.check("a.txt", true, false).unwrap_err();
    assert!(matches!(e, ToolError::ExecutionFailed(_)));
    assert_eq!(
        e.detail(),
        "file 'a.txt' already exists; set overwrite=true to replace it, or use file_edit"
    );
}

#[test]
fn create_then_inspect_reports_same_sizes() {
    let content = "alpha\nbeta\ngamma";
    let s = FileCreateTool.summary(content);
    assert_eq!(s.bytes, 16);
    assert_eq!(s.lines, 3);
    let info = FileInfoTool.inspect(
        "notes.txt",
        EntryKind::File,
        s.bytes as u64,
        false,
        Some(1),
        None,
        Some(content),
    );
    assert_eq!(info.size, 16);
    assert_eq!(info.line_count, Some(3));
    assert_eq!(info.extension, "txt");
    assert_eq!(info.size_human, "16 B");
}

#[test]
fn line_counts_follow_newline_segments() {
    assert_eq!(FileCreateTool.summary("").lines, 0);
    assert_eq!(FileCreateTool.summary("a\n").lines, 1);
    assert_eq!(FileCreateTool.summary("a\n\nb").lines, 3);
    assert_eq!(FileCreateTool.summary("a\r\nb\r\n").lines, 2);
}

#[test]
fn inspect_skips_line_count_for_large_files_and_directories() {
    let t = FileInfoTool;
    assert!(t.counts_lines(EntryKind::File, 9_999_999));
    assert!(!t.counts_lines(EntryKind::File, 10_000_000));
    assert!(!t.counts_lines(EntryKind::Directory, 0));
    let info = t.inspect("dir", EntryKind::Directory, 4096, true, None, None, None);
    assert_eq!(info.line_count, None);
    assert_eq!(info.extension, "");
    assert_eq!(info.size_human, "4.0 KB");
    let big = t.inspect("b.bin", EntryKind::File, 20_000_000, false, None, None, Some("x"));
    assert_eq!(big.line_count, None);
}

#[test]
fn delete_directory_needs_recursive_flag_for_tree() {
    let t = FileDeleteTool;
    assert_eq!(
        t.plan("d", Some(EntryKind::Directory), false).unwrap(),
        DeleteAction::RemoveEmptyDirectory
    );
    assert_eq!(
        t.plan("d", Some(EntryKind::Directory), true).unwrap(),
        DeleteAction::RemoveDirectoryTree
    );
    assert_eq!(t.plan("f", Some(EntryKind::File), false).unwrap(), DeleteAction::RemoveFile);
}

#[test]
fn delete_missing_or_unsupported_fails() {
    let t = FileDeleteTool;
    let e = t.plan("gone", None, true).unwrap_err();
    assert_eq!(e.detail(), "path 'gone' does not exist");
    let e = t.plan("fifo", Some(EntryKind::Other), false).unwrap_err();
    assert!(matches!(e, ToolError::ExecutionFailed(_)));
    assert_eq!(e.detail(), "unsupported path type: fifo");
}

#[test]
fn move_preconditions() {
    let t = FileMoveTool;
    assert!(t.check("a", "b", true, false).is_ok());
    assert_eq!(t.check("a", "b", false, false).unwrap_err().detail(), "source 'a' does not exist");
    assert_eq!(t.check("a", "b", true, true).unwrap_err().detail(), "destination 'b' already exists");
}

#[test]
fn copy_preconditions() {
    let t = FileCopyTool;
    assert!(t.check("a", true).is_ok());
    assert_eq!(t.check("a", false).unwrap_err().detail(), "source 'a' does not exist");
}

#[test]
fn mkdir_decisions() {
    let t = DirectoryCreateTool;
    assert_eq!(t.plan("d", None).unwrap(), MkdirAction::CreateAll);
    assert_eq!(t.plan("d", Some(EntryKind::Directory)).unwrap(), MkdirAction::AlreadyExists);
    let e = t.plan("f", Some(EntryKind::File)).unwrap_err();
    assert_eq!(e.detail(), "a file already exists at this path: f");
}

#[test]
fn tool_names_are_stable() {
    assert_eq!(FileCreateTool.name(), "file_create");
    assert_eq!(FileDeleteTool.name(), "file_delete");
    assert_eq!(FileMoveTool.name(), "file_move");
    assert_eq!(FileCopyTool.name(), "file_copy");
    assert_eq!(FileInfoTool.name(), "file_info");
    assert_eq!(DirectoryCreateTool.name(), "directory_create");
    assert!(FileDeleteTool.description().contains("recursive=true"));
}
