use agent_fs_tools::compute_line_hash;
use agent_fs_tools::edit::{edit_line, edit_substring, EditError};
use agent_fs_tools::error::ToolError;
use agent_fs_tools::tools::{EditRequest, FileEditTool};

fn text(r: Result<Vec<u8>, EditError>) -> String {
    match r {
        Ok(v) => String::from_utf8(v).unwrap(),
        Err(_) => panic!("edit refused"),
    }
}

#[test]
fn substring_unique_occurrence_is_replaced() {
    let r = edit_substring(b"let a = 1;\nlet b = 2;\n", b"b = 2", b"b = 3", false);
    assert_eq!(text(r), "let a = 1;\nlet b = 3;\n");
}

#[test]
fn substring_replace_all() {
    let r = edit_substring(b"x + x + x", b"x", b"yy", true);
    assert_eq!(text(r), "yy + yy + yy");
}

#[test]
fn substring_replace_all_with_single_occurrence() {
    let r = edit_substring(b"one two", b"two", b"2", true);
    assert_eq!(text(r), "one 2");
}

#[test]
fn substring_ambiguous_without_replace_all() {
    let r = edit_substring(b"x + x + x", b"x", b"y", false);
    assert!(matches!(r, Err(EditError::Ambiguous { count: 3 })));
    let e = r.err().unwrap().to_tool_error();
    assert!(matches!(e, ToolError::ExecutionFailed(_)));
    assert_eq!(
        e.detail(),
        "old_string found 3 times; add context to make it unique, or set replace_all=true"
    );
}

#[test]
fn substring_occurrences_do_not_overlap() {
    let r = edit_substring(b"aaaa", b"aa", b"b", true);
    assert_eq!(text(r), "bb");
    let r = edit_substring(b"aaa", b"aa", b"b", false);
    assert_eq!(text(r), "ba");
}

#[test]
fn substring_not_found() {
    let r = edit_substring(b"abc", b"zz", b"y", false);
    assert!(matches!(r, Err(EditError::NotFound)));
    assert!(matches!(r.err().unwrap().to_tool_error(), ToolError::ExecutionFailed(_)));
}

#[test]
fn substring_same_strings_is_invalid_parameters() {
    let r = edit_substring(b"abc", b"b", b"b", true);
    assert!(matches!(r, Err(EditError::SameStrings)));
    let e = r.err().unwrap().to_tool_error();
    assert!(e.is_invalid_parameters());
    assert_eq!(e.detail(), "old_string and new_string must be different");
}

#[test]
fn substring_empty_pattern_is_invalid_parameters() {
    let r = edit_substring(b"abc", b"", b"x", false);
    assert!(matches!(r, Err(EditError::EmptyPattern)));
    assert!(r.err().unwrap().to_tool_error().is_invalid_parameters());
}

#[test]
fn substring_multibyte_text() {
    let r = edit_substring("café au lait".as_bytes(), "é".as_bytes(), "e".as_bytes(), false);
    assert_eq!(text(r), "cafe au lait");
}

#[test]
fn line_mode_replaces_line_when_fingerprint_matches() {
    let content = "one\ntwo\nthree\n";
    let fp = compute_line_hash("two");
    let r = edit_line(content.as_bytes(), 2, &fp, b"TWO");
    assert_eq!(text(r), "one\nTWO\nthree");
}

#[test]
fn line_mode_normalises_crlf() {
    let content = "a\r\nb\r\nc";
    let fp = compute_line_hash("c");
    let r = edit_line(content.as_bytes(), 3, &fp, b"z");
    assert_eq!(text(r), "a\nb\nz");
}

#[test]
fn line_mode_zero_addresses_first_line() {
    let fp = compute_line_hash("first");
    let r = edit_line(b"first\nsecond", 0, &fp, b"1st");
    assert_eq!(text(r), "1st\nsecond");
}

#[test]
fn line_mode_out_of_range() {
    let r = edit_line(b"a\nb\n", 3, "00", b"x");
    assert!(matches!(r, Err(EditError::LineOutOfRange { line_number: 3, line_count: 2 })));
    let e = r.err().unwrap().to_tool_error();
    assert_eq!(e.detail(), "line 3 does not exist (file has 2 lines)");
}

#[test]
fn line_mode_stale_fingerprint_is_refused() {
    let before_change = "fn a() {}\nfn b() {}\nlet x = 1;\nfn c() {}\n";
    let seen = compute_line_hash("let x = 1;");
    let modified = "fn a() {}\nfn b() {}\nlet x = 2;\nfn c() {}\n";
    assert_ne!(seen, compute_line_hash("let x = 2;"));
    let r = edit_line(modified.as_bytes(), 3, &seen, b"let x = 3;");
    match r {
        Err(EditError::FingerprintMismatch { expected, actual }) => {
            assert_eq!(expected, seen);
            assert_eq!(actual, compute_line_hash("let x = 2;"));
        }
        _ => panic!("stale edit accepted"),
    }
    let ok = edit_line(before_change.as_bytes(), 3, &seen, b"let x = 3;");
    assert_eq!(text(ok), "fn a() {}\nfn b() {}\nlet x = 3;\nfn c() {}");
}

#[test]
fn mismatch_message_names_both_fingerprints() {
    let e = EditError::FingerprintMismatch { expected: "ab".to_string(), actual: "cd".to_string() };
    assert_eq!(
        e.to_tool_error().detail(),
        "fingerprint mismatch: expected 'ab' but found 'cd'; the line changed since it was read"
    );
}

#[test]
fn edit_tool_precheck_and_apply() {
    let tool = FileEditTool;
    assert_eq!(tool.name(), "file_edit");
    let same = EditRequest::Substring {
        path: "f.rs".to_string(),
        old_string: "x".to_string(),
        new_string: "x".to_string(),
        replace_all: false,
    };
    assert!(tool.precheck(&same).unwrap_err().is_invalid_parameters());
    let req = EditRequest::Substring {
        path: "f.rs".to_string(),
        old_string: "x".to_string(),
        new_string: "y".to_string(),
        replace_all: false,
    };
    assert!(tool.precheck(&req).is_ok());
    assert_eq!(text(tool.apply(&req, "a x b")), "a y b");
    let line = EditRequest::Line {
        path: "f.rs".to_string(),
        line_number: 1,
        fingerprint: compute_line_hash("a x b"),
        new_string: "z".to_string(),
    };
    assert!(tool.precheck(&line).is_ok());
    assert_eq!(text(tool.apply(&line, "a x b\nc")), "z\nc");
}
