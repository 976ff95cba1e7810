use agent_fs_tools::requests::EditFields;
use agent_fs_tools::tools::{
    EditRequest, FileCreateTool, FileDeleteTool, FileEditTool, FileInfoTool, FileMoveTool,
    FileSearchContentTool,
};

fn json(s: &str) -> serde_json::Value {
    serde_json::from_str(s).unwrap()
}

#[test]
fn edit_substring_request_from_json() {
    let r = FileEditTool
        .parse(&json(r#"{"path":"a.rs","old_string":"x","new_string":"y","replace_all":true}"#))
        .unwrap();
    match r {
        EditRequest::Substring { path, old_string, new_string, replace_all } => {
            assert_eq!(path, "a.rs");
            assert_eq!(old_string, "x");
            assert_eq!(new_string, "y");
            assert!(replace_all);
        }
        _ => panic!("wrong mode"),
    }
}

#[test]
fn edit_line_request_from_json() {
    let r = FileEditTool
        .parse(&json(r#"{"path":"a.rs","new_string":"z","line_number":3,"hash":"1b2"}"#))
        .unwrap();
    match r {
        EditRequest::Line { line_number, fingerprint, .. } => {
            assert_eq!(line_number, 3);
            assert_eq!(fingerprint, "1b2");
        }
        _ => panic!("wrong mode"),
    }
}

#[test]
fn edit_request_errors() {
    let e = FileEditTool.parse(&json(r#"{"new_string":"z"}"#)).err().unwrap();
    assert!(e.is_invalid_parameters());
    assert_eq!(e.detail(), "path is required");
    let e = FileEditTool.parse(&json(r#"{"path":"a"}"#)).err().unwrap();
    assert_eq!(e.detail(), "new_string is required");
    let e = FileEditTool.parse(&json(r#"{"path":"a","new_string":"z"}"#)).err().unwrap();
    assert_eq!(e.detail(), "old_string is required (or give line_number and hash)");
    let e = FileEditTool
        .parse(&json(r#"{"path":"a","new_string":"z","line_number":"3","hash":"ab"}"#))
        .err()
        .unwrap();
    assert_eq!(e.detail(), "line_number must be a number");
}

#[test]
fn edit_request_from_fields_defaults() {
    let f = EditFields {
        path: Some("p".to_string()),
        new_string: Some("n".to_string()),
        has_line_number: true,
        has_hash: false,
        line_number: Some(2),
        hash: None,
        old_string: Some("o".to_string()),
        replace_all: None,
    };
    match FileEditTool.request_from(f).unwrap() {
        EditRequest::Substring { replace_all, .. } => assert!(!replace_all),
        _ => panic!("wrong mode"),
    }
}

#[test]
fn other_requests_from_json() {
    let c = FileCreateTool.parse(&json(r#"{"path":"n.txt","content":"hi"}"#)).unwrap();
    assert_eq!(c.content, "hi");
    assert!(!c.overwrite);
    assert_eq!(
        FileCreateTool.parse(&json(r#"{"path":"n.txt"}"#)).err().unwrap().detail(),
        "content is required"
    );
    let d = FileDeleteTool.parse(&json(r#"{"path":"d","recursive":true}"#)).unwrap();
    assert!(d.recursive);
    let m = FileMoveTool.parse(&json(r#"{"source":"a","destination":"b"}"#)).unwrap();
    assert_eq!(m.destination, "b");
    assert_eq!(
        FileMoveTool.parse(&json(r#"{"source":"a"}"#)).err().unwrap().detail(),
        "destination is required"
    );
    assert_eq!(FileInfoTool.parse(&json(r#"{"path":"x"}"#)).unwrap(), "x");
    let s = FileSearchContentTool
        .parse(&json(r#"{"query":"q","file_pattern":"rs","max_results":5}"#))
        .unwrap();
    assert_eq!(s.extension, Some("rs".to_string()));
    assert_eq!(s.max_results, Some(5));
    assert_eq!(s.root, None);
    assert_eq!(
        FileSearchContentTool.parse(&json(r#"{"path":"."}"#)).err().unwrap().detail(),
        "query is required"
    );
}
