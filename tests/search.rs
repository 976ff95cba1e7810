use agent_fs_tools::search::{is_ignored_entry, ChildEntry, ContentSearch};
use agent_fs_tools::tools::FileSearchContentTool;

fn entry(name: &str, path: &str) -> ChildEntry {
    ChildEntry { name: name.to_string(), path: path.to_string() }
}

#[test]
fn search_stops_exactly_at_cap() {
    let mut s = ContentSearch::new("root", "todo", true, None, 3);
    s.scan_file("a.rs", "todo 1\nx\ntodo 2\n");
    assert_eq!(s.results.len(), 2);
    s.scan_file("b.rs", "todo 3\ntodo 4\ntodo 5\n");
    assert_eq!(s.results.len(), 3);
    assert!(s.is_full());
    let order: Vec<(String, usize)> =
        s.results.iter().map(|m| (m.file_path.clone(), m.line_number)).collect();
    assert_eq!(
        order,
        vec![("a.rs".to_string(), 1), ("a.rs".to_string(), 3), ("b.rs".to_string(), 1)]
    );
}

#[test]
fn search_cap_with_more_matches_than_cap_in_one_file() {
    let mut s = ContentSearch::new(".", "x", true, None, 2);
    s.scan_file("f", "x\nx\nx\nx\n");
    assert_eq!(s.results.len(), 2);
    assert_eq!(s.results[1].line_number, 2);
}

#[test]
fn search_ignores_case_by_default() {
    let tool = FileSearchContentTool;
    let mut s = tool.start(None, "Hello", None, None, None);
    assert_eq!(s.max_results, 30);
    assert_eq!(s.pending, vec![".".to_string()]);
    s.scan_file("g.txt", "say HELLO there\nnothing\n  hello world  \n");
    assert_eq!(s.results.len(), 2);
    assert_eq!(s.results[0].content, "say HELLO there");
    assert_eq!(s.results[1].line_number, 3);
    assert_eq!(s.results[1].content, "hello world");
}

#[test]
fn search_case_sensitive() {
    let tool = FileSearchContentTool;
    let mut s = tool.start(Some("src"), "Hello", Some(true), None, Some(10));
    s.scan_file("g.txt", "say HELLO there\nHello\n");
    assert_eq!(s.results.len(), 1);
    assert_eq!(s.results[0].line_number, 2);
}

#[test]
fn search_walks_children_in_listing_order() {
    let mut s = ContentSearch::new("root", "q", false, None, 30);
    assert_eq!(s.next_path(), Some("root".to_string()));
    s.push_children(&vec![
        entry("a", "root/a"),
        entry(".hidden", "root/.hidden"),
        entry("node_modules", "root/node_modules"),
        entry("b", "root/b"),
        entry("target", "root/target"),
        entry("__pycache__", "root/__pycache__"),
        entry("c", "root/c"),
    ]);
    assert_eq!(s.next_path(), Some("root/a".to_string()));
    s.push_children(&vec![entry("x", "root/a/x")]);
    assert_eq!(s.next_path(), Some("root/a/x".to_string()));
    assert_eq!(s.next_path(), Some("root/b".to_string()));
    assert_eq!(s.next_path(), Some("root/c".to_string()));
    assert_eq!(s.next_path(), None);
}

#[test]
fn search_full_yields_no_more_paths() {
    let mut s = ContentSearch::new("root", "q", true, None, 1);
    s.push_children(&vec![entry("a", "root/a")]);
    s.scan_file("f", "q\n");
    assert_eq!(s.next_path(), None);
}

#[test]
fn ignored_entry_names() {
    assert!(is_ignored_entry(&".git".to_string()));
    assert!(is_ignored_entry(&".env".to_string()));
    assert!(is_ignored_entry(&"target".to_string()));
    assert!(!is_ignored_entry(&"src".to_string()));
    assert!(!is_ignored_entry(&"".to_string()));
}

#[test]
fn extension_filter_is_exact() {
    let s = ContentSearch::new(".", "q", true, Some("rs".to_string()), 5);
    assert!(s.wants_file("src/main.rs"));
    assert!(!s.wants_file("src/main.rsx"));
    assert!(!s.wants_file("Makefile"));
    assert!(s.wants_extension(&"rs".to_string()));
    assert!(!s.wants_extension(&"RS".to_string()));
    assert!(!s.wants_extension(&"".to_string()));
    let all = ContentSearch::new(".", "q", true, None, 5);
    assert!(all.wants_file("Makefile"));
    assert!(all.wants_extension(&"".to_string()));
}
