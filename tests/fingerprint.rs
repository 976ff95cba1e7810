use agent_fs_tools::compute_line_hash;
use agent_fs_tools::fingerprint::{fingerprint_bytes, render_fingerprint};

#[test]
fn fingerprint_of_empty_line_is_masked_seed() {
    assert_eq!(compute_line_hash(""), "dc5");
}

#[test]
fn fingerprint_sample_values() {
    assert_eq!(compute_line_hash("a"), "d7e");
    assert_eq!(compute_line_hash("hello"), "167");
    assert_eq!(compute_line_hash("fn main() {"), "1b2");
    assert_eq!(compute_line_hash("line three"), "887");
    assert_eq!(compute_line_hash("héllo"), "c9e");
}

#[test]
fn fingerprint_width_varies() {
    assert_eq!(compute_line_hash("    let x = 1;"), "2f");
    assert_eq!(compute_line_hash("cia"), "06");
    assert_eq!(compute_line_hash("hello").len(), 3);
}

#[test]
fn fingerprint_is_deterministic() {
    let l = "    return Ok(());";
    assert_eq!(compute_line_hash(l), compute_line_hash(l));
}

#[test]
fn fingerprint_is_order_sensitive() {
    assert_eq!(compute_line_hash("abc"), "f4b");
    assert_eq!(compute_line_hash("acb"), "d9");
}

#[test]
fn fingerprint_numeric_and_rendering() {
    assert_eq!(fingerprint_bytes(b"hello"), 0x167);
    assert_eq!(render_fingerprint(0), "00");
    assert_eq!(render_fingerprint(0xf), "0f");
    assert_eq!(render_fingerprint(0x10), "10");
    assert_eq!(render_fingerprint(0xff), "ff");
    assert_eq!(render_fingerprint(0x100), "100");
    assert_eq!(render_fingerprint(0xfff), "fff");
}
