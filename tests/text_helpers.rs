use win_stall_buddy::text::{
    same_text, str_contains, str_ends_with, str_starts_with, text_after_last, text_before_first,
    text_without_char, trim_text,
};
use win_stall_buddy::extract::split_pieces;

#[test]
fn searching() {
    assert!(str_contains("https://a/b.exe?x=1", ".exe?"));
    assert!(!str_contains("https://a/b.exe", ".exe?"));
    assert!(str_contains("abc", ""));
    assert!(str_ends_with("setup.msi", ".msi"));
    assert!(!str_ends_with("msi", ".msi"));
    assert!(str_starts_with("DU_CLI.exe download X", "DU_CLI"));
    assert!(same_text("a", "a"));
    assert!(!same_text("a", "b"));
}

#[test]
fn cutting() {
    assert_eq!(text_after_last("a/b/c", "/"), "c");
    assert_eq!(text_after_last("a/b/", "/"), "");
    assert_eq!(text_after_last("abc", "/"), "abc");
    assert_eq!(text_after_last("x; filename=a; filename=b.exe", "filename="), "b.exe");
    assert_eq!(text_before_first("p.exe?filename=q?filename=r", "?filename="), "p.exe");
    assert_eq!(text_before_first("none", "?"), "none");
    assert_eq!(text_without_char("\"v1.2\"", '"'), "v1.2");
    assert_eq!(text_without_char("v4.7", 'v'), "4.7");
}

#[test]
fn splitting() {
    assert_eq!(split_pieces("a/b//c", '/'), vec!["a", "b", "", "c"]);
    assert_eq!(split_pieces("", '/'), vec![""]);
    assert_eq!(split_pieces("/x/", '/'), vec!["", "x", ""]);
    assert_eq!(split_pieces("héllo wörld", ' '), vec!["héllo", "wörld"]);
}

#[test]
fn trimming_matches_str_trim() {
    for s in ["  v1.2 \n", "\u{a0}\u{3000}x y\t", "", "   ", "\u{85}a\u{2029}", "abc", "\u{200b}z"] {
        assert_eq!(trim_text(s), s.trim());
    }
}
