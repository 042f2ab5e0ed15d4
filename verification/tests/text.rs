use zeus::text::{contains_char, contains_double_dot, ends_with, join, starts_with, trim_end_matching, trimmed, trimmed_lines};

#[test]
fn trimming() {
    assert_eq!(trimmed("  https://aur.archlinux.org/ \n"), "https://aur.archlinux.org/");
    assert_eq!(trimmed("\t\u{3000}x y\u{A0}"), "x y");
    assert_eq!(trimmed("   "), "");
    assert_eq!(trim_end_matching("a///", '/'), "a");
    assert_eq!(trim_end_matching("///", '/'), "");
    assert_eq!(trim_end_matching("a/b", '/'), "a/b");
}

#[test]
fn searching() {
    assert!(contains_char("a/b", '/'));
    assert!(!contains_char("ab", '/'));
    assert!(contains_double_dot("x..y"));
    assert!(!contains_double_dot("x.y."));
    assert!(starts_with("librt_docker.so", "librt_"));
    assert!(!starts_with("lib", "librt_"));
    assert!(ends_with("librt_docker.so", ".so"));
    assert!(!ends_with("librt_docker.so.1", ".so"));
}

#[test]
fn joining() {
    assert_eq!(join("/usr/lib/zeus", "runtimes"), "/usr/lib/zeus/runtimes");
    assert_eq!(join("/", "etc"), "/etc");
    assert_eq!(join("a", "/b"), "/b");
}

#[test]
fn lines_of_tool_output() {
    assert_eq!(
        trimmed_lines("/b/zeus-1.0-1-x86_64.pkg.tar.zst\n  /b/zeus-debug.pkg.tar.zst \r\n"),
        vec!["/b/zeus-1.0-1-x86_64.pkg.tar.zst".to_string(), "/b/zeus-debug.pkg.tar.zst".to_string()]
    );
    assert_eq!(trimmed_lines(""), Vec::<String>::new());
    assert_eq!(trimmed_lines("a\n\nb"), vec!["a".to_string(), "".to_string(), "b".to_string()]);
    assert_eq!(trimmed_lines("\n"), vec!["".to_string()]);
}
