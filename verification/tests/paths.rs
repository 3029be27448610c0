use bunode::argv::PathStyle;
use bunode::paths::{component_count, file_name, join, parent, path_eq, path_starts_with};

#[test]
fn paths_should_follow_std_parent() {
    let p = |s: &str| parent(s, PathStyle::Posix);

    assert_eq!(p("/a/b"), Some("/a".to_string()));
    assert_eq!(p("/a"), Some("/".to_string()));
    assert_eq!(p("/"), None);
    assert_eq!(p(""), None);
    assert_eq!(p("a"), Some(String::new()));
    assert_eq!(p("a//b/"), Some("a".to_string()));
    assert_eq!(p("a/./b/."), Some("a".to_string()));
    assert_eq!(p("./a"), Some(".".to_string()));
    assert_eq!(p("."), Some(String::new()));
    assert_eq!(parent(r"C:\x\y", PathStyle::Windows), Some(r"C:\x".to_string()));
    assert_eq!(parent(r"C:\", PathStyle::Windows), None);
}

#[test]
fn paths_should_follow_std_file_name() {
    let f = |s: &str| file_name(s, PathStyle::Posix);

    assert_eq!(f("/a/b.js"), Some("b.js".to_string()));
    assert_eq!(f("a/b/"), Some("b".to_string()));
    assert_eq!(f("a/.."), None);
    assert_eq!(f("/"), None);
    assert_eq!(f("."), None);
}

#[test]
fn paths_should_follow_std_join() {
    assert_eq!(join("/a", "b", PathStyle::Posix), "/a/b");
    assert_eq!(join("/a/", "b", PathStyle::Posix), "/a/b");
    assert_eq!(join("", "b", PathStyle::Posix), "b");
    assert_eq!(join("/a", "/b", PathStyle::Posix), "/b");
    assert_eq!(join(r"C:\a", "b", PathStyle::Windows), r"C:\a\b");
    assert_eq!(join("C:", "b", PathStyle::Windows), "C:b");
    assert_eq!(join(r"C:\a", r"\b", PathStyle::Windows), r"C:\b");
}

#[test]
fn paths_should_count_and_compare_components() {
    assert_eq!(component_count("a", PathStyle::Posix), 1);
    assert_eq!(component_count("a/", PathStyle::Posix), 1);
    assert_eq!(component_count("./a", PathStyle::Posix), 2);
    assert_eq!(component_count("/", PathStyle::Posix), 1);
    assert_eq!(component_count("a/./b", PathStyle::Posix), 2);
    assert_eq!(component_count("", PathStyle::Posix), 0);
    assert!(path_eq("/a//b/", "/a/b", PathStyle::Posix));
    assert!(!path_eq("/a/b", "/a/c", PathStyle::Posix));
    assert!(path_starts_with("/a/b/c", "/a/b", PathStyle::Posix));
    assert!(!path_starts_with("/a/bc", "/a/b", PathStyle::Posix));
}
