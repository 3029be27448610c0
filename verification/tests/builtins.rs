use bunode::builtins::is_builtin_module;

#[test]
fn should_detect_bare_and_node_prefixed_builtins() {
    assert!(is_builtin_module("fs"));
    assert!(is_builtin_module("fs/promises"));
    assert!(is_builtin_module("node:fs"));
    assert!(is_builtin_module("node:test"));
    assert!(!is_builtin_module("./fs.js"));
}

#[test]
fn builtins_should_reject_unknown_prefixed_names() {
    assert!(!is_builtin_module("node:not-a-module"));
    assert!(!is_builtin_module(""));
    assert!(is_builtin_module("node:path"));
}
