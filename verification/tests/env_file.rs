use bunode::env_file::{node_options_from_assignments, read_node_options_from_source};

#[test]
fn should_parse_node_options_assignment() {
    assert_eq!(
        read_node_options_from_source(r#"NODE_OPTIONS="--conditions from-env""#),
        Some("--conditions from-env".to_string()),
    );
    assert_eq!(
        read_node_options_from_source("export NODE_OPTIONS='--conditions from-env'"),
        Some("--conditions from-env".to_string()),
    );
    assert_eq!(
        read_node_options_from_source("NODE_OPTIONS=--conditions=from-env # comment"),
        Some("--conditions=from-env".to_string()),
    );
    assert_eq!(
        read_node_options_from_source("NODE_OPTIONS=--conditions=from-env#comment"),
        Some("--conditions=from-env".to_string()),
    );
    assert_eq!(
        read_node_options_from_source(r#"NODE_OPTIONS="--require C:\tmp\preload.js""#),
        Some(r"--require C:\tmp\preload.js".to_string()),
    );
    assert_eq!(
        read_node_options_from_source(r#"NODE_OPTIONS="--require ./x\" y.js""#),
        Some(r#"--require ./x\" y.js"#.to_string()),
    );
}

#[test]
fn should_keep_last_node_options_assignment() {
    let source = "NODE_OPTIONS=--conditions first\nNODE_OPTIONS=--conditions second\n";

    assert_eq!(read_node_options_from_source(source), Some("--conditions second".to_string()));
}

#[test]
fn should_follow_node_parser_for_malformed_values() {
    let source = "BAD=\"unterminated\nNODE_OPTIONS=\"--conditions from-env\"\n";

    assert_eq!(read_node_options_from_source(source), None);
}

#[test]
fn should_parse_multiline_node_options_values() {
    let source = "NODE_OPTIONS=\"--conditions a\n--conditions b\"\n";

    assert_eq!(read_node_options_from_source(source), Some("--conditions a\n--conditions b".to_string()));
}

#[test]
fn should_ignore_non_assignments() {
    assert_eq!(read_node_options_from_source("# NODE_OPTIONS=--bad"), None);
    assert_eq!(read_node_options_from_source(""), None);
}

#[test]
fn env_file_should_take_the_last_node_options_assignment() {
    let pair = |name: &str, value: &str| (name.to_string(), value.to_string());
    let pairs = vec![pair("NODE_OPTIONS", "--a"), pair("OTHER", "x"), pair("NODE_OPTIONS", "--b"), pair("node_options", "--c")];
    assert_eq!(node_options_from_assignments(&pairs), Some("--b".to_string()));
    assert_eq!(node_options_from_assignments(&vec![pair("OTHER", "x")]), None);
    assert_eq!(node_options_from_assignments(&Vec::new()), None);
}
