use bunode::cli::args::{help_text, parse, Command};

fn strings(values: &[&str]) -> Vec<String> {
    values.iter().map(|value| value.to_string()).collect()
}

#[test]
fn patch_should_accept_options_around_operands() {
    let command = parse(&strings(&["bunode", "patch", "--yes", "1.3.14", "/node", "--copy", "/bunode"])).ok().unwrap();
    let Command::Patch(options) = command else {
        panic!("expected patch command");
    };

    assert_eq!(options.version, "1.3.14");
    assert_eq!(options.prefix.unwrap(), "/node");
    assert_eq!(options.copy_to.unwrap(), "/bunode");
    assert!(options.yes);
}

#[test]
fn cli_args_should_default_to_help() {
    assert!(matches!(parse(&strings(&["bunode"])).ok().unwrap(), Command::Help));
    assert!(matches!(parse(&strings(&["bunode", "-V"])).ok().unwrap(), Command::Version));
    assert!(matches!(parse(&strings(&["bunode", "ls"])).ok().unwrap(), Command::List));
    assert!(matches!(parse(&strings(&["bunode", "implode", "-y"])).ok().unwrap(), Command::Implode { yes: true }));
    assert!(matches!(parse(&strings(&["bunode", "update"])).ok().unwrap(), Command::Update { yes: false }));
    assert!(help_text().starts_with("Bunode manages Node.js-compatible prefixes backed by Bun."));
}

#[test]
fn cli_args_should_report_errors() {
    let error = |args: &[&str]| parse(&strings(args)).err().unwrap().message;

    assert_eq!(error(&["bunode", "frobnicate"]), "unknown command `frobnicate`; run `bunode --help` for usage");
    assert_eq!(error(&["bunode", "list", "extra"]), "this command does not accept arguments");
    assert_eq!(error(&["bunode", "patch"]), "missing Bun version; usage: bunode patch <version> [node-prefix]");
    assert_eq!(error(&["bunode", "patch", "1.0.0", "--copy"]), "`--copy` requires a path");
    assert_eq!(error(&["bunode", "patch", "1.0.0", "--force"]), "unknown patch option `--force`");
    assert_eq!(error(&["bunode", "patch", "1.0.0", "/a", "/b"]), "patch accepts at most one Node.js prefix");
    assert_eq!(error(&["bunode", "revert", "/a", "/b"]), "revert accepts at most one Bunode prefix");
    assert_eq!(error(&["bunode", "revert", "-x"]), "unknown revert option `-x`");
    assert_eq!(error(&["bunode", "update", "--no"]), "unknown option `--no`");
}

#[test]
fn cli_args_should_parse_revert() {
    let Command::Revert(options) = parse(&strings(&["bunode", "revert", "--yes", "/prefix"])).ok().unwrap() else {
        panic!("expected revert command");
    };
    assert_eq!(options.prefix.unwrap(), "/prefix");
    assert!(options.yes);
}
