use bunode::error::BunodeError;
use bunode::node_options::split_node_options;

#[test]
fn split_should_keep_double_quoted_value() -> Result<(), BunodeError> {
    let values = split_node_options("--require \"./with space.js\"")?;

    assert_eq!(values, vec!["--require".to_string(), "./with space.js".to_string()]);

    Ok(())
}

#[test]
fn split_should_keep_single_quotes_as_literal() -> Result<(), BunodeError> {
    let values = split_node_options("--require './preload.js'")?;

    assert_eq!(values, vec!["--require".to_string(), "'./preload.js'".to_string()]);

    Ok(())
}

#[test]
fn split_should_preserve_backslashes() -> Result<(), BunodeError> {
    let values = split_node_options(r"--require C:\tmp\preload.js")?;

    assert_eq!(values, vec!["--require".to_string(), r"C:\tmp\preload.js".to_string()]);

    Ok(())
}

#[test]
fn split_should_keep_escaped_double_quote() -> Result<(), BunodeError> {
    let values = split_node_options(r#"--require "./x\" y.js""#)?;

    assert_eq!(values, vec!["--require".to_string(), r#"./x" y.js"#.to_string()]);

    Ok(())
}

#[test]
fn split_should_reject_unterminated_quote() {
    let error = split_node_options("--require \"./x").unwrap_err();

    assert_eq!(error.to_message(), "unterminated quote in NODE_OPTIONS");
    assert_eq!(error.exit_code(), 9);
}

#[test]
fn split_should_skip_repeated_whitespace() -> Result<(), BunodeError> {
    assert_eq!(split_node_options("  --a   b  ")?, vec!["--a".to_string(), "b".to_string()]);
    assert_eq!(split_node_options("")?, Vec::<String>::new());

    Ok(())
}

#[test]
fn node_options_without_double_quotes_should_split_on_whitespace() {
    for value in ["--a  'b c'\\x\t--d", "  ", "", "--inspect\u{a0}--x\n--y", "single"] {
        let expected: Vec<String> = value.split_whitespace().map(|word| word.to_string()).collect();
        assert_eq!(split_node_options(value).ok().unwrap(), expected);
    }
}
