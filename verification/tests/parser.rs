use bunode::env_file::{EnvFileStatus, EnvFiles};
use bunode::error::BunodeError;
use bunode::options::option_shape_for_bun;
use bunode::parser::{parse, ExecutionPlan, NodeCommand, ParseStop};

fn strings(values: &[&str]) -> Vec<String> {
    values.iter().map(|value| value.to_string()).collect()
}

/// What the test's env files hold: the listed ones, every other path missing.
fn env_file_status(disk: &[(&str, &str)], path: &str) -> EnvFileStatus {
    match disk.iter().find(|(name, _)| *name == path) {
        Some((_, contents)) => EnvFileStatus::Contents(contents.to_string()),
        None => EnvFileStatus::Missing,
    }
}

fn run_parse(args: &[&str], node_options: Option<&str>) -> Result<ExecutionPlan, BunodeError> {
    run_parse_with_files(args, node_options, &[])
}

fn run_parse_with_files(args: &[&str], node_options: Option<&str>, disk: &[(&str, &str)]) -> Result<ExecutionPlan, BunodeError> {
    let shape = option_shape_for_bun(1, 3, 14);
    let args = strings(args);
    let mut files = EnvFiles::new();
    loop {
        match parse(&args, node_options.map(|value| value.to_string()), &shape, &files) {
            Ok(plan) => return Ok(plan),
            Err(ParseStop::Error(error)) => return Err(error),
            Err(ParseStop::NeedEnvFile(path)) => {
                let status = env_file_status(disk, &path);
                files.insert(path, status);
            },
        }
    }
}

fn parse_cli(args: &[&str]) -> Result<ExecutionPlan, BunodeError> {
    run_parse(args, None)
}

fn parse_with_node_options(args: &[&str], node_options: &str) -> Result<ExecutionPlan, BunodeError> {
    run_parse(args, Some(node_options))
}

fn plan(command: NodeCommand, exec_argv: &[&str], bun_options: &[&str], script_arguments: &[&str]) -> ExecutionPlan {
    ExecutionPlan {
        argv0: "node".to_string(),
        command,
        exec_argv: strings(exec_argv),
        bun_options: strings(bun_options),
        common_js_preloads: Vec::new(),
        script_arguments: strings(script_arguments),
    }
}

#[test]
fn mod_parse_should_keep_script_arguments_after_script_operand() -> Result<(), BunodeError> {
    let options = parse_cli(&["node", "--inspect", "script.js", "--help", "--flag"])?;

    assert_eq!(
        options,
        plan(NodeCommand::Script("script.js".to_string()), &["--inspect"], &["--inspect=127.0.0.1:9229"], &["--help", "--flag"]),
    );

    Ok(())
}

#[test]
fn mod_parse_should_keep_inspect_value_before_script_operand() -> Result<(), BunodeError> {
    let options = parse_cli(&["node", "--inspect=127.0.0.1:9229", "script.js"])?;

    assert_eq!(
        options,
        plan(NodeCommand::Script("script.js".to_string()), &["--inspect=127.0.0.1:9229"], &["--inspect=127.0.0.1:9229"], &[]),
    );

    Ok(())
}

#[test]
fn mod_parse_should_treat_double_dash_as_end_of_bunode_options() -> Result<(), BunodeError> {
    let options = parse_cli(&["node", "--", "--script.js", "--help"])?;

    assert_eq!(options, plan(NodeCommand::Script("--script.js".to_string()), &[], &[], &["--help"]));

    Ok(())
}

#[test]
fn mod_parse_should_treat_empty_script_operand_as_stdin_argument() -> Result<(), BunodeError> {
    let options = parse_cli(&["node", "--", "", "arg"])?;

    assert_eq!(options, plan(NodeCommand::Direct, &[], &[], &["", "arg"]));

    Ok(())
}

#[test]
fn mod_parse_should_treat_eval_operands_as_arguments() -> Result<(), BunodeError> {
    let options = parse_cli(&["node", "-p", "process.argv.slice(1)", "first", "--second"])?;

    assert_eq!(
        options,
        plan(
            NodeCommand::Print("process.argv.slice(1)".to_string()),
            &["-p", "process.argv.slice(1)"],
            &[],
            &["first", "--second"],
        ),
    );

    Ok(())
}

#[test]
fn mod_parse_should_continue_options_after_print_expression() -> Result<(), BunodeError> {
    let options = parse_cli(&["node", "-p", "process.argv.slice(1)", "--conditions=custom", "first"])?;

    assert_eq!(
        options,
        plan(
            NodeCommand::Print("process.argv.slice(1)".to_string()),
            &["-p", "process.argv.slice(1)", "--conditions=custom"],
            &["--conditions=custom"],
            &["first"],
        ),
    );

    Ok(())
}

#[test]
fn mod_parse_should_let_later_print_operand_replace_earlier_inline_command() -> Result<(), BunodeError> {
    let options = parse_cli(&["node", "-e", "\"eval\"", "-p", "\"print\""])?;

    assert_eq!(options.command, NodeCommand::Print("\"print\"".to_string()));

    let options = parse_cli(&["node", "-p", "\"a\"", "-p", "\"b\""])?;

    assert_eq!(options.command, NodeCommand::Print("\"b\"".to_string()));

    Ok(())
}

#[test]
fn mod_parse_should_prefer_version_over_help() -> Result<(), BunodeError> {
    let options = parse_cli(&["node", "--help", "--version"])?;

    assert_eq!(options.command, NodeCommand::Version);

    let options = parse_cli(&["node", "--version", "--help"])?;

    assert_eq!(options.command, NodeCommand::Version);

    Ok(())
}

#[test]
fn parser_parse_should_prefer_version_over_help() -> Result<(), BunodeError> {
    let options = parse_cli(&["node", "--help", "--version"])?;

    assert_eq!(options.command, NodeCommand::Version);

    let options = parse_cli(&["node", "--version", "--help"])?;

    assert_eq!(options.command, NodeCommand::Version);

    Ok(())
}

#[test]
fn mod_parse_should_defer_print_without_expression_to_stdin() -> Result<(), BunodeError> {
    let options = parse_cli(&["node", "-p"])?;

    assert_eq!(options.command, NodeCommand::PrintStdin);
    assert_eq!(options.exec_argv, strings(&["-p"]));

    Ok(())
}

#[test]
fn mod_parse_should_treat_dash_print_operand_as_stdin_argument() -> Result<(), BunodeError> {
    let options = parse_cli(&["node", "-p", "-", "arg"])?;

    assert_eq!(options, plan(NodeCommand::PrintStdin, &["-p"], &[], &["-", "arg"]));

    Ok(())
}

#[test]
fn mod_parse_should_treat_print_after_double_dash_as_script() -> Result<(), BunodeError> {
    let options = parse_cli(&["node", "-p", "--", "script.js", "--flag"])?;

    assert_eq!(options, plan(NodeCommand::Script("script.js".to_string()), &["-p"], &[], &["--flag"]));

    Ok(())
}

#[test]
fn mod_parse_should_treat_print_operand_after_option_as_script() -> Result<(), BunodeError> {
    let options = parse_cli(&["node", "-p", "--conditions", "custom", "script.js", "--flag"])?;

    assert_eq!(
        options,
        plan(
            NodeCommand::Script("script.js".to_string()),
            &["-p", "--conditions", "custom"],
            &["--conditions=custom"],
            &["--flag"],
        ),
    );

    Ok(())
}

#[test]
fn mod_parse_should_support_print_eval_shortcut() -> Result<(), BunodeError> {
    let options = parse_cli(&["node", "-pe", "1 + 1"])?;

    assert_eq!(options, plan(NodeCommand::Print("1 + 1".to_string()), &["-pe", "1 + 1"], &[], &[]));

    Ok(())
}

#[test]
fn mod_parse_should_translate_node_options_before_cli_options() -> Result<(), BunodeError> {
    let options = parse_with_node_options(&["node", "--conditions", "cli", "script.js"], "--conditions env")?;

    assert_eq!(
        options,
        plan(
            NodeCommand::Script("script.js".to_string()),
            &["--conditions", "cli"],
            &["--conditions=env", "--conditions=cli"],
            &[],
        ),
    );

    Ok(())
}

#[test]
fn mod_parse_should_reject_command_options_from_node_options() {
    let error = parse_with_node_options(&["node"], "--eval 1").unwrap_err();

    assert_eq!(error.to_message(), "`--eval` is not allowed in NODE_OPTIONS");
}

#[test]
fn mod_parse_should_reject_env_file_from_node_options() {
    let error = parse_with_node_options(&["node"], "--env-file .env").unwrap_err();

    assert_eq!(error.to_message(), "`--env-file` is not allowed in NODE_OPTIONS");
}

#[test]
fn mod_parse_should_reject_attached_short_values() {
    let error = parse_cli(&["node", "-econsole.log(1)"]).unwrap_err();

    assert_eq!(error.to_message(), "unsupported Node.js option `-econsole.log(1)`");
}

#[test]
fn parser_parse_should_reject_attached_short_values() {
    let error = parse_cli(&["node", "-econsole.log(1)"]).unwrap_err();

    assert_eq!(error.print_line(), "bunode: unsupported Node.js option `-econsole.log(1)`");
}

#[test]
fn mod_parse_should_reject_short_equals_values() {
    let error = parse_cli(&["node", "-p=e"]).unwrap_err();

    assert_eq!(error.to_message(), "unsupported Node.js option `-p=e`");
}

#[test]
fn parser_parse_should_reject_short_equals_values() {
    let error = parse_cli(&["node", "-p=e"]).unwrap_err();

    assert_eq!(error.print_line(), "bunode: unsupported Node.js option `-p=e`");
}

#[test]
fn mod_parse_should_reject_missing_option_value_before_next_flag() {
    let error = parse_cli(&["node", "--require", "--eval", "0"]).unwrap_err();

    assert_eq!(error.to_message(), "option `--require` requires a value");
}

#[test]
fn parser_parse_should_reject_missing_option_value_before_next_flag() {
    let error = parse_cli(&["node", "--require", "--eval", "0"]).unwrap_err();

    assert_eq!(error.print_line(), "bunode: option `--require` requires a value");
}

#[test]
fn mod_parse_should_reject_empty_inline_required_value() {
    let error = parse_cli(&["node", "--eval="]).unwrap_err();

    assert_eq!(error.to_message(), "option `--eval` requires a value");
}

#[test]
fn parser_parse_should_reject_empty_inline_required_value() {
    let error = parse_cli(&["node", "--eval="]).unwrap_err();

    assert_eq!(error.print_line(), "bunode: option `--eval` requires a value");
}

#[test]
fn mod_parse_should_reject_empty_inline_optional_value() {
    let error = parse_cli(&["node", "--inspect="]).unwrap_err();

    assert_eq!(error.to_message(), "option `--inspect` requires a value");
}

#[test]
fn parser_parse_should_reject_empty_inline_optional_value() {
    let error = parse_cli(&["node", "--inspect="]).unwrap_err();

    assert_eq!(error.print_line(), "bunode: option `--inspect` requires a value");
}

#[test]
fn mod_parse_should_validate_env_file_before_early_exit() {
    let error = parse_cli(&["node", "--env-file", "missing-bunode-env-file.env", "--version"]).unwrap_err();

    assert_eq!(error.to_message(), "missing-bunode-env-file.env: not found");
}

#[test]
fn parser_parse_should_validate_env_file_before_early_exit() {
    let error = parse_cli(&["node", "--env-file", "missing-bunode-env-file.env", "--version"]).unwrap_err();

    assert_eq!(error.print_line(), "bunode: missing-bunode-env-file.env: not found");
}

#[test]
fn mod_parse_should_hide_bunode_options_from_exec_argv() -> Result<(), BunodeError> {
    let options = parse_cli(&["node", "--bun-smol", "--conditions", "cli", "-e", "0"])?;

    assert_eq!(options.exec_argv, strings(&["--conditions", "cli", "-e", "0"]));

    Ok(())
}

#[test]
fn mod_parse_should_run_common_js_preloads_before_es_module_imports() -> Result<(), BunodeError> {
    let options = parse_cli(&["node", "--import", "./esm.mjs", "--require", "./cjs.cjs", "-e", "0"])?;

    assert_eq!(options.common_js_preloads, strings(&["./cjs.cjs"]));
    assert_eq!(options.bun_options, strings(&["--preload=./esm.mjs"]));

    Ok(())
}

#[test]
fn mod_parse_should_run_node_options_preloads_before_bun_preloads() -> Result<(), BunodeError> {
    let options = parse_with_node_options(&["node", "--bun-preload", "./cli.js", "-e", "0"], "--require ./env.cjs")?;

    assert_eq!(options.common_js_preloads, strings(&["./env.cjs"]));
    assert_eq!(options.bun_options, strings(&["--preload=./cli.js"]));

    Ok(())
}

#[test]
fn parse_should_reject_data_url_imports() {
    let error = parse_cli(&["node", "--import", "DATA:text/javascript,globalThis.loaded=1", "-e", "0"]).unwrap_err();

    assert_eq!(error.to_message(), "data URL imports passed to --import are not supported");
}

#[test]
fn mod_parse_should_skip_builtin_preloads() -> Result<(), BunodeError> {
    let options = parse_cli(&["node", "--import", "node:fs", "--require", "fs", "-e", "0"])?;

    assert_eq!(options.exec_argv, strings(&["--import", "node:fs", "--require", "fs", "-e", "0"]));
    assert_eq!(options.bun_options, Vec::<String>::new());
    assert_eq!(options.common_js_preloads, Vec::<String>::new());

    Ok(())
}

#[test]
fn mod_parse_should_translate_node_options_from_env_file() -> Result<(), BunodeError> {
    let path = "bunode-node-options.env";
    let disk = [(path, "NODE_OPTIONS=\"--conditions from-env\"\n")];

    let options = run_parse_with_files(&["node", "--env-file", path, "--conditions", "cli", "-e", "0"], None, &disk)?;

    assert_eq!(
        options.bun_options,
        vec!["--conditions=from-env".to_string(), format!("--env-file={path}"), "--conditions=cli".to_string()],
    );

    Ok(())
}

#[test]
fn mod_parse_should_not_read_node_options_from_bun_env_file() -> Result<(), BunodeError> {
    let path = "bunode-bun-env-file.env";
    let disk = [(path, "NODE_OPTIONS=\"--eval 1\"\n")];

    let options = run_parse_with_files(&["node", "--bun-env-file", path, "-e", "0"], None, &disk)?;

    assert_eq!(options.bun_options, vec![format!("--env-file={path}")]);

    Ok(())
}

#[test]
fn mod_parse_should_not_read_env_file_node_options_when_real_node_options_exists() -> Result<(), BunodeError> {
    let path = "bunode-real-node-options.env";
    let disk = [(path, "NODE_OPTIONS=\"--bad\n")];

    let options = run_parse_with_files(&["node", "--env-file", path, "-e", "0"], Some("--conditions x"), &disk)?;

    assert_eq!(options.bun_options, vec!["--conditions=x".to_string(), format!("--env-file={path}")]);

    Ok(())
}

#[test]
fn mod_parse_should_keep_double_quoted_node_options_value() -> Result<(), BunodeError> {
    let options = parse_with_node_options(&["node", "-e", "0"], "--require \"./with space.js\"")?;

    assert_eq!(options.bun_options, Vec::<String>::new());
    assert_eq!(options.common_js_preloads, strings(&["./with space.js"]));

    Ok(())
}

#[test]
fn mod_parse_should_keep_single_quotes_as_node_options_literal() -> Result<(), BunodeError> {
    let options = parse_with_node_options(&["node", "-e", "0"], "--require './preload.js'")?;

    assert_eq!(options.bun_options, Vec::<String>::new());
    assert_eq!(options.common_js_preloads, strings(&["'./preload.js'"]));

    Ok(())
}

#[test]
fn mod_parse_should_preserve_node_options_backslashes() -> Result<(), BunodeError> {
    let options = parse_with_node_options(&["node", "-e", "0"], r"--require C:\tmp\preload.js")?;

    assert_eq!(options.bun_options, Vec::<String>::new());
    assert_eq!(options.common_js_preloads, strings(&[r"C:\tmp\preload.js"]));

    Ok(())
}

#[test]
fn mod_parse_should_keep_escaped_double_quote_in_node_options() -> Result<(), BunodeError> {
    let options = parse_with_node_options(&["node", "-e", "0"], r#"--require "./x\" y.js""#)?;

    assert_eq!(options.bun_options, Vec::<String>::new());
    assert_eq!(options.common_js_preloads, strings(&[r#"./x" y.js"#]));

    Ok(())
}

#[test]
fn parser_should_refuse_operands_and_double_dash_in_node_options() {
    let error = parse_with_node_options(&["node"], "script.js").unwrap_err();
    assert_eq!(error.to_message(), "`script.js` is not allowed in NODE_OPTIONS");
    let error = parse_with_node_options(&["node"], "--").unwrap_err();
    assert_eq!(error.to_message(), "`--` is not allowed in NODE_OPTIONS");
    let error = parse_with_node_options(&["node"], "--bun-smol").unwrap_err();
    assert_eq!(error.to_message(), "`--bun-smol` is not allowed in NODE_OPTIONS");
}

#[test]
fn parser_should_refuse_unknown_options_and_node_inspect() {
    let error = parse_cli(&["node", "--no-such-option"]).unwrap_err();
    assert_eq!(error.to_message(), "unsupported Node.js option `--no-such-option`");
    let error = parse_cli(&["node", "inspect", "x.js"]).unwrap_err();
    assert!(error.to_message().starts_with("`node inspect` is not supported"));
    assert_eq!(error.exit_code(), 9);
}
