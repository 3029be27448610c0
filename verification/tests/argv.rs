use bunode::argv::{build_bun_args, build_repl_args, validate_script, BunMode, PathStyle};
use bunode::parser::{ExecutionPlan, NodeCommand};

fn strings(values: &[&str]) -> Vec<String> {
    values.iter().map(|value| value.to_string()).collect()
}

fn invocation(command: NodeCommand) -> ExecutionPlan {
    ExecutionPlan {
        argv0: "node".to_string(),
        command,
        exec_argv: Vec::new(),
        bun_options: strings(&["--conditions=node"]),
        common_js_preloads: Vec::new(),
        script_arguments: strings(&["--flag"]),
    }
}

#[test]
fn script_mode_should_use_bun_run_with_safe_defaults() {
    let invocation = invocation(NodeCommand::Script("script.js".to_string()));
    let args = build_bun_args(&invocation, &BunMode::Script("script.js".to_string()), "/tmp/preload.js", PathStyle::Posix);

    assert_eq!(
        args,
        strings(&["run", "--no-install", "--no-env-file", "--preload=/tmp/preload.js", "--conditions=node", "./script.js", "--", "--flag"]),
    );
    let args = build_bun_args(&invocation, &BunMode::Script("script.js".to_string()), "/tmp/preload.js", PathStyle::Windows);
    assert_eq!(args[5], r".\script.js");
}

#[test]
fn eval_mode_should_not_use_bun_run() {
    let invocation = invocation(NodeCommand::Eval("1 + 1".to_string()));
    let args = build_bun_args(&invocation, &BunMode::Eval("1 + 1".to_string()), "/tmp/preload.js", PathStyle::Posix);

    assert_eq!(
        args,
        strings(&["--no-install", "--no-env-file", "--preload=/tmp/preload.js", "--conditions=node", "-e", "1 + 1", "--", "--flag"]),
    );
}

#[test]
fn eval_mode_should_normalize_empty_code() {
    let eval_invocation = invocation(NodeCommand::Eval(String::new()));
    let eval_args = build_bun_args(&eval_invocation, &BunMode::Eval(String::new()), "/tmp/preload.js", PathStyle::Posix);

    assert_eq!(eval_args[5], "void 0");
}

#[test]
fn eval_mode_should_escape_user_delimiters() {
    let mut invocation = invocation(NodeCommand::Print("process.argv".to_string()));
    invocation.script_arguments = strings(&["a", "--", "b"]);
    let args = build_bun_args(&invocation, &BunMode::Eval("process.argv".to_string()), "/tmp/preload.js", PathStyle::Posix);

    assert_eq!(
        args,
        strings(&[
            "--no-install", "--no-env-file", "--preload=/tmp/preload.js", "--conditions=node", "-e", "process.argv", "--", "a", "--", "--", "b",
        ]),
    );
}

#[test]
fn eval_mode_should_escape_consecutive_user_delimiters_once() {
    let mut invocation = invocation(NodeCommand::Print("process.argv".to_string()));
    invocation.script_arguments = strings(&["--", "--", "b"]);
    let args = build_bun_args(&invocation, &BunMode::Eval("process.argv".to_string()), "/tmp/preload.js", PathStyle::Posix);

    assert_eq!(
        args,
        strings(&[
            "--no-install", "--no-env-file", "--preload=/tmp/preload.js", "--conditions=node", "-e", "process.argv", "--", "--", "--", "--", "b",
        ]),
    );
}

#[test]
fn repl_mode_should_forward_runtime_flags() {
    let invocation = invocation(NodeCommand::Direct);

    assert_eq!(build_repl_args(&invocation), strings(&["--conditions=node", "repl"]));
}

#[test]
fn validate_script_should_require_explicit_relative_path_for_dash_script() {
    let error = validate_script("--script.js", PathStyle::Posix).unwrap_err();

    assert_eq!(
        error.to_message(),
        "script `--script.js` starts with `-`; pass it with an explicit relative path like `./--script.js`.",
    );
    assert!(validate_script("-", PathStyle::Posix).is_ok());
    assert!(validate_script("-/x.js", PathStyle::Posix).is_ok());
}

#[test]
fn script_mode_should_prefix_unix_script_names_with_backslashes() {
    let invocation = invocation(NodeCommand::Script(r"foo\bar.js".to_string()));
    let args = build_bun_args(&invocation, &BunMode::Script(r"foo\bar.js".to_string()), "/tmp/preload.js", PathStyle::Posix);

    assert_eq!(args[5], r"./foo\bar.js");
}
