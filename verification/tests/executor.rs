use bunode::argv::{BunMode, PathStyle};
use bunode::executor::{add_common_js_wrappers, exit_code_from_status, select_launch, Launch};
use bunode::parser::{ExecutionPlan, NodeCommand};

fn plan(command: NodeCommand) -> ExecutionPlan {
    ExecutionPlan {
        argv0: "node".to_string(),
        command,
        exec_argv: Vec::new(),
        bun_options: vec!["--preload=./esm.mjs".to_string()],
        common_js_preloads: vec!["./cjs.cjs".to_string()],
        script_arguments: vec!["a".to_string()],
    }
}

#[test]
fn executor_should_select_modes() {
    assert!(matches!(select_launch(&plan(NodeCommand::Help), false, PathStyle::Posix).ok().unwrap(), Launch::Help));
    assert!(matches!(
        select_launch(&plan(NodeCommand::Direct), true, PathStyle::Posix).ok().unwrap(),
        Launch::Bun { mode: BunMode::Repl, .. }
    ));
    match select_launch(&plan(NodeCommand::Script("-".to_string())), false, PathStyle::Posix).ok().unwrap() {
        Launch::Bun { invocation, mode: BunMode::Eval(_) } => assert_eq!(invocation.script_arguments, vec!["-", "a"]),
        _ => panic!("expected stdin evaluation"),
    }
    assert!(select_launch(&plan(NodeCommand::Script("-x.js".to_string())), false, PathStyle::Posix).is_err());
}

#[test]
fn executor_should_put_common_js_wrappers_first() {
    let with = add_common_js_wrappers(&plan(NodeCommand::Direct), &vec!["/tmp/w.cjs".to_string()]);

    assert_eq!(with.bun_options, vec!["--preload=/tmp/w.cjs", "--preload=./esm.mjs"]);
}

#[test]
fn executor_should_map_exit_statuses() {
    assert_eq!(exit_code_from_status(Some(3), None), 3);
    assert_eq!(exit_code_from_status(None, Some(9)), 137);
    assert_eq!(exit_code_from_status(Some(300), None), 255);
    assert_eq!(exit_code_from_status(Some(-2), None), 0);
    assert_eq!(exit_code_from_status(None, None), 1);
}
