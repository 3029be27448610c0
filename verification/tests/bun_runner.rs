use bunode::argv::PathStyle;
use bunode::bun::{bun_binary_directory, path};
use bunode::bun_runner::{build_script_args, normalize_script_path, resolve_path, script_exit_code};

fn strings(values: &[&str]) -> Vec<String> {
    values.iter().map(|value| value.to_string()).collect()
}

#[test]
fn build_script_args_should_passthrough_script_arguments() {
    let args = build_script_args("script.js".to_string(), strings(&["--help", "--flag"]), PathStyle::Posix);

    assert_eq!(args, strings(&["run", "--no-install", "--no-env-file", "./script.js", "--help", "--flag"]));
}

#[test]
fn bun_runner_should_keep_paths_and_stdin() {
    assert_eq!(normalize_script_path("-".to_string(), PathStyle::Posix), "-");
    assert_eq!(normalize_script_path("dir/script.js".to_string(), PathStyle::Posix), "dir/script.js");
    assert_eq!(normalize_script_path("/abs.js".to_string(), PathStyle::Posix), "/abs.js");
    assert_eq!(normalize_script_path("script.js".to_string(), PathStyle::Windows), r".\script.js");
    assert_eq!(normalize_script_path("script.js/".to_string(), PathStyle::Posix), "./script.js/");
}

#[test]
fn bun_runner_should_map_exit_codes() {
    assert_eq!(script_exit_code(Some(0)), 0);
    assert_eq!(script_exit_code(Some(255)), 255);
    assert_eq!(script_exit_code(Some(256)), 1);
    assert_eq!(script_exit_code(Some(-1)), 1);
    assert_eq!(script_exit_code(None), 1);
}

#[test]
fn bun_should_live_beside_the_wrapper() {
    assert_eq!(path("/opt/bunode/bin/node", PathStyle::Posix).unwrap(), "/opt/bunode/bin/../bun/bun");
    assert_eq!(path(r"C:\bunode\node.exe", PathStyle::Windows).unwrap(), r"C:\bunode\bun\bun.exe");
    assert_eq!(bun_binary_directory("/opt/bunode/bin/node", PathStyle::Posix).unwrap(), "/opt/bunode/bin/../bun");
    assert_eq!(resolve_path("/opt/x/node", PathStyle::Posix).unwrap(), "/opt/x/../bun/bun");
    let error = path("/", PathStyle::Posix).err().unwrap();
    assert_eq!(error.to_message(), "Bun binary not found.");
    assert!(resolve_path("", PathStyle::Posix).is_none());
}
