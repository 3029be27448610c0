use bunode::argv::PathStyle;
use bunode::cli::config::{Config, PrefixKind, PrefixRecord};
use bunode::cli::download::{normalize_version, npm_pack_args, packed_archive, platform_package};
use bunode::cli::prefix::{
    check_copy_target, check_downloaded_version, command_output, confirm_answer, confirmation, implode_outcome,
    lexical_absolute, list_lines, looks_version_managed, node_executable, outdated, plan_revert, prefix_from_node,
    reject_installed_prefix, same_path, sibling_copy, temporary_sibling, up_to_date_line, update_outcome, update_question, with_suffix,
    Confirmation,
};

fn record(path: &str, bunode_version: &str, kind: PrefixKind) -> PrefixRecord {
    PrefixRecord {
        path: path.to_string(),
        original_version: "v22.0.0".to_string(),
        bun_version: "1.2.3".to_string(),
        bunode_version: bunode_version.to_string(),
        kind,
    }
}

#[test]
fn cli_should_normalize_requested_versions() {
    assert_eq!(normalize_version(" bun-v1.2.3 ").ok().unwrap(), "1.2.3");
    assert_eq!(normalize_version("v1.2.3").ok().unwrap(), "1.2.3");
    assert_eq!(normalize_version("1.2.3-canary.1+abc").ok().unwrap(), "1.2.3-canary.1+abc");
    assert_eq!(normalize_version("v").err().unwrap().message, "invalid Bun version ``");
    assert_eq!(normalize_version("1.2/3").err().unwrap().message, "invalid Bun version `1.2/3`");
}

#[test]
fn cli_should_pick_platform_packages() {
    assert_eq!(platform_package("linux", "x86_64", false).ok().unwrap(), "@oven/bun-linux-x64");
    assert_eq!(platform_package("linux", "x86_64", true).ok().unwrap(), "@oven/bun-linux-x64-musl");
    assert_eq!(platform_package("macos", "aarch64", false).ok().unwrap(), "@oven/bun-darwin-aarch64");
    assert_eq!(platform_package("windows", "x86_64", false).ok().unwrap(), "@oven/bun-windows-x64");
    assert_eq!(
        platform_package("freebsd", "x86_64", false).err().unwrap().message,
        "Bun does not publish an npm binary for freebsd-x86_64",
    );
}

#[test]
fn cli_should_accept_only_plain_archive_names() {
    let names = |values: &[&str]| values.iter().map(|v| v.to_string()).collect::<Vec<_>>();

    assert_eq!(packed_archive("/tmp/p", &names(&["bun.tgz"]), PathStyle::Posix).ok().unwrap(), "/tmp/p/bun.tgz");
    assert_eq!(
        packed_archive("/tmp/p", &names(&[]), PathStyle::Posix).err().unwrap().message,
        "npm pack returned 0 packages instead of one",
    );
    assert_eq!(
        packed_archive("/tmp/p", &names(&["../x.tgz"]), PathStyle::Posix).err().unwrap().message,
        "npm pack returned an invalid archive filename",
    );
    assert!(packed_archive("/tmp/p", &names(&["/x.tgz"]), PathStyle::Posix).is_err());
    assert!(packed_archive("/tmp/p", &names(&[".."]), PathStyle::Posix).is_err());
    assert_eq!(
        npm_pack_args("@oven/bun-linux-x64", "1.2.3", "/tmp/p"),
        vec!["pack", "@oven/bun-linux-x64@1.2.3", "--json", "--ignore-scripts", "--pack-destination", "/tmp/p"],
    );
}

#[test]
fn cli_should_find_prefixes_of_node_executables() {
    assert_eq!(prefix_from_node("/opt/node/bin/node", PathStyle::Posix).ok().unwrap(), "/opt/node");
    assert_eq!(
        prefix_from_node("/opt/node/node", PathStyle::Posix).err().unwrap().message,
        "expected the Node.js executable under a bin directory, got /opt/node/node",
    );
    assert_eq!(prefix_from_node(r"C:\node\node.exe", PathStyle::Windows).ok().unwrap(), r"C:\node");
    assert_eq!(node_executable("/opt/node", PathStyle::Posix), "/opt/node/bin/node");
}

#[test]
fn cli_should_recognise_version_managed_prefixes() {
    assert!(looks_version_managed("/home/u/.nvm/versions/node/v22.0.0", "v22.0.0"));
    assert!(looks_version_managed("/opt/NODE-V22.0.0", "v22.0.0"));
    assert!(looks_version_managed("/opt/node-22.0.0", "v22.0.0"));
    assert!(!looks_version_managed("/usr/local", "v22.0.0"));
}

#[test]
fn cli_should_compare_prefixes_by_platform_rules() {
    assert!(same_path("/a/b/", "/a/b", PathStyle::Posix));
    assert!(!same_path("/A/b", "/a/b", PathStyle::Posix));
    assert!(same_path(r"C:\Node", r"c:\node", PathStyle::Windows));
}

#[test]
fn cli_should_check_copy_targets_and_installed_prefixes() {
    assert!(check_copy_target("/a", "/b", false, PathStyle::Posix).is_ok());
    assert_eq!(check_copy_target("/a", "/b", true, PathStyle::Posix).err().unwrap().message, "copy destination /b already exists");
    assert_eq!(
        check_copy_target("/a", "/a/b", false, PathStyle::Posix).err().unwrap().message,
        "copy destination cannot be inside the source prefix",
    );
    assert!(reject_installed_prefix("/a", false, false).is_ok());
    assert_eq!(
        reject_installed_prefix("/a", true, false).err().unwrap().message,
        "/a already contains a Bunode runtime; use `bunode revert` or repair it manually",
    );
    assert!(check_downloaded_version("1.2.3", "v1.2.3").is_ok());
    assert_eq!(
        check_downloaded_version("1.2.3", "1.2.4").err().unwrap().message,
        "requested Bun 1.2.3, but the package contains Bun 1.2.4",
    );
}

#[test]
fn cli_should_decide_confirmations() {
    assert!(matches!(confirmation("Go?", true, false), Confirmation::Accepted));
    assert!(matches!(confirmation("Go?", false, true), Confirmation::Ask));
    match confirmation("Go?", false, false) {
        Confirmation::Refused(error) => assert_eq!(error.message, "Go? Pass --yes to confirm."),
        _ => panic!("expected a refusal"),
    }
    assert!(confirm_answer(true).is_ok());
    assert_eq!(confirm_answer(false).err().unwrap().message, "operation cancelled");
}

#[test]
fn cli_should_trim_command_output() {
    assert_eq!(command_output("node", true, "exit status: 0", Ok(" v22.0.0\n".to_string()), "").ok().unwrap(), "v22.0.0");
    assert_eq!(
        command_output("node", false, "exit status: 1", Ok(String::new()), " boom \n").err().unwrap().message,
        "node exited with exit status: 1: boom",
    );
}

#[test]
fn cli_should_make_paths_absolute_lexically() {
    assert_eq!(lexical_absolute("x/../y/./z", "/work", PathStyle::Posix), "/work/y/z");
    assert_eq!(lexical_absolute("/a/../../b", "/work", PathStyle::Posix), "/b");
    assert_eq!(with_suffix("/real", &vec!["c".to_string(), "b".to_string()], PathStyle::Posix), "/real/b/c");
    assert_eq!(temporary_sibling("/p/bin/node", "new", 42, PathStyle::Posix), "/p/bin/.node.bunode.new.42");
}

#[test]
fn cli_should_plan_reverts_and_list_records() {
    let records = vec![record("/a", "0.1.0", PrefixKind::Modified), record("/b", "0.0.9", PrefixKind::Copied)];

    let plan = plan_revert(&records, "/b/", PathStyle::Posix).ok().unwrap();
    assert_eq!(plan.index, 1);
    assert_eq!(plan.question, "Revert /b and delete the copied prefix?");
    assert_eq!(plan_revert(&records, "/c", PathStyle::Posix).err().unwrap().message, "/c is not a recorded Bunode prefix");
    let lines = list_lines(&records, &vec![Some("v22.0.0+bun.1.2.3".to_string()), None]);
    assert_eq!(lines[0], "NODE\tBUN\tBUNODE\tORIGINAL\tTYPE\tPREFIX");
    assert_eq!(lines[1], "v22.0.0+bun.1.2.3\t1.2.3\t0.1.0\tv22.0.0\tmodified\t/a");
    assert_eq!(lines[2], "<broken>\t1.2.3\t0.0.9\tv22.0.0\tcopied\t/b");
    assert_eq!(list_lines(&Vec::new(), &Vec::new()), vec!["No managed Bunode prefixes."]);
}

#[test]
fn cli_should_revert_the_prefix_it_just_recorded() {
    let mut records = vec![record("/a", "0.1.0", PrefixKind::Modified), record("/b", "0.1.0", PrefixKind::Copied)];
    records.push(record("/opt/node", "0.1.0", PrefixKind::Modified));

    let plan = plan_revert(&records, "/opt/node", PathStyle::Posix).ok().unwrap();
    assert_eq!(plan.index, 2);
    assert_eq!(plan.question, "Revert /opt/node and restore its original Node.js executable?");

    let mut windows = vec![record("C:\\a", "0.1.0", PrefixKind::Copied)];
    windows.push(record("C:\\Node", "0.1.0", PrefixKind::Copied));
    let plan = plan_revert(&windows, "c:\\node", PathStyle::Windows).ok().unwrap();
    assert_eq!(plan.index, 1);
    assert_eq!(plan.question, "Revert C:\\Node and delete the copied prefix?");
}

#[test]
fn cli_should_keep_records_that_could_not_be_reverted() {
    let records = vec![record("/a", "0.1.0", PrefixKind::Modified), record("/b", "0.1.0", PrefixKind::Copied)];
    let outcome = implode_outcome(records, &vec![None, Some("busy".to_string())]);

    assert_eq!(outcome.remaining.len(), 1);
    assert_eq!(outcome.remaining[0].path, "/b");
    assert_eq!(outcome.lines, vec!["Reverted /a."]);
    assert_eq!(outcome.result.err().unwrap().message, "some prefixes could not be reverted:\n/b: busy");
}

#[test]
fn cli_should_update_only_outdated_prefixes() {
    let records = vec![
        record("/a", "0.1.0", PrefixKind::Modified),
        record("/b", "0.0.9", PrefixKind::Copied),
        record("/c", "0.0.8", PrefixKind::Copied),
    ];
    let indexes = outdated(&records, "0.1.0");
    assert_eq!(indexes, vec![1, 2]);
    let outcome = update_outcome(records, &indexes, &vec![None, Some("broken".to_string())], "0.1.0");

    assert_eq!(outcome.records[1].bunode_version, "0.1.0");
    assert_eq!(outcome.records[2].bunode_version, "0.0.8");
    assert_eq!(outcome.lines, vec!["Updated /b."]);
    assert_eq!(outcome.warnings, vec!["warning: update failed for /c: broken"]);
    assert_eq!(outcome.result.err().unwrap().message, "failed to update 1 prefix(es)");
}

#[test]
fn cli_should_word_its_update_messages() {
    assert_eq!(up_to_date_line("0.1.0"), "All managed prefixes already use Bunode 0.1.0.");
    assert_eq!(update_question(12, "0.1.0"), "Update 12 managed prefix(es) to Bunode 0.1.0?");
    assert_eq!(update_question(0, "1.0.0-rc.1"), "Update 0 managed prefix(es) to Bunode 1.0.0-rc.1?");
}

#[test]
fn cli_should_keep_its_files_in_the_home_directory() {
    let config = Config::discover(None, Some("/home/u".to_string()), PathStyle::Posix).ok().unwrap();

    assert_eq!(config.root, "/home/u/.bunode");
    assert_eq!(config.wrapper_template(PathStyle::Posix), "/home/u/.bunode/node");
    assert_eq!(config.state_path(PathStyle::Posix), "/home/u/.bunode/prefixes.json");
    assert_eq!(Config::discover(Some("/x".to_string()), None, PathStyle::Posix).ok().unwrap().root, "/x");
    assert_eq!(
        Config::discover(None, None, PathStyle::Posix).err().unwrap().message,
        "could not determine the user home directory",
    );
    assert_eq!(PrefixKind::Copied.label(), "copied");
}

#[test]
fn cli_should_name_sibling_copies_after_the_wrapper_version() {
    assert_eq!(
        sibling_copy("/r/node/22.0.0", "v24.3.0+bun.1.2.3", PathStyle::Posix).ok().unwrap(),
        "/r/node/24.3.0+bun.1.2.3"
    );
    assert_eq!(
        sibling_copy(r"C:\nvm\v22.0.0", "v24.3.0+bun.1.2.3", PathStyle::Windows).ok().unwrap(),
        r"C:\nvm\24.3.0+bun.1.2.3"
    );
    assert_eq!(
        sibling_copy("/r/node/22.0.0", "v1/2", PathStyle::Posix).err().unwrap().message,
        "the Bunode wrapper reported an unusable version `v1/2`"
    );
    assert_eq!(
        sibling_copy("/r/node/22.0.0", "v", PathStyle::Posix).err().unwrap().message,
        "the Bunode wrapper reported an unusable version `v`"
    );
    assert_eq!(sibling_copy("/", "v24.3.0", PathStyle::Posix).err().unwrap().message, "cannot place a copy next to /");
}
