use bunode::argv::PathStyle;
use bunode::cli::args::PatchOptions;
use bunode::cli::config::PrefixKind;
use bunode::cli::patch::{Outcome, PatchAction, PatchMachine};

fn options(copy_to: Option<&str>, yes: bool) -> PatchOptions {
    PatchOptions { version: "1.2.3".to_string(), prefix: None, copy_to: copy_to.map(|v| v.to_string()), yes }
}

fn start(options: PatchOptions, managed: Vec<String>) -> (PatchMachine, PatchAction) {
    PatchMachine::start(options, managed, "/home/u/.bunode".to_string(), "/home/u/.bunode/node".to_string(), "0.1.0".to_string(), 7, PathStyle::Posix)
}

#[test]
fn patch_should_modify_a_prefix_in_place_and_clean_up() {
    let (m, a) = start(options(None, true), Vec::new());
    assert!(matches!(a, PatchAction::ResolveSource(None)));
    let (m, a) = m.step(Outcome::Text("/opt/node".to_string()));
    assert!(matches!(a, PatchAction::ValidateNode(ref p) if p == "/opt/node/bin/node"));
    let (m, a) = m.step(Outcome::Done);
    assert!(matches!(a, PatchAction::CheckInstalled { ref old_node, .. } if old_node == "/opt/node/bun/node.old"));
    let (m, a) = m.step(Outcome::Flags(false, false));
    assert!(matches!(a, PatchAction::ReadNodeVersion(_)));
    let (m, a) = m.step(Outcome::Text("v22.0.0".to_string()));
    assert!(matches!(a, PatchAction::CheckFile(ref p) if p == "/home/u/.bunode/node"));
    let (m, a) = m.step(Outcome::Flags(true, false));
    assert!(matches!(a, PatchAction::CreateDirectory(_)));
    let (m, a) = m.step(Outcome::Done);
    assert!(matches!(a, PatchAction::Download { ref destination, .. } if destination == "/home/u/.bunode/.bun-download-7"));
    let (m, a) = m.step(Outcome::Done);
    assert!(matches!(a, PatchAction::ReadOutput { .. }));
    let (m, a) = m.step(Outcome::Text("1.2.3".to_string()));
    assert!(matches!(a, PatchAction::ReadOutput { .. }));
    let (m, a) = m.step(Outcome::Text("v22.0.0".to_string()));
    assert!(matches!(a, PatchAction::Install { ref prefix, .. } if prefix == "/opt/node"));
    let (m, a) = m.step(Outcome::Done);
    match &a {
        PatchAction::Save(record) => {
            assert_eq!(record.path, "/opt/node");
            assert_eq!(record.original_version, "v22.0.0");
            assert_eq!(record.bun_version, "1.2.3");
            assert_eq!(record.bunode_version, "0.1.0");
            assert_eq!(record.kind, PrefixKind::Modified);
        },
        _ => panic!("expected the record to be saved"),
    }
    let (m, a) = m.step(Outcome::Done);
    assert!(matches!(a, PatchAction::Print(ref line) if line == "Patched /opt/node with Bun 1.2.3."));
    let (m, a) = m.step(Outcome::Done);
    assert!(matches!(a, PatchAction::RemoveFile(ref p) if p == "/home/u/.bunode/.bun-download-7"));
    let (_, a) = m.step(Outcome::Done);
    assert!(matches!(a, PatchAction::Finish(Ok(()))));
}

#[test]
fn patch_should_refuse_managed_prefixes_and_bad_versions() {
    let (m, _) = start(options(None, true), vec!["/opt/node/".to_string()]);
    let (m, _) = m.step(Outcome::Text("/opt/node".to_string()));
    let (_, a) = m.step(Outcome::Done);
    match a {
        PatchAction::Finish(Err(e)) => assert_eq!(e.message, "/opt/node is already a managed Bunode prefix"),
        _ => panic!("expected a refusal"),
    }
    let (_, a) = start(PatchOptions { version: "1.2/3".to_string(), ..options(None, true) }, Vec::new());
    match a {
        PatchAction::Finish(Err(e)) => assert_eq!(e.message, "invalid Bun version `1.2/3`"),
        _ => panic!("expected a refusal"),
    }
}

#[test]
fn patch_should_remove_the_download_when_bun_does_not_match() {
    let (m, _) = start(options(None, true), Vec::new());
    let (m, _) = m.step(Outcome::Text("/opt/node".to_string()));
    let (m, _) = m.step(Outcome::Done);
    let (m, _) = m.step(Outcome::Flags(false, false));
    let (m, _) = m.step(Outcome::Text("v22.0.0".to_string()));
    let (m, _) = m.step(Outcome::Flags(true, false));
    let (m, _) = m.step(Outcome::Done);
    let (m, _) = m.step(Outcome::Done);
    let (m, a) = m.step(Outcome::Text("1.2.4".to_string()));
    assert!(matches!(a, PatchAction::RemoveFile(_)));
    let (_, a) = m.step(Outcome::Done);
    match a {
        PatchAction::Finish(Err(e)) => assert_eq!(e.message, "requested Bun 1.2.3, but the package contains Bun 1.2.4"),
        _ => panic!("expected a refusal"),
    }
}

#[test]
fn patch_should_ask_before_copying_and_roll_back_a_failed_copy() {
    let (m, _) = start(options(Some("/copy"), false), Vec::new());
    let (m, _) = m.step(Outcome::Text("/opt/node".to_string()));
    let (m, _) = m.step(Outcome::Done);
    let (m, _) = m.step(Outcome::Flags(false, false));
    let (m, a) = m.step(Outcome::Text("v22.0.0".to_string()));
    assert!(matches!(a, PatchAction::ResolveTarget(ref p) if p == "/copy"));
    let (m, a) = m.step(Outcome::Text("/copy".to_string()));
    assert!(matches!(a, PatchAction::CheckExists(_)));
    let (m, _) = m.step(Outcome::Flags(false, false));
    let (m, _) = m.step(Outcome::Flags(true, false));
    let (m, _) = m.step(Outcome::Done);
    let (m, _) = m.step(Outcome::Done);
    let (m, _) = m.step(Outcome::Text("1.2.3".to_string()));
    let (m, a) = m.step(Outcome::Text("v24.0.0".to_string()));
    assert!(matches!(a, PatchAction::Confirm(ref q)
        if q == "Bun 1.2.3 reports Node.js v24.0.0, but the prefix uses v22.0.0. Continue?"));
    let (m, a) = m.step(Outcome::Flags(true, true));
    assert!(matches!(a, PatchAction::Confirm(ref q) if q == "Install Bunode into /copy?"));
    let (m, a) = m.step(Outcome::Flags(true, true));
    assert!(matches!(a, PatchAction::CopyTree { .. }));
    let (m, a) = m.step(Outcome::Failed("disk full".to_string()));
    assert!(matches!(a, PatchAction::RemoveTree(ref p) if p == "/copy"));
    let (m, a) = m.step(Outcome::Done);
    assert!(matches!(a, PatchAction::RemoveFile(_)));
    let (_, a) = m.step(Outcome::Done);
    match a {
        PatchAction::Finish(Err(e)) => assert_eq!(e.message, "disk full"),
        _ => panic!("expected the copy failure"),
    }
}

#[test]
fn patch_should_refuse_without_a_terminal() {
    let (m, _) = start(options(None, false), Vec::new());
    let (m, _) = m.step(Outcome::Text("/home/u/.nvm/versions/node/v22.0.0".to_string()));
    let (m, _) = m.step(Outcome::Done);
    let (m, _) = m.step(Outcome::Flags(false, false));
    let (m, _) = m.step(Outcome::Text("v22.0.0".to_string()));
    let (m, _) = m.step(Outcome::Flags(true, false));
    let (m, _) = m.step(Outcome::Done);
    let (m, _) = m.step(Outcome::Done);
    let (m, _) = m.step(Outcome::Text("v1.2.3".to_string()));
    let (m, a) = m.step(Outcome::Text("v22.0.0".to_string()));
    assert!(matches!(a, PatchAction::Confirm(ref q) if q.ends_with("looks managed by a Node.js version manager. Modify it in place? (Use --copy <path> to keep it unchanged.)")));
    let (m, a) = m.step(Outcome::Flags(false, false));
    assert!(matches!(a, PatchAction::RemoveFile(_)));
    let (_, a) = m.step(Outcome::Done);
    match a {
        PatchAction::Finish(Err(e)) => assert!(e.message.ends_with("Pass --yes to confirm.")),
        _ => panic!("expected a refusal"),
    }
}

#[test]
fn cli_should_copy_version_managed_prefix_when_in_place_change_is_declined() {
    let prefix = "/tmp/root/js_runtime/node/22.0.0";
    let (m, _) = start(options(None, false), Vec::new());
    let (m, _) = m.step(Outcome::Text(prefix.to_string()));
    let (m, _) = m.step(Outcome::Done);
    let (m, _) = m.step(Outcome::Flags(false, false));
    let (m, _) = m.step(Outcome::Text("v22.0.0".to_string()));
    let (m, _) = m.step(Outcome::Flags(true, false));
    let (m, _) = m.step(Outcome::Done);
    let (m, _) = m.step(Outcome::Done);
    let (m, _) = m.step(Outcome::Text("1.2.3".to_string()));
    let (m, a) = m.step(Outcome::Text("v24.3.0".to_string()));
    assert!(matches!(a, PatchAction::Confirm(ref q) if q == "Bun 1.2.3 reports Node.js v24.3.0, but the prefix uses v22.0.0. Continue?"));
    let (m, a) = m.step(Outcome::Flags(true, true));
    assert!(matches!(a, PatchAction::Confirm(ref q) if q.starts_with(prefix) && q.contains("Modify it in place?")));

    // Declining the in-place change reads the wrapper's version to name a sibling copy.
    let (m, a) = m.step(Outcome::Flags(true, false));
    match &a {
        PatchAction::ReadOutput { command, args } => {
            assert_eq!(command, "/home/u/.bunode/node");
            assert_eq!(args, &vec!["-v".to_string()]);
        },
        _ => panic!("expected the wrapper's version to be read"),
    }
    let target = "/tmp/root/js_runtime/node/24.3.0+bun.1.2.3";
    let (m, a) = m.step(Outcome::Text("v24.3.0+bun.1.2.3".to_string()));
    assert!(matches!(a, PatchAction::CheckExists(ref p) if p == target));
    let (m, a) = m.step(Outcome::Flags(false, false));
    assert!(matches!(a, PatchAction::CopyTree { ref source, target: ref t } if source == prefix && t == target));
    let (m, a) = m.step(Outcome::Done);
    assert!(matches!(a, PatchAction::Canonicalize(ref p) if p == target));
    let (m, a) = m.step(Outcome::Text(target.to_string()));
    assert!(matches!(a, PatchAction::Install { ref prefix, .. } if prefix == target));
    let (_, a) = m.step(Outcome::Done);
    match &a {
        PatchAction::Save(record) => {
            assert_eq!(record.path, target);
            assert_eq!(record.kind, PrefixKind::Copied);
        },
        _ => panic!("expected the copy to be recorded"),
    }
}

#[test]
fn patch_should_refuse_an_existing_sibling_copy() {
    let prefix = "/versions/node/v22.0.0";
    let (m, _) = start(options(None, false), Vec::new());
    let (m, _) = m.step(Outcome::Text(prefix.to_string()));
    let (m, _) = m.step(Outcome::Done);
    let (m, _) = m.step(Outcome::Flags(false, false));
    let (m, _) = m.step(Outcome::Text("v22.0.0".to_string()));
    let (m, _) = m.step(Outcome::Flags(true, false));
    let (m, _) = m.step(Outcome::Done);
    let (m, _) = m.step(Outcome::Done);
    let (m, _) = m.step(Outcome::Text("1.2.3".to_string()));
    let (m, _) = m.step(Outcome::Text("v22.0.0".to_string()));
    let (m, _) = m.step(Outcome::Flags(true, false));
    let (m, _) = m.step(Outcome::Text("v22.0.0+bun.1.2.3".to_string()));
    let (m, a) = m.step(Outcome::Flags(true, false));
    assert!(matches!(a, PatchAction::RemoveFile(_)));
    let (_, a) = m.step(Outcome::Done);
    match a {
        PatchAction::Finish(Err(e)) => assert_eq!(e.message, "copy destination /versions/node/22.0.0+bun.1.2.3 already exists"),
        _ => panic!("expected a refusal"),
    }
}
