use bunode::argv::PathStyle;
use bunode::cli::files::{install_steps, revert_steps, FileOp};

fn rename(op: &FileOp) -> (String, String) {
    match op {
        FileOp::Rename { from, to } => (from.clone(), to.clone()),
        _ => panic!("expected a rename"),
    }
}

#[test]
fn install_should_stage_then_rename_into_place() {
    let steps = install_steps("/opt/node", "/opt/node/bin/node", "/h/.bunode/node", "/h/.bunode/.bun-download-7", 7, PathStyle::Posix);
    assert_eq!(steps.len(), 6);
    assert!(matches!(&steps[0].op, FileOp::CreateDirectories(p) if p == "/opt/node/bun"));
    assert!(matches!(&steps[1].op, FileOp::CopyExecutable { from, to } if from == "/h/.bunode/node" && to == "/opt/node/bin/.node.bunode.new.7"));
    assert!(matches!(&steps[2].op, FileOp::CopyExecutable { from, to } if from == "/h/.bunode/.bun-download-7" && to == "/opt/node/bun/.bun.bunode.new.7"));
    assert_eq!(rename(&steps[3].op), ("/opt/node/bin/node".to_string(), "/opt/node/bun/node.old".to_string()));
    assert_eq!(rename(&steps[4].op), ("/opt/node/bin/.node.bunode.new.7".to_string(), "/opt/node/bin/node".to_string()));
    assert_eq!(rename(&steps[5].op), ("/opt/node/bun/.bun.bunode.new.7".to_string(), "/opt/node/bun/bun".to_string()));
    assert!(steps.iter().all(|step| step.required));
    assert_eq!(steps[3].undo.len(), 2);
    assert_eq!(rename(&steps[4].undo[0]), ("/opt/node/bun/node.old".to_string(), "/opt/node/bin/node".to_string()));
    assert!(matches!(&steps[5].undo[0], FileOp::RemoveFile(p) if p == "/opt/node/bin/node"));
}

#[test]
fn revert_should_restore_the_original_node() {
    let steps = revert_steps(r"C:\node", 9, PathStyle::Windows);
    assert_eq!(steps.len(), 4);
    assert_eq!(rename(&steps[0].op), (r"C:\node\node.exe".to_string(), r"C:\node\.node.exe.bunode.revert.9".to_string()));
    assert_eq!(rename(&steps[1].op), (r"C:\node\bun\node.old.exe".to_string(), r"C:\node\node.exe".to_string()));
    assert_eq!(rename(&steps[1].undo[0]), (r"C:\node\.node.exe.bunode.revert.9".to_string(), r"C:\node\node.exe".to_string()));
    assert!(!steps[2].required);
    assert!(matches!(&steps[3].op, FileOp::RemoveTree(p) if p == r"C:\node\bun"));
}
