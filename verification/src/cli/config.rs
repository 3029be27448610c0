//! Where the prefix manager keeps its state, and what the state records.

use vstd::prelude::*;

use super::CliError;
use crate::argv::PathStyle;
use crate::paths::{join, spec_join};
use crate::text::{decimal, owned, push_decimal};

verus! {

/// How a managed prefix was made.
#[derive(Clone, Copy, PartialEq, Eq, Debug, Structural)]
pub enum PrefixKind {
    /// The Node.js prefix itself was changed.
    Modified,
    /// A copy of the Node.js prefix was made and changed.
    Copied,
}

pub open spec fn spec_label(kind: PrefixKind) -> Seq<char> {
    match kind {
        PrefixKind::Modified => "modified"@,
        PrefixKind::Copied => "copied"@,
    }
}

impl PrefixKind {
    /// The lower-case name of the kind, as the state file and `list` spell it.
    pub fn label(self) -> (label: &'static str)
        ensures
            label@ == spec_label(self),
    {
        match self {
            PrefixKind::Modified => "modified",
            PrefixKind::Copied => "copied",
        }
    }
}

/// One managed prefix.
pub struct PrefixRecord {
    pub path: String,
    pub original_version: String,
    pub bun_version: String,
    pub bunode_version: String,
    pub kind: PrefixKind,
}

/// The mathematical form of a [`PrefixRecord`].
pub struct RecordView {
    pub path: Seq<char>,
    pub original_version: Seq<char>,
    pub bun_version: Seq<char>,
    pub bunode_version: Seq<char>,
    pub kind: PrefixKind,
}

impl View for PrefixRecord {
    type V = RecordView;

    open spec fn view(&self) -> RecordView {
        RecordView {
            path: self.path@,
            original_version: self.original_version@,
            bun_version: self.bun_version@,
            bunode_version: self.bunode_version@,
            kind: self.kind,
        }
    }
}

impl PrefixRecord {
    /// A copy of the record.
    pub fn duplicate(&self) -> (copy: PrefixRecord)
        ensures
            copy@ == self@,
    {
        PrefixRecord {
            path: owned(self.path.as_str()),
            original_version: owned(self.original_version.as_str()),
            bun_version: owned(self.bun_version.as_str()),
            bunode_version: owned(self.bunode_version.as_str()),
            kind: self.kind,
        }
    }
}

/// Every managed prefix, in the order they were patched.
pub struct State {
    pub prefixes: Vec<PrefixRecord>,
}

impl State {
    pub open spec fn records(&self) -> Seq<RecordView> {
        self.prefixes@.map_values(|r: PrefixRecord| r@)
    }
}

impl Default for State {
    /// No managed prefix (what a missing state file means).
    fn default() -> (state: Self)
        ensures
            state.prefixes@.len() == 0,
    {
        State { prefixes: Vec::new() }
    }
}

/// Where the manager keeps its files.
pub struct Config {
    pub root: String,
}

/// The manager's directory: `BUNODE_HOME` when it is set, else `.bunode` in the home
/// directory.
pub open spec fn spec_discover(bunode_home: Option<Seq<char>>, home: Option<Seq<char>>, style: PathStyle) -> Result<Seq<char>, Seq<char>> {
    match (bunode_home, home) {
        (Some(root), _) => Ok(root),
        (None, Some(home)) => Ok(spec_join(home, ".bunode"@, style)),
        (None, None) => Err("could not determine the user home directory"@),
    }
}

pub open spec fn spec_wrapper_template(root: Seq<char>, style: PathStyle) -> Seq<char> {
    spec_join(root, if style == PathStyle::Windows { "node.exe"@ } else { "node"@ }, style)
}

pub open spec fn spec_state_path(root: Seq<char>, style: PathStyle) -> Seq<char> {
    spec_join(root, "prefixes.json"@, style)
}

pub open spec fn spec_temporary_state_path(root: Seq<char>, pid: u32, style: PathStyle) -> Seq<char> {
    spec_join(root, ".prefixes."@ + decimal(pid as nat) + ".tmp"@, style)
}

impl Config {
    /// Finds the manager's directory from `BUNODE_HOME` and the home directory
    /// (`USERPROFILE` on Windows, `HOME` elsewhere).
    pub fn discover(bunode_home: Option<String>, home: Option<String>, style: PathStyle) -> (result: Result<Config, CliError>)
        ensures
            match (result, spec_discover(super::args::opt(bunode_home), super::args::opt(home), style)) {
                (Ok(c), Ok(root)) => c.root@ == root,
                (Err(e), Err(m)) => e.message@ == m,
                _ => false,
            },
    {
        match (bunode_home, home) {
            (Some(root), _) => Ok(Config { root }),
            (None, Some(home)) => Ok(Config { root: join(home.as_str(), ".bunode", style) }),
            (None, None) => Err(CliError::new(owned("could not determine the user home directory"))),
        }
    }

    /// The wrapper executable that `patch` and `update` install into prefixes.
    pub fn wrapper_template(&self, style: PathStyle) -> (path: String)
        ensures
            path@ == spec_wrapper_template(self.root@, style),
    {
        if matches!(style, PathStyle::Windows) {
            join(self.root.as_str(), "node.exe", style)
        } else {
            join(self.root.as_str(), "node", style)
        }
    }

    /// The state file.
    pub fn state_path(&self, style: PathStyle) -> (path: String)
        ensures
            path@ == spec_state_path(self.root@, style),
    {
        join(self.root.as_str(), "prefixes.json", style)
    }

    /// Where the state is written before it replaces the state file.
    pub fn temporary_state_path(&self, pid: u32, style: PathStyle) -> (path: String)
        ensures
            path@ == spec_temporary_state_path(self.root@, pid, style),
    {
        let mut name = owned(".prefixes.");
        push_decimal(&mut name, pid as u64);
        name.append(".tmp");
        join(self.root.as_str(), name.as_str(), style)
    }
}

} // verus!
