//! `bunode patch` as a state machine: the caller performs each action (running
//! commands, touching files, asking the user) and reports its outcome; the machine
//! decides what comes next. Once Bun has been downloaded, every way out removes the
//! download again, and a failed installation is rolled back before the error is
//! reported.

use vstd::prelude::*;

use super::CliError;
use super::args::PatchOptions;
use super::config::{PrefixKind, PrefixRecord, RecordView};
use super::download::{normalize_version, spec_normalize_version};
use super::prefix::{already_managed, sibling_copy, spec_sibling_copy, check_copy_target, check_downloaded_version, download_path, installed_bun,
    looks_version_managed, missing_file, node_executable, old_node, reject_installed_prefix, same_path,
    spec_check_copy_target, spec_check_downloaded_version, spec_download_path, spec_installed_bun,
    spec_looks_version_managed, spec_node_executable, spec_old_node, spec_same_path};
use crate::argv::PathStyle;
use crate::text::{concat, concat3, copy_strings, owned, push_string, same_text};

verus! {

/// Where `patch` stands.
#[derive(Clone, Copy, PartialEq, Eq, Debug, Structural)]
pub enum PatchPhase {
    ResolvingSource,
    ValidatingSource,
    CheckingInstalled,
    ReadingVersion,
    ResolvingTarget,
    CheckingTarget,
    CheckingTemplate,
    CreatingRoot,
    Downloading,
    ReadingDownloadedVersion,
    ReadingCompatibleVersion,
    ConfirmingCompatibility,
    ConfirmingInstall,
    ReadingWrapperVersion,
    CheckingSibling,
    Copying,
    RemovingCopy,
    Canonicalizing,
    Installing,
    RemovingInstalledCopy,
    Saving,
    RevertingAfterSave,
    Announcing,
    Cleaning,
    Finished,
}

/// What the caller reports after an action.
pub enum Outcome {
    /// The action succeeded.
    Done,
    /// The action produced a path or an output.
    Text(String),
    /// The two answers asked for (files that exist; a terminal and the user's answer).
    Flags(bool, bool),
    /// The action failed with this message.
    Failed(String),
}

pub enum OutcomeView {
    Done,
    Text(Seq<char>),
    Flags(bool, bool),
    Failed(Seq<char>),
}

impl View for Outcome {
    type V = OutcomeView;

    open spec fn view(&self) -> OutcomeView {
        match self {
            Outcome::Done => OutcomeView::Done,
            Outcome::Text(s) => OutcomeView::Text(s@),
            Outcome::Flags(a, b) => OutcomeView::Flags(*a, *b),
            Outcome::Failed(m) => OutcomeView::Failed(m@),
        }
    }
}

/// What the caller is asked to do next.
pub enum PatchAction {
    /// Resolve the Node.js prefix to patch (`None`: the prefix of the `node` on `PATH`);
    /// answer `Text(prefix)`.
    ResolveSource(Option<String>),
    /// Check that the file is a regular file (not a symbolic link) that reports a Node.js
    /// version; answer `Done`.
    ValidateNode(String),
    /// Answer `Flags(first exists, second exists)`.
    CheckInstalled { old_node: String, bun: String },
    /// Run `node -p process.version`; answer `Text(output)`.
    ReadNodeVersion(String),
    /// Make the path absolute; answer `Text(path)`.
    ResolveTarget(String),
    /// Answer `Flags(path exists, _)`.
    CheckExists(String),
    /// Answer `Flags(path is a regular file, _)`.
    CheckFile(String),
    /// Create the directory and its parents; answer `Done`.
    CreateDirectory(String),
    /// Download Bun `version` to `destination` with the npm of `source`; answer `Done`.
    Download { version: String, destination: String, source: String },
    /// Run the command; answer `Text(trimmed output)`.
    ReadOutput { command: String, args: Vec<String> },
    /// Ask on the terminal; answer `Flags(stdin is a terminal, the user accepted)`.
    Confirm(String),
    /// Copy a directory tree; answer `Done`.
    CopyTree { source: String, target: String },
    /// Remove a directory tree; the answer is ignored.
    RemoveTree(String),
    /// Resolve the path to its canonical form; answer `Text(path)`.
    Canonicalize(String),
    /// Install the wrapper and Bun into the prefix; answer `Done`.
    Install { prefix: String, node: String, template: String, bun: String },
    /// Append the record to the state and save the state; answer `Done`.
    Save(PrefixRecord),
    /// Undo an installation; the answer is ignored.
    RevertInstalled { prefix: String, kind: PrefixKind },
    /// Remove a file; the answer is ignored.
    RemoveFile(String),
    /// Print the line; the answer is ignored.
    Print(String),
    /// The command is over.
    Finish(Result<(), CliError>),
}

pub enum PatchActionView {
    ResolveSource(Option<Seq<char>>),
    ValidateNode(Seq<char>),
    CheckInstalled { old_node: Seq<char>, bun: Seq<char> },
    ReadNodeVersion(Seq<char>),
    ResolveTarget(Seq<char>),
    CheckExists(Seq<char>),
    CheckFile(Seq<char>),
    CreateDirectory(Seq<char>),
    Download { version: Seq<char>, destination: Seq<char>, source: Seq<char> },
    ReadOutput { command: Seq<char>, args: Seq<Seq<char>> },
    Confirm(Seq<char>),
    CopyTree { source: Seq<char>, target: Seq<char> },
    RemoveTree(Seq<char>),
    Canonicalize(Seq<char>),
    Install { prefix: Seq<char>, node: Seq<char>, template: Seq<char>, bun: Seq<char> },
    Save(RecordView),
    RevertInstalled { prefix: Seq<char>, kind: PrefixKind },
    RemoveFile(Seq<char>),
    Print(Seq<char>),
    Finish(Result<(), Seq<char>>),
}

impl View for PatchAction {
    type V = PatchActionView;

    open spec fn view(&self) -> PatchActionView {
        match self {
            PatchAction::ResolveSource(p) => PatchActionView::ResolveSource(super::args::opt(*p)),
            PatchAction::ValidateNode(p) => PatchActionView::ValidateNode(p@),
            PatchAction::CheckInstalled { old_node, bun } => PatchActionView::CheckInstalled { old_node: old_node@, bun: bun@ },
            PatchAction::ReadNodeVersion(p) => PatchActionView::ReadNodeVersion(p@),
            PatchAction::ResolveTarget(p) => PatchActionView::ResolveTarget(p@),
            PatchAction::CheckExists(p) => PatchActionView::CheckExists(p@),
            PatchAction::CheckFile(p) => PatchActionView::CheckFile(p@),
            PatchAction::CreateDirectory(p) => PatchActionView::CreateDirectory(p@),
            PatchAction::Download { version, destination, source } =>
                PatchActionView::Download { version: version@, destination: destination@, source: source@ },
            PatchAction::ReadOutput { command, args } => PatchActionView::ReadOutput { command: command@, args: args.deep_view() },
            PatchAction::Confirm(m) => PatchActionView::Confirm(m@),
            PatchAction::CopyTree { source, target } => PatchActionView::CopyTree { source: source@, target: target@ },
            PatchAction::RemoveTree(p) => PatchActionView::RemoveTree(p@),
            PatchAction::Canonicalize(p) => PatchActionView::Canonicalize(p@),
            PatchAction::Install { prefix, node, template, bun } =>
                PatchActionView::Install { prefix: prefix@, node: node@, template: template@, bun: bun@ },
            PatchAction::Save(r) => PatchActionView::Save(r@),
            PatchAction::RevertInstalled { prefix, kind } => PatchActionView::RevertInstalled { prefix: prefix@, kind: *kind },
            PatchAction::RemoveFile(p) => PatchActionView::RemoveFile(p@),
            PatchAction::Print(l) => PatchActionView::Print(l@),
            PatchAction::Finish(r) => PatchActionView::Finish(match r {
                Ok(()) => Ok(()),
                Err(e) => Err(e.message@),
            }),
        }
    }
}

/// The machine: the phase and what is known so far.
pub struct PatchMachine {
    pub phase: PatchPhase,
    pub yes: bool,
    pub copy_to: Option<String>,
    pub version: String,
    pub managed: Vec<String>,
    pub template: String,
    pub root: String,
    pub download: String,
    pub source: String,
    pub target: String,
    pub kind: PrefixKind,
    pub original_version: String,
    pub bunode_version: String,
    pub question: String,
    /// The error to report once the rollback and clean-up steps are done.
    pub pending: Option<String>,
    pub style: PathStyle,
}

#[verifier::ext_equal]
pub struct PatchView {
    pub phase: PatchPhase,
    pub yes: bool,
    pub copy_to: Option<Seq<char>>,
    pub version: Seq<char>,
    pub managed: Seq<Seq<char>>,
    pub template: Seq<char>,
    pub root: Seq<char>,
    pub download: Seq<char>,
    pub source: Seq<char>,
    pub target: Seq<char>,
    pub kind: PrefixKind,
    pub original_version: Seq<char>,
    pub bunode_version: Seq<char>,
    pub question: Seq<char>,
    pub pending: Option<Seq<char>>,
    pub style: PathStyle,
}

impl View for PatchMachine {
    type V = PatchView;

    open spec fn view(&self) -> PatchView {
        PatchView {
            phase: self.phase,
            yes: self.yes,
            copy_to: super::args::opt(self.copy_to),
            version: self.version@,
            managed: self.managed.deep_view(),
            template: self.template@,
            root: self.root@,
            download: self.download@,
            source: self.source@,
            target: self.target@,
            kind: self.kind,
            original_version: self.original_version@,
            bunode_version: self.bunode_version@,
            question: self.question@,
            pending: super::args::opt(self.pending),
            style: self.style,
        }
    }
}

/// Whether one of `paths` is the same path as `path`.
pub open spec fn is_managed(paths: Seq<Seq<char>>, path: Seq<char>, style: PathStyle) -> bool {
    exists|i: int| 0 <= i < paths.len() && spec_same_path(#[trigger] paths[i], path, style)
}

/// The message an outcome carries when it counts as a failure (an answer of the wrong
/// kind counts as a failure without a message).
pub open spec fn failure_of(o: OutcomeView) -> Seq<char> {
    match o {
        OutcomeView::Failed(m) => m,
        _ => Seq::empty(),
    }
}

pub open spec fn finish(m: PatchView, result: Result<(), Seq<char>>) -> (PatchView, PatchActionView) {
    (PatchView { phase: PatchPhase::Finished, pending: match result { Ok(()) => None, Err(e) => Some(e) }, ..m },
        PatchActionView::Finish(result))
}

/// Remove the download, then report `pending`.
pub open spec fn clean(m: PatchView, pending: Option<Seq<char>>) -> (PatchView, PatchActionView) {
    (PatchView { phase: PatchPhase::Cleaning, pending, ..m }, PatchActionView::RemoveFile(m.download))
}

/// The question asked before changing anything.
/// Whether the question before installing is whether to modify a version-managed
/// prefix in place (declining it patches a copy next to it instead).
pub open spec fn asks_in_place(m: PatchView) -> bool {
    m.kind == PrefixKind::Modified && spec_looks_version_managed(m.source, m.original_version)
}

pub open spec fn install_question(m: PatchView) -> Seq<char> {
    if asks_in_place(m) {
        m.source + " looks managed by a Node.js version manager. Modify it in place? (Use --copy <path> to keep it unchanged.)"@
    } else {
        "Install Bunode into "@ + m.target + "?"@
    }
}

pub open spec fn install_step(m: PatchView) -> (PatchView, PatchActionView) {
    (PatchView { phase: PatchPhase::Installing, ..m },
        PatchActionView::Install { prefix: m.target, node: spec_node_executable(m.target, m.style), template: m.template, bun: m.download })
}

/// After the last confirmation: copy first when patching a copy.
pub open spec fn after_confirmations(m: PatchView) -> (PatchView, PatchActionView) {
    if m.kind == PrefixKind::Copied {
        (PatchView { phase: PatchPhase::Copying, ..m }, PatchActionView::CopyTree { source: m.source, target: m.target })
    } else {
        install_step(m)
    }
}

pub open spec fn confirm_install(m: PatchView) -> (PatchView, PatchActionView) {
    if m.yes {
        after_confirmations(m)
    } else {
        (PatchView { phase: PatchPhase::ConfirmingInstall, question: install_question(m), ..m },
            PatchActionView::Confirm(install_question(m)))
    }
}

/// The answer to a confirmation: go on with `next`, or stop.
pub open spec fn answered(m: PatchView, o: OutcomeView, next: (PatchView, PatchActionView)) -> (PatchView, PatchActionView) {
    match o {
        OutcomeView::Flags(interactive, accepted) => if !interactive {
            clean(m, Some(m.question + " Pass --yes to confirm."@))
        } else if !accepted {
            clean(m, Some("operation cancelled"@))
        } else {
            next
        },
        _ => clean(m, Some(failure_of(o))),
    }
}

/// Once the target is known: it must not be managed, and the wrapper template must exist.
pub open spec fn after_target(m: PatchView) -> (PatchView, PatchActionView) {
    if is_managed(m.managed, m.target, m.style) {
        finish(m, Err(m.target + " is already a managed Bunode prefix"@))
    } else {
        (PatchView { phase: PatchPhase::CheckingTemplate, ..m }, PatchActionView::CheckFile(m.template))
    }
}

pub open spec fn record_of(m: PatchView) -> RecordView {
    RecordView { path: m.target, original_version: m.original_version, bun_version: m.version,
        bunode_version: m.bunode_version, kind: m.kind }
}

/// The next phase and action after `o`.
pub open spec fn spec_patch_step(m: PatchView, o: OutcomeView) -> (PatchView, PatchActionView) {
    match m.phase {
        PatchPhase::ResolvingSource => match o {
            OutcomeView::Text(source) => (PatchView { phase: PatchPhase::ValidatingSource, source, ..m },
                PatchActionView::ValidateNode(spec_node_executable(source, m.style))),
            _ => finish(m, Err(failure_of(o))),
        },
        PatchPhase::ValidatingSource => match o {
            OutcomeView::Failed(e) => finish(m, Err(e)),
            _ => if is_managed(m.managed, m.source, m.style) {
                finish(m, Err(m.source + " is already a managed Bunode prefix"@))
            } else {
                (PatchView { phase: PatchPhase::CheckingInstalled, ..m },
                    PatchActionView::CheckInstalled { old_node: spec_old_node(m.source, m.style), bun: spec_installed_bun(m.source, m.style) })
            },
        },
        PatchPhase::CheckingInstalled => match o {
            OutcomeView::Flags(old, bun) => if old || bun {
                finish(m, Err(m.source + " already contains a Bunode runtime; use `bunode revert` or repair it manually"@))
            } else {
                (PatchView { phase: PatchPhase::ReadingVersion, ..m }, PatchActionView::ReadNodeVersion(spec_node_executable(m.source, m.style)))
            },
            _ => finish(m, Err(failure_of(o))),
        },
        PatchPhase::ReadingVersion => match o {
            OutcomeView::Text(original) => match m.copy_to {
                Some(copy_to) => (PatchView { phase: PatchPhase::ResolvingTarget, original_version: original, ..m },
                    PatchActionView::ResolveTarget(copy_to)),
                None => after_target(PatchView { original_version: original, target: m.source, kind: PrefixKind::Modified, ..m }),
            },
            _ => finish(m, Err(failure_of(o))),
        },
        PatchPhase::ResolvingTarget => match o {
            OutcomeView::Text(target) => (PatchView { phase: PatchPhase::CheckingTarget, target, ..m }, PatchActionView::CheckExists(target)),
            _ => finish(m, Err(failure_of(o))),
        },
        PatchPhase::CheckingTarget => match o {
            OutcomeView::Flags(exists, _) => match spec_check_copy_target(m.source, m.target, exists, m.style) {
                Err(e) => finish(m, Err(e)),
                Ok(()) => after_target(PatchView { kind: PrefixKind::Copied, ..m }),
            },
            _ => finish(m, Err(failure_of(o))),
        },
        PatchPhase::CheckingTemplate => match o {
            OutcomeView::Flags(true, _) => (PatchView { phase: PatchPhase::CreatingRoot, ..m }, PatchActionView::CreateDirectory(m.root)),
            OutcomeView::Flags(false, _) => finish(m, Err("Bunode wrapper template"@ + " is missing at "@ + m.template)),
            _ => finish(m, Err(failure_of(o))),
        },
        PatchPhase::CreatingRoot => match o {
            OutcomeView::Failed(e) => finish(m, Err(e)),
            _ => (PatchView { phase: PatchPhase::Downloading, ..m },
                PatchActionView::Download { version: m.version, destination: m.download, source: m.source }),
        },
        PatchPhase::Downloading => match o {
            OutcomeView::Failed(e) => clean(m, Some(e)),
            _ => (PatchView { phase: PatchPhase::ReadingDownloadedVersion, ..m },
                PatchActionView::ReadOutput { command: m.download, args: seq!["--version"@] }),
        },
        PatchPhase::ReadingDownloadedVersion => match o {
            OutcomeView::Text(downloaded) => match spec_check_downloaded_version(m.version, downloaded) {
                Err(e) => clean(m, Some(e)),
                Ok(()) => (PatchView { phase: PatchPhase::ReadingCompatibleVersion, ..m },
                    PatchActionView::ReadOutput { command: m.download, args: seq!["-p"@, "process.version"@] }),
            },
            _ => clean(m, Some(failure_of(o))),
        },
        PatchPhase::ReadingCompatibleVersion => match o {
            OutcomeView::Text(compatible) => if compatible != m.original_version && !m.yes {
                let question = "Bun "@ + m.version + " reports Node.js "@ + compatible + ", but the prefix uses "@
                    + m.original_version + ". Continue?"@;
                (PatchView { phase: PatchPhase::ConfirmingCompatibility, question, ..m }, PatchActionView::Confirm(question))
            } else {
                confirm_install(m)
            },
            _ => clean(m, Some(failure_of(o))),
        },
        PatchPhase::ConfirmingCompatibility => answered(m, o, confirm_install(m)),
        PatchPhase::ConfirmingInstall => if asks_in_place(m) && o == OutcomeView::Flags(true, false) {
            (PatchView { phase: PatchPhase::ReadingWrapperVersion, ..m },
                PatchActionView::ReadOutput { command: m.template, args: seq!["-v"@] })
        } else {
            answered(m, o, after_confirmations(m))
        },
        PatchPhase::ReadingWrapperVersion => match o {
            OutcomeView::Text(version) => match spec_sibling_copy(m.source, version, m.style) {
                Err(e) => clean(m, Some(e)),
                Ok(target) => (PatchView { phase: PatchPhase::CheckingSibling, target, ..m }, PatchActionView::CheckExists(target)),
            },
            _ => clean(m, Some(failure_of(o))),
        },
        PatchPhase::CheckingSibling => match o {
            OutcomeView::Flags(exists, _) => match spec_check_copy_target(m.source, m.target, exists, m.style) {
                Err(e) => clean(m, Some(e)),
                Ok(()) => if is_managed(m.managed, m.target, m.style) {
                    clean(m, Some(m.target + " is already a managed Bunode prefix"@))
                } else {
                    after_confirmations(PatchView { kind: PrefixKind::Copied, ..m })
                },
            },
            _ => clean(m, Some(failure_of(o))),
        },
        PatchPhase::Copying => match o {
            OutcomeView::Failed(e) => (PatchView { phase: PatchPhase::RemovingCopy, pending: Some(e), ..m }, PatchActionView::RemoveTree(m.target)),
            _ => (PatchView { phase: PatchPhase::Canonicalizing, ..m }, PatchActionView::Canonicalize(m.target)),
        },
        PatchPhase::RemovingCopy => clean(m, m.pending),
        PatchPhase::Canonicalizing => match o {
            OutcomeView::Text(target) => install_step(PatchView { target, ..m }),
            _ => clean(m, Some("failed to resolve "@ + m.target + ": "@ + failure_of(o))),
        },
        PatchPhase::Installing => match o {
            OutcomeView::Failed(e) => if m.kind == PrefixKind::Copied {
                (PatchView { phase: PatchPhase::RemovingInstalledCopy, pending: Some(e), ..m }, PatchActionView::RemoveTree(m.target))
            } else {
                clean(m, Some(e))
            },
            _ => (PatchView { phase: PatchPhase::Saving, ..m }, PatchActionView::Save(record_of(m))),
        },
        PatchPhase::RemovingInstalledCopy => clean(m, m.pending),
        PatchPhase::Saving => match o {
            OutcomeView::Failed(e) => (PatchView { phase: PatchPhase::RevertingAfterSave, pending: Some(e), ..m },
                PatchActionView::RevertInstalled { prefix: m.target, kind: m.kind }),
            _ => (PatchView { phase: PatchPhase::Announcing, ..m },
                PatchActionView::Print("Patched "@ + m.target + " with Bun "@ + m.version + "."@)),
        },
        PatchPhase::RevertingAfterSave => clean(m, m.pending),
        PatchPhase::Announcing => clean(m, None),
        PatchPhase::Cleaning => finish(m, match m.pending { None => Ok(()), Some(e) => Err(e) }),
        PatchPhase::Finished => finish(m, match m.pending { None => Ok(()), Some(e) => Err(e) }),
    }
}

/// How `patch` starts: the version must be valid before anything is resolved.
pub open spec fn spec_patch_start(options: super::args::PatchView, managed: Seq<Seq<char>>, root: Seq<char>, template: Seq<char>,
    bunode_version: Seq<char>, pid: u32, style: PathStyle) -> (PatchView, PatchActionView) {
    let m = PatchView {
        phase: PatchPhase::ResolvingSource,
        yes: options.yes,
        copy_to: options.copy_to,
        version: Seq::empty(),
        managed,
        template,
        root,
        download: spec_download_path(root, pid, style),
        source: Seq::empty(),
        target: Seq::empty(),
        kind: PrefixKind::Modified,
        original_version: Seq::empty(),
        bunode_version,
        question: Seq::empty(),
        pending: None,
        style,
    };
    match spec_normalize_version(options.version) {
        Err(e) => finish(m, Err(e)),
        Ok(version) => (PatchView { version, ..m }, PatchActionView::ResolveSource(options.prefix)),
    }
}

pub open spec fn pending_result(p: Option<Seq<char>>) -> Result<(), Seq<char>> {
    match p {
        None => Ok(()),
        Some(e) => Err(e),
    }
}

fn message_of(outcome: Outcome) -> (m: String)
    ensures
        m@ == failure_of(outcome@),
{
    match outcome {
        Outcome::Failed(m) => m,
        _ => String::new(),
    }
}

fn any_same_path(paths: &Vec<String>, path: &str, style: PathStyle) -> (r: bool)
    ensures
        r == is_managed(paths.deep_view(), path@, style),
{
    let mut i: usize = 0;
    while i < paths.len()
        invariant
            i <= paths@.len(),
            forall|j: int| 0 <= j < i ==> !spec_same_path(#[trigger] paths.deep_view()[j], path@, style),
        decreases paths.len() - i,
    {
        if same_path(paths[i].as_str(), path, style) {
            assert(spec_same_path(paths.deep_view()[i as int], path@, style));
            return true;
        }
        i += 1;
    }
    false
}

fn copy_pending(p: &Option<String>) -> (c: Option<String>)
    ensures
        super::args::opt(c) == super::args::opt(*p),
{
    match p {
        Some(e) => Some(owned(e.as_str())),
        None => None,
    }
}

fn copy_text(s: &String) -> (c: String)
    ensures
        c@ == s@,
{
    owned(s.as_str())
}

impl PatchMachine {
    fn finish_with(self, pending: Option<String>) -> (r: (PatchMachine, PatchAction))
        ensures
            r.0@ == finish(self@, pending_result(super::args::opt(pending))).0,
            r.1@ == finish(self@, pending_result(super::args::opt(pending))).1,
    {
        let result = match &pending {
            None => Ok(()),
            Some(e) => Err(CliError::new(copy_text(e))),
        };
        let m = PatchMachine { phase: PatchPhase::Finished, pending, ..self };
        assert(m@ =~= finish(self@, pending_result(super::args::opt(pending))).0);
        (m, PatchAction::Finish(result))
    }

    fn fail(self, message: String) -> (r: (PatchMachine, PatchAction))
        ensures
            r.0@ == finish(self@, Err(message@)).0,
            r.1@ == finish(self@, Err(message@)).1,
    {
        self.finish_with(Some(message))
    }

    fn clean(self, pending: Option<String>) -> (r: (PatchMachine, PatchAction))
        ensures
            r.0@ == clean(self@, super::args::opt(pending)).0,
            r.1@ == clean(self@, super::args::opt(pending)).1,
    {
        let action = PatchAction::RemoveFile(copy_text(&self.download));
        let m = PatchMachine { phase: PatchPhase::Cleaning, pending, ..self };
        assert(m@ =~= clean(self@, super::args::opt(pending)).0);
        (m, action)
    }

    fn install_step(self) -> (r: (PatchMachine, PatchAction))
        ensures
            r.0@ == install_step(self@).0,
            r.1@ == install_step(self@).1,
    {
        let action = PatchAction::Install {
            prefix: copy_text(&self.target),
            node: node_executable(self.target.as_str(), self.style),
            template: copy_text(&self.template),
            bun: copy_text(&self.download),
        };
        let m = PatchMachine { phase: PatchPhase::Installing, ..self };
        assert(m@ =~= install_step(self@).0);
        (m, action)
    }

    fn after_confirmations(self) -> (r: (PatchMachine, PatchAction))
        ensures
            r.0@ == after_confirmations(self@).0,
            r.1@ == after_confirmations(self@).1,
    {
        if self.kind == PrefixKind::Copied {
            let action = PatchAction::CopyTree { source: copy_text(&self.source), target: copy_text(&self.target) };
            let m = PatchMachine { phase: PatchPhase::Copying, ..self };
            assert(m@ =~= after_confirmations(self@).0);
            (m, action)
        } else {
            self.install_step()
        }
    }

    fn asks_in_place(&self) -> (r: bool)
        ensures
            r == asks_in_place(self@),
    {
        self.kind == PrefixKind::Modified && looks_version_managed(self.source.as_str(), self.original_version.as_str())
    }

    fn install_question(&self) -> (q: String)
        ensures
            q@ == install_question(self@),
    {
        if self.asks_in_place() {
            concat(self.source.as_str(), " looks managed by a Node.js version manager. Modify it in place? (Use --copy <path> to keep it unchanged.)")
        } else {
            concat3("Install Bunode into ", self.target.as_str(), "?")
        }
    }

    fn confirm_install(self) -> (r: (PatchMachine, PatchAction))
        ensures
            r.0@ == confirm_install(self@).0,
            r.1@ == confirm_install(self@).1,
    {
        if self.yes {
            self.after_confirmations()
        } else {
            let question = self.install_question();
            let action = PatchAction::Confirm(copy_text(&question));
            let m = PatchMachine { phase: PatchPhase::ConfirmingInstall, question, ..self };
            assert(m@ =~= confirm_install(self@).0);
            (m, action)
        }
    }

    fn after_target(self) -> (r: (PatchMachine, PatchAction))
        ensures
            r.0@ == after_target(self@).0,
            r.1@ == after_target(self@).1,
    {
        if any_same_path(&self.managed, self.target.as_str(), self.style) {
            let e = concat(self.target.as_str(), " is already a managed Bunode prefix");
            self.fail(e)
        } else {
            let action = PatchAction::CheckFile(copy_text(&self.template));
            let m = PatchMachine { phase: PatchPhase::CheckingTemplate, ..self };
            assert(m@ =~= after_target(self@).0);
            (m, action)
        }
    }

    /// Starts `patch`.
    pub fn start(options: PatchOptions, managed: Vec<String>, root: String, template: String, bunode_version: String,
        pid: u32, style: PathStyle) -> (r: (PatchMachine, PatchAction))
        ensures
            r.0@ == spec_patch_start(options@, managed.deep_view(), root@, template@, bunode_version@, pid, style).0,
            r.1@ == spec_patch_start(options@, managed.deep_view(), root@, template@, bunode_version@, pid, style).1,
    {
        let ghost ov = options@;
        let download = download_path(root.as_str(), pid, style);
        let normalized = normalize_version(options.version.as_str());
        let m = PatchMachine {
            phase: PatchPhase::ResolvingSource,
            yes: options.yes,
            copy_to: options.copy_to,
            version: String::new(),
            managed,
            template,
            root,
            download,
            source: String::new(),
            target: String::new(),
            kind: PrefixKind::Modified,
            original_version: String::new(),
            bunode_version,
            question: String::new(),
            pending: None,
            style,
        };
        match normalized {
            Err(e) => m.fail(e.message),
            Ok(version) => {
                let m2 = PatchMachine { version, ..m };
                assert(m2@ =~= spec_patch_start(ov, managed.deep_view(), root@, template@, bunode_version@, pid, style).0);
                (m2, PatchAction::ResolveSource(options.prefix))
            },
        }
    }
}

impl PatchMachine {
    fn answered(self, outcome: Outcome, accept_compatibility: bool) -> (r: (PatchMachine, PatchAction))
        requires
            accept_compatibility ==> self.phase == PatchPhase::ConfirmingCompatibility,
        ensures
            r.0@ == answered(self@, outcome@, if accept_compatibility { confirm_install(self@) } else { after_confirmations(self@) }).0,
            r.1@ == answered(self@, outcome@, if accept_compatibility { confirm_install(self@) } else { after_confirmations(self@) }).1,
    {
        match outcome {
            Outcome::Flags(interactive, accepted) => {
                if !interactive {
                    let e = concat(self.question.as_str(), " Pass --yes to confirm.");
                    self.clean(Some(e))
                } else if !accepted {
                    self.clean(Some(owned("operation cancelled")))
                } else if accept_compatibility {
                    self.confirm_install()
                } else {
                    self.after_confirmations()
                }
            },
            _ => {
                let e = message_of(outcome);
                self.clean(Some(e))
            },
        }
    }

    /// The next phase and action, given the outcome of the last action.
    pub fn step(self, outcome: Outcome) -> (r: (PatchMachine, PatchAction))
        ensures
            r.0@ == spec_patch_step(self@, outcome@).0,
            r.1@ == spec_patch_step(self@, outcome@).1,
    {
        match self.phase {
            PatchPhase::ResolvingSource | PatchPhase::ValidatingSource | PatchPhase::CheckingInstalled
            | PatchPhase::ReadingVersion | PatchPhase::ResolvingTarget | PatchPhase::CheckingTarget
            | PatchPhase::CheckingTemplate | PatchPhase::CreatingRoot => self.step_preparing(outcome),
            PatchPhase::ConfirmingInstall | PatchPhase::ReadingWrapperVersion | PatchPhase::CheckingSibling =>
                self.step_choosing_copy(outcome),
            _ => self.step_installing(outcome),
        }
    }

    #[verifier::spinoff_prover]
    #[verifier::rlimit(40)]
    fn step_preparing(self, outcome: Outcome) -> (r: (PatchMachine, PatchAction))
        requires
            self.phase == PatchPhase::ResolvingSource || self.phase == PatchPhase::ValidatingSource
                || self.phase == PatchPhase::CheckingInstalled || self.phase == PatchPhase::ReadingVersion
                || self.phase == PatchPhase::ResolvingTarget || self.phase == PatchPhase::CheckingTarget
                || self.phase == PatchPhase::CheckingTemplate || self.phase == PatchPhase::CreatingRoot,
        ensures
            r.0@ == spec_patch_step(self@, outcome@).0,
            r.1@ == spec_patch_step(self@, outcome@).1,
    {
        let ghost m = self@;
        let ghost o = outcome@;
        match self.phase {
            PatchPhase::ResolvingSource => match outcome {
                Outcome::Text(source) => {
                    let action = PatchAction::ValidateNode(node_executable(source.as_str(), self.style));
                    let next = PatchMachine { phase: PatchPhase::ValidatingSource, source, ..self };
                    assert(next@ =~= spec_patch_step(m, o).0);
                    (next, action)
                },
                _ => {
                    let e = message_of(outcome);
                    self.fail(e)
                },
            },
            PatchPhase::ValidatingSource => match outcome {
                Outcome::Failed(e) => self.fail(e),
                _ => {
                    if any_same_path(&self.managed, self.source.as_str(), self.style) {
                        let e = concat(self.source.as_str(), " is already a managed Bunode prefix");
                        self.fail(e)
                    } else {
                        let action = PatchAction::CheckInstalled {
                            old_node: old_node(self.source.as_str(), self.style),
                            bun: installed_bun(self.source.as_str(), self.style),
                        };
                        let next = PatchMachine { phase: PatchPhase::CheckingInstalled, ..self };
                        assert(next@ =~= spec_patch_step(m, o).0);
                        (next, action)
                    }
                },
            },
            PatchPhase::CheckingInstalled => match outcome {
                Outcome::Flags(old, bun) => {
                    if old || bun {
                        let e = concat(self.source.as_str(), " already contains a Bunode runtime; use `bunode revert` or repair it manually");
                        self.fail(e)
                    } else {
                        let action = PatchAction::ReadNodeVersion(node_executable(self.source.as_str(), self.style));
                        let next = PatchMachine { phase: PatchPhase::ReadingVersion, ..self };
                        assert(next@ =~= spec_patch_step(m, o).0);
                        (next, action)
                    }
                },
                _ => {
                    let e = message_of(outcome);
                    self.fail(e)
                },
            },
            PatchPhase::ReadingVersion => match outcome {
                Outcome::Text(original) => match &self.copy_to {
                    Some(copy_to) => {
                        let action = PatchAction::ResolveTarget(copy_text(copy_to));
                        let next = PatchMachine { phase: PatchPhase::ResolvingTarget, original_version: original, ..self };
                        assert(next@ =~= spec_patch_step(m, o).0);
                        (next, action)
                    },
                    None => {
                        let target = copy_text(&self.source);
                        let next = PatchMachine { original_version: original, target, kind: PrefixKind::Modified, ..self };
                        assert(next@ =~= PatchView { original_version: o->Text_0, target: m.source, kind: PrefixKind::Modified, ..m });
                        next.after_target()
                    },
                },
                _ => {
                    let e = message_of(outcome);
                    self.fail(e)
                },
            },
            PatchPhase::ResolvingTarget => match outcome {
                Outcome::Text(target) => {
                    let action = PatchAction::CheckExists(copy_text(&target));
                    let next = PatchMachine { phase: PatchPhase::CheckingTarget, target, ..self };
                    assert(next@ =~= spec_patch_step(m, o).0);
                    (next, action)
                },
                _ => {
                    let e = message_of(outcome);
                    self.fail(e)
                },
            },
            PatchPhase::CheckingTarget => match outcome {
                Outcome::Flags(exists, _) => match check_copy_target(self.source.as_str(), self.target.as_str(), exists, self.style) {
                    Err(e) => self.fail(e.message),
                    Ok(()) => {
                        let next = PatchMachine { kind: PrefixKind::Copied, ..self };
                        assert(next@ =~= PatchView { kind: PrefixKind::Copied, ..m });
                        next.after_target()
                    },
                },
                _ => {
                    let e = message_of(outcome);
                    self.fail(e)
                },
            },
            PatchPhase::CheckingTemplate => match outcome {
                Outcome::Flags(true, _) => {
                    let action = PatchAction::CreateDirectory(copy_text(&self.root));
                    let next = PatchMachine { phase: PatchPhase::CreatingRoot, ..self };
                    assert(next@ =~= spec_patch_step(m, o).0);
                    (next, action)
                },
                Outcome::Flags(false, _) => {
                    let e = missing_file("Bunode wrapper template", self.template.as_str());
                    self.fail(e.message)
                },
                _ => {
                    let e = message_of(outcome);
                    self.fail(e)
                },
            },
            PatchPhase::CreatingRoot => match outcome {
                Outcome::Failed(e) => self.fail(e),
                _ => {
                    let action = PatchAction::Download {
                        version: copy_text(&self.version),
                        destination: copy_text(&self.download),
                        source: copy_text(&self.source),
                    };
                    let next = PatchMachine { phase: PatchPhase::Downloading, ..self };
                    assert(next@ =~= spec_patch_step(m, o).0);
                    (next, action)
                },
            },
            _ => {
                assert(false);
                self.clean(None)
            },
        }
    }

    /// The answer to the question before installing, and, when modifying a
    /// version-managed prefix in place was declined, the choice of the copy next to it.
    fn step_choosing_copy(self, outcome: Outcome) -> (r: (PatchMachine, PatchAction))
        requires
            self.phase == PatchPhase::ConfirmingInstall || self.phase == PatchPhase::ReadingWrapperVersion
                || self.phase == PatchPhase::CheckingSibling,
        ensures
            r.0@ == spec_patch_step(self@, outcome@).0,
            r.1@ == spec_patch_step(self@, outcome@).1,
    {
        let ghost m = self@;
        let ghost o = outcome@;
        match self.phase {
            PatchPhase::ConfirmingInstall => {
                let declined = match &outcome {
                    Outcome::Flags(interactive, accepted) => *interactive && !*accepted,
                    _ => false,
                };
                assert(declined <==> o == OutcomeView::Flags(true, false));
                if declined && self.asks_in_place() {
                    let mut args: Vec<String> = Vec::new();
                    push_string(&mut args, owned("-v"));
                    assert(args.deep_view() =~= seq!["-v"@]);
                    let action = PatchAction::ReadOutput { command: copy_text(&self.template), args };
                    let next = PatchMachine { phase: PatchPhase::ReadingWrapperVersion, ..self };
                    assert(next@ =~= spec_patch_step(m, o).0);
                    (next, action)
                } else {
                    self.answered(outcome, false)
                }
            },
            PatchPhase::ReadingWrapperVersion => match outcome {
                Outcome::Text(version) => match sibling_copy(self.source.as_str(), version.as_str(), self.style) {
                    Err(e) => self.clean(Some(e.message)),
                    Ok(target) => {
                        let action = PatchAction::CheckExists(copy_text(&target));
                        let next = PatchMachine { phase: PatchPhase::CheckingSibling, target, ..self };
                        assert(next@ =~= spec_patch_step(m, o).0);
                        (next, action)
                    },
                },
                _ => {
                    let e = message_of(outcome);
                    self.clean(Some(e))
                },
            },
            _ => match outcome {
                Outcome::Flags(exists, _) => match check_copy_target(self.source.as_str(), self.target.as_str(), exists, self.style) {
                    Err(e) => self.clean(Some(e.message)),
                    Ok(()) => {
                        if any_same_path(&self.managed, self.target.as_str(), self.style) {
                            let e = concat(self.target.as_str(), " is already a managed Bunode prefix");
                            self.clean(Some(e))
                        } else {
                            let next = PatchMachine { kind: PrefixKind::Copied, ..self };
                            assert(next@ =~= PatchView { kind: PrefixKind::Copied, ..m });
                            next.after_confirmations()
                        }
                    },
                },
                _ => {
                    let e = message_of(outcome);
                    self.clean(Some(e))
                },
            },
        }
    }

    #[verifier::spinoff_prover]
    #[verifier::rlimit(40)]
    fn step_installing(self, outcome: Outcome) -> (r: (PatchMachine, PatchAction))
        requires
            !(self.phase == PatchPhase::ResolvingSource || self.phase == PatchPhase::ValidatingSource
                || self.phase == PatchPhase::CheckingInstalled || self.phase == PatchPhase::ReadingVersion
                || self.phase == PatchPhase::ResolvingTarget || self.phase == PatchPhase::CheckingTarget
                || self.phase == PatchPhase::CheckingTemplate || self.phase == PatchPhase::CreatingRoot
                || self.phase == PatchPhase::ConfirmingInstall || self.phase == PatchPhase::ReadingWrapperVersion
                || self.phase == PatchPhase::CheckingSibling),
        ensures
            r.0@ == spec_patch_step(self@, outcome@).0,
            r.1@ == spec_patch_step(self@, outcome@).1,
    {
        let ghost m = self@;
        let ghost o = outcome@;
        match self.phase {
            PatchPhase::Downloading => match outcome {
                Outcome::Failed(e) => self.clean(Some(e)),
                _ => {
                    let mut args: Vec<String> = Vec::new();
                    push_string(&mut args, owned("--version"));
                    assert(args.deep_view() =~= seq!["--version"@]);
                    let action = PatchAction::ReadOutput { command: copy_text(&self.download), args };
                    let next = PatchMachine { phase: PatchPhase::ReadingDownloadedVersion, ..self };
                    assert(next@ =~= spec_patch_step(m, o).0);
                    (next, action)
                },
            },
            PatchPhase::ReadingDownloadedVersion => match outcome {
                Outcome::Text(downloaded) => match check_downloaded_version(self.version.as_str(), downloaded.as_str()) {
                    Err(e) => self.clean(Some(e.message)),
                    Ok(()) => {
                        let mut args: Vec<String> = Vec::new();
                        push_string(&mut args, owned("-p"));
                        push_string(&mut args, owned("process.version"));
                        assert(args.deep_view() =~= seq!["-p"@, "process.version"@]);
                        let action = PatchAction::ReadOutput { command: copy_text(&self.download), args };
                        let next = PatchMachine { phase: PatchPhase::ReadingCompatibleVersion, ..self };
                        assert(next@ =~= spec_patch_step(m, o).0);
                        (next, action)
                    },
                },
                _ => {
                    let e = message_of(outcome);
                    self.clean(Some(e))
                },
            },
            PatchPhase::ReadingCompatibleVersion => match outcome {
                Outcome::Text(compatible) => {
                    if !same_text(compatible.as_str(), self.original_version.as_str()) && !self.yes {
                        let mut question = concat3("Bun ", self.version.as_str(), " reports Node.js ");
                        question.append(compatible.as_str());
                        question.append(", but the prefix uses ");
                        question.append(self.original_version.as_str());
                        question.append(". Continue?");
                        let action = PatchAction::Confirm(copy_text(&question));
                        let next = PatchMachine { phase: PatchPhase::ConfirmingCompatibility, question, ..self };
                        assert(next@ =~= spec_patch_step(m, o).0);
                        (next, action)
                    } else {
                        self.confirm_install()
                    }
                },
                _ => {
                    let e = message_of(outcome);
                    self.clean(Some(e))
                },
            },
            PatchPhase::ConfirmingCompatibility => self.answered(outcome, true),
            PatchPhase::Copying => match outcome {
                Outcome::Failed(e) => {
                    let action = PatchAction::RemoveTree(copy_text(&self.target));
                    let next = PatchMachine { phase: PatchPhase::RemovingCopy, pending: Some(e), ..self };
                    assert(next@ =~= spec_patch_step(m, o).0);
                    (next, action)
                },
                _ => {
                    let action = PatchAction::Canonicalize(copy_text(&self.target));
                    let next = PatchMachine { phase: PatchPhase::Canonicalizing, ..self };
                    assert(next@ =~= spec_patch_step(m, o).0);
                    (next, action)
                },
            },
            PatchPhase::RemovingCopy => {
                let pending = copy_pending(&self.pending);
                self.clean(pending)
            },
            PatchPhase::Canonicalizing => match outcome {
                Outcome::Text(target) => {
                    let next = PatchMachine { target, ..self };
                    assert(next@ =~= PatchView { target: o->Text_0, ..m });
                    next.install_step()
                },
                _ => {
                    let detail = message_of(outcome);
                    let mut e = concat3("failed to resolve ", self.target.as_str(), ": ");
                    e.append(detail.as_str());
                    self.clean(Some(e))
                },
            },
            PatchPhase::Installing => match outcome {
                Outcome::Failed(e) => {
                    if self.kind == PrefixKind::Copied {
                        let action = PatchAction::RemoveTree(copy_text(&self.target));
                        let next = PatchMachine { phase: PatchPhase::RemovingInstalledCopy, pending: Some(e), ..self };
                        assert(next@ =~= spec_patch_step(m, o).0);
                        (next, action)
                    } else {
                        self.clean(Some(e))
                    }
                },
                _ => {
                    let record = PrefixRecord {
                        path: copy_text(&self.target),
                        original_version: copy_text(&self.original_version),
                        bun_version: copy_text(&self.version),
                        bunode_version: copy_text(&self.bunode_version),
                        kind: self.kind,
                    };
                    let next = PatchMachine { phase: PatchPhase::Saving, ..self };
                    assert(next@ =~= spec_patch_step(m, o).0);
                    (next, PatchAction::Save(record))
                },
            },
            PatchPhase::RemovingInstalledCopy => {
                let pending = copy_pending(&self.pending);
                self.clean(pending)
            },
            PatchPhase::Saving => match outcome {
                Outcome::Failed(e) => {
                    let action = PatchAction::RevertInstalled { prefix: copy_text(&self.target), kind: self.kind };
                    let next = PatchMachine { phase: PatchPhase::RevertingAfterSave, pending: Some(e), ..self };
                    assert(next@ =~= spec_patch_step(m, o).0);
                    (next, action)
                },
                _ => {
                    let mut line = concat3("Patched ", self.target.as_str(), " with Bun ");
                    line.append(self.version.as_str());
                    line.append(".");
                    let next = PatchMachine { phase: PatchPhase::Announcing, ..self };
                    assert(next@ =~= spec_patch_step(m, o).0);
                    (next, PatchAction::Print(line))
                },
            },
            PatchPhase::RevertingAfterSave => {
                let pending = copy_pending(&self.pending);
                self.clean(pending)
            },
            PatchPhase::Announcing => self.clean(None),
            PatchPhase::Cleaning => {
                let pending = copy_pending(&self.pending);
                self.finish_with(pending)
            },
            PatchPhase::Finished => {
                let pending = copy_pending(&self.pending);
                self.finish_with(pending)
            },
            _ => {
                assert(false);
                self.clean(None)
            },
        }
    }
}

/// The phases from the download on: leaving any of them goes through removing the
/// download.
pub open spec fn after_download_started(phase: PatchPhase) -> bool {
    phase == PatchPhase::Downloading || phase == PatchPhase::ReadingDownloadedVersion
        || phase == PatchPhase::ReadingCompatibleVersion || phase == PatchPhase::ConfirmingCompatibility
        || phase == PatchPhase::ConfirmingInstall || phase == PatchPhase::ReadingWrapperVersion
        || phase == PatchPhase::CheckingSibling || phase == PatchPhase::Copying || phase == PatchPhase::RemovingCopy
        || phase == PatchPhase::Canonicalizing || phase == PatchPhase::Installing
        || phase == PatchPhase::RemovingInstalledCopy || phase == PatchPhase::Saving
        || phase == PatchPhase::RevertingAfterSave || phase == PatchPhase::Announcing
}

/// A record is saved only right after a successful installation, and it records the
/// installed prefix, its original Node.js version, the Bun version and the kind.
pub proof fn law_patch_records_only_installations(m: PatchView, o: OutcomeView)
    ensures
        spec_patch_step(m, o).1 matches PatchActionView::Save(r)
            ==> m.phase == PatchPhase::Installing && !(o is Failed) && r == record_of(m),
{
}

/// Once the download started, the machine never finishes directly: it stays among the
/// download phases or goes to the clean-up, whose action removes the download; from
/// the clean-up it finishes. The download path never changes.
pub proof fn law_patch_removes_download(m: PatchView, o: OutcomeView)
    ensures
        after_download_started(m.phase) ==> {
            let (next, action) = spec_patch_step(m, o);
            &&& !(action is Finish)
            &&& after_download_started(next.phase) || next.phase == PatchPhase::Cleaning
            &&& next.phase == PatchPhase::Cleaning ==> action == PatchActionView::RemoveFile(m.download)
            &&& next.download == m.download
        },
        m.phase == PatchPhase::Cleaning ==> spec_patch_step(m, o).1 is Finish,
{
}

/// Nothing in a prefix is copied or installed before Bun was downloaded and checked.
pub proof fn law_patch_changes_after_download(m: PatchView, o: OutcomeView)
    ensures
        (spec_patch_step(m, o).1 is Install || spec_patch_step(m, o).1 is CopyTree) ==> after_download_started(m.phase)
            && m.phase != PatchPhase::Downloading && m.phase != PatchPhase::ReadingDownloadedVersion,
{
}

/// With `--yes` nothing is asked.
pub proof fn law_patch_yes_asks_nothing(m: PatchView, o: OutcomeView)
    ensures
        spec_patch_step(m, o).1 is Confirm ==> !m.yes,
{
}

/// The downloaded Bun is accepted only when it reports the requested version.
pub proof fn law_patch_checks_downloaded_version(m: PatchView, d: Seq<char>)
    requires
        m.phase == PatchPhase::ReadingDownloadedVersion,
    ensures
        spec_patch_step(m, OutcomeView::Text(d)).0.phase == PatchPhase::ReadingCompatibleVersion
            <==> crate::text::trim_start_char(d, 'v') == m.version,
{
}

/// Declining to modify a version-managed prefix in place does not cancel `patch`: the
/// wrapper's `node -v` is read, and a free sibling named after it is copied and
/// patched instead, leaving the prefix itself untouched.
pub proof fn law_patch_declined_in_place_copies(m: PatchView, version: Seq<char>, exists: bool)
    requires
        m.phase == PatchPhase::ConfirmingInstall,
        asks_in_place(m),
    ensures
        spec_patch_step(m, OutcomeView::Flags(true, false)).1
            == (PatchActionView::ReadOutput { command: m.template, args: seq!["-v"@] }),
        ({
            let m1 = spec_patch_step(m, OutcomeView::Flags(true, false)).0;
            let (m2, a2) = spec_patch_step(m1, OutcomeView::Text(version));
            spec_sibling_copy(m.source, version, m.style) matches Ok(target) ==> {
                &&& a2 == PatchActionView::CheckExists(target)
                &&& {
                    let (m3, a3) = spec_patch_step(m2, OutcomeView::Flags(exists, false));
                    spec_check_copy_target(m.source, target, exists, m.style) is Ok && !is_managed(m.managed, target, m.style)
                        ==> a3 == (PatchActionView::CopyTree { source: m.source, target }) && m3.kind == PrefixKind::Copied
                            && m3.target == target
                }
            }
        }),
{
}

} // verus!
