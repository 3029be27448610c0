//! The file operations that install Bunode into a prefix and take it out again, as
//! steps that the caller performs in order. A step that must succeed and fails is
//! followed by its undo operations (whose own failures are ignored), and the
//! command stops with the step's error; a step that need not succeed is skipped over
//! when it fails.

use vstd::prelude::*;

use crate::argv::PathStyle;
use crate::paths::{body_start, has_cur_dir, is_ascii_letter, is_separator, last_separator, prefix_len, has_root, spec_file_name,
    spec_join, trim_back};
use crate::text::{decimal, owned};
use super::prefix::{spec_executable_extension, spec_with_file_name, bun_directory, installed_bun, old_node, node_executable, temporary_sibling, spec_bun_directory,
    spec_installed_bun, spec_node_executable, spec_old_node, spec_temporary_sibling};

verus! {

/// One file-system operation.
pub enum FileOp {
    /// Copy a file and make the copy executable.
    CopyExecutable { from: String, to: String },
    /// Rename a file, replacing `to`.
    Rename { from: String, to: String },
    /// Remove a file.
    RemoveFile(String),
    /// Remove a directory and everything in it.
    RemoveTree(String),
    /// Create a directory and its missing parents.
    CreateDirectories(String),
}

pub enum FileOpView {
    CopyExecutable { from: Seq<char>, to: Seq<char> },
    Rename { from: Seq<char>, to: Seq<char> },
    RemoveFile(Seq<char>),
    RemoveTree(Seq<char>),
    CreateDirectories(Seq<char>),
}

impl View for FileOp {
    type V = FileOpView;

    open spec fn view(&self) -> FileOpView {
        match self {
            FileOp::CopyExecutable { from, to } => FileOpView::CopyExecutable { from: from@, to: to@ },
            FileOp::Rename { from, to } => FileOpView::Rename { from: from@, to: to@ },
            FileOp::RemoveFile(p) => FileOpView::RemoveFile(p@),
            FileOp::RemoveTree(p) => FileOpView::RemoveTree(p@),
            FileOp::CreateDirectories(p) => FileOpView::CreateDirectories(p@),
        }
    }
}

pub open spec fn op_views(ops: Seq<FileOp>) -> Seq<FileOpView> {
    ops.map_values(|o: FileOp| o@)
}

/// One step: the operation, whether the command stops when it fails, and what undoes
/// the earlier steps when it does.
pub struct FileStep {
    pub op: FileOp,
    pub required: bool,
    pub undo: Vec<FileOp>,
}

pub struct StepView {
    pub op: FileOpView,
    pub required: bool,
    pub undo: Seq<FileOpView>,
}

impl View for FileStep {
    type V = StepView;

    open spec fn view(&self) -> StepView {
        StepView { op: self.op@, required: self.required, undo: op_views(self.undo@) }
    }
}

pub open spec fn step_views(steps: Seq<FileStep>) -> Seq<StepView> {
    steps.map_values(|s: FileStep| s@)
}

pub open spec fn step(op: FileOpView, required: bool, undo: Seq<FileOpView>) -> StepView {
    StepView { op, required, undo }
}

pub open spec fn copy_op(from: Seq<char>, to: Seq<char>) -> FileOpView {
    FileOpView::CopyExecutable { from, to }
}

pub open spec fn rename_op(from: Seq<char>, to: Seq<char>) -> FileOpView {
    FileOpView::Rename { from, to }
}

/// Installing the wrapper `template` and Bun (`bun_source`) into `prefix`, whose
/// `node` is `node`: both are staged beside their destinations first, the original
/// `node` is kept in the prefix's `bun` directory, and the staged files are then
/// renamed into place. Each failure undoes what came before it.
pub open spec fn spec_install_steps(prefix: Seq<char>, node: Seq<char>, template: Seq<char>, bun_source: Seq<char>,
    pid: u32, style: PathStyle) -> Seq<StepView> {
    let bun = spec_installed_bun(prefix, style);
    install_steps_named(node, template, bun_source, spec_bun_directory(prefix, style), spec_old_node(prefix, style), bun,
        spec_temporary_sibling(node, "new"@, pid, style), spec_temporary_sibling(bun, "new"@, pid, style))
}

/// The installation's steps over the paths they touch.
pub open spec fn install_steps_named(node: Seq<char>, template: Seq<char>, bun_source: Seq<char>, dir: Seq<char>,
    old: Seq<char>, bun: Seq<char>, staged_node: Seq<char>, staged_bun: Seq<char>) -> Seq<StepView> {
    seq![
        step(FileOpView::CreateDirectories(dir), true, Seq::empty()),
        step(copy_op(template, staged_node), true, Seq::empty()),
        step(copy_op(bun_source, staged_bun), true, Seq::empty()),
        step(rename_op(node, old), true, seq![FileOpView::RemoveFile(staged_node), FileOpView::RemoveFile(staged_bun)]),
        step(rename_op(staged_node, node), true,
            seq![rename_op(old, node), FileOpView::RemoveFile(staged_node), FileOpView::RemoveFile(staged_bun)]),
        step(rename_op(staged_bun, bun), true,
            seq![FileOpView::RemoveFile(node), rename_op(old, node), FileOpView::RemoveFile(staged_bun)]),
    ]
}

/// Reverting a modified prefix: the wrapper is moved aside, the original `node` is
/// put back (the wrapper returns when that fails), the wrapper is removed, and so is
/// the prefix's `bun` directory.
pub open spec fn spec_revert_steps(prefix: Seq<char>, pid: u32, style: PathStyle) -> Seq<StepView> {
    let node = spec_node_executable(prefix, style);
    revert_steps_named(node, spec_temporary_sibling(node, "revert"@, pid, style), spec_old_node(prefix, style),
        spec_bun_directory(prefix, style))
}

/// The revert's steps over the paths they touch.
pub open spec fn revert_steps_named(node: Seq<char>, staged_wrapper: Seq<char>, old: Seq<char>, dir: Seq<char>) -> Seq<StepView> {
    seq![
        step(rename_op(node, staged_wrapper), true, Seq::empty()),
        step(rename_op(old, node), true, seq![rename_op(staged_wrapper, node)]),
        step(FileOpView::RemoveFile(staged_wrapper), false, Seq::empty()),
        step(FileOpView::RemoveTree(dir), true, Seq::empty()),
    ]
}

fn copy_of(from: &str, to: &str) -> (op: FileOp)
    ensures
        op@ == copy_op(from@, to@),
{
    FileOp::CopyExecutable { from: owned(from), to: owned(to) }
}

fn rename_of(from: &str, to: &str) -> (op: FileOp)
    ensures
        op@ == rename_op(from@, to@),
{
    FileOp::Rename { from: owned(from), to: owned(to) }
}

fn remove_of(path: &str) -> (op: FileOp)
    ensures
        op@ == FileOpView::RemoveFile(path@),
{
    FileOp::RemoveFile(owned(path))
}

fn no_undo() -> (undo: Vec<FileOp>)
    ensures
        op_views(undo@) == Seq::<FileOpView>::empty(),
{
    let undo: Vec<FileOp> = Vec::new();
    assert(op_views(undo@) =~= Seq::<FileOpView>::empty());
    undo
}

fn push_step(steps: &mut Vec<FileStep>, op: FileOp, required: bool, undo: Vec<FileOp>)
    ensures
        step_views(final(steps)@) == step_views(old(steps)@).push(step(op@, required, op_views(undo@))),
{
    let ghost before = step_views(steps@);
    let s = FileStep { op, required, undo };
    steps.push(s);
    assert(step_views(steps@) =~= before.push(s@));
}

/// The steps that install Bunode into `prefix`.
pub fn install_steps(prefix: &str, node: &str, template: &str, bun_source: &str, pid: u32, style: PathStyle)
    -> (steps: Vec<FileStep>)
    ensures
        step_views(steps@) == spec_install_steps(prefix@, node@, template@, bun_source@, pid, style),
{
    let old = old_node(prefix, style);
    let bun = installed_bun(prefix, style);
    let staged_node = temporary_sibling(node, "new", pid, style);
    let staged_bun = temporary_sibling(bun.as_str(), "new", pid, style);
    let mut steps: Vec<FileStep> = Vec::new();
    push_step(&mut steps, FileOp::CreateDirectories(bun_directory(prefix, style)), true, no_undo());
    push_step(&mut steps, copy_of(template, staged_node.as_str()), true, no_undo());
    push_step(&mut steps, copy_of(bun_source, staged_bun.as_str()), true, no_undo());
    let undo = vec![remove_of(staged_node.as_str()), remove_of(staged_bun.as_str())];
    assert(op_views(undo@) =~= seq![FileOpView::RemoveFile(staged_node@), FileOpView::RemoveFile(staged_bun@)]);
    push_step(&mut steps, rename_of(node, old.as_str()), true, undo);
    let undo = vec![rename_of(old.as_str(), node), remove_of(staged_node.as_str()), remove_of(staged_bun.as_str())];
    assert(op_views(undo@) =~= seq![rename_op(old@, node@), FileOpView::RemoveFile(staged_node@), FileOpView::RemoveFile(staged_bun@)]);
    push_step(&mut steps, rename_of(staged_node.as_str(), node), true, undo);
    let undo = vec![remove_of(node), rename_of(old.as_str(), node), remove_of(staged_bun.as_str())];
    assert(op_views(undo@) =~= seq![FileOpView::RemoveFile(node@), rename_op(old@, node@), FileOpView::RemoveFile(staged_bun@)]);
    push_step(&mut steps, rename_of(staged_bun.as_str(), bun.as_str()), true, undo);
    assert(step_views(steps@) =~= spec_install_steps(prefix@, node@, template@, bun_source@, pid, style));
    steps
}

/// The steps that revert a modified prefix (once its original `node` is known to be
/// kept in the prefix's `bun` directory).
pub fn revert_steps(prefix: &str, pid: u32, style: PathStyle) -> (steps: Vec<FileStep>)
    ensures
        step_views(steps@) == spec_revert_steps(prefix@, pid, style),
{
    let node = node_executable(prefix, style);
    let staged_wrapper = temporary_sibling(node.as_str(), "revert", pid, style);
    let old = old_node(prefix, style);
    let mut steps: Vec<FileStep> = Vec::new();
    push_step(&mut steps, rename_of(node.as_str(), staged_wrapper.as_str()), true, no_undo());
    let undo = vec![rename_of(staged_wrapper.as_str(), node.as_str())];
    assert(op_views(undo@) =~= seq![rename_op(staged_wrapper@, node@)]);
    push_step(&mut steps, rename_of(old.as_str(), node.as_str()), true, undo);
    push_step(&mut steps, remove_of(staged_wrapper.as_str()), false, no_undo());
    push_step(&mut steps, FileOp::RemoveTree(bun_directory(prefix, style)), true, no_undo());
    assert(step_views(steps@) =~= spec_revert_steps(prefix@, pid, style));
    steps
}

/// Whether the path text `path` lies in the directory `dir` (or is `dir`): it starts
/// with `dir` followed by a separator.
pub open spec fn lies_under(path: Seq<char>, dir: Seq<char>, style: PathStyle) -> bool {
    path == dir || (dir.len() < path.len() && path.take(dir.len() as int) == dir && is_separator(path[dir.len() as int], style))
}

/// A file system as the files it holds: each path text names its own file, and a file
/// is known by its contents (here a number). Directories are left out.
pub open spec fn apply_op(files: Map<Seq<char>, int>, op: FileOpView, style: PathStyle) -> Map<Seq<char>, int> {
    match op {
        FileOpView::CopyExecutable { from, to } => files.insert(to, files[from]),
        FileOpView::Rename { from, to } => files.remove(from).insert(to, files[from]),
        FileOpView::RemoveFile(p) => files.remove(p),
        FileOpView::RemoveTree(d) => Map::new(|p: Seq<char>| files.dom().contains(p) && !lies_under(p, d, style), |p: Seq<char>| files[p]),
        FileOpView::CreateDirectories(_) => files,
    }
}

/// The files after every step succeeded.
pub open spec fn run_steps(files: Map<Seq<char>, int>, steps: Seq<StepView>, style: PathStyle) -> Map<Seq<char>, int>
    decreases steps.len(),
{
    if steps.len() == 0 {
        files
    } else {
        run_steps(apply_op(files, steps[0].op, style), steps.drop_first(), style)
    }
}

/// The separator that joining puts between a directory and a name.
pub open spec fn separator(style: PathStyle) -> char {
    if style == PathStyle::Windows { '\\' } else { '/' }
}

/// A relative name (no drive, no root) ends up at the end of what it is joined to,
/// after a separator when the base is a directory name that does not end in one.
proof fn lemma_join_relative(base: Seq<char>, name: Seq<char>, style: PathStyle)
    requires
        name.len() > 0,
        prefix_len(name, style) == 0,
        !is_separator(name[0], style),
    ensures
        spec_join(base, name, style) == base + seq![separator(style)] + name || spec_join(base, name, style) == base + name,
        base.len() > prefix_len(base, style) && !is_separator(base.last(), style)
            ==> spec_join(base, name, style) == base + seq![separator(style)] + name,
{
    assert(!has_root(name, style));
}

proof fn lemma_last_separator_before(a: Seq<char>, c: char, l: Seq<char>, lo: int, style: PathStyle)
    requires
        0 <= lo,
        is_separator(c, style),
        forall|i: int| 0 <= i < l.len() ==> !is_separator(#[trigger] l[i], style),
    ensures
        last_separator(a + seq![c] + l, lo, style) == (if a.len() >= lo { a.len() as int } else { -1 }),
    decreases l.len(),
{
    let s = a + seq![c] + l;
    if l.len() > 0 {
        let l2 = l.drop_last();
        assert(s.drop_last() =~= a + seq![c] + l2);
        assert(s.last() == l.last());
        lemma_last_separator_before(a, c, l2, lo, style);
    } else {
        assert(s.last() == c);
    }
}

proof fn lemma_no_separator(s: Seq<char>, lo: int, style: PathStyle)
    requires
        0 <= lo,
        forall|i: int| lo <= i < s.len() ==> !is_separator(#[trigger] s[i], style),
    ensures
        last_separator(s, lo, style) == -1,
    decreases s.len(),
{
    if s.len() > lo {
        let r = s.drop_last();
        assert forall|i: int| lo <= i < r.len() implies !is_separator(#[trigger] r[i], style) by {
            assert(r[i] == s[i]);
        }
        lemma_no_separator(r, lo, style);
    }
}

/// A plain last component: not empty, no separator in it, and it does not end in `.`.
pub open spec fn plain_tail(l: Seq<char>, style: PathStyle) -> bool {
    &&& l.len() > 0
    &&& forall|i: int| 0 <= i < l.len() ==> !is_separator(#[trigger] l[i], style)
    &&& l.last() != '.'
}

/// The file name of `a`, a separator, and a plain name is that name.
proof fn lemma_file_name_after_separator(a: Seq<char>, c: char, l: Seq<char>, style: PathStyle)
    requires
        is_separator(c, style),
        plain_tail(l, style),
    ensures
        spec_file_name(a + seq![c] + l, style) == Some(l),
{
    let s = a + seq![c] + l;
    let p = prefix_len(s, style);
    assert(s[a.len() as int] == c);
    if a.len() < 2 {
        assert(p == 0);
    }
    assert(p <= a.len());
    let lo = body_start(s, style);
    assert(lo <= a.len() + 1);
    assert(s.last() == l.last());
    assert(trim_back(s, lo, style) == s);
    lemma_last_separator_before(a, c, l, lo, style);
    if a.len() >= lo {
        assert(s.skip(a.len() as int + 1) =~= l);
    } else {
        assert(s.skip(lo) =~= l);
    }
    assert(l != ".."@) by {
        reveal_strlit("..");
    }
}

/// The file name of a path that is a plain name, after nothing or after a drive.
proof fn lemma_file_name_without_separator(a: Seq<char>, l: Seq<char>, style: PathStyle)
    requires
        a.len() == 0 || (style == PathStyle::Windows && a.len() == 2 && is_ascii_letter(a[0]) && a[1] == ':'),
        plain_tail(l, style),
        l[0] != '.',
        l.len() >= 2 ==> l[1] != ':',
    ensures
        spec_file_name(a + l, style) == Some(l),
{
    let s = a + l;
    assert(prefix_len(s, style) == a.len());
    assert(!has_root(s, style));
    assert(!has_cur_dir(s, style));
    let lo = a.len() as int;
    assert(body_start(s, style) == lo);
    assert(s.last() == l.last());
    assert(trim_back(s, lo, style) == s);
    assert forall|i: int| lo <= i < s.len() implies !is_separator(#[trigger] s[i], style) by {
        assert(s[i] == l[i - lo]);
    }
    lemma_no_separator(s, lo, style);
    assert(s.skip(lo) =~= l);
    assert(l != ".."@) by {
        reveal_strlit("..");
    }
}

/// The name of the prefix's `node`.
pub open spec fn node_name(style: PathStyle) -> Seq<char> {
    if style == PathStyle::Windows { "node.exe"@ } else { "node"@ }
}

proof fn lemma_node_file_name(prefix: Seq<char>, style: PathStyle)
    ensures
        spec_file_name(spec_node_executable(prefix, style), style) == Some(node_name(style)),
{
    reveal_strlit("node");
    reveal_strlit("node.exe");
    reveal_strlit("bin/node");
    let n = spec_node_executable(prefix, style);
    if style == PathStyle::Windows {
        let l = "node.exe"@;
        assert(plain_tail(l, style));
        assert(prefix_len(l, style) == 0);
        if prefix.len() > 0 && !is_separator(prefix.last(), style)
            && !(prefix_len(prefix, style) > 0 && prefix_len(prefix, style) == prefix.len()) {
            assert(n == prefix + seq!['\\'] + l);
            lemma_file_name_after_separator(prefix, '\\', l, style);
        } else {
            assert(n == prefix + l);
            if prefix.len() == 0 {
                assert(prefix + l =~= Seq::<char>::empty() + l);
                lemma_file_name_without_separator(prefix, l, style);
            } else if is_separator(prefix.last(), style) {
                let a = prefix.drop_last();
                assert(prefix + l =~= a + seq![prefix.last()] + l);
                lemma_file_name_after_separator(a, prefix.last(), l, style);
            } else {
                assert(prefix.len() == 2);
                lemma_file_name_without_separator(prefix, l, style);
            }
        }
    } else {
        let full = "bin/node"@;
        let l = "node"@;
        assert(plain_tail(l, style));
        lemma_join_relative(prefix, full, style);
        let a = if n == prefix + seq![separator(style)] + full { prefix + seq![separator(style)] + "bin"@ } else { prefix + "bin"@ };
        reveal_strlit("bin");
        assert(n =~= a + seq!['/'] + l);
        lemma_file_name_after_separator(a, '/', l, style);
    }
}

/// The name of Bun's executable.
pub open spec fn bun_name(style: PathStyle) -> Seq<char> {
    "bun"@ + spec_executable_extension(style)
}

proof fn lemma_bun_file_name(prefix: Seq<char>, style: PathStyle)
    ensures
        spec_file_name(spec_installed_bun(prefix, style), style) == Some(bun_name(style)),
{
    reveal_strlit("bun");
    reveal_strlit(".exe");
    reveal_strlit("");
    lemma_bun_directory_layout(prefix, style);
    let d = spec_bun_directory(prefix, style);
    let l = bun_name(style);
    assert(plain_tail(l, style));
    assert(l[0] == 'b');
    assert(prefix_len(l, style) == 0);
    lemma_join_relative(prefix, "bun"@, style);
    lemma_ends_with(d, "bun"@);
    assert(d.len() >= 3 && d.last() == 'n');
    lemma_join_relative(d, l, style);
    lemma_file_name_after_separator(d, separator(style), l, style);
}

/// The name a hidden sibling of `path` gets.
pub open spec fn sibling_name(path: Seq<char>, purpose: Seq<char>, pid: u32, style: PathStyle) -> Seq<char> {
    let name = match spec_file_name(path, style) { Some(n) => n, None => Seq::empty() };
    "."@ + name + ".bunode."@ + purpose + "."@ + decimal(pid as nat)
}

/// A hidden sibling ends with its name.
proof fn lemma_sibling_suffix(path: Seq<char>, purpose: Seq<char>, pid: u32, style: PathStyle)
    ensures
        ({
            let t = spec_temporary_sibling(path, purpose, pid, style);
            let m = sibling_name(path, purpose, pid, style);
            t.len() >= m.len() && t.skip(t.len() - m.len()) == m
        }),
{
    reveal_strlit(".");
    let m = sibling_name(path, purpose, pid, style);
    assert(m[0] == '.');
    let base = match (spec_file_name(path, style), crate::paths::spec_parent(path, style)) {
        (Some(_), Some(dir)) => dir,
        _ => path,
    };
    let t = spec_temporary_sibling(path, purpose, pid, style);
    assert(t == spec_join(base, m, style));
    lemma_join_relative(base, m, style);
    if t == base + seq![separator(style)] + m {
        assert(t.skip(t.len() - m.len()) =~= m);
    } else {
        assert(t.skip(t.len() - m.len()) =~= m);
    }
}

/// The wrapper and Bun are staged under different names.
proof fn lemma_staged_files_differ(prefix: Seq<char>, pid: u32, style: PathStyle)
    ensures
        spec_temporary_sibling(spec_node_executable(prefix, style), "new"@, pid, style)
            != spec_temporary_sibling(spec_installed_bun(prefix, style), "new"@, pid, style),
{
    reveal_strlit(".");
    reveal_strlit("node");
    reveal_strlit("node.exe");
    reveal_strlit("bun");
    reveal_strlit(".exe");
    reveal_strlit("");
    let n = spec_node_executable(prefix, style);
    let u = spec_installed_bun(prefix, style);
    lemma_node_file_name(prefix, style);
    lemma_bun_file_name(prefix, style);
    lemma_sibling_suffix(n, "new"@, pid, style);
    lemma_sibling_suffix(u, "new"@, pid, style);
    let mn = sibling_name(n, "new"@, pid, style);
    let mu = sibling_name(u, "new"@, pid, style);
    let sn = spec_temporary_sibling(n, "new"@, pid, style);
    let sb = spec_temporary_sibling(u, "new"@, pid, style);
    assert(mn.len() == mu.len() + 1);
    assert(mn[1] == 'n');
    assert(mu[0] == '.');
    if sn == sb {
        let t = sn;
        assert(t[t.len() - mn.len() + 1] == mn[1]);
        assert(t[t.len() - mu.len()] == mu[0]);
    }
}

proof fn lemma_ends_with(s: Seq<char>, t: Seq<char>)
    requires
        s == t || exists|u: Seq<char>| s == u + t,
        t.len() > 0,
    ensures
        s.len() >= t.len(),
        s.last() == t.last(),
{
    if s != t {
        let u = choose|u: Seq<char>| s == u + t;
        assert(s.last() == (u + t)[u.len() + t.len() - 1]);
    }
}

proof fn lemma_decimal_last(n: nat)
    ensures
        decimal(n).len() > 0,
        '0' <= decimal(n).last() && decimal(n).last() <= '9',
    decreases n,
{
    if n >= 10 {
        lemma_decimal_last(n / 10);
    }
}

/// A hidden sibling made for a step ends with the process number, so with a digit.
proof fn lemma_sibling_ends_with_digit(path: Seq<char>, purpose: Seq<char>, pid: u32, style: PathStyle)
    ensures
        spec_temporary_sibling(path, purpose, pid, style).len() > 0,
        '0' <= spec_temporary_sibling(path, purpose, pid, style).last()
            && spec_temporary_sibling(path, purpose, pid, style).last() <= '9',
{
    reveal_strlit(".");
    reveal_strlit(".bunode.");
    let name = match crate::paths::spec_file_name(path, style) { Some(n) => n, None => Seq::empty() };
    let m = "."@ + name + ".bunode."@ + purpose + "."@ + decimal(pid as nat);
    lemma_decimal_last(pid as nat);
    assert(m[0] == '.');
    assert(m.last() == decimal(pid as nat).last());
    let base = match (crate::paths::spec_file_name(path, style), crate::paths::spec_parent(path, style)) {
        (Some(_), Some(dir)) => dir,
        _ => path,
    };
    assert(spec_with_file_name(path, m, style) == spec_join(base, m, style));
    lemma_join_relative(base, m, style);
    if spec_join(base, m, style) == base + seq![separator(style)] + m {
        lemma_ends_with(spec_join(base, m, style), m);
    } else {
        lemma_ends_with(spec_join(base, m, style), m);
    }
}

/// The prefix's `bun` directory, the original `node` kept in it, and Bun's executable
/// in it.
proof fn lemma_bun_directory_layout(prefix: Seq<char>, style: PathStyle)
    ensures
        lies_under(spec_old_node(prefix, style), spec_bun_directory(prefix, style), style),
        lies_under(spec_installed_bun(prefix, style), spec_bun_directory(prefix, style), style),
        spec_old_node(prefix, style) != spec_installed_bun(prefix, style),
        spec_old_node(prefix, style).len() > 0,
        spec_old_node(prefix, style).last() == 'd' || spec_old_node(prefix, style).last() == 'e',
{
    reveal_strlit("bun");
    reveal_strlit("node.old");
    reveal_strlit(".exe");
    reveal_strlit("");
    let d = spec_bun_directory(prefix, style);
    lemma_join_relative(prefix, "bun"@, style);
    lemma_ends_with(d, "bun"@);
    assert(d.len() >= 3);
    assert(d.last() == 'n');
    assert(prefix_len(d, style) <= 2);
    let ext = spec_executable_extension(style);
    let old_name = "node.old"@ + ext;
    let bun_name = "bun"@ + ext;
    assert(old_name[0] == 'n');
    assert(bun_name[0] == 'b');
    lemma_join_relative(d, old_name, style);
    lemma_join_relative(d, bun_name, style);
    let o = spec_old_node(prefix, style);
    let u = spec_installed_bun(prefix, style);
    assert(o == d + seq![separator(style)] + old_name);
    assert(u == d + seq![separator(style)] + bun_name);
    assert(o.take(d.len() as int) =~= d);
    assert(u.take(d.len() as int) =~= d);
    assert(o[d.len() as int] == separator(style));
    assert(u[d.len() as int] == separator(style));
    assert(o.len() != u.len());
    assert(o.last() == old_name.last());
}

proof fn lemma_run_steps_at(files: Map<Seq<char>, int>, steps: Seq<StepView>, k: int, style: PathStyle)
    requires
        0 <= k < steps.len(),
    ensures
        run_steps(files, steps.skip(k), style) == run_steps(apply_op(files, steps[k].op, style), steps.skip(k + 1), style),
{
    assert(steps.skip(k).drop_first() =~= steps.skip(k + 1));
}

/// The files after the installation's renames and after the revert's, over named
/// paths: `n` the prefix's `node`, `t` the wrapper, `b` the downloaded Bun, `sn`, `sb`
/// and `sw` the staged files, `o` the kept original, `u` Bun's place, `d` the `bun`
/// directory.
proof fn lemma_install_revert_files(f0: Map<Seq<char>, int>, n: Seq<char>, t: Seq<char>, b: Seq<char>, sn: Seq<char>,
    sb: Seq<char>, sw: Seq<char>, o: Seq<char>, u: Seq<char>, d: Seq<char>, style: PathStyle)
    requires
        f0.dom().contains(n),
        f0.dom().contains(t),
        f0.dom().contains(b),
        forall|p: Seq<char>| #[trigger] f0.dom().contains(p) ==> !lies_under(p, d, style),
        !f0.dom().contains(sn),
        !f0.dom().contains(sb),
        !f0.dom().contains(sw),
        lies_under(o, d, style),
        lies_under(u, d, style),
        o != u,
        sn != sb,
        sn != o,
        sb != o,
        sw != o,
    ensures
        ({
            let f2 = f0.insert(sn, f0[t]);
            let f3 = f2.insert(sb, f2[b]);
            let f4 = f3.remove(n).insert(o, f3[n]);
            let f5 = f4.remove(sn).insert(n, f4[sn]);
            let f6 = f5.remove(sb).insert(u, f5[sb]);
            let g1 = f6.remove(n).insert(sw, f6[n]);
            let g2 = g1.remove(o).insert(n, g1[o]);
            let g3 = g2.remove(sw);
            let g4 = Map::new(|p: Seq<char>| g3.dom().contains(p) && !lies_under(p, d, style), |p: Seq<char>| g3[p]);
            &&& f6[n] == f0[t]
            &&& f6[u] == f0[b]
            &&& f6[o] == f0[n]
            &&& g4 == f0
        }),
{
    let f2 = f0.insert(sn, f0[t]);
    let f3 = f2.insert(sb, f2[b]);
    let f4 = f3.remove(n).insert(o, f3[n]);
    let f5 = f4.remove(sn).insert(n, f4[sn]);
    let f6 = f5.remove(sb).insert(u, f5[sb]);
    let g1 = f6.remove(n).insert(sw, f6[n]);
    let g2 = g1.remove(o).insert(n, g1[o]);
    let g3 = g2.remove(sw);
    let g4 = Map::new(|p: Seq<char>| g3.dom().contains(p) && !lies_under(p, d, style), |p: Seq<char>| g3[p]);
    assert(!lies_under(n, d, style));
    assert(n != o && n != u && n != sn && n != sb && n != sw);
    assert(!f0.dom().contains(o) && !f0.dom().contains(u));
    assert(f6[o] == f0[n]);
    assert(g2[n] == f0[n]);
    assert forall|p: Seq<char>| #[trigger] g4.dom().contains(p) <==> f0.dom().contains(p) by {
        if f0.dom().contains(p) {
            assert(!lies_under(p, d, style));
            assert(p != sn && p != sb && p != sw && p != o && p != u);
        }
    }
    assert forall|p: Seq<char>| #[trigger] g4.dom().contains(p) implies g4[p] == f0[p] by {
        assert(f0.dom().contains(p));
        assert(p != sn && p != sb && p != sw && p != o && p != u);
    }
    assert(g4 =~= f0);
}

proof fn lemma_run_named(f0: Map<Seq<char>, int>, n: Seq<char>, t: Seq<char>, b: Seq<char>, sn: Seq<char>,
    sb: Seq<char>, sw: Seq<char>, o: Seq<char>, u: Seq<char>, d: Seq<char>, style: PathStyle)
    requires
        f0.dom().contains(n),
        f0.dom().contains(t),
        f0.dom().contains(b),
        forall|p: Seq<char>| #[trigger] f0.dom().contains(p) ==> !lies_under(p, d, style),
        !f0.dom().contains(sn),
        !f0.dom().contains(sb),
        !f0.dom().contains(sw),
        lies_under(o, d, style),
        lies_under(u, d, style),
        o != u,
        sn != sb,
        sn != o,
        sb != o,
        sw != o,
    ensures
        ({
            let installed = run_steps(f0, install_steps_named(n, t, b, d, o, u, sn, sb), style);
            &&& installed[n] == f0[t]
            &&& installed[u] == f0[b]
            &&& installed[o] == f0[n]
            &&& run_steps(installed, revert_steps_named(n, sw, o, d), style) == f0
        }),
{
    lemma_install_revert_files(f0, n, t, b, sn, sb, sw, o, u, d, style);
    let install = install_steps_named(n, t, b, d, o, u, sn, sb);
    let f1 = f0;
    let f2 = f1.insert(sn, f1[t]);
    let f3 = f2.insert(sb, f2[b]);
    let f4 = f3.remove(n).insert(o, f3[n]);
    let f5 = f4.remove(sn).insert(n, f4[sn]);
    let f6 = f5.remove(sb).insert(u, f5[sb]);
    assert(install.skip(0) =~= install);
    lemma_run_steps_at(f0, install, 0, style);
    lemma_run_steps_at(f1, install, 1, style);
    lemma_run_steps_at(f2, install, 2, style);
    lemma_run_steps_at(f3, install, 3, style);
    lemma_run_steps_at(f4, install, 4, style);
    lemma_run_steps_at(f5, install, 5, style);
    assert(install.skip(6).len() == 0);
    assert(run_steps(f0, install, style) == f6);

    let revert = revert_steps_named(n, sw, o, d);
    let g1 = f6.remove(n).insert(sw, f6[n]);
    let g2 = g1.remove(o).insert(n, g1[o]);
    let g3 = g2.remove(sw);
    assert(revert.skip(0) =~= revert);
    lemma_run_steps_at(f6, revert, 0, style);
    lemma_run_steps_at(g1, revert, 1, style);
    lemma_run_steps_at(g2, revert, 2, style);
    lemma_run_steps_at(g3, revert, 3, style);
    assert(revert.skip(4).len() == 0);
}

/// Reverting a prefix undoes installing Bunode into it: when every step of both
/// succeeds, the files are those before the installation. This holds of a file system
/// that holds the prefix's `node`, the wrapper and the downloaded Bun, has nothing yet
/// in the prefix's `bun` directory, and none of the hidden files the steps stage
/// things in. Afterwards the prefix's `node` is the wrapper, Bun is in place, and the
/// original `node` is kept in the `bun` directory.
pub proof fn law_revert_undoes_install(files: Map<Seq<char>, int>, prefix: Seq<char>, template: Seq<char>,
    bun_source: Seq<char>, pid: u32, revert_pid: u32, style: PathStyle)
    requires
        files.dom().contains(spec_node_executable(prefix, style)),
        files.dom().contains(template),
        files.dom().contains(bun_source),
        forall|p: Seq<char>| #[trigger] files.dom().contains(p) ==> !lies_under(p, spec_bun_directory(prefix, style), style),
        !files.dom().contains(spec_temporary_sibling(spec_node_executable(prefix, style), "new"@, pid, style)),
        !files.dom().contains(spec_temporary_sibling(spec_installed_bun(prefix, style), "new"@, pid, style)),
        !files.dom().contains(spec_temporary_sibling(spec_node_executable(prefix, style), "revert"@, revert_pid, style)),
    ensures
        ({
            let node = spec_node_executable(prefix, style);
            let installed = run_steps(files, spec_install_steps(prefix, node, template, bun_source, pid, style), style);
            &&& installed[node] == files[template]
            &&& installed[spec_installed_bun(prefix, style)] == files[bun_source]
            &&& installed[spec_old_node(prefix, style)] == files[node]
            &&& run_steps(installed, spec_revert_steps(prefix, revert_pid, style), style) == files
        }),
{
    let n = spec_node_executable(prefix, style);
    let d = spec_bun_directory(prefix, style);
    let o = spec_old_node(prefix, style);
    let u = spec_installed_bun(prefix, style);
    let sn = spec_temporary_sibling(n, "new"@, pid, style);
    let sb = spec_temporary_sibling(u, "new"@, pid, style);
    let sw = spec_temporary_sibling(n, "revert"@, revert_pid, style);
    lemma_bun_directory_layout(prefix, style);
    lemma_sibling_ends_with_digit(n, "new"@, pid, style);
    lemma_sibling_ends_with_digit(u, "new"@, pid, style);
    lemma_sibling_ends_with_digit(n, "revert"@, revert_pid, style);
    lemma_staged_files_differ(prefix, pid, style);
    assert(spec_install_steps(prefix, n, template, bun_source, pid, style)
        == install_steps_named(n, template, bun_source, d, o, u, sn, sb));
    assert(spec_revert_steps(prefix, revert_pid, style) == revert_steps_named(n, sw, o, d));
    lemma_run_named(files, n, template, bun_source, sn, sb, sw, o, u, d, style);
}

} // verus!
