//! What the prefix commands decide: which paths they touch, which checks refuse a
//! prefix, what they ask and what they report.

use vstd::prelude::*;

use super::CliError;
use super::config::{PrefixKind, PrefixRecord, RecordView, spec_label};
use crate::argv::PathStyle;
use crate::paths::{Component, PathComponent, component_views, components, file_name, has_root, join, parent, path_eq,
    path_starts_with, prefix_len, spec_components, spec_file_name, spec_join, spec_parent, spec_path_eq,
    spec_path_starts_with};
use crate::text::{push_string, extend_strings, ascii_lowercase, chars_of, concat, concat3, contains, contains_text, decimal, eq_ignore_ascii_case,
    owned, push_decimal, range_eq_ignore_ascii_case, same_text, to_ascii_lowercase, trim, trim_start_char,
    trim_start_matches, trimmed};

verus! {

pub open spec fn spec_executable_extension(style: PathStyle) -> Seq<char> {
    if style == PathStyle::Windows { ".exe"@ } else { ""@ }
}

/// The suffix of executable file names.
pub fn executable_extension(style: PathStyle) -> (extension: &'static str)
    ensures
        extension@ == spec_executable_extension(style),
{
    if matches!(style, PathStyle::Windows) { ".exe" } else { "" }
}

/// `node` inside a Node.js prefix.
pub open spec fn spec_node_executable(prefix: Seq<char>, style: PathStyle) -> Seq<char> {
    spec_join(prefix, if style == PathStyle::Windows { "node.exe"@ } else { "bin/node"@ }, style)
}

pub fn node_executable(prefix: &str, style: PathStyle) -> (path: String)
    ensures
        path@ == spec_node_executable(prefix@, style),
{
    if matches!(style, PathStyle::Windows) {
        join(prefix, "node.exe", style)
    } else {
        join(prefix, "bin/node", style)
    }
}

/// Two prefixes are the same: on Windows their texts are equal ignoring ASCII case,
/// elsewhere they have the same components.
pub open spec fn spec_same_path(left: Seq<char>, right: Seq<char>, style: PathStyle) -> bool {
    if style == PathStyle::Windows { eq_ignore_ascii_case(left, right) } else { spec_path_eq(left, right, style) }
}

pub fn same_path(left: &str, right: &str, style: PathStyle) -> (r: bool)
    ensures
        r == spec_same_path(left@, right@, style),
{
    if matches!(style, PathStyle::Windows) {
        let l = chars_of(left);
        assert(l@.subrange(0, l@.len() as int) =~= l@);
        range_eq_ignore_ascii_case(&l, 0, l.len(), right)
    } else {
        path_eq(left, right, style)
    }
}

/// The path pieces that version managers put Node.js installations under.
pub open spec fn version_manager_markers() -> Seq<Seq<char>> {
    seq!["/.nvm/"@, "/.fnm/"@, "/.volta/"@, "/.local/share/vp/"@, "/versions/node/"@, "\\fnm\\"@, "\\volta\\"@]
}

/// A prefix looks managed by a Node.js version manager when (lower-cased) it contains a
/// version manager's directory, the lower-cased Node.js version, or that version
/// without its leading `v`.
pub open spec fn spec_looks_version_managed(prefix: Seq<char>, original_version: Seq<char>) -> bool {
    let value = ascii_lowercase(prefix);
    (exists|k: int| 0 <= k < version_manager_markers().len() && contains_text(value, #[trigger] version_manager_markers()[k]))
        || contains_text(value, ascii_lowercase(original_version))
        || contains_text(value, trim_start_char(original_version, 'v'))
}

fn marker(k: usize) -> (m: &'static str)
    requires
        k < 7,
    ensures
        m@ == version_manager_markers()[k as int],
{
    if k == 0 { "/.nvm/" } else if k == 1 { "/.fnm/" } else if k == 2 { "/.volta/" }
    else if k == 3 { "/.local/share/vp/" } else if k == 4 { "/versions/node/" }
    else if k == 5 { "\\fnm\\" } else { "\\volta\\" }
}

pub fn looks_version_managed(prefix: &str, original_version: &str) -> (r: bool)
    ensures
        r == spec_looks_version_managed(prefix@, original_version@),
{
    let value = to_ascii_lowercase(prefix);
    let mut k: usize = 0;
    while k < 7
        invariant
            k <= 7,
            value@ == ascii_lowercase(prefix@),
            forall|j: int| 0 <= j < k ==> !contains_text(value@, #[trigger] version_manager_markers()[j]),
        decreases 7 - k,
    {
        if contains(value.as_str(), marker(k)) {
            return true;
        }
        k += 1;
    }
    let lowered = to_ascii_lowercase(original_version);
    let bare = trim_start_matches(original_version, 'v');
    contains(value.as_str(), lowered.as_str()) || contains(value.as_str(), bare.as_str())
}

/// `Path::with_file_name`: the path with its file name replaced (or `name` joined on
/// when it has none).
pub open spec fn spec_with_file_name(path: Seq<char>, name: Seq<char>, style: PathStyle) -> Seq<char> {
    match (spec_file_name(path, style), spec_parent(path, style)) {
        (Some(_), Some(dir)) => spec_join(dir, name, style),
        _ => spec_join(path, name, style),
    }
}

/// A hidden file beside `path` for a step of an update: `.<name>.bunode.<purpose>.<pid>`.
pub open spec fn spec_temporary_sibling(path: Seq<char>, purpose: Seq<char>, pid: u32, style: PathStyle) -> Seq<char> {
    let name = match spec_file_name(path, style) {
        Some(n) => n,
        None => Seq::empty(),
    };
    spec_with_file_name(path, "."@ + name + ".bunode."@ + purpose + "."@ + decimal(pid as nat), style)
}

pub fn temporary_sibling(path: &str, purpose: &str, pid: u32, style: PathStyle) -> (sibling: String)
    ensures
        sibling@ == spec_temporary_sibling(path@, purpose@, pid, style),
{
    let name = file_name(path, style);
    let mut sibling_name = owned(".");
    match &name {
        Some(n) => sibling_name.append(n.as_str()),
        None => {},
    }
    sibling_name.append(".bunode.");
    sibling_name.append(purpose);
    sibling_name.append(".");
    push_decimal(&mut sibling_name, pid as u64);
    let ghost expected_name = "."@ + (match spec_file_name(path@, style) { Some(n) => n, None => Seq::empty() })
        + ".bunode."@ + purpose@ + "."@ + decimal(pid as nat);
    assert(sibling_name@ =~= expected_name);
    match (name, parent(path, style)) {
        (Some(_), Some(dir)) => join(dir.as_str(), sibling_name.as_str(), style),
        _ => join(path, sibling_name.as_str(), style),
    }
}

/// The prefix a Node.js executable belongs to: its directory on Windows, the parent of
/// its `bin` directory elsewhere.
pub open spec fn spec_prefix_from_node(node: Seq<char>, style: PathStyle) -> Result<Seq<char>, Seq<char>> {
    let invalid = "invalid Node.js executable path "@ + node;
    match spec_parent(node, style) {
        None => Err(invalid),
        Some(dir) => if style == PathStyle::Windows {
            Ok(dir)
        } else if spec_file_name(dir, style) == Some("bin"@) {
            match spec_parent(dir, style) {
                Some(prefix) => Ok(prefix),
                None => Err(invalid),
            }
        } else {
            Err("expected the Node.js executable under a bin directory, got "@ + node)
        },
    }
}

pub fn prefix_from_node(node: &str, style: PathStyle) -> (result: Result<String, CliError>)
    ensures
        match (result, spec_prefix_from_node(node@, style)) {
            (Ok(p), Ok(expected)) => p@ == expected,
            (Err(e), Err(m)) => e.message@ == m,
            _ => false,
        },
{
    let dir = match parent(node, style) {
        None => return Err(CliError::new(concat("invalid Node.js executable path ", node))),
        Some(dir) => dir,
    };
    if matches!(style, PathStyle::Windows) {
        return Ok(dir);
    }
    let is_bin = match file_name(dir.as_str(), style) {
        Some(name) => same_text(name.as_str(), "bin"),
        None => false,
    };
    if is_bin {
        match parent(dir.as_str(), style) {
            Some(prefix) => Ok(prefix),
            None => Err(CliError::new(concat("invalid Node.js executable path ", node))),
        }
    } else {
        Err(CliError::new(concat("expected the Node.js executable under a bin directory, got ", node)))
    }
}

/// What `node -p process.version` printed must start with `v`.
pub open spec fn spec_node_version(node: Seq<char>, output: Seq<char>) -> Result<Seq<char>, Seq<char>> {
    if output.len() > 0 && output[0] == 'v' {
        Ok(output)
    } else {
        Err(node + " did not report a Node.js version"@)
    }
}

pub fn node_version(node: &str, output: String) -> (result: Result<String, CliError>)
    ensures
        match (result, spec_node_version(node@, output@)) {
            (Ok(v), Ok(expected)) => v@ == expected,
            (Err(e), Err(m)) => e.message@ == m,
            _ => false,
        },
{
    let chars = chars_of(output.as_str());
    if chars.len() > 0 && chars[0] == 'v' {
        Ok(output)
    } else {
        Err(CliError::new(concat(node, " did not report a Node.js version")))
    }
}

/// What a finished command gives back: its trimmed output when it succeeded and printed
/// UTF-8, else an error naming the command.
pub open spec fn spec_command_output(command: Seq<char>, success: bool, status: Seq<char>,
    stdout: Result<Seq<char>, Seq<char>>, stderr: Seq<char>) -> Result<Seq<char>, Seq<char>> {
    if !success {
        Err(command + " exited with "@ + status + ": "@ + trim(stderr))
    } else {
        match stdout {
            Ok(out) => Ok(trim(out)),
            Err(problem) => Err(command + " returned invalid UTF-8: "@ + problem),
        }
    }
}

pub fn command_output(command: &str, success: bool, status: &str, stdout: Result<String, String>, stderr: &str)
    -> (result: Result<String, CliError>)
    ensures
        match (result, spec_command_output(command@, success, status@,
            match stdout { Ok(s) => Ok(s@), Err(p) => Err(p@) }, stderr@)) {
            (Ok(v), Ok(expected)) => v@ == expected,
            (Err(e), Err(m)) => e.message@ == m,
            _ => false,
        },
{
    if !success {
        let mut message = concat3(command, " exited with ", status);
        message.append(": ");
        let detail = trimmed(stderr);
        message.append(detail.as_str());
        return Err(CliError::new(message));
    }
    match stdout {
        Ok(out) => Ok(trimmed(out.as_str())),
        Err(problem) => Err(CliError::new(concat3(command, " returned invalid UTF-8: ", problem.as_str()))),
    }
}

/// What to do about a confirmation.
pub enum Confirmation {
    /// `--yes` was given: go on without asking.
    Accepted,
    /// Ask on the terminal.
    Ask,
    /// There is no terminal to ask on.
    Refused(CliError),
}

pub fn confirmation(message: &str, yes: bool, interactive: bool) -> (c: Confirmation)
    ensures
        yes ==> c is Accepted,
        !yes && interactive ==> c is Ask,
        !yes && !interactive ==> (c matches Confirmation::Refused(e) && e.message@ == message@ + " Pass --yes to confirm."@),
{
    if yes {
        Confirmation::Accepted
    } else if !interactive {
        Confirmation::Refused(CliError::new(concat(message, " Pass --yes to confirm.")))
    } else {
        Confirmation::Ask
    }
}

/// The answer to a confirmation prompt.
pub fn confirm_answer(accepted: bool) -> (result: Result<(), CliError>)
    ensures
        accepted <==> result is Ok,
        result matches Err(e) ==> e.message@ == "operation cancelled"@,
{
    if accepted { Ok(()) } else { Err(CliError::new(owned("operation cancelled"))) }
}

/// A copy destination must not exist yet and must lie outside the source prefix.
pub open spec fn spec_check_copy_target(source: Seq<char>, target: Seq<char>, exists: bool, style: PathStyle) -> Result<(), Seq<char>> {
    if exists {
        Err("copy destination "@ + target + " already exists"@)
    } else if spec_path_starts_with(target, source, style) {
        Err("copy destination cannot be inside the source prefix"@)
    } else {
        Ok(())
    }
}

pub fn check_copy_target(source: &str, target: &str, exists: bool, style: PathStyle) -> (result: Result<(), CliError>)
    ensures
        match (result, spec_check_copy_target(source@, target@, exists, style)) {
            (Ok(()), Ok(())) => true,
            (Err(e), Err(m)) => e.message@ == m,
            _ => false,
        },
{
    if exists {
        Err(CliError::new(concat3("copy destination ", target, " already exists")))
    } else if path_starts_with(target, source, style) {
        Err(CliError::new(owned("copy destination cannot be inside the source prefix")))
    } else {
        Ok(())
    }
}

/// `bun/` inside a prefix.
pub open spec fn spec_bun_directory(prefix: Seq<char>, style: PathStyle) -> Seq<char> {
    spec_join(prefix, "bun"@, style)
}

/// Where the original `node` is kept in a patched prefix.
pub open spec fn spec_old_node(prefix: Seq<char>, style: PathStyle) -> Seq<char> {
    spec_join(spec_bun_directory(prefix, style), "node.old"@ + spec_executable_extension(style), style)
}

/// Bun's executable in a patched prefix.
pub open spec fn spec_installed_bun(prefix: Seq<char>, style: PathStyle) -> Seq<char> {
    spec_join(spec_bun_directory(prefix, style), "bun"@ + spec_executable_extension(style), style)
}

pub fn bun_directory(prefix: &str, style: PathStyle) -> (path: String)
    ensures
        path@ == spec_bun_directory(prefix@, style),
{
    join(prefix, "bun", style)
}

pub fn old_node(prefix: &str, style: PathStyle) -> (path: String)
    ensures
        path@ == spec_old_node(prefix@, style),
{
    let dir = bun_directory(prefix, style);
    let name = concat("node.old", executable_extension(style));
    join(dir.as_str(), name.as_str(), style)
}

pub fn installed_bun(prefix: &str, style: PathStyle) -> (path: String)
    ensures
        path@ == spec_installed_bun(prefix@, style),
{
    let dir = bun_directory(prefix, style);
    let name = concat("bun", executable_extension(style));
    join(dir.as_str(), name.as_str(), style)
}

/// A prefix that already holds a kept `node` or Bun is refused.
pub fn reject_installed_prefix(prefix: &str, old_node_exists: bool, bun_exists: bool) -> (result: Result<(), CliError>)
    ensures
        result is Ok <==> !old_node_exists && !bun_exists,
        result matches Err(e) ==> e.message@ == prefix@ + " already contains a Bunode runtime; use `bunode revert` or repair it manually"@,
{
    if old_node_exists || bun_exists {
        Err(CliError::new(concat(prefix, " already contains a Bunode runtime; use `bunode revert` or repair it manually")))
    } else {
        Ok(())
    }
}

/// The error for a file that must exist.
pub fn missing_file(description: &str, path: &str) -> (error: CliError)
    ensures
        error.message@ == description@ + " is missing at "@ + path@,
{
    CliError::new(concat3(description, " is missing at ", path))
}

/// The index of the record of `path`, if it is managed.
pub open spec fn spec_record_index(records: Seq<RecordView>, path: Seq<char>, style: PathStyle) -> Option<int> {
    if exists|i: int| 0 <= i < records.len() && spec_same_path(#[trigger] records[i].path, path, style) {
        Some(choose|i: int| 0 <= i < records.len() && spec_same_path(#[trigger] records[i].path, path, style)
            && forall|j: int| 0 <= j < i ==> !spec_same_path(#[trigger] records[j].path, path, style))
    } else {
        None
    }
}

pub open spec fn record_views(records: Seq<PrefixRecord>) -> Seq<RecordView> {
    records.map_values(|r: PrefixRecord| r@)
}

/// The position of the first record of `path`.
pub fn record_index(records: &Vec<PrefixRecord>, path: &str, style: PathStyle) -> (index: Option<usize>)
    ensures
        match index {
            Some(i) => i < records@.len() && spec_record_index(record_views(records@), path@, style) == Some(i as int),
            None => spec_record_index(record_views(records@), path@, style) is None,
        },
{
    let ghost rs = record_views(records@);
    let mut i: usize = 0;
    while i < records.len()
        invariant
            i <= records@.len(),
            rs == record_views(records@),
            forall|j: int| 0 <= j < i ==> !spec_same_path(#[trigger] rs[j].path, path@, style),
        decreases records.len() - i,
    {
        if same_path(records[i].path.as_str(), path, style) {
            assert(spec_same_path(rs[i as int].path, path@, style));
            proof {
                let k = choose|k: int| 0 <= k < rs.len() && spec_same_path(#[trigger] rs[k].path, path@, style)
                    && forall|j: int| 0 <= j < k ==> !spec_same_path(#[trigger] rs[j].path, path@, style);
                if k < i {
                    assert(!spec_same_path(rs[k].path, path@, style));
                } else if k > i {
                    assert(!spec_same_path(rs[i as int].path, path@, style));
                }
            }
            return Some(i);
        }
        i += 1;
    }
    None
}

/// The error for a prefix that is managed already.
pub fn already_managed(path: &str) -> (error: CliError)
    ensures
        error.message@ == path@ + " is already a managed Bunode prefix"@,
{
    CliError::new(concat(path, " is already a managed Bunode prefix"))
}

/// Where `patch` downloads Bun to before installing it.
pub open spec fn spec_download_path(root: Seq<char>, pid: u32, style: PathStyle) -> Seq<char> {
    spec_join(root, ".bun-download-"@ + decimal(pid as nat) + spec_executable_extension(style), style)
}

pub fn download_path(root: &str, pid: u32, style: PathStyle) -> (path: String)
    ensures
        path@ == spec_download_path(root@, pid, style),
{
    let mut name = owned(".bun-download-");
    push_decimal(&mut name, pid as u64);
    name.append(executable_extension(style));
    join(root, name.as_str(), style)
}

/// The downloaded Bun must report the requested version (a leading `v` aside).
pub open spec fn spec_check_downloaded_version(version: Seq<char>, downloaded: Seq<char>) -> Result<(), Seq<char>> {
    if trim_start_char(downloaded, 'v') != version {
        Err("requested Bun "@ + version + ", but the package contains Bun "@ + downloaded)
    } else {
        Ok(())
    }
}

pub fn check_downloaded_version(version: &str, downloaded: &str) -> (result: Result<(), CliError>)
    ensures
        match (result, spec_check_downloaded_version(version@, downloaded@)) {
            (Ok(()), Ok(())) => true,
            (Err(e), Err(m)) => e.message@ == m,
            _ => false,
        },
{
    let bare = trim_start_matches(downloaded, 'v');
    if !same_text(bare.as_str(), version) {
        let mut message = concat3("requested Bun ", version, ", but the package contains Bun ");
        message.append(downloaded);
        Err(CliError::new(message))
    } else {
        Ok(())
    }
}

/// A file that must be a regular file reporting a Node.js version: symbolic links and
/// other files are refused before it is run.
pub open spec fn spec_check_node_metadata(path: Seq<char>, metadata: Result<(bool, bool), Seq<char>>) -> Result<(), Seq<char>> {
    match metadata {
        Err(problem) => Err("invalid Node.js executable "@ + path + ": "@ + problem),
        Ok((is_symlink, is_file)) => if is_symlink {
            Err("refusing symlinked Node.js executable "@ + path)
        } else if !is_file {
            Err(path + " is not a file"@)
        } else {
            Ok(())
        },
    }
}

/// Checks what `symlink_metadata` said of a Node.js executable: `(is a symbolic link,
/// is a regular file)`, or why it could not be read.
pub fn check_node_metadata(path: &str, metadata: Result<(bool, bool), String>) -> (result: Result<(), CliError>)
    ensures
        match (result, spec_check_node_metadata(path@, match metadata { Ok(f) => Ok(f), Err(p) => Err(p@) })) {
            (Ok(()), Ok(())) => true,
            (Err(e), Err(m)) => e.message@ == m,
            _ => false,
        },
{
    match metadata {
        Err(problem) => {
            let mut message = concat3("invalid Node.js executable ", path, ": ");
            message.append(problem.as_str());
            Err(CliError::new(message))
        },
        Ok((is_symlink, is_file)) => {
            if is_symlink {
                Err(CliError::new(concat("refusing symlinked Node.js executable ", path)))
            } else if !is_file {
                Err(CliError::new(concat(path, " is not a file")))
            } else {
                Ok(())
            }
        },
    }
}

/// The text a component is pushed as.
pub open spec fn component_text(c: PathComponent, style: PathStyle) -> Seq<char> {
    match c {
        PathComponent::Prefix(p) => p,
        PathComponent::RootDir => if style == PathStyle::Windows { "\\"@ } else { "/"@ },
        PathComponent::CurDir => "."@,
        PathComponent::ParentDir => ".."@,
        PathComponent::Normal(p) => p,
    }
}

/// Folds components onto `base`: `.` is skipped, `..` removes the last component when
/// there is one to remove, anything else is pushed.
pub open spec fn fold_components(base: Seq<char>, comps: Seq<PathComponent>, style: PathStyle) -> Seq<char>
    decreases comps.len(),
{
    if comps.len() == 0 {
        base
    } else {
        fold_one(fold_components(base, comps.drop_last(), style), comps.last(), style)
    }
}

/// One step of [`fold_components`].
pub open spec fn fold_one(before: Seq<char>, c: PathComponent, style: PathStyle) -> Seq<char> {
    match c {
        PathComponent::CurDir => before,
        PathComponent::ParentDir => match spec_parent(before, style) {
            Some(p) => p,
            None => before,
        },
        c => spec_join(before, component_text(c, style), style),
    }
}

fn fold_step(before: String, c: &Component, style: PathStyle) -> (after: String)
    ensures
        after@ == fold_one(before@, c@, style),
{
    match c {
        Component::CurDir => before,
        Component::ParentDir => match parent(before.as_str(), style) {
            Some(p) => p,
            None => before,
        },
        _ => {
            let t = text_of(c, style);
            join(before.as_str(), t.as_str(), style)
        },
    }
}

/// Whether a path is absolute: a root on Unix, a prefix and a root on Windows.
pub open spec fn spec_is_absolute(path: Seq<char>, style: PathStyle) -> bool {
    has_root(path, style) && (style == PathStyle::Posix || prefix_len(path, style) > 0)
}

/// `path` made absolute against `cwd` and normalized lexically (before symbolic links of
/// existing ancestors are resolved).
pub open spec fn spec_lexical_absolute(path: Seq<char>, cwd: Seq<char>, style: PathStyle) -> Seq<char> {
    let input = if spec_is_absolute(path, style) { path } else { spec_join(cwd, path, style) };
    fold_components(Seq::empty(), spec_components(input, style), style)
}

fn is_absolute(path: &str, style: PathStyle) -> (r: bool)
    ensures
        r == spec_is_absolute(path@, style),
{
    let chars = chars_of(path);
    crate::paths::rooted(&chars, style) && (matches!(style, PathStyle::Posix) || crate::paths::prefix_length(&chars, style) > 0)
}

fn text_of(c: &Component, style: PathStyle) -> (t: String)
    ensures
        t@ == component_text(c@, style),
{
    match c {
        Component::Prefix(p) => owned(p.as_str()),
        Component::RootDir => if matches!(style, PathStyle::Windows) { owned("\\") } else { owned("/") },
        Component::CurDir => owned("."),
        Component::ParentDir => owned(".."),
        Component::Normal(p) => owned(p.as_str()),
    }
}

/// `path` made absolute against the working directory `cwd`, with `.` and `..`
/// components resolved lexically.
pub fn lexical_absolute(path: &str, cwd: &str, style: PathStyle) -> (result: String)
    ensures
        result@ == spec_lexical_absolute(path@, cwd@, style),
{
    let input = if is_absolute(path, style) { owned(path) } else { join(cwd, path, style) };
    let comps = components(input.as_str(), style);
    let ghost cv = component_views(comps@);
    let mut absolute = String::new();
    let mut i: usize = 0;
    assert(cv.take(0) =~= Seq::<PathComponent>::empty());
    while i < comps.len()
        invariant
            i <= comps@.len(),
            cv == component_views(comps@),
            absolute@ == fold_components(Seq::empty(), cv.take(i as int), style),
        decreases comps.len() - i,
    {
        assert(cv.take(i + 1).drop_last() =~= cv.take(i as int));
        assert(cv.take(i + 1).last() == comps@[i as int]@);
        absolute = fold_step(absolute, &comps[i], style);
        i += 1;
    }
    assert(cv.take(comps@.len() as int) =~= cv);
    absolute
}

/// One step up from a missing ancestor: its file name (kept to be appended again) and
/// its parent.
pub open spec fn spec_step_up(absolute: Seq<char>, ancestor: Seq<char>, style: PathStyle) -> Result<(Seq<char>, Seq<char>), Seq<char>> {
    match (spec_file_name(ancestor, style), spec_parent(ancestor, style)) {
        (Some(name), Some(up)) => Ok((name, up)),
        _ => Err("could not resolve an existing parent of "@ + absolute),
    }
}

pub fn step_up(absolute: &str, ancestor: &str, style: PathStyle) -> (result: Result<(String, String), CliError>)
    ensures
        match (result, spec_step_up(absolute@, ancestor@, style)) {
            (Ok((name, up)), Ok((n, u))) => name@ == n && up@ == u,
            (Err(e), Err(m)) => e.message@ == m,
            _ => false,
        },
{
    match (file_name(ancestor, style), parent(ancestor, style)) {
        (Some(name), Some(up)) => Ok((name, up)),
        _ => Err(CliError::new(concat("could not resolve an existing parent of ", absolute))),
    }
}

/// The canonical existing ancestor with the missing names appended again, nearest
/// missing name last (`suffix` lists them from the deepest up).
pub open spec fn spec_with_suffix(base: Seq<char>, suffix: Seq<Seq<char>>, style: PathStyle) -> Seq<char>
    decreases suffix.len(),
{
    if suffix.len() == 0 { base } else { spec_join(spec_with_suffix(base, suffix.drop_first(), style), suffix[0], style) }
}

pub fn with_suffix(base: &str, suffix: &Vec<String>, style: PathStyle) -> (result: String)
    ensures
        result@ == spec_with_suffix(base@, suffix.deep_view(), style),
{
    let ghost sv = suffix.deep_view();
    let mut result = owned(base);
    let mut i = suffix.len();
    assert(sv.skip(sv.len() as int) =~= Seq::<Seq<char>>::empty());
    while i > 0
        invariant
            i <= sv.len(),
            sv == suffix.deep_view(),
            result@ == spec_with_suffix(base@, sv.skip(i as int), style),
        decreases i,
    {
        i -= 1;
        assert(sv.skip(i as int).drop_first() =~= sv.skip(i + 1));
        assert(sv.skip(i as int)[0] == suffix@[i as int]@);
        result = join(result.as_str(), suffix[i].as_str(), style);
    }
    assert(sv.skip(0) =~= sv);
    result
}

/// What `revert` does to a record's prefix, as its question says it.
pub open spec fn spec_revert_action(kind: PrefixKind) -> Seq<char> {
    match kind {
        PrefixKind::Modified => "restore its original Node.js executable"@,
        PrefixKind::Copied => "delete the copied prefix"@,
    }
}

/// Where a version-managed prefix is copied when modifying it in place was declined:
/// next to it, in a directory named after the version the Bunode wrapper reports
/// (`node -v`, without its leading `v`).
pub open spec fn spec_sibling_copy(source: Seq<char>, wrapper_version: Seq<char>, style: PathStyle) -> Result<Seq<char>, Seq<char>> {
    let name = trim_start_char(wrapper_version, 'v');
    if !super::download::is_plain_file_name(name, style) {
        Err("the Bunode wrapper reported an unusable version `"@ + wrapper_version + "`"@)
    } else {
        match spec_parent(source, style) {
            None => Err("cannot place a copy next to "@ + source),
            Some(directory) => Ok(spec_join(directory, name, style)),
        }
    }
}

pub fn sibling_copy(source: &str, wrapper_version: &str, style: PathStyle) -> (result: Result<String, CliError>)
    ensures
        match (result, spec_sibling_copy(source@, wrapper_version@, style)) {
            (Ok(p), Ok(expected)) => p@ == expected,
            (Err(e), Err(m)) => e.message@ == m,
            _ => false,
        },
{
    let name = trim_start_matches(wrapper_version, 'v');
    if crate::paths::component_count(name.as_str(), style) != 1 || file_name(name.as_str(), style).is_none() {
        return Err(CliError::new(concat3("the Bunode wrapper reported an unusable version `", wrapper_version, "`")));
    }
    match parent(source, style) {
        None => Err(CliError::new(concat("cannot place a copy next to ", source))),
        Some(directory) => Ok(join(directory.as_str(), name.as_str(), style)),
    }
}

/// The record `revert` works on and the question it asks.
pub struct RevertPlan {
    pub index: usize,
    pub question: String,
}

pub open spec fn spec_plan_revert(records: Seq<RecordView>, prefix: Seq<char>, style: PathStyle) -> Result<(int, Seq<char>), Seq<char>> {
    match spec_record_index(records, prefix, style) {
        None => Err(prefix + " is not a recorded Bunode prefix"@),
        Some(i) => Ok((i, "Revert "@ + records[i].path + " and "@ + spec_revert_action(records[i].kind) + "?"@)),
    }
}

/// Finds the record of `prefix` for `revert`, and the question to confirm.
pub fn plan_revert(records: &Vec<PrefixRecord>, prefix: &str, style: PathStyle) -> (result: Result<RevertPlan, CliError>)
    ensures
        match (result, spec_plan_revert(record_views(records@), prefix@, style)) {
            (Ok(plan), Ok((i, q))) => plan.index == i && plan.question@ == q,
            (Err(e), Err(m)) => e.message@ == m,
            _ => false,
        },
{
    match record_index(records, prefix, style) {
        None => Err(CliError::new(concat(prefix, " is not a recorded Bunode prefix"))),
        Some(i) => {
            let record = &records[i];
            let action = match record.kind {
                PrefixKind::Modified => "restore its original Node.js executable",
                PrefixKind::Copied => "delete the copied prefix",
            };
            let mut question = concat3("Revert ", record.path.as_str(), " and ");
            question.append(action);
            question.append("?");
            assert(record_views(records@)[i as int] == records@[i as int]@);
            Ok(RevertPlan { index: i, question })
        },
    }
}

/// The line `list` prints for a record, with the version its `node` reports (or
/// `<broken>` when it could not be run).
pub open spec fn spec_list_line(record: RecordView, node_version: Option<Seq<char>>) -> Seq<char> {
    (match node_version { Some(v) => v, None => "<broken>"@ }) + "\t"@ + record.bun_version + "\t"@
        + record.bunode_version + "\t"@ + record.original_version + "\t"@ + spec_label(record.kind) + "\t"@ + record.path
}

pub open spec fn spec_list_lines(records: Seq<RecordView>, node_versions: Seq<Option<Seq<char>>>) -> Seq<Seq<char>> {
    if records.len() == 0 {
        seq!["No managed Bunode prefixes."@]
    } else {
        seq!["NODE\tBUN\tBUNODE\tORIGINAL\tTYPE\tPREFIX"@]
            + Seq::new(records.len(), |i: int| spec_list_line(records[i], node_versions[i]))
    }
}

pub open spec fn opt_views(v: Seq<Option<String>>) -> Seq<Option<Seq<char>>> {
    v.map_values(|o: Option<String>| super::args::opt(o))
}

/// What `list` prints.
pub fn list_lines(records: &Vec<PrefixRecord>, node_versions: &Vec<Option<String>>) -> (lines: Vec<String>)
    requires
        node_versions@.len() == records@.len(),
    ensures
        lines.deep_view() == spec_list_lines(record_views(records@), opt_views(node_versions@)),
{
    let mut lines: Vec<String> = Vec::new();
    if records.len() == 0 {
        push_string(&mut lines, owned("No managed Bunode prefixes."));
        assert(lines.deep_view() =~= spec_list_lines(record_views(records@), opt_views(node_versions@)));
        return lines;
    }
    push_string(&mut lines, owned("NODE\tBUN\tBUNODE\tORIGINAL\tTYPE\tPREFIX"));
    let ghost rs = record_views(records@);
    let ghost nv = opt_views(node_versions@);
    let mut i: usize = 0;
    while i < records.len()
        invariant
            i <= records@.len(),
            node_versions@.len() == records@.len(),
            rs == record_views(records@),
            nv == opt_views(node_versions@),
            lines.deep_view() == seq!["NODE\tBUN\tBUNODE\tORIGINAL\tTYPE\tPREFIX"@]
                + Seq::new(i as nat, |k: int| spec_list_line(rs[k], nv[k])),
        decreases records.len() - i,
    {
        let record = &records[i];
        let mut line = match &node_versions[i] {
            Some(v) => owned(v.as_str()),
            None => owned("<broken>"),
        };
        line.append("\t");
        line.append(record.bun_version.as_str());
        line.append("\t");
        line.append(record.bunode_version.as_str());
        line.append("\t");
        line.append(record.original_version.as_str());
        line.append("\t");
        line.append(record.kind.label());
        line.append("\t");
        line.append(record.path.as_str());
        assert(rs[i as int] == records@[i as int]@);
        assert(nv[i as int] == super::args::opt(node_versions@[i as int]));
        assert(line@ == spec_list_line(rs[i as int], nv[i as int]));
        push_string(&mut lines, line);
        assert(lines.deep_view() =~= seq!["NODE\tBUN\tBUNODE\tORIGINAL\tTYPE\tPREFIX"@]
            + Seq::new((i + 1) as nat, |k: int| spec_list_line(rs[k], nv[k])));
        i += 1;
    }
    lines
}

/// What `implode` lists before asking.
pub open spec fn spec_implode_listing(records: Seq<RecordView>) -> Seq<Seq<char>> {
    seq!["Managed Bunode prefixes:"@]
        + Seq::new(records.len(), |i: int| "  "@ + records[i].path + " ("@ + spec_label(records[i].kind) + ")"@)
}

pub fn implode_listing(records: &Vec<PrefixRecord>) -> (lines: Vec<String>)
    ensures
        lines.deep_view() == spec_implode_listing(record_views(records@)),
{
    let mut lines: Vec<String> = Vec::new();
    push_string(&mut lines, owned("Managed Bunode prefixes:"));
    let ghost rs = record_views(records@);
    let mut i: usize = 0;
    while i < records.len()
        invariant
            i <= records@.len(),
            rs == record_views(records@),
            lines.deep_view() == seq!["Managed Bunode prefixes:"@]
                + Seq::new(i as nat, |k: int| "  "@ + rs[k].path + " ("@ + spec_label(rs[k].kind) + ")"@),
        decreases records.len() - i,
    {
        let record = &records[i];
        let mut line = concat3("  ", record.path.as_str(), " (");
        line.append(record.kind.label());
        line.append(")");
        assert(rs[i as int] == records@[i as int]@);
        push_string(&mut lines, line);
        assert(lines.deep_view() =~= seq!["Managed Bunode prefixes:"@]
            + Seq::new((i + 1) as nat, |k: int| "  "@ + rs[k].path + " ("@ + spec_label(rs[k].kind) + ")"@));
        i += 1;
    }
    lines
}

/// The strings joined with `sep` between them.
pub open spec fn joined_with(items: Seq<Seq<char>>, sep: Seq<char>) -> Seq<char>
    decreases items.len(),
{
    if items.len() == 0 {
        Seq::empty()
    } else if items.len() == 1 {
        items[0]
    } else {
        joined_with(items.drop_last(), sep) + sep + items.last()
    }
}

/// What is left after `implode` tried to revert every record: `failures[i]` is why the
/// `i`-th record could not be reverted, if it could not.
pub struct ImplodeOutcome {
    /// The records that could not be reverted, in order.
    pub remaining: Vec<PrefixRecord>,
    /// `Reverted <path>.` for each reverted record, in order.
    pub lines: Vec<String>,
    pub result: Result<(), CliError>,
}

pub open spec fn reverted_records(records: Seq<RecordView>, failures: Seq<Option<Seq<char>>>) -> Seq<RecordView>
    decreases records.len(),
{
    if records.len() == 0 || failures.len() < records.len() {
        Seq::empty()
    } else {
        let before = reverted_records(records.drop_last(), failures.take(records.len() - 1));
        if failures[records.len() - 1] is None { before } else { before.push(records.last()) }
    }
}

pub open spec fn reverted_lines(records: Seq<RecordView>, failures: Seq<Option<Seq<char>>>) -> Seq<Seq<char>>
    decreases records.len(),
{
    if records.len() == 0 || failures.len() < records.len() {
        Seq::empty()
    } else {
        let before = reverted_lines(records.drop_last(), failures.take(records.len() - 1));
        match failures[records.len() - 1] {
            None => before.push("Reverted "@ + records.last().path + "."@),
            Some(_) => before,
        }
    }
}

pub open spec fn failure_lines(records: Seq<RecordView>, failures: Seq<Option<Seq<char>>>) -> Seq<Seq<char>>
    decreases records.len(),
{
    if records.len() == 0 || failures.len() < records.len() {
        Seq::empty()
    } else {
        let before = failure_lines(records.drop_last(), failures.take(records.len() - 1));
        match failures[records.len() - 1] {
            None => before,
            Some(e) => before.push(records.last().path + ": "@ + e),
        }
    }
}

pub open spec fn spec_implode_result(records: Seq<RecordView>, failures: Seq<Option<Seq<char>>>) -> Result<(), Seq<char>> {
    let f = failure_lines(records, failures);
    if f.len() == 0 { Ok(()) } else { Err("some prefixes could not be reverted:\n"@ + joined_with(f, "\n"@)) }
}

/// Sorts the records after `implode`'s attempts: reverted ones leave the state, the
/// others stay with their errors reported.
pub fn implode_outcome(records: Vec<PrefixRecord>, failures: &Vec<Option<String>>) -> (outcome: ImplodeOutcome)
    requires
        failures@.len() == records@.len(),
    ensures
        record_views(outcome.remaining@) == reverted_records(record_views(records@), opt_views(failures@)),
        outcome.lines.deep_view() == reverted_lines(record_views(records@), opt_views(failures@)),
        match (outcome.result, spec_implode_result(record_views(records@), opt_views(failures@))) {
            (Ok(()), Ok(())) => true,
            (Err(e), Err(m)) => e.message@ == m,
            _ => false,
        },
{
    let ghost rs = record_views(records@);
    let ghost fs = opt_views(failures@);
    let mut remaining: Vec<PrefixRecord> = Vec::new();
    let mut lines: Vec<String> = Vec::new();
    let mut problems: Vec<String> = Vec::new();
    let mut i: usize = 0;
    assert(rs.take(0) =~= Seq::<RecordView>::empty());
    while i < records.len()
        invariant
            i <= records@.len(),
            failures@.len() == records@.len(),
            rs == record_views(records@),
            fs == opt_views(failures@),
            record_views(remaining@) == reverted_records(rs.take(i as int), fs.take(i as int)),
            lines.deep_view() == reverted_lines(rs.take(i as int), fs.take(i as int)),
            problems.deep_view() == failure_lines(rs.take(i as int), fs.take(i as int)),
        decreases records.len() - i,
    {
        let record = records[i].duplicate();
        assert(rs.take(i + 1).drop_last() =~= rs.take(i as int));
        assert(fs.take(i + 1).take(i as int) =~= fs.take(i as int));
        assert(rs.take(i + 1).last() == records@[i as int]@);
        assert(fs.take(i + 1)[i as int] == super::args::opt(failures@[i as int]));
        match &failures[i] {
            None => {
                let line = concat3("Reverted ", record.path.as_str(), ".");
                push_string(&mut lines, line);
            },
            Some(e) => {
                let problem = concat3(record.path.as_str(), ": ", e.as_str());
                push_string(&mut problems, problem);
                let ghost before = record_views(remaining@);
                let ghost rv = record@;
                remaining.push(record);
                assert(record_views(remaining@) =~= before.push(rv));
            },
        }
        i += 1;
    }
    assert(rs.take(records@.len() as int) =~= rs);
    assert(fs.take(records@.len() as int) =~= fs);
    let result = if problems.len() == 0 {
        Ok(())
    } else {
        let mut message = owned("some prefixes could not be reverted:\n");
        let joined = join_lines(&problems);
        message.append(joined.as_str());
        Err(CliError::new(message))
    };
    ImplodeOutcome { remaining, lines, result }
}

/// The strings joined with newlines.
pub fn join_lines(items: &Vec<String>) -> (text: String)
    ensures
        text@ == joined_with(items.deep_view(), "\n"@),
{
    let ghost iv = items.deep_view();
    let mut text = String::new();
    let mut i: usize = 0;
    assert(iv.take(0) =~= Seq::<Seq<char>>::empty());
    while i < items.len()
        invariant
            i <= items@.len(),
            iv == items.deep_view(),
            text@ == joined_with(iv.take(i as int), "\n"@),
        decreases items.len() - i,
    {
        assert(iv.take(i + 1).drop_last() =~= iv.take(i as int));
        assert(iv.take(i + 1).last() == items@[i as int]@);
        if i > 0 {
            text.append("\n");
        } else {
            assert(iv.take(1) =~= seq![items@[0]@]);
        }
        text.append(items[i].as_str());
        i += 1;
    }
    assert(iv.take(items@.len() as int) =~= iv);
    text
}

/// What `update` prints when every record already uses `current`.
pub fn up_to_date_line(current: &str) -> (line: String)
    ensures
        line@ == "All managed prefixes already use Bunode "@ + current@ + "."@,
{
    concat3("All managed prefixes already use Bunode ", current, ".")
}

/// The question `update` asks before refreshing `count` prefixes to `current`.
pub fn update_question(count: usize, current: &str) -> (question: String)
    ensures
        question@ == "Update "@ + decimal(count as nat) + " managed prefix(es) to Bunode "@ + current@ + "?"@,
{
    let mut question = owned("Update ");
    push_decimal(&mut question, count as u64);
    question.append(" managed prefix(es) to Bunode ");
    question.append(current);
    question.append("?");
    question
}

/// The records whose wrapper is older than `current`.
pub open spec fn outdated_indexes(records: Seq<RecordView>, current: Seq<char>) -> Seq<int>
    decreases records.len(),
{
    if records.len() == 0 {
        Seq::empty()
    } else {
        let before = outdated_indexes(records.drop_last(), current);
        if records.last().bunode_version != current { before.push(records.len() - 1) } else { before }
    }
}

pub fn outdated(records: &Vec<PrefixRecord>, current: &str) -> (indexes: Vec<usize>)
    ensures
        indexes@.map_values(|i: usize| i as int) == outdated_indexes(record_views(records@), current@),
        forall|k: int| 0 <= k < indexes@.len() ==> indexes@[k] < records@.len(),
{
    let ghost rs = record_views(records@);
    let mut indexes: Vec<usize> = Vec::new();
    let mut i: usize = 0;
    assert(rs.take(0) =~= Seq::<RecordView>::empty());
    while i < records.len()
        invariant
            i <= records@.len(),
            rs == record_views(records@),
            indexes@.map_values(|i: usize| i as int) == outdated_indexes(rs.take(i as int), current@),
            forall|k: int| 0 <= k < indexes@.len() ==> indexes@[k] < i,
        decreases records.len() - i,
    {
        assert(rs.take(i + 1).drop_last() =~= rs.take(i as int));
        assert(rs.take(i + 1).last() == records@[i as int]@);
        let ghost before = indexes@;
        if !same_text(records[i].bunode_version.as_str(), current) {
            indexes.push(i);
            assert(indexes@.map_values(|i: usize| i as int) =~= before.map_values(|i: usize| i as int).push(i as int));
        }
        i += 1;
    }
    assert(rs.take(records@.len() as int) =~= rs);
    indexes
}

/// The records after `update` tried the prefixes at `indexes`: those that were updated
/// (no failure) now carry `current` as their wrapper version.
pub open spec fn updated_records(records: Seq<RecordView>, indexes: Seq<int>, failures: Seq<Option<Seq<char>>>, current: Seq<char>) -> Seq<RecordView>
    decreases indexes.len(),
{
    if indexes.len() == 0 || failures.len() < indexes.len() {
        records
    } else {
        let n = indexes.len() - 1;
        let before = updated_records(records, indexes.drop_last(), failures.take(n), current);
        let i = indexes.last();
        if failures[n] is None && 0 <= i < before.len() {
            before.update(i, RecordView { bunode_version: current, ..before[i] })
        } else {
            before
        }
    }
}

/// `Updated <path>.` for each updated prefix, in order.
pub open spec fn updated_lines(records: Seq<RecordView>, indexes: Seq<int>, failures: Seq<Option<Seq<char>>>) -> Seq<Seq<char>>
    decreases indexes.len(),
{
    if indexes.len() == 0 || failures.len() < indexes.len() {
        Seq::empty()
    } else {
        let n = indexes.len() - 1;
        let before = updated_lines(records, indexes.drop_last(), failures.take(n));
        match failures[n] {
            None => before.push("Updated "@ + records[indexes.last()].path + "."@),
            Some(_) => before,
        }
    }
}

/// The warning printed for each prefix that could not be updated, in order.
pub open spec fn update_warnings(records: Seq<RecordView>, indexes: Seq<int>, failures: Seq<Option<Seq<char>>>) -> Seq<Seq<char>>
    decreases indexes.len(),
{
    if indexes.len() == 0 || failures.len() < indexes.len() {
        Seq::empty()
    } else {
        let n = indexes.len() - 1;
        let before = update_warnings(records, indexes.drop_last(), failures.take(n));
        match failures[n] {
            None => before,
            Some(e) => before.push("warning: update failed for "@ + records[indexes.last()].path + ": "@ + e),
        }
    }
}

pub open spec fn spec_update_result(records: Seq<RecordView>, indexes: Seq<int>, failures: Seq<Option<Seq<char>>>) -> Result<(), Seq<char>> {
    let n = update_warnings(records, indexes, failures).len();
    if n == 0 { Ok(()) } else { Err("failed to update "@ + decimal(n) + " prefix(es)"@) }
}

pub struct UpdateOutcome {
    pub records: Vec<PrefixRecord>,
    pub lines: Vec<String>,
    pub warnings: Vec<String>,
    pub result: Result<(), CliError>,
}

pub open spec fn index_views(v: Seq<usize>) -> Seq<int> {
    v.map_values(|i: usize| i as int)
}

/// Records the outcome of `update`'s attempts (`failures[k]` for the prefix at
/// `indexes[k]`).
pub fn update_outcome(records: Vec<PrefixRecord>, indexes: &Vec<usize>, failures: &Vec<Option<String>>, current: &str)
    -> (outcome: UpdateOutcome)
    requires
        failures@.len() == indexes@.len(),
        forall|k: int| 0 <= k < indexes@.len() ==> indexes@[k] < records@.len(),
    ensures
        record_views(outcome.records@) == updated_records(record_views(records@), index_views(indexes@), opt_views(failures@), current@),
        outcome.lines.deep_view() == updated_lines(record_views(records@), index_views(indexes@), opt_views(failures@)),
        outcome.warnings.deep_view() == update_warnings(record_views(records@), index_views(indexes@), opt_views(failures@)),
        match (outcome.result, spec_update_result(record_views(records@), index_views(indexes@), opt_views(failures@))) {
            (Ok(()), Ok(())) => true,
            (Err(e), Err(m)) => e.message@ == m,
            _ => false,
        },
{
    let ghost rs = record_views(records@);
    let ghost is = index_views(indexes@);
    let ghost fs = opt_views(failures@);
    let mut records = records;
    let mut lines: Vec<String> = Vec::new();
    let mut warnings: Vec<String> = Vec::new();
    let mut k: usize = 0;
    assert(is.take(0) =~= Seq::<int>::empty());
    while k < indexes.len()
        invariant
            k <= indexes@.len(),
            failures@.len() == indexes@.len(),
            forall|j: int| 0 <= j < indexes@.len() ==> indexes@[j] < records@.len(),
            is == index_views(indexes@),
            fs == opt_views(failures@),
            rs.len() == records@.len(),
            record_views(records@) == updated_records(rs, is.take(k as int), fs.take(k as int), current@),
            lines.deep_view() == updated_lines(rs, is.take(k as int), fs.take(k as int)),
            warnings.deep_view() == update_warnings(rs, is.take(k as int), fs.take(k as int)),
            forall|j: int| 0 <= j < rs.len() ==> #[trigger] record_views(records@)[j].path == rs[j].path,
        decreases indexes.len() - k,
    {
        let i = indexes[k];
        assert(is.take(k + 1).drop_last() =~= is.take(k as int));
        assert(fs.take(k + 1).take(k as int) =~= fs.take(k as int));
        assert(is.take(k + 1).last() == i as int);
        assert(fs.take(k + 1)[k as int] == super::args::opt(failures@[k as int]));
        assert(record_views(records@)[i as int] == records@[i as int]@);
        match &failures[k] {
            None => {
                let line = concat3("Updated ", records[i].path.as_str(), ".");
                push_string(&mut lines, line);
                let ghost before = record_views(records@);
                let mut record = records[i].duplicate();
                record.bunode_version = owned(current);
                let ghost rv = record@;
                records.set(i, record);
                assert(record_views(records@) =~= before.update(i as int, rv));
            },
            Some(e) => {
                let mut warning = concat3("warning: update failed for ", records[i].path.as_str(), ": ");
                warning.append(e.as_str());
                push_string(&mut warnings, warning);
            },
        }
        k += 1;
    }
    assert(is.take(indexes@.len() as int) =~= is);
    assert(fs.take(indexes@.len() as int) =~= fs);
    let result = if warnings.len() == 0 {
        Ok(())
    } else {
        let mut message = owned("failed to update ");
        push_decimal(&mut message, warnings.len() as u64);
        message.append(" prefix(es)");
        Err(CliError::new(message))
    };
    UpdateOutcome { records, lines, warnings, result }
}

/// The files `install_prefix` touches, for a prefix whose `node` is `node`.
pub struct InstallPlan {
    pub bun_directory: String,
    pub old_node: String,
    pub bun: String,
    pub staged_node: String,
    pub staged_bun: String,
}

pub fn install_plan(prefix: &str, node: &str, pid: u32, style: PathStyle) -> (plan: InstallPlan)
    ensures
        plan.bun_directory@ == spec_bun_directory(prefix@, style),
        plan.old_node@ == spec_old_node(prefix@, style),
        plan.bun@ == spec_installed_bun(prefix@, style),
        plan.staged_node@ == spec_temporary_sibling(node@, "new"@, pid, style),
        plan.staged_bun@ == spec_temporary_sibling(spec_installed_bun(prefix@, style), "new"@, pid, style),
{
    let bun = installed_bun(prefix, style);
    let staged_bun = temporary_sibling(bun.as_str(), "new", pid, style);
    InstallPlan {
        bun_directory: bun_directory(prefix, style),
        old_node: old_node(prefix, style),
        bun,
        staged_node: temporary_sibling(node, "new", pid, style),
        staged_bun,
    }
}

/// The error for a prefix that already keeps an original `node`.
pub fn already_exists(path: &str) -> (error: CliError)
    ensures
        error.message@ == path@ + " already exists"@,
{
    CliError::new(concat(path, " already exists"))
}

/// The files `revert` touches in a modified prefix.
pub struct RevertInstalledPlan {
    pub node: String,
    pub bun_directory: String,
    pub old_node: String,
    pub staged_wrapper: String,
}

pub fn revert_installed_plan(prefix: &str, pid: u32, style: PathStyle) -> (plan: RevertInstalledPlan)
    ensures
        plan.node@ == spec_node_executable(prefix@, style),
        plan.bun_directory@ == spec_bun_directory(prefix@, style),
        plan.old_node@ == spec_old_node(prefix@, style),
        plan.staged_wrapper@ == spec_temporary_sibling(spec_node_executable(prefix@, style), "revert"@, pid, style),
{
    let node = node_executable(prefix, style);
    let staged_wrapper = temporary_sibling(node.as_str(), "revert", pid, style);
    RevertInstalledPlan { node, bun_directory: bun_directory(prefix, style), old_node: old_node(prefix, style), staged_wrapper }
}

/// The error for a modified prefix that lost its original `node`.
pub fn missing_original_node(old_node: &str) -> (error: CliError)
    ensures
        error.message@ == "original Node.js executable is missing at "@ + old_node@,
{
    CliError::new(concat("original Node.js executable is missing at ", old_node))
}

/// The files `update` touches in a prefix.
pub struct UpdatePlan {
    pub node: String,
    pub staged: String,
    pub backup: String,
}

pub fn update_plan(prefix: &str, pid: u32, style: PathStyle) -> (plan: UpdatePlan)
    ensures
        plan.node@ == spec_node_executable(prefix@, style),
        plan.staged@ == spec_temporary_sibling(spec_node_executable(prefix@, style), "update"@, pid, style),
        plan.backup@ == spec_temporary_sibling(spec_node_executable(prefix@, style), "backup"@, pid, style),
{
    let node = node_executable(prefix, style);
    let staged = temporary_sibling(node.as_str(), "update", pid, style);
    let backup = temporary_sibling(node.as_str(), "backup", pid, style);
    UpdatePlan { node, staged, backup }
}

/// After `implode`, every record was either reverted (and reported as such) or is kept
/// with its error reported: none is lost and none is reported twice.
pub proof fn law_implode_accounts_for_every_record(records: Seq<RecordView>, failures: Seq<Option<Seq<char>>>)
    requires
        failures.len() == records.len(),
    ensures
        reverted_records(records, failures).len() == failure_lines(records, failures).len(),
        reverted_lines(records, failures).len() + failure_lines(records, failures).len() == records.len(),
        (forall|i: int| 0 <= i < failures.len() ==> failures[i] is None)
            ==> reverted_records(records, failures).len() == 0 && spec_implode_result(records, failures) is Ok,
    decreases records.len(),
{
    if records.len() > 0 {
        let n = records.len() - 1;
        law_implode_accounts_for_every_record(records.drop_last(), failures.take(n));
        assert forall|i: int| 0 <= i < failures.take(n).len() implies #[trigger] failures.take(n)[i] == failures[i] by {}
    }
}

/// `update` only touches prefixes whose wrapper version differs from the current one.
pub proof fn law_update_only_outdated(records: Seq<RecordView>, current: Seq<char>)
    ensures
        forall|k: int| 0 <= k < outdated_indexes(records, current).len() ==> {
            let i = #[trigger] outdated_indexes(records, current)[k];
            0 <= i < records.len() && records[i].bunode_version != current
        },
    decreases records.len(),
{
    if records.len() > 0 {
        law_update_only_outdated(records.drop_last(), current);
        let before = outdated_indexes(records.drop_last(), current);
        assert forall|k: int| 0 <= k < before.len() implies #[trigger] records.drop_last()[before[k]] == records[before[k]] by {
            assert(0 <= before[k] < records.drop_last().len());
        }
    }
}

/// A prefix `update` refreshed carries the current wrapper version afterwards; the
/// others keep their record unchanged apart from that.
pub proof fn law_update_paths_unchanged(records: Seq<RecordView>, indexes: Seq<int>, failures: Seq<Option<Seq<char>>>, current: Seq<char>)
    ensures
        updated_records(records, indexes, failures, current).len() == records.len(),
        forall|j: int| 0 <= j < records.len() ==> #[trigger] updated_records(records, indexes, failures, current)[j].path == records[j].path,
    decreases indexes.len(),
{
    if indexes.len() > 0 && failures.len() >= indexes.len() {
        law_update_paths_unchanged(records, indexes.drop_last(), failures.take(indexes.len() - 1), current);
    }
}

/// A prefix that `patch` records (its path not yet among the records) is found again by
/// `revert`: the new record is the one reverted, with the question for its kind.
pub proof fn law_recorded_prefix_is_revertible(records: Seq<RecordView>, record: RecordView, style: PathStyle)
    requires
        forall|i: int| 0 <= i < records.len() ==> !spec_same_path(#[trigger] records[i].path, record.path, style),
    ensures
        spec_plan_revert(records.push(record), record.path, style) == Ok::<(int, Seq<char>), Seq<char>>((
            records.len() as int,
            "Revert "@ + record.path + " and "@ + spec_revert_action(record.kind) + "?"@,
        )),
{
    let all = records.push(record);
    let n = records.len() as int;
    assert(all[n] == record);
    assert(spec_same_path(all[n].path, record.path, style));
    assert forall|j: int| 0 <= j < n implies !spec_same_path(#[trigger] all[j].path, record.path, style) by {
        assert(all[j] == records[j]);
    }
    let k = choose|k: int| 0 <= k < all.len() && spec_same_path(#[trigger] all[k].path, record.path, style)
        && forall|j: int| 0 <= j < k ==> !spec_same_path(#[trigger] all[j].path, record.path, style);
    if k < n {
        assert(all[k] == records[k]);
    } else if k > n {
        assert(!spec_same_path(all[n].path, record.path, style));
    }
}

} // verus!
