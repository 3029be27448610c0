//! Running a script file directly with `bun run`.

use vstd::prelude::*;

use crate::argv::PathStyle;
use crate::paths::{component_count, join, spec_component_count, spec_join, spec_parent, parent};
use crate::text::{copy_strings, owned, push_string, same_text, extend_strings};

verus! {

/// A script that is a single bare component gets `./` in front, so that `bun run` does
/// not take it for a `package.json` script; `-` and longer paths are kept.
pub open spec fn spec_normalize_script_path(script: Seq<char>, style: PathStyle) -> Seq<char> {
    if script == "-"@ || spec_component_count(script, style) != 1 {
        script
    } else {
        spec_join("."@, script, style)
    }
}

/// The arguments for `bun run` on `script`.
pub open spec fn spec_build_script_args(script: Seq<char>, arguments: Seq<Seq<char>>, style: PathStyle) -> Seq<Seq<char>> {
    seq!["run"@, "--no-install"@, "--no-env-file"@, spec_normalize_script_path(script, style)] + arguments
}

pub fn normalize_script_path(script: String, style: PathStyle) -> (result: String)
    ensures
        result@ == spec_normalize_script_path(script@, style),
{
    if same_text(script.as_str(), "-") || component_count(script.as_str(), style) != 1 {
        script
    } else {
        join(".", script.as_str(), style)
    }
}

/// `run --no-install --no-env-file <script> <arguments...>`.
pub fn build_script_args(script: String, script_arguments: Vec<String>, style: PathStyle) -> (args: Vec<String>)
    ensures
        args.deep_view() == spec_build_script_args(script@, script_arguments.deep_view(), style),
{
    let mut args: Vec<String> = Vec::new();
    push_string(&mut args, owned("run"));
    push_string(&mut args, owned("--no-install"));
    push_string(&mut args, owned("--no-env-file"));
    push_string(&mut args, normalize_script_path(script, style));
    extend_strings(&mut args, &script_arguments, 0);
    assert(script_arguments.deep_view().skip(0) =~= script_arguments.deep_view());
    assert(args.deep_view() =~= spec_build_script_args(script@, script_arguments.deep_view(), style));
    args
}

/// The Bun executable `bun run` is taken from, for a wrapper installed at `executable`
/// (`None` when that path has no parent directory).
pub open spec fn spec_runner_bun_path(executable: Seq<char>, style: PathStyle) -> Option<Seq<char>> {
    match spec_parent(executable, style) {
        None => None,
        Some(dir) => Some(if style == PathStyle::Windows {
            spec_join(spec_join(dir, "bun"@, style), "bun.exe"@, style)
        } else {
            spec_join(spec_join(spec_join(dir, ".."@, style), "bun"@, style), "bun"@, style)
        }),
    }
}

pub fn resolve_path(executable: &str, style: PathStyle) -> (result: Option<String>)
    ensures
        match (result, spec_runner_bun_path(executable@, style)) {
            (Some(p), Some(expected)) => p@ == expected,
            (None, None) => true,
            _ => false,
        },
{
    match parent(executable, style) {
        None => None,
        Some(dir) => {
            if matches!(style, PathStyle::Windows) {
                let bun_dir = join(dir.as_str(), "bun", style);
                Some(join(bun_dir.as_str(), "bun.exe", style))
            } else {
                let up = join(dir.as_str(), "..", style);
                let bun_dir = join(up.as_str(), "bun", style);
                Some(join(bun_dir.as_str(), "bun", style))
            }
        },
    }
}

/// The exit code of a finished `bun run`: its own code when it fits in a byte, else 1.
pub open spec fn spec_script_exit_code(code: Option<i32>) -> u8 {
    match code {
        Some(c) => if 0 <= c && c <= 255 { c as u8 } else { 1 },
        None => 1,
    }
}

pub fn script_exit_code(code: Option<i32>) -> (result: u8)
    ensures
        result == spec_script_exit_code(code),
{
    match code {
        Some(c) => if 0 <= c && c <= 255 { c as u8 } else { 1 },
        None => 1,
    }
}

} // verus!
