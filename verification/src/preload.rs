//! Where the generated metadata preload is written, and the environment variables it
//! reads to correct Node-facing process metadata.

use vstd::prelude::*;

use crate::argv::PathStyle;
use crate::bun::{path, spec_bun_path};
use crate::error::{BunodeError, BunodeErrorView};
use crate::paths::{join, parent, spec_join, spec_parent};
use crate::text::{decimal, owned, push_decimal};

verus! {

/// The wrapper's own executable, for `process.execPath`.
pub const EXEC_PATH_ENV: &'static str = "BUNODE_EXEC_PATH";
/// The `argv[0]` the wrapper was started with, for `process.argv0`.
pub const ARGV0_ENV: &'static str = "BUNODE_ARGV0";
/// `process.execArgv`, as a JSON array.
pub const EXEC_ARGV_ENV: &'static str = "BUNODE_EXEC_ARGV";
/// `process.argv`, as a JSON array.
pub const ARGV_ENV: &'static str = "BUNODE_ARGV";
/// The CommonJS modules to require.
pub const REQUIRE_ENV: &'static str = "BUNODE_REQUIRE";

/// The preload's file name.
pub const PRELOAD_FILE_NAME: &'static str = "bunode-preload.cjs";

/// The preload next to Bun, for a wrapper installed at `executable`.
pub open spec fn spec_prepare(executable: Seq<char>, style: PathStyle) -> Result<Seq<char>, BunodeErrorView> {
    match spec_bun_path(executable, style) {
        None => Err(BunodeErrorView::BunBinaryNotFound),
        Some(bun) => match spec_parent(bun, style) {
            None => Err(BunodeErrorView::CommandExecution("failed to resolve Bun directory"@)),
            Some(dir) => Ok(spec_join(dir, "bunode-preload.cjs"@, style)),
        },
    }
}

/// Where the preload goes first: beside Bun's executable.
pub fn prepare(executable: &str, style: PathStyle) -> (result: Result<String, BunodeError>)
    ensures
        match (result, spec_prepare(executable@, style)) {
            (Ok(p), Ok(expected)) => p@ == expected,
            (Err(e), Err(expected)) => e@ == expected,
            _ => false,
        },
{
    let bun = path(executable, style)?;
    match parent(bun.as_str(), style) {
        None => Err(BunodeError::CommandExecution(owned("failed to resolve Bun directory"))),
        Some(dir) => Ok(join(dir.as_str(), "bunode-preload.cjs", style)),
    }
}

/// Where the preload goes when Bun's directory cannot be written: `bunode` in the local
/// application data (or user profile) on Windows, in the XDG cache (or `~/.cache`)
/// elsewhere, and in the temporary directory when none of those is set.
pub open spec fn spec_fallback_preload_directory(style: PathStyle, local_app_data: Option<Seq<char>>,
    user_profile: Option<Seq<char>>, xdg_cache_home: Option<Seq<char>>, home: Option<Seq<char>>, temp_dir: Seq<char>) -> Seq<char> {
    let base = if style == PathStyle::Windows {
        match (local_app_data, user_profile) {
            (Some(d), _) => d,
            (None, Some(d)) => d,
            (None, None) => temp_dir,
        }
    } else {
        match (xdg_cache_home, home) {
            (Some(d), _) => d,
            (None, Some(h)) => spec_join(h, ".cache"@, style),
            (None, None) => temp_dir,
        }
    };
    spec_join(base, "bunode"@, style)
}

pub fn fallback_preload_directory(style: PathStyle, local_app_data: Option<String>, user_profile: Option<String>,
    xdg_cache_home: Option<String>, home: Option<String>, temp_dir: String) -> (dir: String)
    ensures
        dir@ == spec_fallback_preload_directory(style, crate::cli::args::opt(local_app_data), crate::cli::args::opt(user_profile),
            crate::cli::args::opt(xdg_cache_home), crate::cli::args::opt(home), temp_dir@),
{
    let base = if matches!(style, PathStyle::Windows) {
        match (local_app_data, user_profile) {
            (Some(d), _) => d,
            (None, Some(d)) => d,
            (None, None) => temp_dir,
        }
    } else {
        match (xdg_cache_home, home) {
            (Some(d), _) => d,
            (None, Some(h)) => join(h.as_str(), ".cache", style),
            (None, None) => temp_dir,
        }
    };
    join(base.as_str(), "bunode", style)
}

/// What to do once writing the preload beside Bun was tried.
pub enum PreloadNext {
    /// The preload is in place at this path.
    Ready(String),
    /// Bun's directory could not be written: write the preload to this path in the
    /// fallback directory instead.
    WriteFallback(String),
}

/// The preload's path in the fallback directory.
pub open spec fn spec_fallback_preload_path(fallback_directory: Seq<char>, style: PathStyle) -> Seq<char> {
    spec_join(fallback_directory, "bunode-preload.cjs"@, style)
}

/// The preload beside Bun (`primary`, from [`prepare`]) is used when it could be
/// written; otherwise the one in `fallback_directory` is written.
pub fn after_primary_write(primary: String, written: bool, fallback_directory: &str, style: PathStyle) -> (next: PreloadNext)
    ensures
        written ==> (next matches PreloadNext::Ready(p) && p@ == primary@),
        !written ==> (next matches PreloadNext::WriteFallback(p) && p@ == spec_fallback_preload_path(fallback_directory@, style)),
{
    if written {
        PreloadNext::Ready(primary)
    } else {
        PreloadNext::WriteFallback(join(fallback_directory, "bunode-preload.cjs", style))
    }
}

/// The outcome of writing the fallback preload at `path`: that path, or the error that
/// writing it gave (preparing the preload fails only when both places fail).
pub fn after_fallback_write(path: String, written: Result<(), String>) -> (result: Result<String, BunodeError>)
    ensures
        match (written, result) {
            (Ok(()), Ok(p)) => p@ == path@,
            (Err(m), Err(e)) => e@ == BunodeErrorView::CommandExecution(m@),
            _ => false,
        },
{
    match written {
        Ok(()) => Ok(path),
        Err(message) => Err(BunodeError::CommandExecution(message)),
    }
}

/// A private file to write the preload to before it is renamed into place:
/// `.bunode-preload.cjs.<pid>.<timestamp>.<attempt>.tmp` in `directory`.
pub open spec fn spec_temporary_preload_path(directory: Seq<char>, pid: u32, timestamp: u64, attempt: u32, style: PathStyle) -> Seq<char> {
    spec_join(directory, ".bunode-preload.cjs."@ + decimal(pid as nat) + "."@ + decimal(timestamp as nat) + "."@
        + decimal(attempt as nat) + ".tmp"@, style)
}

pub fn temporary_preload_path(directory: &str, pid: u32, timestamp: u64, attempt: u32, style: PathStyle) -> (p: String)
    ensures
        p@ == spec_temporary_preload_path(directory@, pid, timestamp, attempt, style),
{
    let mut name = owned(".bunode-preload.cjs.");
    push_decimal(&mut name, pid as u64);
    name.append(".");
    push_decimal(&mut name, timestamp);
    name.append(".");
    push_decimal(&mut name, attempt as u64);
    name.append(".tmp");
    join(directory, name.as_str(), style)
}

} // verus!
