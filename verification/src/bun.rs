//! Where the Bun binary that runs the program lives, relative to the wrapper.

use vstd::prelude::*;

use crate::argv::PathStyle;
use crate::error::{BunodeError, BunodeErrorView};
use crate::paths::{join, parent, spec_join, spec_parent};

verus! {

/// The directory Bun is installed in for a wrapper at `executable`: `bun` beside the
/// wrapper on Windows, `../bun` elsewhere.
pub open spec fn spec_bun_binary_directory(executable: Seq<char>, style: PathStyle) -> Option<Seq<char>> {
    match spec_parent(executable, style) {
        None => None,
        Some(dir) => Some(if style == PathStyle::Windows {
            spec_join(dir, "bun"@, style)
        } else {
            spec_join(spec_join(dir, ".."@, style), "bun"@, style)
        }),
    }
}

/// The Bun executable for a wrapper at `executable`.
pub open spec fn spec_bun_path(executable: Seq<char>, style: PathStyle) -> Option<Seq<char>> {
    match spec_bun_binary_directory(executable, style) {
        None => None,
        Some(dir) => Some(spec_join(dir, if style == PathStyle::Windows { "bun.exe"@ } else { "bun"@ }, style)),
    }
}

/// The directory Bun is installed in, for a wrapper installed at `executable`.
pub fn bun_binary_directory(executable: &str, style: PathStyle) -> (result: Result<String, BunodeError>)
    ensures
        match (result, spec_bun_binary_directory(executable@, style)) {
            (Ok(dir), Some(expected)) => dir@ == expected,
            (Err(e), None) => e@ == BunodeErrorView::BunBinaryNotFound,
            _ => false,
        },
{
    match parent(executable, style) {
        None => Err(BunodeError::BunBinaryNotFound),
        Some(dir) => {
            if matches!(style, PathStyle::Windows) {
                Ok(join(dir.as_str(), "bun", style))
            } else {
                let up = join(dir.as_str(), "..", style);
                Ok(join(up.as_str(), "bun", style))
            }
        },
    }
}

/// The Bun executable, for a wrapper installed at `executable`.
pub fn path(executable: &str, style: PathStyle) -> (result: Result<String, BunodeError>)
    ensures
        match (result, spec_bun_path(executable@, style)) {
            (Ok(p), Some(expected)) => p@ == expected,
            (Err(e), None) => e@ == BunodeErrorView::BunBinaryNotFound,
            _ => false,
        },
{
    let dir = bun_binary_directory(executable, style)?;
    if matches!(style, PathStyle::Windows) {
        Ok(join(dir.as_str(), "bun.exe", style))
    } else {
        Ok(join(dir.as_str(), "bun", style))
    }
}

} // verus!
