//! `--require` preloads: Bun preloads modules as ES modules, so a CommonJS preload is
//! loaded through a small wrapper that calls `require` relative to the working directory.
//!
//! Writing the wrapper to disk is the caller's part: this module says what to write
//! and under which file name.

use vstd::prelude::*;

use crate::js::{js_string_literal, spec_js_string_literal};
use crate::naming::{content_file_name, spec_content_file_name};

verus! {

/// The wrapper that requires `specifier` relative to the working directory.
pub open spec fn spec_require_wrapper(specifier: Seq<char>) -> Seq<char> {
    "const { createRequire } = require(\"node:module\");\nconst { sep } = require(\"node:path\");\nconst { pathToFileURL } = require(\"node:url\");\nconst __bunodeCwd = process.cwd();\nconst __bunodeBase = __bunodeCwd.endsWith(sep) ? __bunodeCwd : __bunodeCwd + sep;\ncreateRequire(pathToFileURL(__bunodeBase))("@
        + spec_js_string_literal(specifier) + ");\n"@
}

/// The file name the wrapper for `specifier` is written under.
pub open spec fn spec_require_wrapper_name(specifier: Seq<char>) -> Seq<char> {
    spec_content_file_name("bunode-require-preload-"@, specifier, ".cjs"@)
}

/// A generated CommonJS preload wrapper: the file name to write it under and its text.
pub struct RequireWrapper {
    pub file_name: String,
    pub source: String,
}

/// The wrapper source for `specifier`.
pub fn build_require_wrapper(specifier: &str) -> (source: String)
    ensures
        source@ == spec_require_wrapper(specifier@),
{
    let literal = js_string_literal(specifier);
    let mut source = String::from_str("const { createRequire } = require(\"node:module\");\nconst { sep } = require(\"node:path\");\nconst { pathToFileURL } = require(\"node:url\");\nconst __bunodeCwd = process.cwd();\nconst __bunodeBase = __bunodeCwd.endsWith(sep) ? __bunodeCwd : __bunodeCwd + sep;\ncreateRequire(pathToFileURL(__bunodeBase))(");
    source.append(literal.as_str());
    source.append(");\n");
    source
}

/// The wrapper to write for a `--require` preload, with its content-addressed file name.
pub fn materialize_require_wrapper(specifier: &str) -> (wrapper: RequireWrapper)
    ensures
        wrapper.file_name@ == spec_require_wrapper_name(specifier@),
        wrapper.source@ == spec_require_wrapper(specifier@),
{
    let source = build_require_wrapper(specifier);
    let file_name = content_file_name("bunode-require-preload-", specifier, ".cjs");
    RequireWrapper { file_name, source }
}

} // verus!
