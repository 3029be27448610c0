//! Fetching Bun with `npm pack`: which package, which arguments, and what to accept of
//! npm's answer.

use vstd::prelude::*;

use super::CliError;
use crate::argv::PathStyle;
use crate::paths::{component_count, file_name, join, spec_component_count, spec_file_name, spec_join};
use crate::text::{chars_of, concat3, decimal, has_prefix, owned, push_decimal, push_string, same_text,
    string_from_chars, strip_prefix, trim, trimmed};

verus! {

/// A character `normalize_version` accepts: an ASCII letter or digit, `.`, `-` or `+`.
pub open spec fn is_version_char(c: char) -> bool {
    ('a' <= c && c <= 'z') || ('A' <= c && c <= 'Z') || ('0' <= c && c <= '9') || c == '.' || c == '-' || c == '+'
}

/// The version without surrounding whitespace and without a `bun-v` or `v` in front.
pub open spec fn stripped_version(version: Seq<char>) -> Seq<char> {
    let t = trim(version);
    if has_prefix(t, "bun-v"@) {
        t.skip(5)
    } else if has_prefix(t, "v"@) {
        t.skip(1)
    } else {
        t
    }
}

/// A Bun version as `patch` accepts it.
pub open spec fn spec_normalize_version(version: Seq<char>) -> Result<Seq<char>, Seq<char>> {
    let v = stripped_version(version);
    if v.len() == 0 || !(forall|i: int| 0 <= i < v.len() ==> is_version_char(#[trigger] v[i])) {
        Err("invalid Bun version `"@ + v + "`"@)
    } else {
        Ok(v)
    }
}

fn version_char(c: char) -> (r: bool)
    ensures
        r == is_version_char(c),
{
    ('a' <= c && c <= 'z') || ('A' <= c && c <= 'Z') || ('0' <= c && c <= '9') || c == '.' || c == '-' || c == '+'
}

/// Normalizes a requested Bun version: trims it, drops a `bun-v` or `v` in front, and
/// accepts only ASCII letters, digits, `.`, `-` and `+`.
pub fn normalize_version(version: &str) -> (result: Result<String, CliError>)
    ensures
        match (result, spec_normalize_version(version@)) {
            (Ok(v), Ok(expected)) => v@ == expected,
            (Err(e), Err(m)) => e.message@ == m,
            _ => false,
        },
{
    let t = trimmed(version);
    proof {
        reveal_strlit("bun-v");
        reveal_strlit("v");
    }
    let v = match strip_prefix(t.as_str(), "bun-v") {
        Some(rest) => rest,
        None => match strip_prefix(t.as_str(), "v") {
            Some(rest) => rest,
            None => t,
        },
    };
    assert(v@ == stripped_version(version@));
    let chars = chars_of(v.as_str());
    let mut i: usize = 0;
    let mut ok = chars.len() > 0;
    while i < chars.len()
        invariant
            i <= chars@.len(),
            chars@ == v@,
            ok == (chars@.len() > 0 && forall|j: int| 0 <= j < i ==> is_version_char(#[trigger] chars@[j])),
        decreases chars.len() - i,
    {
        if !version_char(chars[i]) {
            ok = false;
        }
        i += 1;
    }
    if ok {
        Ok(v)
    } else {
        Err(CliError::new(concat3("invalid Bun version `", v.as_str(), "`")))
    }
}

/// The npm package that ships Bun for a platform (`musl` selects the musl builds on
/// Linux).
pub open spec fn spec_platform_package(os: Seq<char>, arch: Seq<char>, musl: bool) -> Result<Seq<char>, Seq<char>> {
    if os == "macos"@ && arch == "aarch64"@ {
        Ok("@oven/bun-darwin-aarch64"@)
    } else if os == "macos"@ && arch == "x86_64"@ {
        Ok("@oven/bun-darwin-x64"@)
    } else if os == "linux"@ && arch == "aarch64"@ && musl {
        Ok("@oven/bun-linux-aarch64-musl"@)
    } else if os == "linux"@ && arch == "aarch64"@ {
        Ok("@oven/bun-linux-aarch64"@)
    } else if os == "linux"@ && arch == "x86_64"@ && musl {
        Ok("@oven/bun-linux-x64-musl"@)
    } else if os == "linux"@ && arch == "x86_64"@ {
        Ok("@oven/bun-linux-x64"@)
    } else if os == "windows"@ && arch == "aarch64"@ {
        Ok("@oven/bun-windows-aarch64"@)
    } else if os == "windows"@ && arch == "x86_64"@ {
        Ok("@oven/bun-windows-x64"@)
    } else {
        Err("Bun does not publish an npm binary for "@ + os + "-"@ + arch)
    }
}

/// The npm package that ships Bun for `os` and `arch` (as `std::env::consts` names them).
pub fn platform_package(os: &str, arch: &str, musl: bool) -> (result: Result<String, CliError>)
    ensures
        match (result, spec_platform_package(os@, arch@, musl)) {
            (Ok(p), Ok(expected)) => p@ == expected,
            (Err(e), Err(m)) => e.message@ == m,
            _ => false,
        },
{
    let macos = same_text(os, "macos");
    let linux = same_text(os, "linux");
    let windows = same_text(os, "windows");
    let aarch64 = same_text(arch, "aarch64");
    let x86_64 = same_text(arch, "x86_64");
    if macos && aarch64 {
        Ok(owned("@oven/bun-darwin-aarch64"))
    } else if macos && x86_64 {
        Ok(owned("@oven/bun-darwin-x64"))
    } else if linux && aarch64 && musl {
        Ok(owned("@oven/bun-linux-aarch64-musl"))
    } else if linux && aarch64 {
        Ok(owned("@oven/bun-linux-aarch64"))
    } else if linux && x86_64 && musl {
        Ok(owned("@oven/bun-linux-x64-musl"))
    } else if linux && x86_64 {
        Ok(owned("@oven/bun-linux-x64"))
    } else if windows && aarch64 {
        Ok(owned("@oven/bun-windows-aarch64"))
    } else if windows && x86_64 {
        Ok(owned("@oven/bun-windows-x64"))
    } else {
        let mut message = concat3("Bun does not publish an npm binary for ", os, "-");
        message.append(arch);
        Err(CliError::new(message))
    }
}

/// `npm` inside a Node.js prefix.
pub open spec fn spec_npm_executable(prefix: Seq<char>, style: PathStyle) -> Seq<char> {
    spec_join(prefix, if style == PathStyle::Windows { "npm.cmd"@ } else { "bin/npm"@ }, style)
}

pub fn npm_executable(prefix: &str, style: PathStyle) -> (path: String)
    ensures
        path@ == spec_npm_executable(prefix@, style),
{
    if matches!(style, PathStyle::Windows) {
        join(prefix, "npm.cmd", style)
    } else {
        join(prefix, "bin/npm", style)
    }
}

/// The directory of a prefix that holds `node` (and that `PATH` gets first).
pub open spec fn spec_node_bin_directory(prefix: Seq<char>, style: PathStyle) -> Seq<char> {
    if style == PathStyle::Windows { prefix } else { spec_join(prefix, "bin"@, style) }
}

pub fn node_bin_directory(prefix: &str, style: PathStyle) -> (path: String)
    ensures
        path@ == spec_node_bin_directory(prefix@, style),
{
    if matches!(style, PathStyle::Windows) {
        owned(prefix)
    } else {
        join(prefix, "bin", style)
    }
}

/// The error for a prefix without npm.
pub fn missing_npm(npm: &str) -> (error: CliError)
    ensures
        error.message@ == "npm is missing from the original Node.js prefix at "@ + npm@,
{
    CliError::new(crate::text::concat("npm is missing from the original Node.js prefix at ", npm))
}

/// The arguments of `npm pack` for `package@version`, written into `destination`.
pub open spec fn spec_npm_pack_args(package: Seq<char>, version: Seq<char>, destination: Seq<char>) -> Seq<Seq<char>> {
    seq!["pack"@, package + "@"@ + version, "--json"@, "--ignore-scripts"@, "--pack-destination"@, destination]
}

pub fn npm_pack_args(package: &str, version: &str, destination: &str) -> (args: Vec<String>)
    ensures
        args.deep_view() == spec_npm_pack_args(package@, version@, destination@),
{
    let mut args: Vec<String> = Vec::new();
    push_string(&mut args, owned("pack"));
    push_string(&mut args, concat3(package, "@", version));
    push_string(&mut args, owned("--json"));
    push_string(&mut args, owned("--ignore-scripts"));
    push_string(&mut args, owned("--pack-destination"));
    push_string(&mut args, owned(destination));
    assert(args.deep_view() =~= spec_npm_pack_args(package@, version@, destination@));
    args
}

/// The error for an `npm pack` that failed: its status and its trimmed standard error.
pub fn npm_pack_failure(status: &str, stderr: &str) -> (error: CliError)
    ensures
        error.message@ == "npm pack exited with "@ + status@ + ": "@ + trim(stderr@),
{
    let detail = trimmed(stderr);
    let mut message = concat3("npm pack exited with ", status, ": ");
    message.append(detail.as_str());
    CliError::new(message)
}

/// A file name npm may report: exactly one component, and a normal one.
pub open spec fn is_plain_file_name(name: Seq<char>, style: PathStyle) -> bool {
    spec_component_count(name, style) == 1 && spec_file_name(name, style) is Some
}

/// The archive `npm pack` wrote, from the file names its JSON answer lists: exactly one
/// package, whose file name is a single normal component inside `destination`.
pub open spec fn spec_packed_archive(destination: Seq<char>, filenames: Seq<Seq<char>>, style: PathStyle) -> Result<Seq<char>, Seq<char>> {
    if filenames.len() != 1 {
        Err("npm pack returned "@ + decimal(filenames.len()) + " packages instead of one"@)
    } else if !is_plain_file_name(filenames[0], style) {
        Err("npm pack returned an invalid archive filename"@)
    } else {
        Ok(spec_join(destination, filenames[0], style))
    }
}

pub fn packed_archive(destination: &str, filenames: &Vec<String>, style: PathStyle) -> (result: Result<String, CliError>)
    ensures
        match (result, spec_packed_archive(destination@, filenames.deep_view(), style)) {
            (Ok(p), Ok(expected)) => p@ == expected,
            (Err(e), Err(m)) => e.message@ == m,
            _ => false,
        },
{
    if filenames.len() != 1 {
        let mut message = owned("npm pack returned ");
        push_decimal(&mut message, filenames.len() as u64);
        message.append(" packages instead of one");
        return Err(CliError::new(message));
    }
    let name = filenames[0].as_str();
    assert(filenames.deep_view()[0] == name@);
    if component_count(name, style) != 1 || file_name(name, style).is_none() {
        return Err(CliError::new(owned("npm pack returned an invalid archive filename")));
    }
    Ok(join(destination, name, style))
}

/// The entry of Bun's npm package that holds the executable.
pub open spec fn spec_bun_entry(style: PathStyle) -> Seq<char> {
    if style == PathStyle::Windows { "package/bin/bun.exe"@ } else { "package/bin/bun"@ }
}

/// Whether an archive entry is Bun's executable (compared as paths, component by
/// component).
pub fn is_bun_entry(path: &str, style: PathStyle) -> (r: bool)
    ensures
        r == crate::paths::spec_path_eq(path@, spec_bun_entry(style), style),
{
    if matches!(style, PathStyle::Windows) {
        crate::paths::path_eq(path, "package/bin/bun.exe", style)
    } else {
        crate::paths::path_eq(path, "package/bin/bun", style)
    }
}

/// The error for a package without Bun's executable.
pub fn missing_bun_entry(style: PathStyle) -> (error: CliError)
    ensures
        error.message@ == "Bun package does not contain "@ + spec_bun_entry(style),
{
    if matches!(style, PathStyle::Windows) {
        CliError::new(crate::text::concat("Bun package does not contain ", "package/bin/bun.exe"))
    } else {
        CliError::new(crate::text::concat("Bun package does not contain ", "package/bin/bun"))
    }
}

/// Whether `s` ends with `-musl`.
pub open spec fn ends_with_musl(s: Seq<char>) -> bool {
    s.len() >= 5 && s.skip(s.len() - 5) == "-musl"@
}

/// Bun's musl builds are picked exactly for musl Linux: a Linux package for musl is the
/// glibc one with `-musl` after it, and the glibc one does not end in `-musl`; on the
/// other systems the C library makes no difference. Every package is one of Bun's
/// (`@oven/bun-...`).
pub proof fn law_musl_packages(os: Seq<char>, arch: Seq<char>)
    ensures
        os == "linux"@ ==> match (spec_platform_package(os, arch, false), spec_platform_package(os, arch, true)) {
            (Ok(glibc), Ok(musl)) => musl == glibc + "-musl"@ && !ends_with_musl(glibc),
            (Err(a), Err(b)) => a == b,
            _ => false,
        },
        os != "linux"@ ==> spec_platform_package(os, arch, false) == spec_platform_package(os, arch, true),
        forall|musl: bool| #[trigger] spec_platform_package(os, arch, musl) is Ok
            ==> has_prefix(spec_platform_package(os, arch, musl)->Ok_0, "@oven/bun-"@),
{
    reveal_strlit("linux");
    reveal_strlit("macos");
    reveal_strlit("windows");
    reveal_strlit("aarch64");
    reveal_strlit("x86_64");
    reveal_strlit("-musl");
    reveal_strlit("@oven/bun-");
    reveal_strlit("@oven/bun-darwin-aarch64");
    reveal_strlit("@oven/bun-darwin-x64");
    reveal_strlit("@oven/bun-linux-aarch64-musl");
    reveal_strlit("@oven/bun-linux-aarch64");
    reveal_strlit("@oven/bun-linux-x64-musl");
    reveal_strlit("@oven/bun-linux-x64");
    reveal_strlit("@oven/bun-windows-aarch64");
    reveal_strlit("@oven/bun-windows-x64");
    if os == "linux"@ {
        assert("linux"@[0] != "macos"@[0]);
        assert(os != "macos"@ && os != "windows"@);
        if arch == "aarch64"@ {
            assert("@oven/bun-linux-aarch64-musl"@ =~= "@oven/bun-linux-aarch64"@ + "-musl"@);
            let g = "@oven/bun-linux-aarch64"@;
            assert(g.skip(g.len() - 5)[0] != "-musl"@[0]);
        } else if arch == "x86_64"@ {
            assert("@oven/bun-linux-x64-musl"@ =~= "@oven/bun-linux-x64"@ + "-musl"@);
            let g = "@oven/bun-linux-x64"@;
            assert(g.skip(g.len() - 5)[1] != "-musl"@[1]);
        }
    }
    assert forall|musl: bool| #[trigger] spec_platform_package(os, arch, musl) is Ok
        implies has_prefix(spec_platform_package(os, arch, musl)->Ok_0, "@oven/bun-"@) by {
        let p = spec_platform_package(os, arch, musl)->Ok_0;
        assert(p.take(10) =~= "@oven/bun-"@);
    }
}

} // verus!
