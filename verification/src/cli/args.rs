//! The `bunode` command line.

use vstd::prelude::*;

use super::CliError;
use crate::text::{chars_of, concat3, owned, same_text};

verus! {

/// What `bunode` was asked to do.
pub enum Command {
    Help,
    Version,
    Patch(PatchOptions),
    Revert(RevertOptions),
    List,
    Implode { yes: bool },
    Update { yes: bool },
}

/// `bunode patch <version> [node-prefix] [--copy <new-prefix>] [--yes]`.
pub struct PatchOptions {
    pub version: String,
    pub prefix: Option<String>,
    pub copy_to: Option<String>,
    pub yes: bool,
}

/// `bunode revert [bunode-prefix] [--yes]`.
pub struct RevertOptions {
    pub prefix: Option<String>,
    pub yes: bool,
}

/// The mathematical form of [`PatchOptions`].
pub struct PatchView {
    pub version: Seq<char>,
    pub prefix: Option<Seq<char>>,
    pub copy_to: Option<Seq<char>>,
    pub yes: bool,
}

/// The mathematical form of a [`Command`].
pub enum CommandView {
    Help,
    Version,
    Patch(PatchView),
    Revert { prefix: Option<Seq<char>>, yes: bool },
    List,
    Implode { yes: bool },
    Update { yes: bool },
}

pub open spec fn opt(o: Option<String>) -> Option<Seq<char>> {
    match o {
        Some(s) => Some(s@),
        None => None,
    }
}

impl View for PatchOptions {
    type V = PatchView;

    open spec fn view(&self) -> PatchView {
        PatchView { version: self.version@, prefix: opt(self.prefix), copy_to: opt(self.copy_to), yes: self.yes }
    }
}

impl View for Command {
    type V = CommandView;

    open spec fn view(&self) -> CommandView {
        match self {
            Command::Help => CommandView::Help,
            Command::Version => CommandView::Version,
            Command::Patch(o) => CommandView::Patch(o@),
            Command::Revert(o) => CommandView::Revert { prefix: opt(o.prefix), yes: o.yes },
            Command::List => CommandView::List,
            Command::Implode { yes } => CommandView::Implode { yes: *yes },
            Command::Update { yes } => CommandView::Update { yes: *yes },
        }
    }
}

pub open spec fn is_yes(v: Seq<char>) -> bool {
    v == "-y"@ || v == "--yes"@
}

pub open spec fn is_dash(v: Seq<char>) -> bool {
    v.len() > 0 && v[0] == '-'
}

/// What `patch` has collected so far.
pub struct PatchScan {
    pub version: Option<Seq<char>>,
    pub prefix: Option<Seq<char>>,
    pub copy_to: Option<Seq<char>>,
    pub yes: bool,
}

/// Reads `patch`'s arguments from `i` on: `-y`/`--yes`, `--copy <path>`, then the
/// version and at most one prefix; anything else starting with `-` is refused.
pub open spec fn patch_scan(values: Seq<Seq<char>>, i: int, acc: PatchScan) -> Result<PatchScan, Seq<char>>
    decreases values.len() - i,
{
    if i < 0 || i >= values.len() {
        Ok(acc)
    } else {
        let v = values[i];
        if is_yes(v) {
            patch_scan(values, i + 1, PatchScan { yes: true, ..acc })
        } else if v == "--copy"@ {
            if i + 1 < values.len() {
                patch_scan(values, i + 2, PatchScan { copy_to: Some(values[i + 1]), ..acc })
            } else {
                Err("`--copy` requires a path"@)
            }
        } else if is_dash(v) {
            Err("unknown patch option `"@ + v + "`"@)
        } else if acc.version is None {
            patch_scan(values, i + 1, PatchScan { version: Some(v), ..acc })
        } else if acc.prefix is None {
            patch_scan(values, i + 1, PatchScan { prefix: Some(v), ..acc })
        } else {
            Err("patch accepts at most one Node.js prefix"@)
        }
    }
}

pub open spec fn empty_scan() -> PatchScan {
    PatchScan { version: None, prefix: None, copy_to: None, yes: false }
}

pub open spec fn spec_parse_patch(values: Seq<Seq<char>>) -> Result<CommandView, Seq<char>> {
    match patch_scan(values, 0, empty_scan()) {
        Err(m) => Err(m),
        Ok(acc) => match acc.version {
            None => Err("missing Bun version; usage: bunode patch <version> [node-prefix]"@),
            Some(version) => Ok(CommandView::Patch(PatchView { version, prefix: acc.prefix, copy_to: acc.copy_to, yes: acc.yes })),
        },
    }
}

/// Reads `revert`'s arguments from `i` on.
pub open spec fn revert_scan(values: Seq<Seq<char>>, i: int, prefix: Option<Seq<char>>, yes: bool) -> Result<(Option<Seq<char>>, bool), Seq<char>>
    decreases values.len() - i,
{
    if i < 0 || i >= values.len() {
        Ok((prefix, yes))
    } else {
        let v = values[i];
        if is_yes(v) {
            revert_scan(values, i + 1, prefix, true)
        } else if is_dash(v) {
            Err("unknown revert option `"@ + v + "`"@)
        } else if prefix is None {
            revert_scan(values, i + 1, Some(v), yes)
        } else {
            Err("revert accepts at most one Bunode prefix"@)
        }
    }
}

pub open spec fn spec_parse_revert(values: Seq<Seq<char>>) -> Result<CommandView, Seq<char>> {
    match revert_scan(values, 0, None, false) {
        Err(m) => Err(m),
        Ok((prefix, yes)) => Ok(CommandView::Revert { prefix, yes }),
    }
}

/// Only `-y`/`--yes` is accepted; returns whether it was given.
pub open spec fn yes_only(values: Seq<Seq<char>>) -> Result<bool, Seq<char>>
    decreases values.len(),
{
    if values.len() == 0 {
        Ok(false)
    } else {
        match yes_only(values.drop_last()) {
            Err(m) => Err(m),
            Ok(yes) => if is_yes(values.last()) { Ok(true) } else { Err("unknown option `"@ + values.last() + "`"@) },
        }
    }
}

pub open spec fn no_arguments(command: CommandView, values: Seq<Seq<char>>) -> Result<CommandView, Seq<char>> {
    if values.len() == 0 { Ok(command) } else { Err("this command does not accept arguments"@) }
}

/// The meaning of `bunode`'s arguments (the first one, the program, is skipped).
pub open spec fn spec_parse(args: Seq<Seq<char>>) -> Result<CommandView, Seq<char>> {
    if args.len() < 2 {
        Ok(CommandView::Help)
    } else {
        let command = args[1];
        let tail = args.skip(2);
        if command == "-h"@ || command == "--help"@ || command == "help"@ {
            no_arguments(CommandView::Help, tail)
        } else if command == "-V"@ || command == "--version"@ || command == "version"@ {
            no_arguments(CommandView::Version, tail)
        } else if command == "patch"@ {
            spec_parse_patch(tail)
        } else if command == "revert"@ {
            spec_parse_revert(tail)
        } else if command == "list"@ || command == "ls"@ {
            no_arguments(CommandView::List, tail)
        } else if command == "implode"@ {
            match yes_only(tail) { Err(m) => Err(m), Ok(yes) => Ok(CommandView::Implode { yes }) }
        } else if command == "update"@ {
            match yes_only(tail) { Err(m) => Err(m), Ok(yes) => Ok(CommandView::Update { yes }) }
        } else {
            Err("unknown command `"@ + command + "`; run `bunode --help` for usage"@)
        }
    }
}

pub open spec fn error_is(result: Result<Command, CliError>, expected: Result<CommandView, Seq<char>>) -> bool {
    match (result, expected) {
        (Ok(c), Ok(v)) => c@ == v,
        (Err(e), Err(m)) => e.message@ == m,
        _ => false,
    }
}

fn yes_flag(v: &str) -> (r: bool)
    ensures
        r == is_yes(v@),
{
    same_text(v, "-y") || same_text(v, "--yes")
}

fn dash(v: &str) -> (r: bool)
    ensures
        r == is_dash(v@),
{
    let c = chars_of(v);
    c.len() > 0 && c[0] == '-'
}

fn copy_option(o: &Option<String>) -> (c: Option<String>)
    ensures
        opt(c) == opt(*o),
{
    match o {
        Some(s) => Some(owned(s.as_str())),
        None => None,
    }
}

fn parse_patch(values: &Vec<String>, start: usize) -> (result: Result<Command, CliError>)
    requires
        start <= values@.len(),
    ensures
        error_is(result, spec_parse_patch(values.deep_view().skip(start as int))),
{
    let ghost vs = values.deep_view().skip(start as int);
    let mut version: Option<String> = None;
    let mut prefix: Option<String> = None;
    let mut copy_to: Option<String> = None;
    let mut yes = false;
    let mut index = start;
    while index < values.len()
        invariant
            start <= index <= values@.len(),
            vs == values.deep_view().skip(start as int),
            patch_scan(vs, 0, empty_scan()) == patch_scan(vs, index - start,
                PatchScan { version: opt(version), prefix: opt(prefix), copy_to: opt(copy_to), yes }),
        decreases values.len() - index,
    {
        let value = values[index].as_str();
        assert(vs[index - start] == value@);
        if yes_flag(value) {
            yes = true;
        } else if same_text(value, "--copy") {
            if index + 1 >= values.len() {
                return Err(CliError::new(owned("`--copy` requires a path")));
            }
            assert(vs[index + 1 - start] == values@[index + 1]@);
            copy_to = Some(owned(values[index + 1].as_str()));
            index += 1;
        } else if dash(value) {
            return Err(CliError::new(concat3("unknown patch option `", value, "`")));
        } else if version.is_none() {
            version = Some(owned(value));
        } else if prefix.is_none() {
            prefix = Some(owned(value));
        } else {
            return Err(CliError::new(owned("patch accepts at most one Node.js prefix")));
        }
        index += 1;
    }
    match version {
        None => Err(CliError::new(owned("missing Bun version; usage: bunode patch <version> [node-prefix]"))),
        Some(version) => Ok(Command::Patch(PatchOptions { version, prefix, copy_to, yes })),
    }
}

fn parse_revert(values: &Vec<String>, start: usize) -> (result: Result<Command, CliError>)
    requires
        start <= values@.len(),
    ensures
        error_is(result, spec_parse_revert(values.deep_view().skip(start as int))),
{
    let ghost vs = values.deep_view().skip(start as int);
    let mut prefix: Option<String> = None;
    let mut yes = false;
    let mut index = start;
    while index < values.len()
        invariant
            start <= index <= values@.len(),
            vs == values.deep_view().skip(start as int),
            revert_scan(vs, 0, None, false) == revert_scan(vs, index - start, opt(prefix), yes),
        decreases values.len() - index,
    {
        let value = values[index].as_str();
        assert(vs[index - start] == value@);
        if yes_flag(value) {
            yes = true;
        } else if dash(value) {
            return Err(CliError::new(concat3("unknown revert option `", value, "`")));
        } else if prefix.is_none() {
            prefix = Some(owned(value));
        } else {
            return Err(CliError::new(owned("revert accepts at most one Bunode prefix")));
        }
        index += 1;
    }
    Ok(Command::Revert(RevertOptions { prefix, yes }))
}

fn parse_yes_only(values: &Vec<String>, start: usize) -> (result: Result<bool, CliError>)
    requires
        start <= values@.len(),
    ensures
        match (result, yes_only(values.deep_view().skip(start as int))) {
            (Ok(y), Ok(z)) => y == z,
            (Err(e), Err(m)) => e.message@ == m,
            _ => false,
        },
{
    let ghost vs = values.deep_view().skip(start as int);
    let mut yes = false;
    let mut index = start;
    assert(vs.take(0) =~= Seq::<Seq<char>>::empty());
    while index < values.len()
        invariant
            start <= index <= values@.len(),
            vs == values.deep_view().skip(start as int),
            yes_only(vs.take(index - start)) == Ok::<bool, Seq<char>>(yes),
        decreases values.len() - index,
    {
        let value = values[index].as_str();
        assert(vs.take(index + 1 - start).drop_last() =~= vs.take(index - start));
        assert(vs.take(index + 1 - start).last() == value@);
        if yes_flag(value) {
            yes = true;
        } else {
            let e = CliError::new(concat3("unknown option `", value, "`"));
            proof {
                lemma_yes_only_error(vs, index + 1 - start);
            }
            return Err(e);
        }
        index += 1;
    }
    assert(vs.take(index - start) =~= vs);
    Ok(yes)
}

proof fn lemma_yes_only_error(vs: Seq<Seq<char>>, n: int)
    requires
        0 < n <= vs.len(),
        yes_only(vs.take(n)) is Err,
    ensures
        yes_only(vs) == yes_only(vs.take(n)),
    decreases vs.len() - n,
{
    if n < vs.len() {
        assert(vs.take(n + 1).drop_last() =~= vs.take(n));
        lemma_yes_only_error(vs, n + 1);
    } else {
        assert(vs.take(n) =~= vs);
    }
}

fn no_arguments_for(command: Command, values: &Vec<String>) -> (result: Result<Command, CliError>)
    requires
        values@.len() >= 2,
    ensures
        error_is(result, no_arguments(command@, values.deep_view().skip(2))),
{
    if values.len() == 2 {
        Ok(command)
    } else {
        Err(CliError::new(owned("this command does not accept arguments")))
    }
}

/// Parses `bunode`'s arguments (the first one is the program).
pub fn parse(args: &Vec<String>) -> (result: Result<Command, CliError>)
    ensures
        error_is(result, spec_parse(args.deep_view())),
{
    if args.len() < 2 {
        return Ok(Command::Help);
    }
    let command = args[1].as_str();
    assert(args.deep_view()[1] == command@);
    if same_text(command, "-h") || same_text(command, "--help") || same_text(command, "help") {
        no_arguments_for(Command::Help, args)
    } else if same_text(command, "-V") || same_text(command, "--version") || same_text(command, "version") {
        no_arguments_for(Command::Version, args)
    } else if same_text(command, "patch") {
        parse_patch(args, 2)
    } else if same_text(command, "revert") {
        parse_revert(args, 2)
    } else if same_text(command, "list") || same_text(command, "ls") {
        no_arguments_for(Command::List, args)
    } else if same_text(command, "implode") {
        match parse_yes_only(args, 2) {
            Ok(yes) => Ok(Command::Implode { yes }),
            Err(e) => Err(e),
        }
    } else if same_text(command, "update") {
        match parse_yes_only(args, 2) {
            Ok(yes) => Ok(Command::Update { yes }),
            Err(e) => Err(e),
        }
    } else {
        Err(CliError::new(concat3("unknown command `", command, "`; run `bunode --help` for usage")))
    }
}

/// The text `bunode --help` prints.
pub fn help_text() -> (text: &'static str)
    ensures
        text@ == spec_help_text(),
{
    "Bunode manages Node.js-compatible prefixes backed by Bun.\n\nUsage: bunode <command> [options]\n\nCommands:\n  patch <version> [node-prefix]  Turn a Node.js prefix into a Bunode prefix\n  revert [bunode-prefix]         Restore a managed prefix to Node.js\n  list                           List managed Bunode prefixes\n  update                         Install this Bunode wrapper into managed prefixes\n  implode                        Revert every managed Bunode prefix\n\nPatch options:\n  --copy <new-prefix>            Patch a copy instead of the original prefix\n  -y, --yes                      Accept confirmations\n\nRevert, update, and implode options:\n  -y, --yes                      Accept confirmations\n\nGlobal options:\n  -h, --help                     Print help\n  -V, --version                  Print the Bunode CLI version"
}

pub open spec fn spec_help_text() -> Seq<char> {
    "Bunode manages Node.js-compatible prefixes backed by Bun.\n\nUsage: bunode <command> [options]\n\nCommands:\n  patch <version> [node-prefix]  Turn a Node.js prefix into a Bunode prefix\n  revert [bunode-prefix]         Restore a managed prefix to Node.js\n  list                           List managed Bunode prefixes\n  update                         Install this Bunode wrapper into managed prefixes\n  implode                        Revert every managed Bunode prefix\n\nPatch options:\n  --copy <new-prefix>            Patch a copy instead of the original prefix\n  -y, --yes                      Accept confirmations\n\nRevert, update, and implode options:\n  -y, --yes                      Accept confirmations\n\nGlobal options:\n  -h, --help                     Print help\n  -V, --version                  Print the Bunode CLI version"@
}

} // verus!
