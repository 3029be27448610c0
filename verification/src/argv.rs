//! Bun argv construction for translated Node invocations.

use vstd::prelude::*;

use crate::error::{BunodeError, BunodeErrorView, CliFailureError, FailureErrorView};
use crate::parser::{ExecutionPlan, PlanView};
use crate::text::{chars_of, concat, concat3, copy_strings, owned, push_string, same_text};

verus! {

/// The separator conventions of the platform the wrapper runs on.
#[derive(Clone, Copy, Debug, PartialEq, Eq, Structural)]
pub enum PathStyle {
    /// `/` separates path components.
    Posix,
    /// `\` and `/` both separate path components.
    Windows,
}

/// How Bun is asked to run the program.
pub enum BunMode {
    /// `bun ... -e <code>`
    Eval(String),
    /// `bun run ... <script>`
    Script(String),
    /// `bun repl`
    Repl,
}

pub enum BunModeView {
    Eval(Seq<char>),
    Script(Seq<char>),
    Repl,
}

impl View for BunMode {
    type V = BunModeView;

    open spec fn view(&self) -> BunModeView {
        match self {
            BunMode::Eval(c) => BunModeView::Eval(c@),
            BunMode::Script(s) => BunModeView::Script(s@),
            BunMode::Repl => BunModeView::Repl,
        }
    }
}

pub open spec fn spec_has_path_separator(value: Seq<char>, style: PathStyle) -> bool {
    value.contains('/') || (style == PathStyle::Windows && value.contains('\\'))
}

/// Script names starting with `-` must be written as explicit relative paths.
pub open spec fn spec_script_requires_explicit_relative_path(script: Seq<char>, style: PathStyle) -> bool {
    script != "-"@ && script.len() > 0 && script[0] == '-' && !spec_has_path_separator(script, style)
}

/// A bare script name gets `./` (`.\` on Windows) so that `bun run` does not take it
/// for a `package.json` task.
pub open spec fn spec_normalize_script_name(script: Seq<char>, style: PathStyle) -> Seq<char> {
    if script == "-"@ {
        "-"@
    } else if spec_has_path_separator(script, style) {
        script
    } else if style == PathStyle::Windows {
        ".\\"@ + script
    } else {
        "./"@ + script
    }
}

/// Bun rejects an empty `-e`; Node treats it as `undefined`.
pub open spec fn spec_normalize_eval_code(code: Seq<char>) -> Seq<char> {
    if code.len() == 0 { "void 0"@ } else { code }
}

/// Defaults that go before user-translated flags so explicit Bun options can override them.
pub open spec fn runtime_flags(preload_path: Seq<char>) -> Seq<Seq<char>> {
    seq!["--no-install"@, "--no-env-file"@, "--preload"@ + "="@ + preload_path]
}

/// The user arguments, where (when `escape` is set) a `--` not preceded by `--` is doubled.
pub open spec fn escaped_arguments(args: Seq<Seq<char>>, escape: bool, previous_was_delimiter: bool) -> Seq<Seq<char>>
    decreases args.len(),
{
    if args.len() == 0 {
        Seq::empty()
    } else {
        let a = args[0];
        let doubled: Seq<Seq<char>> = if escape && a == "--"@ && !previous_was_delimiter { seq!["--"@] } else { Seq::empty() };
        doubled + seq![a] + escaped_arguments(args.drop_first(), escape, a == "--"@)
    }
}

/// The script arguments after the `--` that Bun consumes.
pub open spec fn user_arguments(args: Seq<Seq<char>>, escape: bool) -> Seq<Seq<char>> {
    if args.len() == 0 { Seq::empty() } else { seq!["--"@] + escaped_arguments(args, escape, false) }
}

pub open spec fn spec_build_repl_args(plan: PlanView) -> Seq<Seq<char>> {
    plan.bun_options.push("repl"@)
}

/// The Bun argv for a mode.
pub open spec fn spec_build_bun_args(plan: PlanView, mode: BunModeView, preload_path: Seq<char>, style: PathStyle) -> Seq<Seq<char>> {
    match mode {
        BunModeView::Eval(code) => runtime_flags(preload_path) + plan.bun_options
            + seq!["-e"@, spec_normalize_eval_code(code)] + user_arguments(plan.script_arguments, true),
        BunModeView::Script(script) => seq!["run"@] + runtime_flags(preload_path) + plan.bun_options
            + seq![spec_normalize_script_name(script, style)] + user_arguments(plan.script_arguments, false),
        BunModeView::Repl => spec_build_repl_args(plan),
    }
}

pub fn has_path_separator(value: &str, style: PathStyle) -> (result: bool)
    ensures
        result == spec_has_path_separator(value@, style),
{
    let chars = chars_of(value);
    let mut i: usize = 0;
    while i < chars.len()
        invariant
            chars@ == value@,
            i <= chars@.len(),
            forall|j: int| 0 <= j < i ==> chars@[j] != '/' && !(style == PathStyle::Windows && chars@[j] == '\\'),
        decreases chars.len() - i,
    {
        if chars[i] == '/' || (style == PathStyle::Windows && chars[i] == '\\') {
            return true;
        }
        i += 1;
    }
    false
}

fn script_requires_explicit_relative_path(script: &str, style: PathStyle) -> (result: bool)
    ensures
        result == spec_script_requires_explicit_relative_path(script@, style),
{
    if same_text(script, "-") {
        return false;
    }
    let chars = chars_of(script);
    chars.len() > 0 && chars[0] == '-' && !has_path_separator(script, style)
}

/// Rejects script names that start with `-` and have no path separator.
pub fn validate_script(script: &str, style: PathStyle) -> (result: Result<(), BunodeError>)
    ensures
        match result {
            Ok(()) => !spec_script_requires_explicit_relative_path(script@, style),
            Err(e) => spec_script_requires_explicit_relative_path(script@, style)
                && e@ == BunodeErrorView::Failure(FailureErrorView::DashScriptRequiresExplicitRelativePath(script@)),
        },
{
    if script_requires_explicit_relative_path(script, style) {
        return Err(BunodeError::Failure(CliFailureError::DashScriptRequiresExplicitRelativePath(owned(script))));
    }
    Ok(())
}

fn normalize_eval_code(code: &str) -> (result: String)
    ensures
        result@ == spec_normalize_eval_code(code@),
{
    if code.is_empty() {
        return owned("void 0");
    }
    owned(code)
}

fn normalize_script_name(script: &str, style: PathStyle) -> (result: String)
    ensures
        result@ == spec_normalize_script_name(script@, style),
{
    if same_text(script, "-") {
        return owned("-");
    }
    if has_path_separator(script, style) {
        return owned(script);
    }
    match style {
        PathStyle::Windows => concat(".\\", script),
        PathStyle::Posix => concat("./", script),
    }
}

fn push_runtime_flags(args: &mut Vec<String>, preload_path: &str)
    ensures
        final(args).deep_view() == old(args).deep_view() + runtime_flags(preload_path@),
{
    push_string(args, owned("--no-install"));
    push_string(args, owned("--no-env-file"));
    push_string(args, concat3("--preload", "=", preload_path));
    assert(final(args).deep_view() =~= old(args).deep_view() + runtime_flags(preload_path@));
}

proof fn lemma_escaped_step(args: Seq<Seq<char>>, i: int, escape: bool, previous: bool)
    requires
        0 <= i < args.len(),
    ensures
        escaped_arguments(args.skip(i), escape, previous) == (if escape && args[i] == "--"@ && !previous {
            seq!["--"@]
        } else {
            Seq::<Seq<char>>::empty()
        }) + seq![args[i]] + escaped_arguments(args.skip(i + 1), escape, args[i] == "--"@),
{
    assert(args.skip(i).drop_first() =~= args.skip(i + 1));
    assert(args.skip(i)[0] == args[i]);
}

fn push_user_arguments(args: &mut Vec<String>, invocation: &ExecutionPlan, escape_delimiters: bool)
    ensures
        final(args).deep_view() == old(args).deep_view() + user_arguments(invocation@.script_arguments, escape_delimiters),
{
    let script_arguments = &invocation.script_arguments;
    if script_arguments.len() == 0 {
        assert(old(args).deep_view() + user_arguments(invocation@.script_arguments, escape_delimiters) =~= old(args).deep_view());
        return;
    }
    // Bun consumes this separator, preserving a user-supplied `--` as argv data.
    push_string(args, owned("--"));
    let ghost all = script_arguments.deep_view();
    let ghost start = args.deep_view();
    let mut previous_argument_was_delimiter = false;
    let mut i: usize = 0;
    assert(all.skip(0) =~= all);
    assert(start + escaped_arguments(all.skip(0), escape_delimiters, false) =~= old(args).deep_view() + user_arguments(all, escape_delimiters));
    while i < script_arguments.len()
        invariant
            all == script_arguments.deep_view(),
            i <= all.len(),
            args.deep_view() + escaped_arguments(all.skip(i as int), escape_delimiters, previous_argument_was_delimiter)
                == old(args).deep_view() + user_arguments(all, escape_delimiters),
        decreases script_arguments.len() - i,
    {
        let argument = &script_arguments[i];
        assert(all[i as int] == argument@);
        let ghost previous = previous_argument_was_delimiter;
        proof {
            lemma_escaped_step(all, i as int, escape_delimiters, previous);
        }
        let is_delimiter = same_text(argument.as_str(), "--");
        let ghost before = args.deep_view();
        let ghost doubled: Seq<Seq<char>> = if escape_delimiters && all[i as int] == "--"@ && !previous {
            seq!["--"@]
        } else {
            Seq::empty()
        };
        if escape_delimiters && is_delimiter && !previous_argument_was_delimiter {
            push_string(args, owned("--"));
        }
        previous_argument_was_delimiter = is_delimiter;
        push_string(args, argument.clone());
        assert(args.deep_view() =~= before + doubled + seq![all[i as int]]);
        assert(args.deep_view() + escaped_arguments(all.skip(i + 1), escape_delimiters, previous_argument_was_delimiter)
            =~= before + escaped_arguments(all.skip(i as int), escape_delimiters, previous));
        i += 1;
    }
    assert(all.skip(all.len() as int) =~= Seq::<Seq<char>>::empty());
    assert(args.deep_view() =~= old(args).deep_view() + user_arguments(all, escape_delimiters));
}

/// The Bun argv for the REPL: the translated options, then `repl`.
pub fn build_repl_args(invocation: &ExecutionPlan) -> (args: Vec<String>)
    ensures
        args.deep_view() == spec_build_repl_args(invocation@),
{
    let mut args = copy_strings(&invocation.bun_options);
    push_string(&mut args, owned("repl"));
    args
}

/// The Bun argv that runs `invocation` in `mode`, with the metadata preload at
/// `preload_path`.
pub fn build_bun_args(invocation: &ExecutionPlan, mode: &BunMode, preload_path: &str, style: PathStyle) -> (args: Vec<String>)
    ensures
        args.deep_view() == spec_build_bun_args(invocation@, mode@, preload_path@, style),
{
    let mut args: Vec<String> = Vec::new();
    assert(args.deep_view() =~= Seq::<Seq<char>>::empty());
    match mode {
        BunMode::Eval(code) => {
            push_runtime_flags(&mut args, preload_path);
            crate::text::extend_strings(&mut args, &invocation.bun_options, 0);
            push_string(&mut args, owned("-e"));
            push_string(&mut args, normalize_eval_code(code.as_str()));
            push_user_arguments(&mut args, invocation, true);
            assert(invocation@.bun_options.skip(0) =~= invocation@.bun_options);
            assert(args.deep_view() =~= spec_build_bun_args(invocation@, mode@, preload_path@, style));
        },
        BunMode::Script(script) => {
            push_string(&mut args, owned("run"));
            push_runtime_flags(&mut args, preload_path);
            crate::text::extend_strings(&mut args, &invocation.bun_options, 0);
            push_string(&mut args, normalize_script_name(script.as_str(), style));
            push_user_arguments(&mut args, invocation, false);
            assert(invocation@.bun_options.skip(0) =~= invocation@.bun_options);
            assert(args.deep_view() =~= spec_build_bun_args(invocation@, mode@, preload_path@, style));
        },
        BunMode::Repl => {
            return build_repl_args(invocation);
        },
    }
    args
}

proof fn lemma_unescaped_arguments(args: Seq<Seq<char>>, previous_was_delimiter: bool)
    ensures
        escaped_arguments(args, false, previous_was_delimiter) == args,
    decreases args.len(),
{
    if args.len() > 0 {
        lemma_unescaped_arguments(args.drop_first(), args[0] == "--"@);
        assert(Seq::<Seq<char>>::empty() + seq![args[0]] + args.drop_first() =~= args);
    }
}

/// A script run by `bun run` sees exactly the arguments it was given: the Bun argv
/// ends with the script, then, when there are any, `--` and the script arguments
/// unchanged (a `--` among them is not doubled).
pub proof fn law_script_arguments_passed_unchanged(plan: PlanView, script: Seq<char>, preload_path: Seq<char>, style: PathStyle)
    ensures
        ({
            let args = spec_build_bun_args(plan, BunModeView::Script(script), preload_path, style);
            let k = plan.script_arguments.len();
            &&& args[0] == "run"@
            &&& k == 0 ==> args.last() == spec_normalize_script_name(script, style)
            &&& k > 0 ==> {
                &&& args.len() >= k + 2
                &&& args.skip(args.len() - k) == plan.script_arguments
                &&& args[args.len() - k - 1] == "--"@
                &&& args[args.len() - k - 2] == spec_normalize_script_name(script, style)
            }
        }),
{
    lemma_unescaped_arguments(plan.script_arguments, false);
    let args = spec_build_bun_args(plan, BunModeView::Script(script), preload_path, style);
    let k = plan.script_arguments.len();
    let head = seq!["run"@] + runtime_flags(preload_path) + plan.bun_options + seq![spec_normalize_script_name(script, style)];
    if k == 0 {
        assert(args =~= head);
    } else {
        assert(args =~= head + seq!["--"@] + plan.script_arguments);
        assert(args.skip(args.len() - k) =~= plan.script_arguments);
    }
}

} // verus!
