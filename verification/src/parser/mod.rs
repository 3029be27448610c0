//! Node option parsing and translation into Bun runtime flags.
//!
//! `lexopt` classifies each argument; this module keeps Node-specific CLI semantics
//! explicit and produces an execution plan for the executor.

use vstd::prelude::*;

use crate::env_file::{EnvFileStatusView, EnvFiles};
use crate::error::{BunodeError, BunodeErrorView, UsageErrorView};
use crate::node_options::{spec_split_node_options, split_node_options};
use crate::options::{OptionId, OptionShape};
use crate::text::{copy_strings, opt_view, owned};

use state::{initial_state, spec_finish, ParseState, Source, StateView};
use tokens::{parse_tokens, spec_tokens_from};

// Option effects: update parser state and translated Bun invocation segments.
pub mod actions;
// Argument classification through `lexopt`.
pub mod lexer;
// Parser state: command selection, operands, preloads, and output segments.
pub mod state;
// Token stream driver: consume arguments according to Node CLI rules.
pub mod tokens;
// What holds of every parse.
pub mod laws;

verus! {

/// The Node command an invocation selects.
#[derive(Debug, PartialEq, Eq)]
pub enum NodeCommand {
    Help,
    Version,
    Eval(String),
    Print(String),
    PrintStdin,
    Script(String),
    Direct,
}

pub enum CommandView {
    Help,
    Version,
    Eval(Seq<char>),
    Print(Seq<char>),
    PrintStdin,
    Script(Seq<char>),
    Direct,
}

impl View for NodeCommand {
    type V = CommandView;

    open spec fn view(&self) -> CommandView {
        match self {
            NodeCommand::Help => CommandView::Help,
            NodeCommand::Version => CommandView::Version,
            NodeCommand::Eval(c) => CommandView::Eval(c@),
            NodeCommand::Print(c) => CommandView::Print(c@),
            NodeCommand::PrintStdin => CommandView::PrintStdin,
            NodeCommand::Script(s) => CommandView::Script(s@),
            NodeCommand::Direct => CommandView::Direct,
        }
    }
}

impl NodeCommand {
    /// A copy of the command.
    pub fn duplicate(&self) -> (copy: Self)
        ensures
            copy@ == self@,
    {
        match self {
            NodeCommand::Help => NodeCommand::Help,
            NodeCommand::Version => NodeCommand::Version,
            NodeCommand::Eval(c) => NodeCommand::Eval(c.clone()),
            NodeCommand::Print(c) => NodeCommand::Print(c.clone()),
            NodeCommand::PrintStdin => NodeCommand::PrintStdin,
            NodeCommand::Script(s) => NodeCommand::Script(s.clone()),
            NodeCommand::Direct => NodeCommand::Direct,
        }
    }
}

/// What to run: the selected command and the translated Bun argument segments.
#[derive(Debug, PartialEq, Eq)]
pub struct ExecutionPlan {
    pub argv0: String,
    pub command: NodeCommand,
    pub exec_argv: Vec<String>,
    pub bun_options: Vec<String>,
    pub common_js_preloads: Vec<String>,
    pub script_arguments: Vec<String>,
}

#[verifier::ext_equal]
pub struct PlanView {
    pub argv0: Seq<char>,
    pub command: CommandView,
    pub exec_argv: Seq<Seq<char>>,
    pub bun_options: Seq<Seq<char>>,
    pub common_js_preloads: Seq<Seq<char>>,
    pub script_arguments: Seq<Seq<char>>,
}

impl View for ExecutionPlan {
    type V = PlanView;

    open spec fn view(&self) -> PlanView {
        PlanView {
            argv0: self.argv0@,
            command: self.command@,
            exec_argv: self.exec_argv.deep_view(),
            bun_options: self.bun_options.deep_view(),
            common_js_preloads: self.common_js_preloads.deep_view(),
            script_arguments: self.script_arguments.deep_view(),
        }
    }
}

impl ExecutionPlan {
    /// A copy of the plan.
    pub fn duplicate(&self) -> (copy: Self)
        ensures
            copy@ == self@,
    {
        ExecutionPlan {
            argv0: self.argv0.clone(),
            command: self.command.duplicate(),
            exec_argv: copy_strings(&self.exec_argv),
            bun_options: copy_strings(&self.bun_options),
            common_js_preloads: copy_strings(&self.common_js_preloads),
            script_arguments: copy_strings(&self.script_arguments),
        }
    }
}

/// The result of a parsing step in mathematical form.
#[verifier::ext_equal]
pub enum Outcome<T> {
    Done(T),
    Failed(BunodeErrorView),
    /// Parsing needs to know about the env file at this path first.
    NeedsFile(Seq<char>),
}

/// Why parsing stopped before producing a plan.
pub enum ParseStop {
    Error(BunodeError),
    /// The command line names this env file and the [`crate::env_file::EnvFiles`] table
    /// does not say what is there yet.
    NeedEnvFile(String),
}

impl ParseStop {
    pub open spec fn outcome<T>(&self) -> Outcome<T> {
        match self {
            ParseStop::Error(e) => Outcome::Failed(e@),
            ParseStop::NeedEnvFile(p) => Outcome::NeedsFile(p@),
        }
    }
}

/// The command-line tokens after argv0.
pub open spec fn cli_tokens(args: Seq<Seq<char>>) -> Seq<Seq<char>> {
    if args.len() > 0 { args.skip(1) } else { Seq::empty() }
}

/// One parsing pass: `NODE_OPTIONS` (when present and not empty) as if it came before
/// the CLI flags, then the command line. Also yields the `NODE_OPTIONS` an env file set.
pub open spec fn spec_parse_once(
    args: Seq<Seq<char>>,
    node_options: Option<Seq<char>>,
    read_env_file_node_options: bool,
    ids: Seq<OptionId>,
    files: Seq<(Seq<char>, EnvFileStatusView)>,
) -> Outcome<(PlanView, Option<Seq<char>>)> {
    let argv0 = if args.len() > 0 { args[0] } else { "node"@ };
    let st0 = initial_state(read_env_file_node_options);
    let st1 = match node_options {
        Some(o) => if o.len() > 0 {
            match spec_split_node_options(o) {
                None => Outcome::Failed(BunodeErrorView::Usage(UsageErrorView::UnterminatedNodeOptionsQuote)),
                Some(tokens) => spec_tokens_from(tokens, 0, Source::NodeOptions, st0, ids, files),
            }
        } else {
            Outcome::Done(st0)
        },
        None => Outcome::Done(st0),
    };
    match st1 {
        Outcome::Done(st) => match spec_tokens_from(cli_tokens(args), 0, Source::CommandLine, st, ids, files) {
            Outcome::Done(st2) => match spec_finish(argv0, st2) {
                Ok(r) => Outcome::Done(r),
                Err(e) => Outcome::Failed(e),
            },
            Outcome::Failed(e) => Outcome::Failed(e),
            Outcome::NeedsFile(p) => Outcome::NeedsFile(p),
        },
        Outcome::Failed(e) => Outcome::Failed(e),
        Outcome::NeedsFile(p) => Outcome::NeedsFile(p),
    }
}

pub open spec fn plan_only(o: Outcome<(PlanView, Option<Seq<char>>)>) -> Outcome<PlanView> {
    match o {
        Outcome::Done((plan, _)) => Outcome::Done(plan),
        Outcome::Failed(e) => Outcome::Failed(e),
        Outcome::NeedsFile(p) => Outcome::NeedsFile(p),
    }
}

/// The plan for `args` (argv0 first) and the `NODE_OPTIONS` environment variable.
///
/// Real `NODE_OPTIONS` is read first, in env mode. When it is absent, a non-empty
/// `NODE_OPTIONS` found in an `--env-file` takes its place: the command line is then
/// parsed a second time after it.
pub open spec fn spec_parse(
    args: Seq<Seq<char>>,
    node_options: Option<Seq<char>>,
    ids: Seq<OptionId>,
    files: Seq<(Seq<char>, EnvFileStatusView)>,
) -> Outcome<PlanView> {
    match node_options {
        None => match spec_parse_once(args, None, true, ids, files) {
            Outcome::Done((plan, env)) => match env {
                Some(o) => if o.len() > 0 {
                    plan_only(spec_parse_once(args, Some(o), false, ids, files))
                } else {
                    Outcome::Done(plan)
                },
                None => Outcome::Done(plan),
            },
            Outcome::Failed(e) => Outcome::Failed(e),
            Outcome::NeedsFile(p) => Outcome::NeedsFile(p),
        },
        Some(o) => plan_only(spec_parse_once(args, Some(o), false, ids, files)),
    }
}

fn parse_once(
    args: &Vec<String>,
    node_options: Option<String>,
    shape: &OptionShape,
    files: &EnvFiles,
    read_env_file_node_options: bool,
) -> (result: Result<(ExecutionPlan, Option<String>), ParseStop>)
    ensures
        match result {
            Ok((plan, env)) => spec_parse_once(args.deep_view(), opt_view(node_options), read_env_file_node_options, shape.spec_ids(), files@)
                == Outcome::Done((plan@, opt_view(env))),
            Err(s) => spec_parse_once(args.deep_view(), opt_view(node_options), read_env_file_node_options, shape.spec_ids(), files@)
                == s.outcome::<(PlanView, Option<Seq<char>>)>(),
        },
{
    // 1. Keep argv0 for process.argv0 correction in the generated preload.
    let argv0 = if args.len() > 0 { args[0].clone() } else { owned("node") };
    proof {
        if args@.len() > 0 {
            assert(args.deep_view()[0] == args@[0]@);
        }
    }
    let mut state = ParseState::new(read_env_file_node_options);

    // 2. NODE_OPTIONS behaves as if it appears before CLI flags.
    if let Some(value) = &node_options {
        if !value.as_str().is_empty() {
            let tokens = match split_node_options(value.as_str()) {
                Ok(tokens) => tokens,
                Err(e) => return Err(ParseStop::Error(e)),
            };
            parse_tokens(&tokens, Source::NodeOptions, &mut state, shape, files)?;
        }
    }

    // 3. CLI operands stop option parsing once the script position is reached.
    let mut cli: Vec<String> = Vec::new();
    assert(cli.deep_view() =~= Seq::<Seq<char>>::empty());
    if args.len() > 0 {
        crate::text::extend_strings(&mut cli, args, 1);
    }
    assert(cli.deep_view() =~= cli_tokens(args.deep_view()));
    parse_tokens(&cli, Source::CommandLine, &mut state, shape, files)?;

    match state.finish(argv0) {
        Ok(r) => Ok(r),
        Err(e) => Err(ParseStop::Error(e)),
    }
}

/// Parses `args` (argv0 first) together with the `NODE_OPTIONS` environment variable.
///
/// `files` tells what is known about env files; when the command line names one it
/// does not cover, the result is [`ParseStop::NeedEnvFile`] and the caller parses
/// again after recording that file.
pub fn parse(
    args: &Vec<String>,
    node_options: Option<String>,
    shape: &OptionShape,
    files: &EnvFiles,
) -> (result: Result<ExecutionPlan, ParseStop>)
    ensures
        match result {
            Ok(plan) => spec_parse(args.deep_view(), opt_view(node_options), shape.spec_ids(), files@)
                == Outcome::Done(plan@),
            Err(s) => spec_parse(args.deep_view(), opt_view(node_options), shape.spec_ids(), files@)
                == s.outcome::<PlanView>(),
        },
{
    match node_options {
        None => {
            let (plan, env) = parse_once(args, None, shape, files, true)?;
            match env {
                Some(o) => {
                    if !o.as_str().is_empty() {
                        let (plan, _) = parse_once(args, Some(o), shape, files, false)?;
                        return Ok(plan);
                    }
                    Ok(plan)
                },
                None => Ok(plan),
            }
        },
        Some(o) => {
            let (plan, _) = parse_once(args, Some(o), shape, files, false)?;
            Ok(plan)
        },
    }
}

} // verus!
