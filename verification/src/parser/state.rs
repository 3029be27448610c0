//! Parser state and final command selection.
//!
//! The state stores facts that cannot be reconstructed from the final Bun argv, then
//! folds them into an [`ExecutionPlan`].

use vstd::prelude::*;

use crate::error::{BunodeError, BunodeErrorView, CliUsageError, UsageErrorView};
use crate::text::{concat, copy_strings, opt_view, push_string, same_text};

use super::{CommandView, ExecutionPlan, NodeCommand, PlanView};

verus! {

/// Where a token comes from: the process argv or `NODE_OPTIONS`.
#[derive(Clone, Copy, Debug, PartialEq, Eq, Structural)]
pub enum Source {
    CommandLine,
    NodeOptions,
}

#[derive(Clone, Copy, Debug, PartialEq, Eq, Structural)]
pub enum CommandMode {
    Normal,
    Help,
    Version,
}

#[derive(Clone, Copy, Debug, PartialEq, Eq, Structural)]
pub enum PrintMode {
    Disabled,
    Enabled,
}

#[derive(Clone, Copy, Debug, PartialEq, Eq, Structural)]
pub enum PrintOperandMode {
    Expression,
    Script,
}

#[derive(Clone, Copy, Debug, PartialEq, Eq, Structural)]
pub enum OperandBoundary {
    ScriptPosition,
    DoubleDash,
}

/// Everything the parser has learned so far, including the Bun argv segments.
pub struct ParseState {
    pub command_mode: CommandMode,
    pub inline_command: Option<NodeCommand>,
    pub print_mode: PrintMode,
    pub print_operand_mode: PrintOperandMode,
    pub operand_boundary: OperandBoundary,
    pub env_file_node_options: Option<String>,
    pub read_env_file_node_options: bool,
    pub operands: Vec<String>,
    pub exec_argv: Vec<String>,
    pub bun_options: Vec<String>,
    pub bun_preloads: Vec<String>,
    pub common_js_preloads: Vec<String>,
    pub es_module_preloads: Vec<String>,
}

#[verifier::ext_equal]
pub struct StateView {
    pub command_mode: CommandMode,
    pub inline_command: Option<CommandView>,
    pub print_mode: PrintMode,
    pub print_operand_mode: PrintOperandMode,
    pub operand_boundary: OperandBoundary,
    pub env_file_node_options: Option<Seq<char>>,
    pub read_env_file_node_options: bool,
    pub operands: Seq<Seq<char>>,
    pub exec_argv: Seq<Seq<char>>,
    pub bun_options: Seq<Seq<char>>,
    pub bun_preloads: Seq<Seq<char>>,
    pub common_js_preloads: Seq<Seq<char>>,
    pub es_module_preloads: Seq<Seq<char>>,
}

pub open spec fn command_opt_view(c: Option<NodeCommand>) -> Option<CommandView> {
    match c {
        Some(c) => Some(c@),
        None => None,
    }
}

impl View for ParseState {
    type V = StateView;

    open spec fn view(&self) -> StateView {
        StateView {
            command_mode: self.command_mode,
            inline_command: command_opt_view(self.inline_command),
            print_mode: self.print_mode,
            print_operand_mode: self.print_operand_mode,
            operand_boundary: self.operand_boundary,
            env_file_node_options: opt_view(self.env_file_node_options),
            read_env_file_node_options: self.read_env_file_node_options,
            operands: self.operands.deep_view(),
            exec_argv: self.exec_argv.deep_view(),
            bun_options: self.bun_options.deep_view(),
            bun_preloads: self.bun_preloads.deep_view(),
            common_js_preloads: self.common_js_preloads.deep_view(),
            es_module_preloads: self.es_module_preloads.deep_view(),
        }
    }
}

/// The state before any token is read.
pub open spec fn initial_state(read_env_file_node_options: bool) -> StateView {
    StateView {
        command_mode: CommandMode::Normal,
        inline_command: None,
        print_mode: PrintMode::Disabled,
        print_operand_mode: PrintOperandMode::Expression,
        operand_boundary: OperandBoundary::ScriptPosition,
        env_file_node_options: None,
        read_env_file_node_options,
        operands: Seq::empty(),
        exec_argv: Seq::empty(),
        bun_options: Seq::empty(),
        bun_preloads: Seq::empty(),
        common_js_preloads: Seq::empty(),
        es_module_preloads: Seq::empty(),
    }
}

/// An operand seen while `-p` waits for its expression is the expression.
pub open spec fn spec_should_capture_print_expression(st: StateView, source: Source) -> bool {
    source == Source::CommandLine && st.print_mode == PrintMode::Enabled
        && st.print_operand_mode == PrintOperandMode::Expression
}

/// The selected command, how many leading operands it consumes, and the final
/// `execArgv` (a print expression taken from the operands joins it).
pub open spec fn spec_command(st: StateView) -> Result<(CommandView, nat, Seq<Seq<char>>), BunodeErrorView> {
    let ops = st.operands;
    if st.command_mode == CommandMode::Help {
        Ok((CommandView::Help, 0, st.exec_argv))
    } else if st.command_mode == CommandMode::Version {
        Ok((CommandView::Version, 0, st.exec_argv))
    } else if st.inline_command is Some {
        let command = st.inline_command->0;
        let command = if st.print_mode == PrintMode::Enabled {
            match command {
                CommandView::Eval(code) => CommandView::Print(code),
                CommandView::Print(code) => CommandView::Print(code),
                other => other,
            }
        } else {
            command
        };
        Ok((command, 0, st.exec_argv))
    } else if st.print_mode == PrintMode::Enabled && ops.len() > 0 && ops[0] == "-"@ {
        Ok((CommandView::PrintStdin, 0, st.exec_argv))
    } else if st.print_mode == PrintMode::Enabled
        && (st.operand_boundary != OperandBoundary::DoubleDash || ops.len() == 0)
        && (st.print_operand_mode == PrintOperandMode::Expression || ops.len() == 0) {
        if ops.len() == 0 {
            Ok((CommandView::PrintStdin, 0, st.exec_argv))
        } else {
            Ok((CommandView::Print(ops[0]), 1, st.exec_argv.push(ops[0])))
        }
    } else if ops.len() == 0 {
        Ok((CommandView::Direct, 0, st.exec_argv))
    } else if ops[0] == "inspect"@ {
        Err(BunodeErrorView::Usage(UsageErrorView::UnsupportedNodeInspect))
    } else if ops[0].len() == 0 {
        // Node treats an empty script operand like stdin/REPL while keeping it in process.argv.
        Ok((CommandView::Direct, 0, st.exec_argv))
    } else {
        Ok((CommandView::Script(ops[0]), 1, st.exec_argv))
    }
}

/// `--preload=<value>` for each ES module preload.
pub open spec fn preload_options(values: Seq<Seq<char>>) -> Seq<Seq<char>> {
    values.map_values(|v: Seq<char>| "--preload="@ + v)
}

/// The plan a finished parse produces, and the `NODE_OPTIONS` found in an env file.
pub open spec fn spec_finish(argv0: Seq<char>, st: StateView) -> Result<(PlanView, Option<Seq<char>>), BunodeErrorView> {
    match spec_command(st) {
        Err(e) => Err(e),
        Ok((command, count, exec_argv)) => Ok((
            PlanView {
                argv0,
                command,
                exec_argv,
                bun_options: st.bun_options + preload_options(st.es_module_preloads) + st.bun_preloads,
                common_js_preloads: st.common_js_preloads,
                script_arguments: st.operands.skip(count as int),
            },
            st.env_file_node_options,
        )),
    }
}

impl ParseState {
    pub fn new(read_env_file_node_options: bool) -> (state: Self)
        ensures
            state@ == initial_state(read_env_file_node_options),
    {
        let state = ParseState {
            command_mode: CommandMode::Normal,
            inline_command: None,
            print_mode: PrintMode::Disabled,
            print_operand_mode: PrintOperandMode::Expression,
            operand_boundary: OperandBoundary::ScriptPosition,
            env_file_node_options: None,
            read_env_file_node_options,
            operands: Vec::new(),
            exec_argv: Vec::new(),
            bun_options: Vec::new(),
            bun_preloads: Vec::new(),
            common_js_preloads: Vec::new(),
            es_module_preloads: Vec::new(),
        };
        assert(state@ =~= initial_state(read_env_file_node_options));
        state
    }

    pub fn should_capture_print_expression(&self, source: Source) -> (result: bool)
        ensures
            result == spec_should_capture_print_expression(self@, source),
    {
        source == Source::CommandLine && self.print_mode == PrintMode::Enabled
            && self.print_operand_mode == PrintOperandMode::Expression
    }

    fn command(&self, exec_argv: &mut Vec<String>) -> (result: Result<(NodeCommand, usize), BunodeError>)
        requires
            old(exec_argv).deep_view() == self@.exec_argv,
        ensures
            match result {
                Ok((command, count)) => spec_command(self@) == Ok::<(CommandView, nat, Seq<Seq<char>>), BunodeErrorView>((command@, count as nat, final(exec_argv).deep_view())),
                Err(e) => spec_command(self@) == Err::<(CommandView, nat, Seq<Seq<char>>), BunodeErrorView>(e@),
            },
    {
        if self.command_mode == CommandMode::Help {
            return Ok((NodeCommand::Help, 0));
        }
        if self.command_mode == CommandMode::Version {
            return Ok((NodeCommand::Version, 0));
        }
        if let Some(command) = &self.inline_command {
            let command = if self.print_mode == PrintMode::Enabled {
                match command {
                    NodeCommand::Eval(code) => NodeCommand::Print(code.clone()),
                    NodeCommand::Print(code) => NodeCommand::Print(code.clone()),
                    other => other.duplicate(),
                }
            } else {
                command.duplicate()
            };
            return Ok((command, 0));
        }
        let n = self.operands.len();
        if self.print_mode == PrintMode::Enabled && n > 0 && same_text(self.operands[0].as_str(), "-") {
            return Ok((NodeCommand::PrintStdin, 0));
        }
        if self.print_mode == PrintMode::Enabled
            && (self.operand_boundary != OperandBoundary::DoubleDash || n == 0)
            && (self.print_operand_mode == PrintOperandMode::Expression || n == 0)
        {
            if n == 0 {
                return Ok((NodeCommand::PrintStdin, 0));
            }
            let expression = self.operands[0].clone();
            push_string(exec_argv, expression.clone());
            return Ok((NodeCommand::Print(expression), 1));
        }
        if n == 0 {
            return Ok((NodeCommand::Direct, 0));
        }
        let script = &self.operands[0];
        if same_text(script.as_str(), "inspect") {
            return Err(BunodeError::Usage(CliUsageError::UnsupportedNodeInspect));
        }
        if script.as_str().is_empty() {
            return Ok((NodeCommand::Direct, 0));
        }
        Ok((NodeCommand::Script(script.clone()), 1))
    }

    /// Folds the state into a plan; also returns the `NODE_OPTIONS` found in an env file.
    pub fn finish(self, argv0: String) -> (result: Result<(ExecutionPlan, Option<String>), BunodeError>)
        ensures
            match result {
                Ok((plan, env)) => spec_finish(argv0@, self@) == Ok::<(PlanView, Option<Seq<char>>), BunodeErrorView>((plan@, opt_view(env))),
                Err(e) => spec_finish(argv0@, self@) == Err::<(PlanView, Option<Seq<char>>), BunodeErrorView>(e@),
            },
    {
        let mut exec_argv = copy_strings(&self.exec_argv);
        let (command, count) = match self.command(&mut exec_argv) {
            Ok(c) => c,
            Err(e) => return Err(e),
        };
        let mut script_arguments: Vec<String> = Vec::new();
        assert(script_arguments.deep_view() =~= Seq::<Seq<char>>::empty());
        crate::text::extend_strings(&mut script_arguments, &self.operands, count);
        let mut bun_options = copy_strings(&self.bun_options);
        let mut i: usize = 0;
        while i < self.es_module_preloads.len()
            invariant
                i <= self@.es_module_preloads.len(),
                bun_options.deep_view() == self@.bun_options + preload_options(self@.es_module_preloads.take(i as int)),
            decreases self.es_module_preloads.len() - i,
        {
            let option = concat("--preload=", self.es_module_preloads[i].as_str());
            push_string(&mut bun_options, option);
            assert(preload_options(self@.es_module_preloads.take(i + 1)) =~= preload_options(self@.es_module_preloads.take(i as int)).push("--preload="@ + self@.es_module_preloads[i as int]));
            i += 1;
        }
        assert(self@.es_module_preloads.take(self@.es_module_preloads.len() as int) =~= self@.es_module_preloads);
        crate::text::extend_strings(&mut bun_options, &self.bun_preloads, 0);
        assert(self@.bun_preloads.skip(0) =~= self@.bun_preloads);
        assert(self@.operands.skip(0) =~= self@.operands);
        let plan = ExecutionPlan {
            argv0,
            command,
            exec_argv,
            bun_options,
            common_js_preloads: self.common_js_preloads,
            script_arguments,
        };
        Ok((plan, self.env_file_node_options))
    }
}

} // verus!
