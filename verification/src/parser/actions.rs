//! Option behavior for parsed Node and Bunode flags.
//!
//! Token parsing decides how argv is consumed; this module decides what each supported
//! option does to parser state and Bun invocation segments.

use vstd::prelude::*;

use crate::builtins::{is_builtin_module, spec_is_builtin_module};
use crate::env_file::{
    lookup_env_file, read_node_options, spec_read_node_options, EnvFileStatus, EnvFileStatusView,
    EnvFiles,
};
use crate::error::{BunodeError, BunodeErrorView, CliUsageError, UsageErrorView};
use crate::options::{
    spec_bun_name, spec_effect, spec_long_name, spec_node_options_allowed, spec_records_exec_argv,
    OptionEffect, OptionId,
};
use crate::text::{
    chars_of, concat, concat3, eq_ignore_ascii_case, extend_strings, find_char, first_index, opt_view,
    owned, push_string, range_eq_ignore_ascii_case,
};

use super::state::{CommandMode, ParseState, PrintMode, PrintOperandMode, Source, StateView};
use super::{CommandView, NodeCommand, Outcome, ParseStop};

verus! {

/// The Bun-side `--name=value` form.
pub open spec fn joined(name: Seq<char>, value: Seq<char>) -> Seq<char> {
    name + "="@ + value
}

/// The default address of the inspector options when no value is given.
pub open spec fn default_inspect_address() -> Seq<char> {
    "127.0.0.1:9229"@
}

/// A `data:` URL (the scheme is matched without regard to ASCII case).
pub open spec fn spec_is_data_specifier(value: Seq<char>) -> bool {
    let i = first_index(value, ':');
    i >= 0 && eq_ignore_ascii_case(value.take(i), "data"@)
}

pub open spec fn requires_value(option: Seq<char>) -> BunodeErrorView {
    BunodeErrorView::Usage(UsageErrorView::OptionRequiresValue(option))
}

/// What an option does once it is known to be allowed from its source.
pub open spec fn spec_effect_apply(
    option: Seq<char>,
    id: OptionId,
    value: Option<Seq<char>>,
    source: Source,
    st: StateView,
    files: Seq<(Seq<char>, EnvFileStatusView)>,
) -> Outcome<StateView> {
    match spec_effect(id) {
        OptionEffect::Help => Outcome::Done(
            if st.command_mode != CommandMode::Version { StateView { command_mode: CommandMode::Help, ..st } } else { st },
        ),
        OptionEffect::Version => Outcome::Done(StateView { command_mode: CommandMode::Version, ..st }),
        OptionEffect::Eval => match value {
            Some(v) => Outcome::Done(StateView { inline_command: Some(CommandView::Eval(v)), ..st }),
            None => Outcome::Failed(requires_value(option)),
        },
        OptionEffect::Print => Outcome::Done(StateView {
            print_mode: PrintMode::Enabled,
            print_operand_mode: PrintOperandMode::Expression,
            ..st
        }),
        OptionEffect::Require => match value {
            Some(v) => Outcome::Done(
                if spec_is_builtin_module(v) { st } else { StateView { common_js_preloads: st.common_js_preloads.push(v), ..st } },
            ),
            None => Outcome::Failed(requires_value(option)),
        },
        OptionEffect::Import => match value {
            Some(v) => if spec_is_data_specifier(v) {
                Outcome::Failed(BunodeErrorView::Usage(UsageErrorView::UnsupportedDataUrlImport))
            } else if spec_is_builtin_module(v) {
                Outcome::Done(st)
            } else {
                Outcome::Done(StateView { es_module_preloads: st.es_module_preloads.push(v), ..st })
            },
            None => Outcome::Failed(requires_value(option)),
        },
        OptionEffect::Flag => Outcome::Done(StateView { bun_options: st.bun_options.push(spec_bun_name(id)), ..st }),
        OptionEffect::Value => match value {
            Some(v) => Outcome::Done(StateView { bun_options: st.bun_options.push(joined(spec_bun_name(id), v)), ..st }),
            None => Outcome::Failed(requires_value(option)),
        },
        OptionEffect::OptionalValue => {
            let v = match value { Some(v) => v, None => default_inspect_address() };
            Outcome::Done(StateView { bun_options: st.bun_options.push(joined(spec_bun_name(id), v)), ..st })
        },
        OptionEffect::NodeEnvFile => match value {
            None => Outcome::Failed(requires_value(option)),
            Some(v) => match lookup_env_file(files, v) {
                None => Outcome::NeedsFile(v),
                Some(status) => if status is Missing {
                    Outcome::Failed(BunodeErrorView::Usage(UsageErrorView::FileNotFound(v)))
                } else if source == Source::CommandLine && st.read_env_file_node_options {
                    match spec_read_node_options(v, status) {
                        Err(e) => Outcome::Failed(e),
                        Ok(found) => {
                            let env = match found { Some(o) => Some(o), None => st.env_file_node_options };
                            Outcome::Done(StateView {
                                env_file_node_options: env,
                                bun_options: st.bun_options.push(joined("--env-file"@, v)),
                                ..st
                            })
                        },
                    }
                } else {
                    Outcome::Done(StateView { bun_options: st.bun_options.push(joined("--env-file"@, v)), ..st })
                },
            },
        },
        OptionEffect::BunEnvFile => match value {
            None => Outcome::Failed(requires_value(option)),
            Some(v) => match lookup_env_file(files, v) {
                None => Outcome::NeedsFile(v),
                Some(status) => if status is Missing {
                    Outcome::Failed(BunodeErrorView::Usage(UsageErrorView::FileNotFound(v)))
                } else {
                    Outcome::Done(StateView { bun_options: st.bun_options.push(joined("--env-file"@, v)), ..st })
                },
            },
        },
        OptionEffect::BunPreload => match value {
            Some(v) => Outcome::Done(StateView { bun_preloads: st.bun_preloads.push(joined("--preload"@, v)), ..st }),
            None => Outcome::Failed(requires_value(option)),
        },
    }
}

/// What applying option `id` (typed as `option`, with `value` and the `original`
/// argv spelling) does to the parse state.
pub open spec fn spec_apply(
    option: Seq<char>,
    id: OptionId,
    value: Option<Seq<char>>,
    source: Source,
    original: Seq<Seq<char>>,
    st: StateView,
    files: Seq<(Seq<char>, EnvFileStatusView)>,
) -> Outcome<StateView> {
    if source == Source::NodeOptions && !spec_node_options_allowed(id) {
        Outcome::Failed(BunodeErrorView::Usage(UsageErrorView::NodeOptionsDisallowed(spec_long_name(id))))
    } else {
        spec_effect_apply(option, id, value, source, spec_prepared_state(id, source, original, st), files)
    }
}

/// The state once option `id` is accepted from `source` and before its own effect: a
/// pending print expression gives way to a script operand, and command-line options
/// that Node reports are added to `execArgv`. An option refused from `source` leaves
/// the state as it is. When applying an option stops (an error, or an env file still
/// to be read), this is the state it leaves.
pub open spec fn spec_prepared_state(id: OptionId, source: Source, original: Seq<Seq<char>>, st: StateView) -> StateView {
    if source == Source::NodeOptions && !spec_node_options_allowed(id) {
        st
    } else {
        let st1 = if st.print_mode == PrintMode::Enabled && id != OptionId::Print {
            StateView { print_operand_mode: PrintOperandMode::Script, ..st }
        } else {
            st
        };
        if source == Source::CommandLine && spec_records_exec_argv(id) {
            StateView { exec_argv: st1.exec_argv + original, ..st1 }
        } else {
            st1
        }
    }
}

/// Rejects options that `NODE_OPTIONS` may not carry.
pub fn ensure_source_allowed(id: OptionId, source: Source) -> (result: Result<(), BunodeError>)
    ensures
        match result {
            Ok(()) => !(source == Source::NodeOptions && !spec_node_options_allowed(id)),
            Err(e) => source == Source::NodeOptions && !spec_node_options_allowed(id)
                && e@ == BunodeErrorView::Usage(UsageErrorView::NodeOptionsDisallowed(spec_long_name(id))),
        },
{
    if source == Source::NodeOptions && !id.node_options_allowed() {
        return Err(BunodeError::Usage(CliUsageError::NodeOptionsDisallowed(owned(id.long_name()))));
    }
    Ok(())
}

pub fn option_requires_value(option: &str) -> (e: BunodeError)
    ensures
        e@ == requires_value(option@),
{
    BunodeError::Usage(CliUsageError::OptionRequiresValue(owned(option)))
}

pub fn unsupported_option(option: &str) -> (e: BunodeError)
    ensures
        e@ == BunodeErrorView::Usage(UsageErrorView::UnsupportedNodeOption(option@)),
{
    BunodeError::Usage(CliUsageError::UnsupportedNodeOption(owned(option)))
}

/// Whether `value` is a `data:` URL.
pub fn is_data_specifier(value: &str) -> (result: bool)
    ensures
        result == spec_is_data_specifier(value@),
{
    let chars = chars_of(value);
    match find_char(&chars, ':') {
        Some(i) => {
            assert(chars@.subrange(0, i as int) =~= value@.take(i as int));
            range_eq_ignore_ascii_case(&chars, 0, i, "data")
        },
        None => false,
    }
}

fn required_option_value(value: Option<String>, option: &str) -> (result: Result<String, ParseStop>)
    ensures
        match result {
            Ok(v) => value == Some(v),
            Err(s) => value.is_none() && s.outcome::<StateView>() == Outcome::<StateView>::Failed(requires_value(option@)),
        },
{
    match value {
        Some(v) => Ok(v),
        None => Err(ParseStop::Error(option_requires_value(option))),
    }
}

/// Applies a recognised option to the parse state.
pub fn apply_option(
    option: &str,
    id: OptionId,
    value: Option<String>,
    source: Source,
    original: Vec<String>,
    state: &mut ParseState,
    files: &EnvFiles,
) -> (result: Result<(), ParseStop>)
    ensures
        match result {
            Ok(()) => spec_apply(option@, id, opt_view(value), source, original.deep_view(), old(state)@, files@)
                == Outcome::Done(final(state)@),
            Err(s) => spec_apply(option@, id, opt_view(value), source, original.deep_view(), old(state)@, files@)
                == s.outcome::<StateView>()
                && final(state)@ == spec_prepared_state(id, source, original.deep_view(), old(state)@),
        },
{
    match ensure_source_allowed(id, source) {
        Ok(()) => {},
        Err(e) => return Err(ParseStop::Error(e)),
    }
    if state.print_mode == PrintMode::Enabled && id != OptionId::Print {
        state.print_operand_mode = PrintOperandMode::Script;
    }
    if source == Source::CommandLine && id.records_exec_argv() {
        extend_strings(&mut state.exec_argv, &original, 0);
        assert(original.deep_view().skip(0) =~= original.deep_view());
    }
    let ghost st2 = state@;
    let ghost vv = opt_view(value);
    assert(st2 == spec_prepared_state(id, source, original.deep_view(), old(state)@));
    match id.effect() {
        OptionEffect::Help => {
            if state.command_mode != CommandMode::Version {
                state.command_mode = CommandMode::Help;
            }
        },
        OptionEffect::Version => {
            state.command_mode = CommandMode::Version;
        },
        OptionEffect::Eval => {
            let v = required_option_value(value, option)?;
            state.inline_command = Some(NodeCommand::Eval(v));
        },
        OptionEffect::Print => {
            // Node accepts `--print=<value>` but still reads the expression from argv operands.
            state.print_mode = PrintMode::Enabled;
            state.print_operand_mode = PrintOperandMode::Expression;
        },
        OptionEffect::Require => {
            let v = required_option_value(value, option)?;
            if !is_builtin_module(v.as_str()) {
                push_string(&mut state.common_js_preloads, v);
            }
        },
        OptionEffect::Import => {
            let v = required_option_value(value, option)?;
            if is_data_specifier(v.as_str()) {
                return Err(ParseStop::Error(BunodeError::Usage(CliUsageError::UnsupportedDataUrlImport)));
            }
            if !is_builtin_module(v.as_str()) {
                push_string(&mut state.es_module_preloads, v);
            }
        },
        OptionEffect::Flag => {
            push_string(&mut state.bun_options, owned(id.bun_name()));
        },
        OptionEffect::Value => {
            let v = required_option_value(value, option)?;
            push_string(&mut state.bun_options, concat3(id.bun_name(), "=", v.as_str()));
        },
        OptionEffect::OptionalValue => {
            let v = match value {
                Some(v) => v,
                None => owned("127.0.0.1:9229"),
            };
            push_string(&mut state.bun_options, concat3(id.bun_name(), "=", v.as_str()));
        },
        OptionEffect::NodeEnvFile => {
            let v = required_option_value(value, option)?;
            match files.lookup(v.as_str()) {
                None => return Err(ParseStop::NeedEnvFile(v)),
                Some(status) => {
                    if let EnvFileStatus::Missing = status {
                        return Err(ParseStop::Error(BunodeError::Usage(CliUsageError::FileNotFound(v))));
                    }
                    if source == Source::CommandLine && state.read_env_file_node_options {
                        match read_node_options(v.as_str(), status) {
                            Err(e) => return Err(ParseStop::Error(e)),
                            Ok(Some(found)) => {
                                state.env_file_node_options = Some(found);
                            },
                            Ok(None) => {},
                        }
                    }
                    push_string(&mut state.bun_options, concat3("--env-file", "=", v.as_str()));
                },
            }
        },
        OptionEffect::BunEnvFile => {
            let v = required_option_value(value, option)?;
            match files.lookup(v.as_str()) {
                None => return Err(ParseStop::NeedEnvFile(v)),
                Some(status) => {
                    if let EnvFileStatus::Missing = status {
                        return Err(ParseStop::Error(BunodeError::Usage(CliUsageError::FileNotFound(v))));
                    }
                    push_string(&mut state.bun_options, concat3("--env-file", "=", v.as_str()));
                },
            }
        },
        OptionEffect::BunPreload => {
            let v = required_option_value(value, option)?;
            push_string(&mut state.bun_preloads, concat3("--preload", "=", v.as_str()));
        },
    }
    assert(spec_apply(option@, id, vv, source, original.deep_view(), old(state)@, files@)
        == spec_effect_apply(option@, id, vv, source, st2, files@));
    assert(spec_effect_apply(option@, id, vv, source, st2, files@) =~= Outcome::Done(state@));
    Ok(())
}

} // verus!
