//! What holds of every parse: how `--version`, `NODE_OPTIONS`, the script operand and
//! preloads behave whatever else the command line holds.

use vstd::prelude::*;

use crate::builtins::spec_is_builtin_module;
use crate::env_file::EnvFileStatusView;
use crate::error::{BunodeErrorView, UsageErrorView};
use crate::options::laws::{forwarded_name, law_forwarded_option_names};
use crate::options::{HelpSection, OptionEffect, OptionId, spec_effect, spec_long_name, spec_node_options_allowed, spec_section};

use super::actions::{spec_apply, spec_effect_apply, spec_is_data_specifier, spec_prepared_state};
use super::lexer::{TokenView, spec_classify};
use super::state::{CommandMode, PrintMode, Source, StateView, spec_command, spec_should_capture_print_expression};
use super::tokens::{spec_long_option, spec_print_eval, spec_short_option, spec_tokens_from, then_apply};
use super::{CommandView, Outcome};

verus! {

/// Once `--version` is seen, no later option changes the command: `--help` after it
/// keeps `--version`, and the finished command is `Version`.
pub proof fn law_version_wins(
    option: Seq<char>,
    id: OptionId,
    value: Option<Seq<char>>,
    source: Source,
    original: Seq<Seq<char>>,
    st: StateView,
    files: Seq<(Seq<char>, EnvFileStatusView)>,
)
    requires
        st.command_mode == CommandMode::Version,
    ensures
        spec_apply(option, id, value, source, original, st, files) matches Outcome::Done(st2)
            ==> st2.command_mode == CommandMode::Version,
        spec_command(st) matches Ok((c, _, _)) && c == CommandView::Version,
{
}

/// `NODE_OPTIONS` may not carry command options (`--help`, `--version`, `--eval`,
/// `--print`), `--env-file`, or Bun-specific options.
pub proof fn law_node_options_allowed_set(id: OptionId)
    ensures
        (spec_section(id) == HelpSection::Bun
            || spec_effect(id) == OptionEffect::Help || spec_effect(id) == OptionEffect::Version
            || spec_effect(id) == OptionEffect::Eval || spec_effect(id) == OptionEffect::Print
            || spec_effect(id) == OptionEffect::NodeEnvFile) ==> !spec_node_options_allowed(id),
{
    match id {
        _ => {},
    }
}

/// An option that `NODE_OPTIONS` may not carry is refused there, named by its long name.
pub proof fn law_node_options_refuse(
    option: Seq<char>,
    id: OptionId,
    value: Option<Seq<char>>,
    original: Seq<Seq<char>>,
    st: StateView,
    files: Seq<(Seq<char>, EnvFileStatusView)>,
)
    requires
        !spec_node_options_allowed(id),
    ensures
        spec_apply(option, id, value, Source::NodeOptions, original, st, files)
            == Outcome::<StateView>::Failed(BunodeErrorView::Usage(UsageErrorView::NodeOptionsDisallowed(spec_long_name(id)))),
{
}

proof fn lemma_apply_keeps_exec_argv(
    option: Seq<char>,
    id: OptionId,
    value: Option<Seq<char>>,
    original: Seq<Seq<char>>,
    st: StateView,
    files: Seq<(Seq<char>, EnvFileStatusView)>,
)
    ensures
        spec_apply(option, id, value, Source::NodeOptions, original, st, files) matches Outcome::Done(st2)
            ==> st2.exec_argv == st.exec_argv,
{
}

/// `NODE_OPTIONS` never adds to `process.execArgv`: reading its tokens leaves the
/// recorded `execArgv` as it was.
pub proof fn law_node_options_keep_exec_argv(
    tokens: Seq<Seq<char>>,
    i: int,
    st: StateView,
    ids: Seq<OptionId>,
    files: Seq<(Seq<char>, EnvFileStatusView)>,
)
    ensures
        spec_tokens_from(tokens, i, Source::NodeOptions, st, ids, files) matches Outcome::Done(st2)
            ==> st2.exec_argv == st.exec_argv,
    decreases tokens.len() - i,
{
    if 0 <= i < tokens.len() && tokens[i] != "--"@ {
        match spec_classify(tokens[i]) {
            TokenView::Long { name, value } => {
                let option = "--"@ + name;
                match crate::options::find_long_in(ids, option) {
                    None => {},
                    Some(id) => {
                        let valued = super::tokens::spec_long_value(id, option, value, tokens, i + 1);
                        match valued {
                            Outcome::Done((v, original, j)) => {
                                lemma_apply_keeps_exec_argv(option, id, v, original, st, files);
                            },
                            _ => {},
                        }
                    },
                }
                match spec_long_option(name, value, tokens, i + 1, Source::NodeOptions, st, ids, files) {
                    Outcome::Done((st2, j)) => {
                        if i < j <= tokens.len() {
                            law_node_options_keep_exec_argv(tokens, j, st2, ids, files);
                        }
                    },
                    _ => {},
                }
            },
            TokenView::Short { short, attached } => {
                if !(short == 'p' && attached == Some("e"@)) && attached is None {
                    match crate::options::find_short_in(ids, short) {
                        None => {},
                        Some(id) => {
                            let name = seq!['-', short];
                            let valued = if short == 'p' {
                                Outcome::Done((None, seq![name], i + 1))
                            } else if crate::options::spec_value_mode(id) == crate::options::ValueMode::Required {
                                match super::tokens::spec_required_next(tokens, i + 1, name) {
                                    Outcome::Done((v, j)) => Outcome::Done((Some(v), seq![name, v], j)),
                                    Outcome::Failed(e) => Outcome::Failed(e),
                                    Outcome::NeedsFile(p) => Outcome::NeedsFile(p),
                                }
                            } else {
                                Outcome::Done((None, seq![name], i + 1))
                            };
                            match valued {
                                Outcome::Done((v, original, j)) => {
                                    lemma_apply_keeps_exec_argv(name, id, v, original, st, files);
                                },
                                _ => {},
                            }
                        },
                    }
                }
                match spec_short_option(short, attached, tokens, i + 1, Source::NodeOptions, st, ids, files) {
                    Outcome::Done((st2, j)) => {
                        if i < j <= tokens.len() {
                            law_node_options_keep_exec_argv(tokens, j, st2, ids, files);
                        }
                    },
                    _ => {},
                }
            },
            _ => {},
        }
    }
}

/// From the script operand on, every token is a script argument, passed on verbatim:
/// options after the script (`--help` included) are not read.
pub proof fn law_script_operand_ends_options(
    tokens: Seq<Seq<char>>,
    i: int,
    st: StateView,
    ids: Seq<OptionId>,
    files: Seq<(Seq<char>, EnvFileStatusView)>,
)
    requires
        0 <= i < tokens.len(),
        spec_classify(tokens[i]) is Value,
        !spec_should_capture_print_expression(st, Source::CommandLine),
    ensures
        spec_tokens_from(tokens, i, Source::CommandLine, st, ids, files)
            == Outcome::Done(StateView { operands: st.operands + tokens.skip(i), ..st }),
{
    assert(tokens[i] != "--"@);
    let v = spec_classify(tokens[i])->Value_0;
    assert(v == tokens[i]);
    assert(st.operands.push(v) + tokens.skip(i + 1) =~= st.operands + tokens.skip(i));
}

/// Node built-in modules passed to `--require` or `--import` are not turned into Bun
/// preloads.
pub proof fn law_builtin_preloads_skipped(
    option: Seq<char>,
    id: OptionId,
    v: Seq<char>,
    source: Source,
    st: StateView,
    files: Seq<(Seq<char>, EnvFileStatusView)>,
)
    requires
        spec_is_builtin_module(v),
        spec_effect(id) == OptionEffect::Require || (spec_effect(id) == OptionEffect::Import && !spec_is_data_specifier(v)),
    ensures
        spec_effect_apply(option, id, Some(v), source, st, files) == Outcome::Done(st),
{
}

/// `data:` URLs passed to `--import` are refused.
pub proof fn law_data_url_imports_refused(
    option: Seq<char>,
    id: OptionId,
    v: Seq<char>,
    source: Source,
    st: StateView,
    files: Seq<(Seq<char>, EnvFileStatusView)>,
)
    requires
        spec_effect(id) == OptionEffect::Import,
        spec_is_data_specifier(v),
    ensures
        spec_effect_apply(option, id, Some(v), source, st, files)
            == Outcome::<StateView>::Failed(BunodeErrorView::Usage(UsageErrorView::UnsupportedDataUrlImport)),
{
}

/// A flag that is forwarded to Bun reaches Bun's options under the name the user gave it
/// (less `bun-` for a Bun-specific flag), after the options already collected and with
/// nothing else added.
pub proof fn law_flags_forwarded_by_name(
    option: Seq<char>,
    id: OptionId,
    value: Option<Seq<char>>,
    source: Source,
    original: Seq<Seq<char>>,
    st: StateView,
    files: Seq<(Seq<char>, EnvFileStatusView)>,
)
    requires
        spec_effect(id) == OptionEffect::Flag,
        !(source == Source::NodeOptions && !spec_node_options_allowed(id)),
    ensures
        spec_apply(option, id, value, source, original, st, files) matches Outcome::Done(st2)
            && st2.bun_options == spec_prepared_state(id, source, original, st).bun_options.push(forwarded_name(spec_long_name(id))),
{
    law_forwarded_option_names(id);
}

} // verus!
