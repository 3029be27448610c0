//! Token stream driver for CLI and `NODE_OPTIONS` tokens.
//!
//! This module owns token consumption rules that generic parsers cannot express,
//! such as `-p`, `--`, and script operand boundaries.

use vstd::prelude::*;

use crate::env_file::{EnvFileStatusView, EnvFiles};
use crate::error::{BunodeError, BunodeErrorView, CliUsageError, UsageErrorView};
use crate::options::{
    find_long_in, find_long_option, find_short_in, find_short_option, spec_long_name,
    spec_node_options_allowed, spec_value_mode, OptionId, OptionShape, ValueMode,
};
use crate::text::{has_prefix, concat, concat3, extend_strings, opt_view, owned, push_string, same_text, starts_with};

use super::actions::{apply_option, ensure_source_allowed, option_requires_value, requires_value, spec_apply, unsupported_option};
use super::lexer::{classify, spec_classify, ArgumentToken, TokenView};
use super::state::{OperandBoundary, ParseState, PrintMode, PrintOperandMode, Source, StateView, spec_should_capture_print_expression};
use super::{CommandView, NodeCommand, Outcome, ParseStop};

verus! {

pub open spec fn starts_with_dash(s: Seq<char>) -> bool {
    s.len() > 0 && s[0] == '-'
}

/// The value for an option taken from the next token, which must not look like an option.
pub open spec fn spec_required_next(tokens: Seq<Seq<char>>, i: int, option: Seq<char>) -> Outcome<(Seq<char>, int)> {
    if 0 <= i < tokens.len() && !starts_with_dash(tokens[i]) {
        Outcome::Done((tokens[i], i + 1))
    } else {
        Outcome::Failed(requires_value(option))
    }
}

/// How a long option was written: `--name` or `--name=value`.
pub open spec fn long_original(option: Seq<char>, inline: Option<Seq<char>>) -> Seq<char> {
    match inline {
        Some(v) => option + "="@ + v,
        None => option,
    }
}

/// The value of a long option, its argv spelling, and the index of the next token.
pub open spec fn spec_long_value(
    id: OptionId,
    option: Seq<char>,
    inline: Option<Seq<char>>,
    tokens: Seq<Seq<char>>,
    i: int,
) -> Outcome<(Option<Seq<char>>, Seq<Seq<char>>, int)> {
    let first = long_original(option, inline);
    if id == OptionId::Print {
        Outcome::Done((inline, seq![first], i))
    } else {
        match spec_value_mode(id) {
            ValueMode::NoValue => if inline is Some {
                Outcome::Failed(BunodeErrorView::Usage(UsageErrorView::OptionDoesNotTakeValue(option)))
            } else {
                Outcome::Done((None, seq![first], i))
            },
            ValueMode::Required => match inline {
                Some(v) => if v.len() == 0 {
                    Outcome::Failed(requires_value(option))
                } else {
                    Outcome::Done((Some(v), seq![first], i))
                },
                None => match spec_required_next(tokens, i, option) {
                    Outcome::Done((v, j)) => Outcome::Done((Some(v), seq![first, v], j)),
                    Outcome::Failed(e) => Outcome::Failed(e),
                    Outcome::NeedsFile(p) => Outcome::NeedsFile(p),
                },
            },
            ValueMode::OptionalEquals => match inline {
                Some(v) => if v.len() == 0 {
                    Outcome::Failed(requires_value(option))
                } else {
                    Outcome::Done((Some(v), seq![first], i))
                },
                None => Outcome::Done((None, seq![first], i)),
            },
        }
    }
}

/// Applies a found option with its value and continues at index `j`.
pub open spec fn then_apply(
    option: Seq<char>,
    id: OptionId,
    valued: Outcome<(Option<Seq<char>>, Seq<Seq<char>>, int)>,
    source: Source,
    st: StateView,
    files: Seq<(Seq<char>, EnvFileStatusView)>,
) -> Outcome<(StateView, int)> {
    match valued {
        Outcome::Done((value, original, j)) => match spec_apply(option, id, value, source, original, st, files) {
            Outcome::Done(st2) => Outcome::Done((st2, j)),
            Outcome::Failed(e) => Outcome::Failed(e),
            Outcome::NeedsFile(p) => Outcome::NeedsFile(p),
        },
        Outcome::Failed(e) => Outcome::Failed(e),
        Outcome::NeedsFile(p) => Outcome::NeedsFile(p),
    }
}

/// A long option `--name[=inline]`; `i` is the index of the token after it.
pub open spec fn spec_long_option(
    name: Seq<char>,
    inline: Option<Seq<char>>,
    tokens: Seq<Seq<char>>,
    i: int,
    source: Source,
    st: StateView,
    ids: Seq<OptionId>,
    files: Seq<(Seq<char>, EnvFileStatusView)>,
) -> Outcome<(StateView, int)> {
    let option = "--"@ + name;
    match find_long_in(ids, option) {
        None => Outcome::Failed(BunodeErrorView::Usage(UsageErrorView::UnsupportedNodeOption(option))),
        Some(id) => then_apply(option, id, spec_long_value(id, option, inline, tokens, i), source, st, files),
    }
}

/// `-pe <code>`: print the result of evaluating the next token.
pub open spec fn spec_print_eval(
    tokens: Seq<Seq<char>>,
    i: int,
    source: Source,
    st: StateView,
    ids: Seq<OptionId>,
) -> Outcome<(StateView, int)> {
    match find_short_in(ids, 'p') {
        None => Outcome::Failed(BunodeErrorView::Usage(UsageErrorView::UnsupportedNodeOption("-p"@))),
        Some(pid) => match find_short_in(ids, 'e') {
            None => Outcome::Failed(BunodeErrorView::Usage(UsageErrorView::UnsupportedNodeOption("-e"@))),
            Some(eid) => if source == Source::NodeOptions && !spec_node_options_allowed(pid) {
                Outcome::Failed(BunodeErrorView::Usage(UsageErrorView::NodeOptionsDisallowed(spec_long_name(pid))))
            } else if source == Source::NodeOptions && !spec_node_options_allowed(eid) {
                Outcome::Failed(BunodeErrorView::Usage(UsageErrorView::NodeOptionsDisallowed(spec_long_name(eid))))
            } else {
                match spec_required_next(tokens, i, "-e"@) {
                    Outcome::Done((v, j)) => Outcome::Done((
                        StateView {
                            print_mode: PrintMode::Enabled,
                            print_operand_mode: PrintOperandMode::Script,
                            inline_command: Some(CommandView::Eval(v)),
                            exec_argv: if source == Source::CommandLine { st.exec_argv.push("-pe"@).push(v) } else { st.exec_argv },
                            ..st
                        },
                        j,
                    )),
                    Outcome::Failed(e) => Outcome::Failed(e),
                    Outcome::NeedsFile(p) => Outcome::NeedsFile(p),
                }
            },
        },
    }
}

/// A short option `-x`, possibly with characters attached; `i` is the index of the
/// token after it.
pub open spec fn spec_short_option(
    short: char,
    attached: Option<Seq<char>>,
    tokens: Seq<Seq<char>>,
    i: int,
    source: Source,
    st: StateView,
    ids: Seq<OptionId>,
    files: Seq<(Seq<char>, EnvFileStatusView)>,
) -> Outcome<(StateView, int)> {
    if short == 'p' && attached == Some("e"@) {
        spec_print_eval(tokens, i, source, st, ids)
    } else {
        match attached {
            Some(a) => Outcome::Failed(BunodeErrorView::Usage(UsageErrorView::UnsupportedNodeOption(seq!['-', short] + a))),
            None => match find_short_in(ids, short) {
                None => Outcome::Failed(BunodeErrorView::Usage(UsageErrorView::UnsupportedNodeOption(seq!['-', short]))),
                Some(id) => {
                    let name = seq!['-', short];
                    let valued = if short == 'p' {
                        Outcome::Done((None, seq![name], i))
                    } else if spec_value_mode(id) == ValueMode::Required {
                        match spec_required_next(tokens, i, name) {
                            Outcome::Done((v, j)) => Outcome::Done((Some(v), seq![name, v], j)),
                            Outcome::Failed(e) => Outcome::Failed(e),
                            Outcome::NeedsFile(p) => Outcome::NeedsFile(p),
                        }
                    } else {
                        Outcome::Done((None, seq![name], i))
                    };
                    then_apply(name, id, valued, source, st, files)
                },
            },
        }
    }
}

/// A positional token; `i` is the index of the token after it. The flag tells whether
/// the rest of the tokens were taken as operands.
pub open spec fn spec_operand(
    value: Seq<char>,
    tokens: Seq<Seq<char>>,
    i: int,
    source: Source,
    st: StateView,
) -> Outcome<(StateView, bool)> {
    if source == Source::NodeOptions {
        Outcome::Failed(BunodeErrorView::Usage(UsageErrorView::NodeOptionsDisallowed(value)))
    } else if value == "-"@ && spec_should_capture_print_expression(st, source) {
        Outcome::Done((StateView { operands: st.operands.push(value) + tokens.skip(i), ..st }, true))
    } else if spec_should_capture_print_expression(st, source) {
        Outcome::Done((
            StateView {
                inline_command: Some(CommandView::Print(value)),
                print_operand_mode: PrintOperandMode::Script,
                exec_argv: st.exec_argv.push(value),
                ..st
            },
            false,
        ))
    } else {
        Outcome::Done((StateView { operands: st.operands.push(value) + tokens.skip(i), ..st }, true))
    }
}

/// The state after reading `tokens[i..]` from `source`.
pub open spec fn spec_tokens_from(
    tokens: Seq<Seq<char>>,
    i: int,
    source: Source,
    st: StateView,
    ids: Seq<OptionId>,
    files: Seq<(Seq<char>, EnvFileStatusView)>,
) -> Outcome<StateView>
    decreases tokens.len() - i,
{
    if i < 0 || i >= tokens.len() {
        Outcome::Done(st)
    } else if tokens[i] == "--"@ {
        if source == Source::NodeOptions {
            Outcome::Failed(BunodeErrorView::Usage(UsageErrorView::NodeOptionsDisallowed("--"@)))
        } else {
            Outcome::Done(StateView {
                operand_boundary: OperandBoundary::DoubleDash,
                operands: st.operands + tokens.skip(i + 1),
                ..st
            })
        }
    } else {
        match spec_classify(tokens[i]) {
            TokenView::End => Outcome::Done(st),
            TokenView::Long { name, value } => match spec_long_option(name, value, tokens, i + 1, source, st, ids, files) {
                Outcome::Done((st2, j)) => if i < j <= tokens.len() {
                    spec_tokens_from(tokens, j, source, st2, ids, files)
                } else {
                    Outcome::Done(st2)
                },
                Outcome::Failed(e) => Outcome::Failed(e),
                Outcome::NeedsFile(p) => Outcome::NeedsFile(p),
            },
            TokenView::Short { short, attached } => match spec_short_option(short, attached, tokens, i + 1, source, st, ids, files) {
                Outcome::Done((st2, j)) => if i < j <= tokens.len() {
                    spec_tokens_from(tokens, j, source, st2, ids, files)
                } else {
                    Outcome::Done(st2)
                },
                Outcome::Failed(e) => Outcome::Failed(e),
                Outcome::NeedsFile(p) => Outcome::NeedsFile(p),
            },
            TokenView::Value(v) => match spec_operand(v, tokens, i + 1, source, st) {
                Outcome::Done((st2, stop)) => if stop {
                    Outcome::Done(st2)
                } else {
                    spec_tokens_from(tokens, i + 1, source, st2, ids, files)
                },
                Outcome::Failed(e) => Outcome::Failed(e),
                Outcome::NeedsFile(p) => Outcome::NeedsFile(p),
            },
        }
    }
}

fn required_next_value(tokens: &Vec<String>, i: usize, option: &str) -> (result: Result<(String, usize), ParseStop>)
    ensures
        match result {
            Ok((v, j)) => spec_required_next(tokens.deep_view(), i as int, option@) == Outcome::Done((v@, j as int)),
            Err(s) => spec_required_next(tokens.deep_view(), i as int, option@) == s.outcome::<(Seq<char>, int)>(),
        },
{
    if i < tokens.len() && !starts_with(tokens[i].as_str(), "-") {
        proof {
            reveal_strlit("-");
            let t = tokens@[i as int]@;
            if t.len() > 0 && t[0] == '-' {
                assert(t.take(1) =~= "-"@);
            }
        }
        assert(tokens.deep_view()[i as int] == tokens@[i as int]@);
        assert(!starts_with_dash(tokens.deep_view()[i as int]));
        let v = tokens[i].clone();
        assert(v@ == tokens.deep_view()[i as int]);
        let j: usize = i + 1;
        assert(spec_required_next(tokens.deep_view(), i as int, option@) == Outcome::Done((v@, j as int)));
        Ok((v, j))
    } else {
        proof {
            reveal_strlit("-");
            if i < tokens.len() {
                assert(tokens.deep_view()[i as int] == tokens@[i as int]@);
                let t = tokens@[i as int]@;
                if has_prefix(t, "-"@) {
                    assert(t.take(1)[0] == t[0]);
                }
            }
        }
        Err(ParseStop::Error(option_requires_value(option)))
    }
}

fn format_long_original(option: &str, value: &Option<String>) -> (original: String)
    ensures
        original@ == long_original(option@, opt_view(*value)),
{
    match value {
        Some(v) => concat3(option, "=", v.as_str()),
        None => owned(option),
    }
}

fn single(s: String) -> (v: Vec<String>)
    ensures
        v.deep_view() == seq![s@],
{
    let mut v: Vec<String> = Vec::new();
    assert(v.deep_view() =~= Seq::<Seq<char>>::empty());
    push_string(&mut v, s);
    assert(seq![s@] =~= Seq::<Seq<char>>::empty().push(s@));
    v
}

fn pair(a: String, b: String) -> (v: Vec<String>)
    ensures
        v.deep_view() == seq![a@, b@],
{
    let mut v = single(a);
    push_string(&mut v, b);
    assert(seq![a@, b@] =~= seq![a@].push(b@));
    v
}

fn parse_long_value(
    id: OptionId,
    inline: Option<String>,
    tokens: &Vec<String>,
    i: usize,
    option: &str,
) -> (result: Result<(Option<String>, Vec<String>, usize), ParseStop>)
    ensures
        match result {
            Ok((value, original, j)) => spec_long_value(id, option@, opt_view(inline), tokens.deep_view(), i as int)
                == Outcome::Done((opt_view(value), original.deep_view(), j as int)),
            Err(s) => spec_long_value(id, option@, opt_view(inline), tokens.deep_view(), i as int)
                == s.outcome::<(Option<Seq<char>>, Seq<Seq<char>>, int)>(),
        },
{
    let first = format_long_original(option, &inline);
    if id == OptionId::Print {
        return Ok((inline, single(first), i));
    }
    match id.value_mode() {
        ValueMode::NoValue => {
            if inline.is_some() {
                return Err(ParseStop::Error(BunodeError::Usage(CliUsageError::OptionDoesNotTakeValue(owned(option)))));
            }
            Ok((None, single(first), i))
        },
        ValueMode::Required => match inline {
            Some(v) => {
                if v.as_str().is_empty() {
                    return Err(ParseStop::Error(option_requires_value(option)));
                }
                Ok((Some(v), single(first), i))
            },
            None => {
                let (v, j) = required_next_value(tokens, i, option)?;
                let original = pair(first, v.clone());
                Ok((Some(v), original, j))
            },
        },
        ValueMode::OptionalEquals => match inline {
            Some(v) => {
                if v.as_str().is_empty() {
                    return Err(ParseStop::Error(option_requires_value(option)));
                }
                Ok((Some(v), single(first), i))
            },
            None => Ok((None, single(first), i)),
        },
    }
}

fn parse_long_option(
    name: &str,
    inline: Option<String>,
    tokens: &Vec<String>,
    i: usize,
    source: Source,
    state: &mut ParseState,
    shape: &OptionShape,
    files: &EnvFiles,
) -> (result: Result<usize, ParseStop>)
    ensures
        match result {
            Ok(j) => spec_long_option(name@, opt_view(inline), tokens.deep_view(), i as int, source, old(state)@, shape.spec_ids(), files@)
                == Outcome::Done((final(state)@, j as int)),
            Err(s) => spec_long_option(name@, opt_view(inline), tokens.deep_view(), i as int, source, old(state)@, shape.spec_ids(), files@)
                == s.outcome::<(StateView, int)>(),
        },
{
    let option = concat("--", name);
    let id = match find_long_option(shape, option.as_str()) {
        Some(id) => id,
        None => return Err(ParseStop::Error(unsupported_option(option.as_str()))),
    };
    let (value, original, j) = parse_long_value(id, inline, tokens, i, option.as_str())?;
    apply_option(option.as_str(), id, value, source, original, state, files)?;
    Ok(j)
}

fn parse_print_eval_shortcut(
    tokens: &Vec<String>,
    i: usize,
    source: Source,
    state: &mut ParseState,
    shape: &OptionShape,
) -> (result: Result<usize, ParseStop>)
    ensures
        match result {
            Ok(j) => spec_print_eval(tokens.deep_view(), i as int, source, old(state)@, shape.spec_ids())
                == Outcome::Done((final(state)@, j as int)),
            Err(s) => spec_print_eval(tokens.deep_view(), i as int, source, old(state)@, shape.spec_ids())
                == s.outcome::<(StateView, int)>(),
        },
{
    let print_id = match find_short_option(shape, 'p') {
        Some(id) => id,
        None => return Err(ParseStop::Error(unsupported_option("-p"))),
    };
    let eval_id = match find_short_option(shape, 'e') {
        Some(id) => id,
        None => return Err(ParseStop::Error(unsupported_option("-e"))),
    };
    if let Err(e) = ensure_source_allowed(print_id, source) {
        return Err(ParseStop::Error(e));
    }
    if let Err(e) = ensure_source_allowed(eval_id, source) {
        return Err(ParseStop::Error(e));
    }
    let (value, j) = required_next_value(tokens, i, "-e")?;
    let ghost st = state@;
    state.print_mode = PrintMode::Enabled;
    state.print_operand_mode = PrintOperandMode::Script;
    state.inline_command = Some(NodeCommand::Eval(value.clone()));
    if source == Source::CommandLine {
        push_string(&mut state.exec_argv, owned("-pe"));
        push_string(&mut state.exec_argv, value);
    }
    assert(spec_print_eval(tokens.deep_view(), i as int, source, st, shape.spec_ids()) =~= Outcome::Done((state@, j as int)));
    Ok(j)
}

fn short_name(short: char) -> (name: String)
    ensures
        name@ == seq!['-', short],
{
    let mut name = String::new();
    name.push('-');
    name.push(short);
    assert(name@ =~= seq!['-', short]);
    name
}

fn parse_short_option(
    short: char,
    attached: Option<String>,
    tokens: &Vec<String>,
    i: usize,
    source: Source,
    state: &mut ParseState,
    shape: &OptionShape,
    files: &EnvFiles,
) -> (result: Result<usize, ParseStop>)
    ensures
        match result {
            Ok(j) => spec_short_option(short, opt_view(attached), tokens.deep_view(), i as int, source, old(state)@, shape.spec_ids(), files@)
                == Outcome::Done((final(state)@, j as int)),
            Err(s) => spec_short_option(short, opt_view(attached), tokens.deep_view(), i as int, source, old(state)@, shape.spec_ids(), files@)
                == s.outcome::<(StateView, int)>(),
        },
{
    if short == 'p' {
        if let Some(a) = &attached {
            if same_text(a.as_str(), "e") {
                return parse_print_eval_shortcut(tokens, i, source, state, shape);
            }
        }
    }
    if let Some(a) = attached {
        let mut option = short_name(short);
        let ghost prefix = option@;
        option.append(a.as_str());
        return Err(ParseStop::Error(unsupported_option(option.as_str())));
    }
    let id = match find_short_option(shape, short) {
        Some(id) => id,
        None => return Err(ParseStop::Error(unsupported_option(short_name(short).as_str()))),
    };
    let name = short_name(short);
    let (value, original, j): (Option<String>, Vec<String>, usize) = if short == 'p' {
        (None, single(name.clone()), i)
    } else if id.value_mode() == ValueMode::Required {
        let (v, j) = required_next_value(tokens, i, name.as_str())?;
        (Some(v.clone()), pair(name.clone(), v), j)
    } else {
        (None, single(name.clone()), i)
    };
    apply_option(name.as_str(), id, value, source, original, state, files)?;
    Ok(j)
}

fn parse_operand(
    value: String,
    tokens: &Vec<String>,
    i: usize,
    source: Source,
    state: &mut ParseState,
) -> (result: Result<bool, ParseStop>)
    requires
        i <= tokens@.len(),
    ensures
        match result {
            Ok(stop) => spec_operand(value@, tokens.deep_view(), i as int, source, old(state)@)
                == Outcome::Done((final(state)@, stop)),
            Err(s) => spec_operand(value@, tokens.deep_view(), i as int, source, old(state)@)
                == s.outcome::<(StateView, bool)>(),
        },
{
    if source == Source::NodeOptions {
        return Err(ParseStop::Error(BunodeError::Usage(CliUsageError::NodeOptionsDisallowed(value))));
    }
    let ghost st = state@;
    let ghost vv = value@;
    let capture = state.should_capture_print_expression(source);
    if capture && same_text(value.as_str(), "-") {
        push_string(&mut state.operands, value);
        extend_strings(&mut state.operands, tokens, i);
        assert(spec_operand(vv, tokens.deep_view(), i as int, source, st) =~= Outcome::Done((state@, true)));
        return Ok(true);
    }
    if capture {
        state.inline_command = Some(NodeCommand::Print(value.clone()));
        state.print_operand_mode = PrintOperandMode::Script;
        push_string(&mut state.exec_argv, value);
        assert(spec_operand(vv, tokens.deep_view(), i as int, source, st) =~= Outcome::Done((state@, false)));
        return Ok(false);
    }
    push_string(&mut state.operands, value);
    extend_strings(&mut state.operands, tokens, i);
    assert(spec_operand(vv, tokens.deep_view(), i as int, source, st) =~= Outcome::Done((state@, true)));
    Ok(true)
}

/// Reads `tokens` from `source` into the parse state.
pub fn parse_tokens(
    tokens: &Vec<String>,
    source: Source,
    state: &mut ParseState,
    shape: &OptionShape,
    files: &EnvFiles,
) -> (result: Result<(), ParseStop>)
    ensures
        match result {
            Ok(()) => spec_tokens_from(tokens.deep_view(), 0, source, old(state)@, shape.spec_ids(), files@)
                == Outcome::Done(final(state)@),
            Err(s) => spec_tokens_from(tokens.deep_view(), 0, source, old(state)@, shape.spec_ids(), files@)
                == s.outcome::<StateView>(),
        },
{
    let ghost target = spec_tokens_from(tokens.deep_view(), 0, source, state@, shape.spec_ids(), files@);
    let mut i: usize = 0;
    while i < tokens.len()
        invariant
            i <= tokens@.len(),
            target == spec_tokens_from(tokens.deep_view(), 0, source, old(state)@, shape.spec_ids(), files@),
            spec_tokens_from(tokens.deep_view(), i as int, source, state@, shape.spec_ids(), files@) == target,
        decreases tokens.len() - i,
    {
        let ghost st = state@;
        assert(tokens.deep_view()[i as int] == tokens@[i as int]@);
        if same_text(tokens[i].as_str(), "--") {
            if source == Source::NodeOptions {
                return Err(ParseStop::Error(BunodeError::Usage(CliUsageError::NodeOptionsDisallowed(owned("--")))));
            }
            state.operand_boundary = OperandBoundary::DoubleDash;
            extend_strings(&mut state.operands, tokens, i + 1);
            assert(target =~= Outcome::Done(state@));
            return Ok(());
        }
        match classify(tokens[i].as_str()) {
            ArgumentToken::End => {
                return Ok(());
            },
            ArgumentToken::Long { name, value } => {
                let j = parse_long_option(name.as_str(), value, tokens, i + 1, source, state, shape, files)?;
                if !(i < j && j <= tokens.len()) {
                    return Ok(());
                }
                i = j;
            },
            ArgumentToken::Short { short, attached } => {
                let j = parse_short_option(short, attached, tokens, i + 1, source, state, shape, files)?;
                if !(i < j && j <= tokens.len()) {
                    return Ok(());
                }
                i = j;
            },
            ArgumentToken::Value(value) => {
                let stop = parse_operand(value, tokens, i + 1, source, state)?;
                if stop {
                    return Ok(());
                }
                i = i + 1;
            },
        }
    }
    Ok(())
}

} // verus!
