//! Classification of single command-line arguments through `lexopt`.

use vstd::prelude::*;

use crate::text::{first_index, has_prefix};

verus! {

/// One argument, as `lexopt` sees it when it is read on its own.
pub enum ArgumentToken {
    /// `--name` or `--name=value` (the name without its dashes).
    Long { name: String, value: Option<String> },
    /// `-x` or `-xrest` (the rest of the cluster is the attached value).
    Short { short: char, attached: Option<String> },
    /// A positional argument.
    Value(String),
    /// `--`: nothing more to classify.
    End,
}

pub enum TokenView {
    Long { name: Seq<char>, value: Option<Seq<char>> },
    Short { short: char, attached: Option<Seq<char>> },
    Value(Seq<char>),
    End,
}

impl View for ArgumentToken {
    type V = TokenView;

    open spec fn view(&self) -> TokenView {
        match self {
            ArgumentToken::Long { name, value } => TokenView::Long {
                name: name@,
                value: match value { Some(v) => Some(v@), None => None },
            },
            ArgumentToken::Short { short, attached } => TokenView::Short {
                short: *short,
                attached: match attached { Some(v) => Some(v@), None => None },
            },
            ArgumentToken::Value(v) => TokenView::Value(v@),
            ArgumentToken::End => TokenView::End,
        }
    }
}

/// How `lexopt` reads one argument followed by `optional_value`, with
/// `set_short_equals(false)`: `--name[=value]` is a long option with its inline
/// value, `-xrest` a short option with the rest of the cluster attached, `--` ends the
/// options, and anything else (including `-`) is a value.
pub open spec fn spec_classify(arg: Seq<char>) -> TokenView {
    if arg == "--"@ {
        TokenView::End
    } else if has_prefix(arg, "--"@) {
        let i = first_index(arg, '=');
        if i >= 0 {
            TokenView::Long { name: arg.subrange(2, i), value: Some(arg.skip(i + 1)) }
        } else {
            TokenView::Long { name: arg.skip(2), value: None }
        }
    } else if arg.len() > 1 && arg[0] == '-' {
        TokenView::Short {
            short: arg[1],
            attached: if arg.len() > 2 { Some(arg.skip(2)) } else { None },
        }
    } else {
        TokenView::Value(arg)
    }
}

/// Reads `argument` with a fresh `lexopt::Parser` (`from_args`, then
/// `set_short_equals(false)`), takes its first item with `next`, and for an option
/// the value still attached to it with `optional_value`. Claimed, from lexopt 0.3.2's
/// `next` and `raw_optional_value`: the classification [`spec_classify`] states. The
/// parser's error arm cannot be reached on a fresh parser and is mapped to `End`.
#[verifier::external_body]
pub(crate) fn classify(argument: &str) -> (token: ArgumentToken)
    ensures
        token@ == spec_classify(argument@),
{
    let mut parser = lexopt::Parser::from_args([argument]);
    parser.set_short_equals(false);
    match parser.next() {
        Ok(Some(lexopt::Arg::Long(name))) => {
            let name = name.to_owned();
            ArgumentToken::Long { name, value: parser.optional_value().map(|v| v.to_string_lossy().into_owned()) }
        },
        Ok(Some(lexopt::Arg::Short(short))) => {
            ArgumentToken::Short { short, attached: parser.optional_value().map(|v| v.to_string_lossy().into_owned()) }
        },
        Ok(Some(lexopt::Arg::Value(value))) => ArgumentToken::Value(value.to_string_lossy().into_owned()),
        Ok(None) | Err(_) => ArgumentToken::End,
    }
}

} // verus!
