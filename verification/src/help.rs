//! The `--help` text: a fixed introduction, then one row per supported option, the
//! description wrapped with `textwrap` beside a left column of fixed width.

use vstd::prelude::*;
use vstd::string::StringSliceAdditionalSpecFns;

use crate::options::{HelpSection, OptionId, OptionShape, ValueMode, spec_description, spec_long_name,
    spec_section, spec_short_name, spec_value_mode, spec_value_name};
use crate::text::{extend_strings, owned, push_string};

verus! {

/// Total width of the help text.
pub const HELP_WIDTH: usize = 80;

/// Width of the left column.
pub const LEFT_WIDTH: usize = 34;

/// Width left for descriptions: the row indent of two spaces, the left column and one
/// space come first.
pub const DESCRIPTION_WIDTH: usize = 43;

/// A row of the help text: what stands in the left column and its description.
pub struct HelpRow {
    pub left: String,
    pub description: String,
}

/// What `textwrap::wrap` makes of `text` at `width` columns, not breaking words that are
/// longer than the width and never hyphenating.
pub uninterp spec fn textwrap_lines(text: Seq<char>, width: usize, break_words: bool) -> Seq<Seq<char>>;

/// Wraps `text` with `textwrap::wrap` (no hyphenation); the lines are whatever the crate
/// computes, named by [`textwrap_lines`].
#[verifier::external_body]
fn wrap_text(text: &str, width: usize, break_words: bool) -> (lines: Vec<String>)
    ensures
        lines.deep_view() == textwrap_lines(text@, width, break_words),
{
    let options = textwrap::Options::new(width)
        .break_words(break_words)
        .word_splitter(textwrap::WordSplitter::NoHyphenation);
    textwrap::wrap(text, options).into_iter().map(|line| line.into_owned()).collect()
}

/// `n` spaces.
pub open spec fn spaces(n: nat) -> Seq<char> {
    Seq::new(n, |i: int| ' ')
}

/// `left` padded with spaces to the left column's width.
pub open spec fn padded(left: Seq<char>) -> Seq<char> {
    if left.len() < LEFT_WIDTH { left + spaces((LEFT_WIDTH - left.len()) as nat) } else { left }
}

/// The continuation lines of a row: indent, an empty left column, a space, the line.
pub open spec fn continuation_lines(lines: Seq<Seq<char>>) -> Seq<Seq<char>> {
    lines.map_values(|line: Seq<char>| "  "@ + spaces(LEFT_WIDTH as nat) + " "@ + line)
}

/// The printed lines of a row whose description wrapped into `lines`. A left column as
/// wide as the column (in bytes) stands alone on its line.
pub open spec fn spec_row_lines(left: Seq<char>, lines: Seq<Seq<char>>) -> Seq<Seq<char>> {
    if vstd::utf8::encode_utf8(left).len() as usize >= LEFT_WIDTH {
        seq!["  "@ + left] + continuation_lines(lines)
    } else if lines.len() == 0 {
        seq!["  "@ + left]
    } else {
        seq!["  "@ + padded(left) + " "@ + lines[0]] + continuation_lines(lines.drop_first())
    }
}

/// The printed lines of a row.
pub open spec fn spec_row(left: Seq<char>, description: Seq<char>) -> Seq<Seq<char>> {
    spec_row_lines(left, textwrap_lines(description, DESCRIPTION_WIDTH, false))
}

fn push_spaces(out: &mut String, n: usize)
    ensures
        final(out)@ == old(out)@ + spaces(n as nat),
{
    let mut i: usize = 0;
    while i < n
        invariant
            i <= n,
            out@ == old(out)@ + spaces(i as nat),
        decreases n - i,
    {
        out.push(' ');
        i += 1;
        assert(out@ =~= old(out)@ + spaces(i as nat));
    }
}

fn continuation_line(line: &str) -> (text: String)
    ensures
        text@ == "  "@ + spaces(LEFT_WIDTH as nat) + " "@ + line@,
{
    let mut text = String::from_str("  ");
    push_spaces(&mut text, LEFT_WIDTH);
    text.append(" ");
    text.append(line);
    text
}

/// Lays out a row, given the lines its description wrapped into.
pub fn row_lines(left: &str, lines: &Vec<String>) -> (result: Vec<String>)
    ensures
        result.deep_view() == spec_row_lines(left@, lines.deep_view()),
{
    let mut result: Vec<String> = Vec::new();
    assert(result.deep_view() =~= Seq::<Seq<char>>::empty());
    let mut start: usize = 0;
    let long_left = left.len() >= LEFT_WIDTH;
    if long_left {
        let mut first = String::from_str("  ");
        first.append(left);
        push_string(&mut result, first);
    } else if lines.len() == 0 {
        let mut first = String::from_str("  ");
        first.append(left);
        push_string(&mut result, first);
        assert(result.deep_view() =~= spec_row_lines(left@, lines.deep_view()));
        return result;
    } else {
        let mut first = String::from_str("  ");
        first.append(left);
        let width = left.unicode_len();
        if width < LEFT_WIDTH {
            push_spaces(&mut first, LEFT_WIDTH - width);
        }
        first.append(" ");
        first.append(lines[0].as_str());
        assert(first@ =~= "  "@ + padded(left@) + " "@ + lines.deep_view()[0]);
        push_string(&mut result, first);
        start = 1;
    }
    let ghost rest = lines.deep_view().skip(start as int);
    let ghost head = result.deep_view()[0];
    assert(result.deep_view() =~= seq![head] + continuation_lines(rest.take(0)));
    let mut i = start;
    while i < lines.len()
        invariant
            start <= i <= lines@.len(),
            start <= 1,
            rest == lines.deep_view().skip(start as int),
            rest.len() == lines@.len() - start,
            result.deep_view() == seq![head] + continuation_lines(rest.take(i - start)),
        decreases lines.len() - i,
    {
        let line = continuation_line(lines[i].as_str());
        let ghost before = result.deep_view();
        push_string(&mut result, line);
        assert(rest[i - start] == lines.deep_view()[i as int]);
        assert(rest.take(i + 1 - start) =~= rest.take(i - start).push(lines.deep_view()[i as int]));
        assert(result.deep_view() =~= seq![head] + continuation_lines(rest.take(i + 1 - start)));
        i += 1;
    }
    assert(rest.take(i - start) =~= rest);
    if start == 1 {
        assert(lines.deep_view().skip(1) =~= lines.deep_view().drop_first());
    } else {
        assert(lines.deep_view().skip(0) =~= lines.deep_view());
    }
    proof {
        if long_left {
            assert(head == "  "@ + left@);
        } else {
            assert(head == "  "@ + padded(left@) + " "@ + lines.deep_view()[0]);
        }
    }
    assert(result.deep_view() =~= spec_row_lines(left@, lines.deep_view()));
    result
}

/// The printed lines of a help row.
pub fn print_row(row: &HelpRow) -> (result: Vec<String>)
    ensures
        result.deep_view() == spec_row(row.left@, row.description@),
{
    let lines = wrap_text(row.description.as_str(), DESCRIPTION_WIDTH, false);
    row_lines(row.left.as_str(), &lines)
}

/// The left column of an option's row, in Node's style: `-e, --eval=...`,
/// `--inspect[=[host:]port]`, `--cpu-prof`.
pub open spec fn spec_option_left(id: OptionId) -> Seq<char> {
    let short = match spec_short_name(id) {
        Some(c) => seq!['-', c, ',', ' '],
        None => Seq::empty(),
    };
    let value = match (spec_value_mode(id), spec_value_name(id)) {
        (ValueMode::Required, Some(name)) => "="@ + name,
        (ValueMode::OptionalEquals, Some(name)) => "[="@ + name + "]"@,
        _ => Seq::empty(),
    };
    short + spec_long_name(id) + value
}

/// The left column of an option's help row.
pub fn option_left(id: OptionId) -> (left: String)
    ensures
        left@ == spec_option_left(id),
{
    let mut left = String::new();
    match id.short_name() {
        Some(c) => {
            left.push('-');
            left.push(c);
            left.push(',');
            left.push(' ');
        },
        None => {},
    }
    left.append(id.long_name());
    match (id.value_mode(), id.value_name()) {
        (ValueMode::Required, Some(name)) => {
            left.append("=");
            left.append(name);
        },
        (ValueMode::OptionalEquals, Some(name)) => {
            left.append("[=");
            left.append(name);
            left.append("]");
        },
        _ => {},
    }
    assert(left@ =~= spec_option_left(id));
    left
}

/// The printed lines of the rows of `ids` that belong to `section`.
pub open spec fn section_lines(ids: Seq<OptionId>, section: HelpSection) -> Seq<Seq<char>>
    decreases ids.len(),
{
    if ids.len() == 0 {
        Seq::empty()
    } else {
        section_lines(ids.drop_last(), section) + if spec_section(ids.last()) == section {
            spec_row(spec_option_left(ids.last()), spec_description(ids.last()))
        } else {
            Seq::empty()
        }
    }
}

/// The printed lines of a list of fixed rows.
pub open spec fn rows_lines(rows: Seq<(Seq<char>, Seq<char>)>) -> Seq<Seq<char>>
    decreases rows.len(),
{
    if rows.len() == 0 {
        Seq::empty()
    } else {
        rows_lines(rows.drop_last()) + spec_row(rows.last().0, rows.last().1)
    }
}

/// The rows for `-` and `--`, which are not options of the table.
pub open spec fn special_rows() -> Seq<(Seq<char>, Seq<char>)> {
    seq![
        ("-"@, "script read from stdin (default if no file name is provided, interactive mode if a tty)"@),
        ("--"@, "indicate the end of node options"@),
    ]
}

/// The rows for the environment variables the wrapper reads or honours.
pub open spec fn environment_rows() -> Seq<(Seq<char>, Seq<char>)> {
    seq![
        ("FORCE_COLOR"@, "when set to 'true', 1, 2, 3, or an empty string causes NO_COLOR and NODE_DISABLE_COLORS to be ignored."@),
        ("NO_COLOR"@, "Alias for NODE_DISABLE_COLORS"@),
        ("NODE_DISABLE_COLORS"@, "set to 1 to disable colors in the REPL"@),
        ("NODE_OPTIONS"@, "environment-allowed Node options are translated before CLI options"@),
    ]
}

/// The whole `--help` text, line by line.
pub open spec fn spec_help_lines(ids: Seq<OptionId>) -> Seq<Seq<char>> {
    seq![
        "Bunode is a Node.js-compatible wrapper that runs programs on Bun."@,
        ""@,
        "Usage: node [options] [ script.js ] [arguments]"@,
        ""@,
        "Options:"@,
    ] + rows_lines(special_rows()) + section_lines(ids, HelpSection::Node)
        + seq![""@, "Bun-specific options:"@] + section_lines(ids, HelpSection::Bun)
        + seq![""@, "Environment variables:"@] + rows_lines(environment_rows())
}

proof fn lemma_rows_lines_push(rows: Seq<(Seq<char>, Seq<char>)>, row: (Seq<char>, Seq<char>))
    ensures
        rows_lines(rows.push(row)) == rows_lines(rows) + spec_row(row.0, row.1),
{
    assert(rows.push(row).drop_last() =~= rows);
}

fn append_lines(out: &mut Vec<String>, lines: Vec<String>)
    ensures
        final(out).deep_view() == old(out).deep_view() + lines.deep_view(),
{
    extend_strings(out, &lines, 0);
    assert(lines.deep_view().skip(0) =~= lines.deep_view());
}

fn append_row(out: &mut Vec<String>, left: &str, description: &str)
    ensures
        final(out).deep_view() == old(out).deep_view() + spec_row(left@, description@),
{
    let row = HelpRow { left: owned(left), description: owned(description) };
    append_lines(out, print_row(&row));
}

fn append_section(out: &mut Vec<String>, shape: &OptionShape, section: HelpSection)
    ensures
        final(out).deep_view() == old(out).deep_view() + section_lines(shape.spec_ids(), section),
{
    let ids = shape.specs();
    let ghost start = out.deep_view();
    let mut i: usize = 0;
    assert(ids@.take(0) =~= Seq::<OptionId>::empty());
    assert(start + section_lines(ids@.take(0), section) =~= start);
    while i < ids.len()
        invariant
            i <= ids@.len(),
            ids@ == shape.spec_ids(),
            out.deep_view() == start + section_lines(ids@.take(i as int), section),
        decreases ids.len() - i,
    {
        let id = ids[i];
        assert(ids@.take(i + 1).drop_last() =~= ids@.take(i as int));
        assert(ids@.take(i + 1).last() == id);
        if id.section() == section {
            let left = option_left(id);
            append_row(out, left.as_str(), id.description());
            assert(out.deep_view() =~= start + section_lines(ids@.take(i + 1), section));
        } else {
            assert(section_lines(ids@.take(i + 1), section) =~= section_lines(ids@.take(i as int), section));
        }
        i += 1;
    }
    assert(ids@.take(ids@.len() as int) =~= ids@);
}

fn push_line(out: &mut Vec<String>, line: &str)
    ensures
        final(out).deep_view() == old(out).deep_view().push(line@),
{
    push_string(out, owned(line));
}

/// The whole `--help` text for the options `shape` supports, line by line.
pub fn help_lines(shape: &OptionShape) -> (lines: Vec<String>)
    ensures
        lines.deep_view() == spec_help_lines(shape.spec_ids()),
{
    let mut out: Vec<String> = Vec::new();
    assert(out.deep_view() =~= Seq::<Seq<char>>::empty());
    push_line(&mut out, "Bunode is a Node.js-compatible wrapper that runs programs on Bun.");
    push_line(&mut out, "");
    push_line(&mut out, "Usage: node [options] [ script.js ] [arguments]");
    push_line(&mut out, "");
    push_line(&mut out, "Options:");
    let ghost intro = out.deep_view();
    append_row(&mut out, "-", "script read from stdin (default if no file name is provided, interactive mode if a tty)");
    append_row(&mut out, "--", "indicate the end of node options");
    let ghost special = out.deep_view();
    proof {
        let r = special_rows();
        let e = Seq::<(Seq<char>, Seq<char>)>::empty();
        lemma_rows_lines_push(e, r[0]);
        lemma_rows_lines_push(e.push(r[0]), r[1]);
        assert(e.push(r[0]).push(r[1]) =~= r);
        assert(rows_lines(e) =~= Seq::<Seq<char>>::empty());
        assert(special =~= intro + rows_lines(r));
    }
    append_section(&mut out, shape, HelpSection::Node);
    push_line(&mut out, "");
    push_line(&mut out, "Bun-specific options:");
    append_section(&mut out, shape, HelpSection::Bun);
    push_line(&mut out, "");
    push_line(&mut out, "Environment variables:");
    let ghost before_env = out.deep_view();
    append_row(&mut out, "FORCE_COLOR", "when set to 'true', 1, 2, 3, or an empty string causes NO_COLOR and NODE_DISABLE_COLORS to be ignored.");
    append_row(&mut out, "NO_COLOR", "Alias for NODE_DISABLE_COLORS");
    append_row(&mut out, "NODE_DISABLE_COLORS", "set to 1 to disable colors in the REPL");
    append_row(&mut out, "NODE_OPTIONS", "environment-allowed Node options are translated before CLI options");
    proof {
        let r = environment_rows();
        let e = Seq::<(Seq<char>, Seq<char>)>::empty();
        lemma_rows_lines_push(e, r[0]);
        lemma_rows_lines_push(e.push(r[0]), r[1]);
        lemma_rows_lines_push(e.push(r[0]).push(r[1]), r[2]);
        lemma_rows_lines_push(e.push(r[0]).push(r[1]).push(r[2]), r[3]);
        assert(e.push(r[0]).push(r[1]).push(r[2]).push(r[3]) =~= r);
        assert(rows_lines(e) =~= Seq::<Seq<char>>::empty());
        assert(out.deep_view() =~= before_env + rows_lines(r));
    }
    assert(out.deep_view() =~= spec_help_lines(shape.spec_ids()));
    out
}

} // verus!
