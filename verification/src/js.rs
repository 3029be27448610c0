//! JavaScript string literals for generated source.

use vstd::prelude::*;

use crate::text::chars_of;

verus! {

/// Unicode general category `Cc` (what `char::is_control` tests).
pub open spec fn spec_is_control(c: char) -> bool {
    (c as u32) <= 0x1f || (0x7f <= (c as u32) && (c as u32) <= 0x9f)
}

pub open spec fn hex_digit(n: nat) -> char {
    if n < 10 { ((n + 48) as u32) as char } else { ((n + 87) as u32) as char }
}

/// Four lowercase hexadecimal digits of `n` (as `{:04x}` prints `n < 0x10000`).
pub open spec fn hex4(n: nat) -> Seq<char> {
    seq![hex_digit((n / 4096) % 16), hex_digit((n / 256) % 16), hex_digit((n / 16) % 16), hex_digit(n % 16)]
}

/// How one character is written inside a double-quoted JSON string.
pub open spec fn escape_char(c: char) -> Seq<char> {
    if c == '"' {
        seq!['\\', '"']
    } else if c == '\\' {
        seq!['\\', '\\']
    } else if c == '\n' {
        seq!['\\', 'n']
    } else if c == '\r' {
        seq!['\\', 'r']
    } else if c == '\t' {
        seq!['\\', 't']
    } else if spec_is_control(c) {
        seq!['\\', 'u'] + hex4(c as nat)
    } else {
        seq![c]
    }
}

/// The JSON escape of a whole string, character by character.
pub open spec fn escape_json(s: Seq<char>) -> Seq<char>
    decreases s.len(),
{
    if s.len() == 0 {
        Seq::empty()
    } else {
        escape_json(s.drop_last()) + escape_char(s.last())
    }
}

/// A double-quoted JSON (and JavaScript) string literal for `s`.
pub open spec fn spec_js_string_literal(s: Seq<char>) -> Seq<char> {
    seq!['"'] + escape_json(s) + seq!['"']
}

fn is_control(c: char) -> (result: bool)
    ensures
        result == spec_is_control(c),
{
    (c as u32) <= 0x1f || (0x7f <= (c as u32) && (c as u32) <= 0x9f)
}

pub(crate) fn hex(n: u32) -> (c: char)
    requires
        n < 16,
    ensures
        c == hex_digit(n as nat),
{
    if n == 0 { '0' } else if n == 1 { '1' } else if n == 2 { '2' } else if n == 3 { '3' }
    else if n == 4 { '4' } else if n == 5 { '5' } else if n == 6 { '6' } else if n == 7 { '7' }
    else if n == 8 { '8' } else if n == 9 { '9' } else if n == 10 { 'a' } else if n == 11 { 'b' }
    else if n == 12 { 'c' } else if n == 13 { 'd' } else if n == 14 { 'e' } else { 'f' }
}

fn push_escaped(out: &mut String, c: char)
    ensures
        final(out)@ == old(out)@ + escape_char(c),
{
    if c == '"' {
        out.push('\\');
        out.push('"');
    } else if c == '\\' {
        out.push('\\');
        out.push('\\');
    } else if c == '\n' {
        out.push('\\');
        out.push('n');
    } else if c == '\r' {
        out.push('\\');
        out.push('r');
    } else if c == '\t' {
        out.push('\\');
        out.push('t');
    } else if is_control(c) {
        let n = c as u32;
        out.push('\\');
        out.push('u');
        out.push(hex((n / 4096) % 16));
        out.push(hex((n / 256) % 16));
        out.push(hex((n / 16) % 16));
        out.push(hex(n % 16));
    } else {
        out.push(c);
    }
    assert(final(out)@ =~= old(out)@ + escape_char(c));
}

/// Appends the JSON escape of `value` to `out`.
pub fn push_escaped_json(out: &mut String, value: &str)
    ensures
        final(out)@ == old(out)@ + escape_json(value@),
{
    let chars = chars_of(value);
    let ghost start = out@;
    let mut i: usize = 0;
    assert(chars@.take(0) =~= Seq::<char>::empty());
    while i < chars.len()
        invariant
            chars@ == value@,
            i <= chars@.len(),
            out@ == start + escape_json(chars@.take(i as int)),
        decreases chars.len() - i,
    {
        assert(chars@.take(i + 1).drop_last() =~= chars@.take(i as int));
        assert(chars@.take(i + 1).last() == chars@[i as int]);
        push_escaped(out, chars[i]);
        assert(out@ =~= start + escape_json(chars@.take(i + 1)));
        i += 1;
    }
    assert(chars@.take(chars@.len() as int) =~= chars@);
}

/// The JSON escape of `value`.
pub fn escape_json_string(value: &str) -> (result: String)
    ensures
        result@ == escape_json(value@),
{
    let mut result = String::new();
    push_escaped_json(&mut result, value);
    assert(result@ =~= escape_json(value@));
    result
}

/// `value` as a double-quoted JavaScript string literal.
pub fn js_string_literal(value: &str) -> (result: String)
    ensures
        result@ == spec_js_string_literal(value@),
{
    let mut result = String::new();
    result.push('"');
    push_escaped_json(&mut result, value);
    result.push('"');
    assert(result@ =~= spec_js_string_literal(value@));
    result
}

} // verus!
