//! Splitting `NODE_OPTIONS` into tokens before option parsing.
//!
//! Node reads this variable without a shell: whitespace separates tokens, double quotes
//! group, `\"` inside quotes is a literal quote, and nothing else is special.

use vstd::prelude::*;

use crate::error::{BunodeError, BunodeErrorView, CliUsageError, UsageErrorView};
use crate::text::{chars_of, is_whitespace, spec_is_whitespace};

verus! {

/// Appends the pending token when it is not empty.
pub open spec fn flush_token(done: Seq<Seq<char>>, current: Seq<char>) -> Seq<Seq<char>> {
    if current.len() > 0 { done.push(current) } else { done }
}

/// The tokens of `s[i..]`, given the tokens already produced, the token being built,
/// and whether a double quote is open; `None` when a quote is left open.
pub open spec fn split_from(
    s: Seq<char>,
    i: int,
    done: Seq<Seq<char>>,
    current: Seq<char>,
    quoted: bool,
) -> Option<Seq<Seq<char>>>
    decreases s.len() - i,
{
    if i < 0 || i >= s.len() {
        if quoted { None } else { Some(flush_token(done, current)) }
    } else {
        let c = s[i];
        if quoted && c == '\\' && i + 1 < s.len() && s[i + 1] == '"' {
            split_from(s, i + 2, done, current.push('"'), quoted)
        } else if quoted && c == '"' {
            split_from(s, i + 1, done, current, false)
        } else if !quoted && c == '"' {
            split_from(s, i + 1, done, current, true)
        } else if !quoted && spec_is_whitespace(c) {
            split_from(s, i + 1, flush_token(done, current), Seq::empty(), false)
        } else {
            split_from(s, i + 1, done, current.push(c), quoted)
        }
    }
}

/// The tokens of a `NODE_OPTIONS` value, or `None` when it leaves a quote open.
pub open spec fn spec_split_node_options(s: Seq<char>) -> Option<Seq<Seq<char>>> {
    split_from(s, 0, Seq::empty(), Seq::empty(), false)
}

/// Splits a `NODE_OPTIONS` value into tokens.
pub fn split_node_options(value: &str) -> (result: Result<Vec<String>, BunodeError>)
    ensures
        match result {
            Ok(tokens) => spec_split_node_options(value@) == Some(tokens.deep_view()),
            Err(e) => spec_split_node_options(value@).is_none()
                && e@ == BunodeErrorView::Usage(UsageErrorView::UnterminatedNodeOptionsQuote),
        },
{
    let chars = chars_of(value);
    let mut result: Vec<String> = Vec::new();
    let mut current = String::new();
    let mut quoted = false;
    let mut i: usize = 0;
    assert(result.deep_view() =~= Seq::<Seq<char>>::empty());
    while i < chars.len()
        invariant
            chars@ == value@,
            i <= chars@.len(),
            split_from(chars@, i as int, result.deep_view(), current@, quoted)
                == spec_split_node_options(value@),
        decreases chars.len() - i,
    {
        let c = chars[i];
        if quoted && c == '\\' && i + 1 < chars.len() && chars[i + 1] == '"' {
            current.push('"');
            i += 2;
        } else if quoted && c == '"' {
            quoted = false;
            i += 1;
        } else if !quoted && c == '"' {
            quoted = true;
            i += 1;
        } else if !quoted && is_whitespace(c) {
            if !current.as_str().is_empty() {
                let ghost before = result.deep_view();
                result.push(current);
                assert(result.deep_view() =~= before.push(current@));
            }
            current = String::new();
            i += 1;
        } else {
            current.push(c);
            i += 1;
        }
    }
    if quoted {
        return Err(BunodeError::Usage(CliUsageError::UnterminatedNodeOptionsQuote));
    }
    if !current.as_str().is_empty() {
        let ghost before = result.deep_view();
        result.push(current);
        assert(result.deep_view() =~= before.push(current@));
    }
    Ok(result)
}

/// Where the word starting at or after `i` ends: the first whitespace character at or
/// after `i`, or the end of `s`.
pub open spec fn word_end(s: Seq<char>, i: int) -> int
    decreases s.len() - i,
{
    if i < 0 || i >= s.len() {
        s.len() as int
    } else if spec_is_whitespace(s[i]) {
        i
    } else {
        word_end(s, i + 1)
    }
}

/// The word end lies between `i` and the end, and no whitespace comes before it.
pub proof fn lemma_word_end_bounds(s: Seq<char>, i: int)
    requires
        0 <= i <= s.len(),
    ensures
        i <= word_end(s, i) <= s.len(),
        forall|k: int| i <= k < word_end(s, i) ==> !spec_is_whitespace(#[trigger] s[k]),
    decreases s.len() - i,
{
    if i < s.len() && !spec_is_whitespace(s[i]) {
        lemma_word_end_bounds(s, i + 1);
    }
}

/// The words of `s[i..]`: its maximal runs of non-whitespace characters, in order.
pub open spec fn words_at(s: Seq<char>, i: int) -> Seq<Seq<char>>
    decreases s.len() - i,
{
    if i < 0 || i >= s.len() {
        Seq::empty()
    } else if spec_is_whitespace(s[i]) {
        words_at(s, i + 1)
    } else {
        let e = word_end(s, i + 1);
        proof {
            lemma_word_end_bounds(s, i + 1);
        }
        seq![s.subrange(i, e)] + words_at(s, e)
    }
}

/// What `str::split_whitespace` yields for `s`: its maximal runs of non-whitespace
/// characters, in order.
pub open spec fn whitespace_words(s: Seq<char>) -> Seq<Seq<char>> {
    words_at(s, 0)
}

proof fn lemma_split_without_quotes(s: Seq<char>, i: int, done: Seq<Seq<char>>, current: Seq<char>)
    requires
        0 <= i <= s.len(),
        forall|k: int| i <= k < s.len() ==> #[trigger] s[k] != '"',
    ensures
        split_from(s, i, done, current, false) == Some(
            if current.len() == 0 {
                done + words_at(s, i)
            } else {
                done.push(current + s.subrange(i, word_end(s, i))) + words_at(s, word_end(s, i))
            },
        ),
    decreases s.len() - i,
{
    lemma_word_end_bounds(s, i);
    if i == s.len() {
        assert(done + words_at(s, i) =~= done);
        assert(current + s.subrange(i, i) =~= current);
        assert(done.push(current) + words_at(s, i) =~= done.push(current));
    } else {
        let c = s[i];
        if spec_is_whitespace(c) {
            lemma_split_without_quotes(s, i + 1, flush_token(done, current), Seq::empty());
            assert(current + s.subrange(i, i) =~= current);
            assert(words_at(s, i) == words_at(s, i + 1));
            if current.len() > 0 {
                assert(done.push(current) + words_at(s, i) =~= flush_token(done, current) + words_at(s, i + 1));
            }
        } else {
            lemma_split_without_quotes(s, i + 1, done, current.push(c));
            lemma_word_end_bounds(s, i + 1);
            let e = word_end(s, i + 1);
            assert(word_end(s, i) == e);
            assert(current.push(c) + s.subrange(i + 1, e) =~= current + s.subrange(i, e));
            if current.len() == 0 {
                assert(current + s.subrange(i, e) =~= s.subrange(i, e));
                assert(done + words_at(s, i) =~= done.push(s.subrange(i, e)) + words_at(s, e));
            }
        }
    }
}

/// A `NODE_OPTIONS` value without double quotes splits as `str::split_whitespace`
/// splits it: single quotes and backslashes are ordinary characters.
pub proof fn law_unquoted_node_options_split_on_whitespace(s: Seq<char>)
    requires
        forall|k: int| 0 <= k < s.len() ==> #[trigger] s[k] != '"',
    ensures
        spec_split_node_options(s) == Some(whitespace_words(s)),
{
    lemma_split_without_quotes(s, 0, Seq::empty(), Seq::empty());
    assert(Seq::<Seq<char>>::empty() + words_at(s, 0) =~= words_at(s, 0));
}

} // verus!
