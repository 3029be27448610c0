//! Env-file handling for early `NODE_OPTIONS` discovery.
//!
//! The parser never touches the file system: what it needs to know about each env
//! file named on the command line is handed to it as an [`EnvFiles`] table.

use vstd::prelude::*;

use crate::error::{BunodeError, BunodeErrorView, CliFailureError, CliUsageError, FailureErrorView, UsageErrorView};
use crate::text::{opt_view, owned, same_text};

verus! {

/// The `(name, value)` assignments that `deno_dotenv`'s env-file parser reports for
/// `content`, in the order it reports them.
pub uninterp spec fn dotenv_assignments(content: Seq<char>) -> Seq<(Seq<char>, Seq<char>)>;

/// Runs `deno_dotenv::parse_env_content_hook` on `content` and collects every
/// assignment it reports, in order. Claimed: the result is a function of `content`
/// alone (the hook variant performs no variable substitution and reads no
/// environment); what that function is, is not stated.
#[verifier::external_body]
fn dotenv_pairs(content: &str) -> (pairs: Vec<(String, String)>)
    ensures
        pair_views(pairs@) == dotenv_assignments(content@),
{
    let mut pairs = Vec::new();
    deno_dotenv::parse_env_content_hook(content, &mut |name, value| {
        pairs.push((name.to_string(), value.to_string()))
    });
    pairs
}

/// The value of the last assignment to `key`, if any.
pub open spec fn last_assignment(pairs: Seq<(Seq<char>, Seq<char>)>, key: Seq<char>) -> Option<Seq<char>>
    decreases pairs.len(),
{
    if pairs.len() == 0 {
        None
    } else if pairs.last().0 == key {
        Some(pairs.last().1)
    } else {
        last_assignment(pairs.drop_last(), key)
    }
}

/// The `NODE_OPTIONS` value an env file sets: its last assignment wins.
pub open spec fn spec_env_node_options(content: Seq<char>) -> Option<Seq<char>> {
    last_assignment(dotenv_assignments(content), "NODE_OPTIONS"@)
}

/// The views of `(name, value)` pairs.
pub open spec fn pair_views(pairs: Seq<(String, String)>) -> Seq<(Seq<char>, Seq<char>)> {
    pairs.map_values(|p: (String, String)| (p.0@, p.1@))
}

/// The value of the last `NODE_OPTIONS` assignment among the env-file assignments
/// `pairs`, if there is one.
pub fn node_options_from_assignments(pairs: &Vec<(String, String)>) -> (node_options: Option<String>)
    ensures
        opt_view(node_options) == last_assignment(pair_views(pairs@), "NODE_OPTIONS"@),
{
    let ghost all = pair_views(pairs@);
    let mut result: Option<String> = None;
    let mut i: usize = 0;
    assert(all.take(0) =~= Seq::<(Seq<char>, Seq<char>)>::empty());
    while i < pairs.len()
        invariant
            i <= pairs@.len(),
            all == pair_views(pairs@),
            opt_view(result) == last_assignment(all.take(i as int), "NODE_OPTIONS"@),
        decreases pairs.len() - i,
    {
        assert(all.take(i + 1).drop_last() =~= all.take(i as int));
        assert(all.take(i + 1).last() == all[i as int]);
        if same_text(pairs[i].0.as_str(), "NODE_OPTIONS") {
            result = Some(pairs[i].1.clone());
        }
        i += 1;
    }
    assert(all.take(pairs@.len() as int) =~= all);
    result
}

/// Reads the `NODE_OPTIONS` assignment of an env file's content.
pub fn read_node_options_from_source(source: &str) -> (node_options: Option<String>)
    ensures
        opt_view(node_options) == spec_env_node_options(source@),
{
    let pairs = dotenv_pairs(source);
    node_options_from_assignments(&pairs)
}

/// What the file system says about an env file.
pub enum EnvFileStatus {
    /// The path is not a regular file.
    Missing,
    /// The path is a file, but reading it as text failed with this message.
    Unreadable(String),
    /// The file's text.
    Contents(String),
}

pub enum EnvFileStatusView {
    Missing,
    Unreadable(Seq<char>),
    Contents(Seq<char>),
}

impl View for EnvFileStatus {
    type V = EnvFileStatusView;

    open spec fn view(&self) -> EnvFileStatusView {
        match self {
            EnvFileStatus::Missing => EnvFileStatusView::Missing,
            EnvFileStatus::Unreadable(m) => EnvFileStatusView::Unreadable(m@),
            EnvFileStatus::Contents(c) => EnvFileStatusView::Contents(c@),
        }
    }
}

/// The `NODE_OPTIONS` an env file yields, as `read_node_options` decides it.
pub open spec fn spec_read_node_options(path: Seq<char>, status: EnvFileStatusView) -> Result<Option<Seq<char>>, BunodeErrorView> {
    match status {
        EnvFileStatusView::Missing => Err(BunodeErrorView::Usage(UsageErrorView::FileNotFound(path))),
        EnvFileStatusView::Unreadable(message) => Err(BunodeErrorView::Failure(FailureErrorView::ReadEnvFile { path, source: message })),
        EnvFileStatusView::Contents(content) => Ok(spec_env_node_options(content)),
    }
}

/// Reads the `NODE_OPTIONS` assignment of the env file at `path`.
pub fn read_node_options(path: &str, status: &EnvFileStatus) -> (result: Result<Option<String>, BunodeError>)
    ensures
        match result {
            Ok(o) => spec_read_node_options(path@, status@) == Ok::<Option<Seq<char>>, BunodeErrorView>(opt_view(o)),
            Err(e) => spec_read_node_options(path@, status@) == Err::<Option<Seq<char>>, BunodeErrorView>(e@),
        },
{
    match status {
        EnvFileStatus::Missing => Err(BunodeError::Usage(CliUsageError::FileNotFound(owned(path)))),
        EnvFileStatus::Unreadable(message) => Err(BunodeError::Failure(CliFailureError::ReadEnvFile {
            path: owned(path),
            source: message.clone(),
        })),
        EnvFileStatus::Contents(content) => Ok(read_node_options_from_source(content.as_str())),
    }
}

/// The file-system facts known about env files, by path.
pub struct EnvFiles {
    entries: Vec<(String, EnvFileStatus)>,
}

/// The status recorded first for `path`.
pub open spec fn lookup_env_file(entries: Seq<(Seq<char>, EnvFileStatusView)>, path: Seq<char>) -> Option<EnvFileStatusView>
    decreases entries.len(),
{
    if entries.len() == 0 {
        None
    } else if entries[0].0 == path {
        Some(entries[0].1)
    } else {
        lookup_env_file(entries.drop_first(), path)
    }
}

impl View for EnvFiles {
    type V = Seq<(Seq<char>, EnvFileStatusView)>;

    closed spec fn view(&self) -> Seq<(Seq<char>, EnvFileStatusView)> {
        self.entries@.map_values(|e: (String, EnvFileStatus)| (e.0@, e.1@))
    }
}

impl EnvFiles {
    /// A table that knows nothing yet.
    pub fn new() -> (files: Self)
        ensures
            files@ == Seq::<(Seq<char>, EnvFileStatusView)>::empty(),
    {
        let files = EnvFiles { entries: Vec::new() };
        assert(files@ =~= Seq::<(Seq<char>, EnvFileStatusView)>::empty());
        files
    }

    /// Records what is known about `path`.
    pub fn insert(&mut self, path: String, status: EnvFileStatus)
        ensures
            final(self)@ == old(self)@.push((path@, status@)),
    {
        let ghost entry = (path@, status@);
        self.entries.push((path, status));
        assert(self@ =~= old(self)@.push(entry));
    }

    /// The status recorded for `path`.
    pub fn lookup(&self, path: &str) -> (status: Option<&EnvFileStatus>)
        ensures
            match status {
                Some(s) => lookup_env_file(self@, path@) == Some(s@),
                None => lookup_env_file(self@, path@).is_none(),
            },
    {
        let mut i: usize = 0;
        assert(self@.skip(0) =~= self@);
        while i < self.entries.len()
            invariant
                i <= self.entries@.len(),
                self@.len() == self.entries@.len(),
                lookup_env_file(self@, path@) == lookup_env_file(self@.skip(i as int), path@),
            decreases self.entries.len() - i,
        {
            assert(self@.skip(i as int).drop_first() =~= self@.skip(i + 1));
            assert(self@[i as int] == (self.entries@[i as int].0@, self.entries@[i as int].1@));
            if same_text(self.entries[i].0.as_str(), path) {
                return Some(&self.entries[i].1);
            }
            i += 1;
        }
        None
    }
}

} // verus!
