//! The prefix manager: the `bunode` command that turns Node.js installations into
//! Bun-backed ones and back.

pub mod args;
pub mod config;
pub mod download;
pub mod prefix;
pub mod patch;
pub mod files;

use vstd::prelude::*;

verus! {

/// An error of the prefix manager; it is printed after `bunode: ` and the process exits
/// with status 1.
#[derive(Debug)]
pub struct CliError {
    pub message: String,
}

impl CliError {
    pub fn new(message: String) -> (error: Self)
        ensures
            error.message@ == message@,
    {
        CliError { message }
    }
}

} // verus!
