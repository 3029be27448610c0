//! Errors reported by the wrapper, with their messages and exit codes.

use vstd::prelude::*;

use crate::text::{concat, concat3, owned, push_signed_decimal, signed_decimal};

verus! {

/// An error that already carries its final message and process exit code.
#[derive(Debug)]
pub struct CliError {
    message: String,
    exit_code: u8,
}

impl CliError {
    pub closed spec fn spec_message(&self) -> Seq<char> {
        self.message@
    }

    pub closed spec fn spec_exit_code(&self) -> u8 {
        self.exit_code
    }

    /// A usage error: exit code 9, as Node uses for invalid arguments.
    pub fn new(message: String) -> (result: Self)
        ensures
            result.spec_message() == message@,
            result.spec_exit_code() == 9,
    {
        CliError { message, exit_code: 9 }
    }

    /// A runtime failure: exit code 1.
    pub fn failure(message: String) -> (result: Self)
        ensures
            result.spec_message() == message@,
            result.spec_exit_code() == 1,
    {
        CliError { message, exit_code: 1 }
    }

    pub fn exit_code(&self) -> (code: u8)
        ensures
            code == self.spec_exit_code(),
    {
        self.exit_code
    }

    /// The rendered error: `bunode: ` followed by the message.
    pub fn to_message(&self) -> (text: String)
        ensures
            text@ == "bunode: "@ + self.spec_message(),
    {
        concat("bunode: ", self.message.as_str())
    }
}

/// Invalid command lines and `NODE_OPTIONS` values.
#[derive(Debug)]
pub enum CliUsageError {
    NodeOptionsDisallowed(String),
    OptionRequiresValue(String),
    UnsupportedNodeOption(String),
    OptionDoesNotTakeValue(String),
    FileNotFound(String),
    UnterminatedNodeOptionsQuote,
    UnsupportedDataUrlImport,
    UnsupportedNodeInspect,
    InvalidDataUrlImport,
    InvalidDataUrlPercentEscape,
    InvalidDataUrlBase64Payload,
}

/// The mathematical form of a [`CliUsageError`].
pub enum UsageErrorView {
    NodeOptionsDisallowed(Seq<char>),
    OptionRequiresValue(Seq<char>),
    UnsupportedNodeOption(Seq<char>),
    OptionDoesNotTakeValue(Seq<char>),
    FileNotFound(Seq<char>),
    UnterminatedNodeOptionsQuote,
    UnsupportedDataUrlImport,
    UnsupportedNodeInspect,
    InvalidDataUrlImport,
    InvalidDataUrlPercentEscape,
    InvalidDataUrlBase64Payload,
}

impl View for CliUsageError {
    type V = UsageErrorView;

    open spec fn view(&self) -> UsageErrorView {
        match self {
            CliUsageError::NodeOptionsDisallowed(s) => UsageErrorView::NodeOptionsDisallowed(s@),
            CliUsageError::OptionRequiresValue(s) => UsageErrorView::OptionRequiresValue(s@),
            CliUsageError::UnsupportedNodeOption(s) => UsageErrorView::UnsupportedNodeOption(s@),
            CliUsageError::OptionDoesNotTakeValue(s) => UsageErrorView::OptionDoesNotTakeValue(s@),
            CliUsageError::FileNotFound(s) => UsageErrorView::FileNotFound(s@),
            CliUsageError::UnterminatedNodeOptionsQuote => UsageErrorView::UnterminatedNodeOptionsQuote,
            CliUsageError::UnsupportedDataUrlImport => UsageErrorView::UnsupportedDataUrlImport,
            CliUsageError::UnsupportedNodeInspect => UsageErrorView::UnsupportedNodeInspect,
            CliUsageError::InvalidDataUrlImport => UsageErrorView::InvalidDataUrlImport,
            CliUsageError::InvalidDataUrlPercentEscape => UsageErrorView::InvalidDataUrlPercentEscape,
            CliUsageError::InvalidDataUrlBase64Payload => UsageErrorView::InvalidDataUrlBase64Payload,
        }
    }
}

/// The message of a usage error.
pub open spec fn usage_message(e: UsageErrorView) -> Seq<char> {
    match e {
        UsageErrorView::NodeOptionsDisallowed(s) => "`"@ + s + "` is not allowed in NODE_OPTIONS"@,
        UsageErrorView::OptionRequiresValue(s) => "option `"@ + s + "` requires a value"@,
        UsageErrorView::UnsupportedNodeOption(s) => "unsupported Node.js option `"@ + s + "`"@,
        UsageErrorView::OptionDoesNotTakeValue(s) => "option `"@ + s + "` does not take a value"@,
        UsageErrorView::FileNotFound(s) => s + ": not found"@,
        UsageErrorView::UnterminatedNodeOptionsQuote => "unterminated quote in NODE_OPTIONS"@,
        UsageErrorView::UnsupportedDataUrlImport => "data URL imports passed to --import are not supported"@,
        UsageErrorView::UnsupportedNodeInspect => "`node inspect` is not supported because Bun does not provide Node's built-in CLI debugger.\nUse `node --inspect` / `node --inspect-brk` compatible flags instead."@,
        UsageErrorView::InvalidDataUrlImport => "data URL import is missing a `,` before its payload"@,
        UsageErrorView::InvalidDataUrlPercentEscape => "data URL import has an invalid percent escape"@,
        UsageErrorView::InvalidDataUrlBase64Payload => "data URL import has an invalid base64 payload"@,
    }
}

impl CliUsageError {
    pub fn message(&self) -> (text: String)
        ensures
            text@ == usage_message(self@),
    {
        match self {
            CliUsageError::NodeOptionsDisallowed(s) => concat3("`", s.as_str(), "` is not allowed in NODE_OPTIONS"),
            CliUsageError::OptionRequiresValue(s) => concat3("option `", s.as_str(), "` requires a value"),
            CliUsageError::UnsupportedNodeOption(s) => concat3("unsupported Node.js option `", s.as_str(), "`"),
            CliUsageError::OptionDoesNotTakeValue(s) => concat3("option `", s.as_str(), "` does not take a value"),
            CliUsageError::FileNotFound(s) => concat(s.as_str(), ": not found"),
            CliUsageError::UnterminatedNodeOptionsQuote => owned("unterminated quote in NODE_OPTIONS"),
            CliUsageError::UnsupportedDataUrlImport => owned("data URL imports passed to --import are not supported"),
            CliUsageError::UnsupportedNodeInspect => owned("`node inspect` is not supported because Bun does not provide Node's built-in CLI debugger.\nUse `node --inspect` / `node --inspect-brk` compatible flags instead."),
            CliUsageError::InvalidDataUrlImport => owned("data URL import is missing a `,` before its payload"),
            CliUsageError::InvalidDataUrlPercentEscape => owned("data URL import has an invalid percent escape"),
            CliUsageError::InvalidDataUrlBase64Payload => owned("data URL import has an invalid base64 payload"),
        }
    }
}

/// Failures of the environment rather than of the command line.
#[derive(Debug)]
pub enum CliFailureError {
    DashScriptRequiresExplicitRelativePath(String),
    PrepareDataUrlImport(String),
    ReadEnvFile { path: String, source: String },
}

pub enum FailureErrorView {
    DashScriptRequiresExplicitRelativePath(Seq<char>),
    PrepareDataUrlImport(Seq<char>),
    ReadEnvFile { path: Seq<char>, source: Seq<char> },
}

impl View for CliFailureError {
    type V = FailureErrorView;

    open spec fn view(&self) -> FailureErrorView {
        match self {
            CliFailureError::DashScriptRequiresExplicitRelativePath(s) => FailureErrorView::DashScriptRequiresExplicitRelativePath(s@),
            CliFailureError::PrepareDataUrlImport(s) => FailureErrorView::PrepareDataUrlImport(s@),
            CliFailureError::ReadEnvFile { path, source } => FailureErrorView::ReadEnvFile { path: path@, source: source@ },
        }
    }
}

pub open spec fn failure_message(e: FailureErrorView) -> Seq<char> {
    match e {
        FailureErrorView::DashScriptRequiresExplicitRelativePath(s) =>
            "script `"@ + s + "` starts with `-`; pass it with an explicit relative path like `./"@ + s + "`."@,
        FailureErrorView::PrepareDataUrlImport(s) => "failed to prepare data URL import: "@ + s,
        FailureErrorView::ReadEnvFile { path, source } => "failed to read "@ + path + ": "@ + source,
    }
}

impl CliFailureError {
    pub fn message(&self) -> (text: String)
        ensures
            text@ == failure_message(self@),
    {
        match self {
            CliFailureError::DashScriptRequiresExplicitRelativePath(s) => {
                let mut text = concat3("script `", s.as_str(), "` starts with `-`; pass it with an explicit relative path like `./");
                text.append(s.as_str());
                text.append("`.");
                text
            },
            CliFailureError::PrepareDataUrlImport(s) => concat("failed to prepare data URL import: ", s.as_str()),
            CliFailureError::ReadEnvFile { path, source } => {
                let mut text = concat3("failed to read ", path.as_str(), ": ");
                text.append(source.as_str());
                text
            },
        }
    }
}

/// Every error the wrapper reports.
#[derive(Debug)]
pub enum BunodeError {
    Cli(CliError),
    Usage(CliUsageError),
    Failure(CliFailureError),
    CommandExecution(String),
    CommandExecutionWithExitCode(i32),
    BunBinaryNotFound,
    BunBinaryNotFoundWithPath(String),
    PreloadPreparation { path: String, source: String },
    BadBunVersion(String),
    BadNodeCompatibleShimVersion(String),
    UnsupporttedBunVersion(String),
}

/// The mathematical form of a [`BunodeError`].
pub enum BunodeErrorView {
    Cli { message: Seq<char>, exit_code: u8 },
    Usage(UsageErrorView),
    Failure(FailureErrorView),
    CommandExecution(Seq<char>),
    CommandExecutionWithExitCode(int),
    BunBinaryNotFound,
    BunBinaryNotFoundWithPath(Seq<char>),
    PreloadPreparation { path: Seq<char>, source: Seq<char> },
    BadBunVersion(Seq<char>),
    BadNodeCompatibleShimVersion(Seq<char>),
    UnsupporttedBunVersion(Seq<char>),
}

impl View for BunodeError {
    type V = BunodeErrorView;

    open spec fn view(&self) -> BunodeErrorView {
        match self {
            BunodeError::Cli(e) => BunodeErrorView::Cli { message: e.spec_message(), exit_code: e.spec_exit_code() },
            BunodeError::Usage(e) => BunodeErrorView::Usage(e@),
            BunodeError::Failure(e) => BunodeErrorView::Failure(e@),
            BunodeError::CommandExecution(s) => BunodeErrorView::CommandExecution(s@),
            BunodeError::CommandExecutionWithExitCode(c) => BunodeErrorView::CommandExecutionWithExitCode(*c as int),
            BunodeError::BunBinaryNotFound => BunodeErrorView::BunBinaryNotFound,
            BunodeError::BunBinaryNotFoundWithPath(p) => BunodeErrorView::BunBinaryNotFoundWithPath(p@),
            BunodeError::PreloadPreparation { path, source } => BunodeErrorView::PreloadPreparation { path: path@, source: source@ },
            BunodeError::BadBunVersion(s) => BunodeErrorView::BadBunVersion(s@),
            BunodeError::BadNodeCompatibleShimVersion(s) => BunodeErrorView::BadNodeCompatibleShimVersion(s@),
            BunodeError::UnsupporttedBunVersion(s) => BunodeErrorView::UnsupporttedBunVersion(s@),
        }
    }
}

/// The rendered message of an error (what `Display` shows in the program).
pub open spec fn error_message(e: BunodeErrorView) -> Seq<char> {
    match e {
        BunodeErrorView::Cli { message, .. } => "bunode: "@ + message,
        BunodeErrorView::Usage(u) => usage_message(u),
        BunodeErrorView::Failure(f) => failure_message(f),
        BunodeErrorView::CommandExecution(s) => "Error to execute bun binary: "@ + s,
        BunodeErrorView::CommandExecutionWithExitCode(c) => "Bun binary failed to run with code "@ + signed_decimal(c),
        BunodeErrorView::BunBinaryNotFound => "Bun binary not found."@,
        BunodeErrorView::BunBinaryNotFoundWithPath(p) => "Bun binary not found at "@ + p + "."@,
        BunodeErrorView::PreloadPreparation { path, source } => "Failed to prepare Bunode preload at "@ + path + ": "@ + source,
        BunodeErrorView::BadBunVersion(s) => "Failed to parse Bun's version "@ + s + "."@,
        BunodeErrorView::BadNodeCompatibleShimVersion(s) => "Failed to parse Bun's masqueraded Node.js version "@ + s + "."@,
        BunodeErrorView::UnsupporttedBunVersion(s) => "Bun "@ + s + " is not supported. Please use a stable Bun >=1.4.0."@,
    }
}

/// The process exit code of an error: usage errors exit with 9, everything else with 1
/// unless the error carries its own code.
pub open spec fn error_exit_code(e: BunodeErrorView) -> u8 {
    match e {
        BunodeErrorView::Cli { exit_code, .. } => exit_code,
        BunodeErrorView::Usage(_) => 9,
        _ => 1,
    }
}

/// The line printed on standard error for an error.
pub open spec fn error_line(e: BunodeErrorView) -> Seq<char> {
    match e {
        BunodeErrorView::Cli { .. } => error_message(e),
        _ => "bunode: "@ + error_message(e),
    }
}

impl BunodeError {
    /// The rendered message (without the `bunode: ` prefix that printing adds).
    pub fn to_message(&self) -> (text: String)
        ensures
            text@ == error_message(self@),
    {
        match self {
            BunodeError::Cli(e) => e.to_message(),
            BunodeError::Usage(e) => e.message(),
            BunodeError::Failure(e) => e.message(),
            BunodeError::CommandExecution(s) => concat("Error to execute bun binary: ", s.as_str()),
            BunodeError::CommandExecutionWithExitCode(c) => {
                let mut text = owned("Bun binary failed to run with code ");
                push_signed_decimal(&mut text, *c as i64);
                text
            },
            BunodeError::BunBinaryNotFound => owned("Bun binary not found."),
            BunodeError::BunBinaryNotFoundWithPath(p) => concat3("Bun binary not found at ", p.as_str(), "."),
            BunodeError::PreloadPreparation { path, source } => {
                let mut text = concat3("Failed to prepare Bunode preload at ", path.as_str(), ": ");
                text.append(source.as_str());
                text
            },
            BunodeError::BadBunVersion(s) => concat3("Failed to parse Bun's version ", s.as_str(), "."),
            BunodeError::BadNodeCompatibleShimVersion(s) => concat3("Failed to parse Bun's masqueraded Node.js version ", s.as_str(), "."),
            BunodeError::UnsupporttedBunVersion(s) => concat3("Bun ", s.as_str(), " is not supported. Please use a stable Bun >=1.4.0."),
        }
    }

    pub fn exit_code(&self) -> (code: u8)
        ensures
            code == error_exit_code(self@),
    {
        match self {
            BunodeError::Cli(e) => e.exit_code(),
            BunodeError::Usage(_) => 9,
            _ => 1,
        }
    }

    /// The line the program prints on standard error for this error.
    pub fn print_line(&self) -> (text: String)
        ensures
            text@ == error_line(self@),
    {
        match self {
            BunodeError::Cli(e) => e.to_message(),
            _ => {
                let message = self.to_message();
                concat("bunode: ", message.as_str())
            },
        }
    }
}

} // verus!
