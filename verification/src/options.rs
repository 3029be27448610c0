//! The table of supported Node and Bunode options.
//!
//! The table is metadata only: names, value shape, where an option may come from, and
//! help text. What an option does is decided by the parser from its [`OptionEffect`].

use vstd::prelude::*;

use crate::text::same_text;

pub mod laws;

verus! {

/// Every option the translation layer knows.
#[derive(Clone, Copy, PartialEq, Eq, Debug, Structural)]
pub enum OptionId {
    Help,
    Version,
    Eval,
    Print,
    Require,
    Import,
    Inspect,
    InspectBrk,
    InspectWait,
    Conditions,
    CpuProf,
    CpuProfDir,
    CpuProfInterval,
    CpuProfName,
    HeapProf,
    HeapProfDir,
    HeapProfName,
    DnsResultOrder,
    EnvFile,
    ExposeGc,
    NoAddons,
    NoDeprecation,
    ThrowDeprecation,
    Title,
    UnhandledRejections,
    UseBundledCa,
    UseOpensslCa,
    UseSystemCa,
    ZeroFillBuffers,
    BunConfig,
    BunConsoleDepth,
    BunEnvFile,
    BunFetchPreconnect,
    BunHot,
    BunInstall,
    BunNoClearScreen,
    BunNoEnvFile,
    BunPort,
    BunPreferLatest,
    BunPreferOffline,
    BunPreload,
    BunSmol,
    BunUserAgent,
    BunWatch
}

/// How an option takes its value.
#[derive(Clone, Copy, PartialEq, Eq, Debug, Structural)]
pub enum ValueMode {
    /// A flag: `--flag` only.
    NoValue,
    /// `--name value` or `--name=value`.
    Required,
    /// `--name` or `--name=value`, never a separate argument.
    OptionalEquals,
}

/// Where an option is listed in the help output.
#[derive(Clone, Copy, PartialEq, Eq, Debug, Structural)]
pub enum HelpSection {
    Node,
    Bun,
}

/// What an option does to the translated invocation.
#[derive(Clone, Copy, PartialEq, Eq, Debug, Structural)]
pub enum OptionEffect {
    Help,
    Version,
    Eval,
    Print,
    Require,
    Import,
    /// Forward as a Bun flag.
    Flag,
    /// Forward as a Bun option with a required value.
    Value,
    /// Forward as a Bun option whose value has a default.
    OptionalValue,
    NodeEnvFile,
    BunEnvFile,
    BunPreload,
}

/// The long name, with its dashes.
pub open spec fn spec_long_name(id: OptionId) -> Seq<char> {
    match id {
        OptionId::Help => "--help"@,
        OptionId::Version => "--version"@,
        OptionId::Eval => "--eval"@,
        OptionId::Print => "--print"@,
        OptionId::Require => "--require"@,
        OptionId::Import => "--import"@,
        OptionId::Inspect => "--inspect"@,
        OptionId::InspectBrk => "--inspect-brk"@,
        OptionId::InspectWait => "--inspect-wait"@,
        OptionId::Conditions => "--conditions"@,
        OptionId::CpuProf => "--cpu-prof"@,
        OptionId::CpuProfDir => "--cpu-prof-dir"@,
        OptionId::CpuProfInterval => "--cpu-prof-interval"@,
        OptionId::CpuProfName => "--cpu-prof-name"@,
        OptionId::HeapProf => "--heap-prof"@,
        OptionId::HeapProfDir => "--heap-prof-dir"@,
        OptionId::HeapProfName => "--heap-prof-name"@,
        OptionId::DnsResultOrder => "--dns-result-order"@,
        OptionId::EnvFile => "--env-file"@,
        OptionId::ExposeGc => "--expose-gc"@,
        OptionId::NoAddons => "--no-addons"@,
        OptionId::NoDeprecation => "--no-deprecation"@,
        OptionId::ThrowDeprecation => "--throw-deprecation"@,
        OptionId::Title => "--title"@,
        OptionId::UnhandledRejections => "--unhandled-rejections"@,
        OptionId::UseBundledCa => "--use-bundled-ca"@,
        OptionId::UseOpensslCa => "--use-openssl-ca"@,
        OptionId::UseSystemCa => "--use-system-ca"@,
        OptionId::ZeroFillBuffers => "--zero-fill-buffers"@,
        OptionId::BunConfig => "--bun-config"@,
        OptionId::BunConsoleDepth => "--bun-console-depth"@,
        OptionId::BunEnvFile => "--bun-env-file"@,
        OptionId::BunFetchPreconnect => "--bun-fetch-preconnect"@,
        OptionId::BunHot => "--bun-hot"@,
        OptionId::BunInstall => "--bun-install"@,
        OptionId::BunNoClearScreen => "--bun-no-clear-screen"@,
        OptionId::BunNoEnvFile => "--bun-no-env-file"@,
        OptionId::BunPort => "--bun-port"@,
        OptionId::BunPreferLatest => "--bun-prefer-latest"@,
        OptionId::BunPreferOffline => "--bun-prefer-offline"@,
        OptionId::BunPreload => "--bun-preload"@,
        OptionId::BunSmol => "--bun-smol"@,
        OptionId::BunUserAgent => "--bun-user-agent"@,
        OptionId::BunWatch => "--bun-watch"@,
    }
}

pub open spec fn spec_short_name(id: OptionId) -> Option<char> {
    match id {
        OptionId::Help => Some('h'),
        OptionId::Version => Some('v'),
        OptionId::Eval => Some('e'),
        OptionId::Print => Some('p'),
        OptionId::Require => Some('r'),
        OptionId::Import => None,
        OptionId::Inspect => None,
        OptionId::InspectBrk => None,
        OptionId::InspectWait => None,
        OptionId::Conditions => Some('C'),
        OptionId::CpuProf => None,
        OptionId::CpuProfDir => None,
        OptionId::CpuProfInterval => None,
        OptionId::CpuProfName => None,
        OptionId::HeapProf => None,
        OptionId::HeapProfDir => None,
        OptionId::HeapProfName => None,
        OptionId::DnsResultOrder => None,
        OptionId::EnvFile => None,
        OptionId::ExposeGc => None,
        OptionId::NoAddons => None,
        OptionId::NoDeprecation => None,
        OptionId::ThrowDeprecation => None,
        OptionId::Title => None,
        OptionId::UnhandledRejections => None,
        OptionId::UseBundledCa => None,
        OptionId::UseOpensslCa => None,
        OptionId::UseSystemCa => None,
        OptionId::ZeroFillBuffers => None,
        OptionId::BunConfig => None,
        OptionId::BunConsoleDepth => None,
        OptionId::BunEnvFile => None,
        OptionId::BunFetchPreconnect => None,
        OptionId::BunHot => None,
        OptionId::BunInstall => None,
        OptionId::BunNoClearScreen => None,
        OptionId::BunNoEnvFile => None,
        OptionId::BunPort => None,
        OptionId::BunPreferLatest => None,
        OptionId::BunPreferOffline => None,
        OptionId::BunPreload => None,
        OptionId::BunSmol => None,
        OptionId::BunUserAgent => None,
        OptionId::BunWatch => None,
    }
}

pub open spec fn spec_value_mode(id: OptionId) -> ValueMode {
    match id {
        OptionId::Help => ValueMode::NoValue,
        OptionId::Version => ValueMode::NoValue,
        OptionId::Eval => ValueMode::Required,
        OptionId::Print => ValueMode::Required,
        OptionId::Require => ValueMode::Required,
        OptionId::Import => ValueMode::Required,
        OptionId::Inspect => ValueMode::OptionalEquals,
        OptionId::InspectBrk => ValueMode::OptionalEquals,
        OptionId::InspectWait => ValueMode::OptionalEquals,
        OptionId::Conditions => ValueMode::Required,
        OptionId::CpuProf => ValueMode::NoValue,
        OptionId::CpuProfDir => ValueMode::Required,
        OptionId::CpuProfInterval => ValueMode::Required,
        OptionId::CpuProfName => ValueMode::Required,
        OptionId::HeapProf => ValueMode::NoValue,
        OptionId::HeapProfDir => ValueMode::Required,
        OptionId::HeapProfName => ValueMode::Required,
        OptionId::DnsResultOrder => ValueMode::Required,
        OptionId::EnvFile => ValueMode::Required,
        OptionId::ExposeGc => ValueMode::NoValue,
        OptionId::NoAddons => ValueMode::NoValue,
        OptionId::NoDeprecation => ValueMode::NoValue,
        OptionId::ThrowDeprecation => ValueMode::NoValue,
        OptionId::Title => ValueMode::Required,
        OptionId::UnhandledRejections => ValueMode::Required,
        OptionId::UseBundledCa => ValueMode::NoValue,
        OptionId::UseOpensslCa => ValueMode::NoValue,
        OptionId::UseSystemCa => ValueMode::NoValue,
        OptionId::ZeroFillBuffers => ValueMode::NoValue,
        OptionId::BunConfig => ValueMode::Required,
        OptionId::BunConsoleDepth => ValueMode::Required,
        OptionId::BunEnvFile => ValueMode::Required,
        OptionId::BunFetchPreconnect => ValueMode::Required,
        OptionId::BunHot => ValueMode::NoValue,
        OptionId::BunInstall => ValueMode::Required,
        OptionId::BunNoClearScreen => ValueMode::NoValue,
        OptionId::BunNoEnvFile => ValueMode::NoValue,
        OptionId::BunPort => ValueMode::Required,
        OptionId::BunPreferLatest => ValueMode::NoValue,
        OptionId::BunPreferOffline => ValueMode::NoValue,
        OptionId::BunPreload => ValueMode::Required,
        OptionId::BunSmol => ValueMode::NoValue,
        OptionId::BunUserAgent => ValueMode::Required,
        OptionId::BunWatch => ValueMode::NoValue,
    }
}

pub open spec fn spec_section(id: OptionId) -> HelpSection {
    match id {
        OptionId::Help => HelpSection::Node,
        OptionId::Version => HelpSection::Node,
        OptionId::Eval => HelpSection::Node,
        OptionId::Print => HelpSection::Node,
        OptionId::Require => HelpSection::Node,
        OptionId::Import => HelpSection::Node,
        OptionId::Inspect => HelpSection::Node,
        OptionId::InspectBrk => HelpSection::Node,
        OptionId::InspectWait => HelpSection::Node,
        OptionId::Conditions => HelpSection::Node,
        OptionId::CpuProf => HelpSection::Node,
        OptionId::CpuProfDir => HelpSection::Node,
        OptionId::CpuProfInterval => HelpSection::Node,
        OptionId::CpuProfName => HelpSection::Node,
        OptionId::HeapProf => HelpSection::Node,
        OptionId::HeapProfDir => HelpSection::Node,
        OptionId::HeapProfName => HelpSection::Node,
        OptionId::DnsResultOrder => HelpSection::Node,
        OptionId::EnvFile => HelpSection::Node,
        OptionId::ExposeGc => HelpSection::Node,
        OptionId::NoAddons => HelpSection::Node,
        OptionId::NoDeprecation => HelpSection::Node,
        OptionId::ThrowDeprecation => HelpSection::Node,
        OptionId::Title => HelpSection::Node,
        OptionId::UnhandledRejections => HelpSection::Node,
        OptionId::UseBundledCa => HelpSection::Node,
        OptionId::UseOpensslCa => HelpSection::Node,
        OptionId::UseSystemCa => HelpSection::Node,
        OptionId::ZeroFillBuffers => HelpSection::Node,
        OptionId::BunConfig => HelpSection::Bun,
        OptionId::BunConsoleDepth => HelpSection::Bun,
        OptionId::BunEnvFile => HelpSection::Bun,
        OptionId::BunFetchPreconnect => HelpSection::Bun,
        OptionId::BunHot => HelpSection::Bun,
        OptionId::BunInstall => HelpSection::Bun,
        OptionId::BunNoClearScreen => HelpSection::Bun,
        OptionId::BunNoEnvFile => HelpSection::Bun,
        OptionId::BunPort => HelpSection::Bun,
        OptionId::BunPreferLatest => HelpSection::Bun,
        OptionId::BunPreferOffline => HelpSection::Bun,
        OptionId::BunPreload => HelpSection::Bun,
        OptionId::BunSmol => HelpSection::Bun,
        OptionId::BunUserAgent => HelpSection::Bun,
        OptionId::BunWatch => HelpSection::Bun,
    }
}

pub open spec fn spec_effect(id: OptionId) -> OptionEffect {
    match id {
        OptionId::Help => OptionEffect::Help,
        OptionId::Version => OptionEffect::Version,
        OptionId::Eval => OptionEffect::Eval,
        OptionId::Print => OptionEffect::Print,
        OptionId::Require => OptionEffect::Require,
        OptionId::Import => OptionEffect::Import,
        OptionId::Inspect => OptionEffect::OptionalValue,
        OptionId::InspectBrk => OptionEffect::OptionalValue,
        OptionId::InspectWait => OptionEffect::OptionalValue,
        OptionId::Conditions => OptionEffect::Value,
        OptionId::CpuProf => OptionEffect::Flag,
        OptionId::CpuProfDir => OptionEffect::Value,
        OptionId::CpuProfInterval => OptionEffect::Value,
        OptionId::CpuProfName => OptionEffect::Value,
        OptionId::HeapProf => OptionEffect::Flag,
        OptionId::HeapProfDir => OptionEffect::Value,
        OptionId::HeapProfName => OptionEffect::Value,
        OptionId::DnsResultOrder => OptionEffect::Value,
        OptionId::EnvFile => OptionEffect::NodeEnvFile,
        OptionId::ExposeGc => OptionEffect::Flag,
        OptionId::NoAddons => OptionEffect::Flag,
        OptionId::NoDeprecation => OptionEffect::Flag,
        OptionId::ThrowDeprecation => OptionEffect::Flag,
        OptionId::Title => OptionEffect::Value,
        OptionId::UnhandledRejections => OptionEffect::Value,
        OptionId::UseBundledCa => OptionEffect::Flag,
        OptionId::UseOpensslCa => OptionEffect::Flag,
        OptionId::UseSystemCa => OptionEffect::Flag,
        OptionId::ZeroFillBuffers => OptionEffect::Flag,
        OptionId::BunConfig => OptionEffect::Value,
        OptionId::BunConsoleDepth => OptionEffect::Value,
        OptionId::BunEnvFile => OptionEffect::BunEnvFile,
        OptionId::BunFetchPreconnect => OptionEffect::Value,
        OptionId::BunHot => OptionEffect::Flag,
        OptionId::BunInstall => OptionEffect::Value,
        OptionId::BunNoClearScreen => OptionEffect::Flag,
        OptionId::BunNoEnvFile => OptionEffect::Flag,
        OptionId::BunPort => OptionEffect::Value,
        OptionId::BunPreferLatest => OptionEffect::Flag,
        OptionId::BunPreferOffline => OptionEffect::Flag,
        OptionId::BunPreload => OptionEffect::BunPreload,
        OptionId::BunSmol => OptionEffect::Flag,
        OptionId::BunUserAgent => OptionEffect::Value,
        OptionId::BunWatch => OptionEffect::Flag,
    }
}

/// The Bun option an option is forwarded as (empty when it is not forwarded by name).
pub open spec fn spec_bun_name(id: OptionId) -> Seq<char> {
    match id {
        OptionId::Help => ""@,
        OptionId::Version => ""@,
        OptionId::Eval => ""@,
        OptionId::Print => ""@,
        OptionId::Require => ""@,
        OptionId::Import => ""@,
        OptionId::Inspect => "--inspect"@,
        OptionId::InspectBrk => "--inspect-brk"@,
        OptionId::InspectWait => "--inspect-wait"@,
        OptionId::Conditions => "--conditions"@,
        OptionId::CpuProf => "--cpu-prof"@,
        OptionId::CpuProfDir => "--cpu-prof-dir"@,
        OptionId::CpuProfInterval => "--cpu-prof-interval"@,
        OptionId::CpuProfName => "--cpu-prof-name"@,
        OptionId::HeapProf => "--heap-prof"@,
        OptionId::HeapProfDir => "--heap-prof-dir"@,
        OptionId::HeapProfName => "--heap-prof-name"@,
        OptionId::DnsResultOrder => "--dns-result-order"@,
        OptionId::EnvFile => ""@,
        OptionId::ExposeGc => "--expose-gc"@,
        OptionId::NoAddons => "--no-addons"@,
        OptionId::NoDeprecation => "--no-deprecation"@,
        OptionId::ThrowDeprecation => "--throw-deprecation"@,
        OptionId::Title => "--title"@,
        OptionId::UnhandledRejections => "--unhandled-rejections"@,
        OptionId::UseBundledCa => "--use-bundled-ca"@,
        OptionId::UseOpensslCa => "--use-openssl-ca"@,
        OptionId::UseSystemCa => "--use-system-ca"@,
        OptionId::ZeroFillBuffers => "--zero-fill-buffers"@,
        OptionId::BunConfig => "--config"@,
        OptionId::BunConsoleDepth => "--console-depth"@,
        OptionId::BunEnvFile => ""@,
        OptionId::BunFetchPreconnect => "--fetch-preconnect"@,
        OptionId::BunHot => "--hot"@,
        OptionId::BunInstall => "--install"@,
        OptionId::BunNoClearScreen => "--no-clear-screen"@,
        OptionId::BunNoEnvFile => "--no-env-file"@,
        OptionId::BunPort => "--port"@,
        OptionId::BunPreferLatest => "--prefer-latest"@,
        OptionId::BunPreferOffline => "--prefer-offline"@,
        OptionId::BunPreload => ""@,
        OptionId::BunSmol => "--smol"@,
        OptionId::BunUserAgent => "--user-agent"@,
        OptionId::BunWatch => "--watch"@,
    }
}

pub open spec fn spec_value_name(id: OptionId) -> Option<Seq<char>> {
    match id {
        OptionId::Help => None,
        OptionId::Version => None,
        OptionId::Eval => Some("..."@),
        OptionId::Print => Some("..."@),
        OptionId::Require => Some("..."@),
        OptionId::Import => Some("..."@),
        OptionId::Inspect => Some("[host:]port"@),
        OptionId::InspectBrk => Some("[host:]port"@),
        OptionId::InspectWait => Some("[host:]port"@),
        OptionId::Conditions => Some("..."@),
        OptionId::CpuProf => None,
        OptionId::CpuProfDir => Some("..."@),
        OptionId::CpuProfInterval => Some("..."@),
        OptionId::CpuProfName => Some("..."@),
        OptionId::HeapProf => None,
        OptionId::HeapProfDir => Some("..."@),
        OptionId::HeapProfName => Some("..."@),
        OptionId::DnsResultOrder => Some("..."@),
        OptionId::EnvFile => Some("..."@),
        OptionId::ExposeGc => None,
        OptionId::NoAddons => None,
        OptionId::NoDeprecation => None,
        OptionId::ThrowDeprecation => None,
        OptionId::Title => Some("..."@),
        OptionId::UnhandledRejections => Some("..."@),
        OptionId::UseBundledCa => None,
        OptionId::UseOpensslCa => None,
        OptionId::UseSystemCa => None,
        OptionId::ZeroFillBuffers => None,
        OptionId::BunConfig => Some("..."@),
        OptionId::BunConsoleDepth => Some("..."@),
        OptionId::BunEnvFile => Some("..."@),
        OptionId::BunFetchPreconnect => Some("..."@),
        OptionId::BunHot => None,
        OptionId::BunInstall => Some("..."@),
        OptionId::BunNoClearScreen => None,
        OptionId::BunNoEnvFile => None,
        OptionId::BunPort => Some("..."@),
        OptionId::BunPreferLatest => None,
        OptionId::BunPreferOffline => None,
        OptionId::BunPreload => Some("..."@),
        OptionId::BunSmol => None,
        OptionId::BunUserAgent => Some("..."@),
        OptionId::BunWatch => None,
    }
}

pub open spec fn spec_description(id: OptionId) -> Seq<char> {
    match id {
        OptionId::Help => "print Bunode supported options"@,
        OptionId::Version => "print Node-compatible Bunode version"@,
        OptionId::Eval => "evaluate script"@,
        OptionId::Print => "evaluate script and print the result"@,
        OptionId::Require => "preload CommonJS module (translated to Bun preload)"@,
        OptionId::Import => "preload ES module (translated to Bun preload)"@,
        OptionId::Inspect => "activate inspector"@,
        OptionId::InspectBrk => "activate inspector and break at start"@,
        OptionId::InspectWait => "activate inspector and wait for debugger"@,
        OptionId::Conditions => "pass custom conditions to resolve"@,
        OptionId::CpuProf => "start CPU profiler"@,
        OptionId::CpuProfDir => "set CPU profile output directory"@,
        OptionId::CpuProfInterval => "set CPU profile sampling interval"@,
        OptionId::CpuProfName => "set CPU profile output file name"@,
        OptionId::HeapProf => "write heap profile on exit"@,
        OptionId::HeapProfDir => "set heap profile output directory"@,
        OptionId::HeapProfName => "set heap profile output file name"@,
        OptionId::DnsResultOrder => "set default dns.lookup result order"@,
        OptionId::EnvFile => "load environment variables from a file"@,
        OptionId::ExposeGc => "expose gc on the global object"@,
        OptionId::NoAddons => "disable native addons"@,
        OptionId::NoDeprecation => "suppress deprecation warnings"@,
        OptionId::ThrowDeprecation => "throw deprecation warnings as exceptions"@,
        OptionId::Title => "set process title"@,
        OptionId::UnhandledRejections => "set unhandled rejection mode"@,
        OptionId::UseBundledCa => "use bundled CA store"@,
        OptionId::UseOpensslCa => "use OpenSSL CA store"@,
        OptionId::UseSystemCa => "use system CA store"@,
        OptionId::ZeroFillBuffers => "zero-fill Buffer.allocUnsafe"@,
        OptionId::BunConfig => "specify bunfig.toml path"@,
        OptionId::BunConsoleDepth => "set console inspection depth"@,
        OptionId::BunEnvFile => "load Bun environment file"@,
        OptionId::BunFetchPreconnect => "preconnect while code is loading"@,
        OptionId::BunHot => "enable Bun hot reload"@,
        OptionId::BunInstall => "configure Bun auto-install behavior"@,
        OptionId::BunNoClearScreen => "disable reload clear screen behavior"@,
        OptionId::BunNoEnvFile => "disable automatic .env loading"@,
        OptionId::BunPort => "set default Bun.serve port"@,
        OptionId::BunPreferLatest => "prefer latest packages in Bun runtime"@,
        OptionId::BunPreferOffline => "prefer offline package resolution"@,
        OptionId::BunPreload => "run an additional Bun preload"@,
        OptionId::BunSmol => "enable Bun smol mode"@,
        OptionId::BunUserAgent => "set default HTTP User-Agent"@,
        OptionId::BunWatch => "restart on file changes"@,
    }
}

/// Node-specific options are recorded in `process.execArgv`; Bun-specific ones are not.
pub open spec fn spec_records_exec_argv(id: OptionId) -> bool {
    spec_section(id) == HelpSection::Node
}

/// Options Node accepts from `NODE_OPTIONS`: Node-specific options except the ones
/// that select a command or load an env file.
pub open spec fn spec_node_options_allowed(id: OptionId) -> bool {
    spec_section(id) == HelpSection::Node
        && !(id == OptionId::Help || id == OptionId::Version || id == OptionId::Eval
            || id == OptionId::Print || id == OptionId::EnvFile)
}

impl OptionId {
    pub fn long_name(self) -> (name: &'static str)
        ensures
            name@ == spec_long_name(self),
    {
        match self {
            OptionId::Help => "--help",
            OptionId::Version => "--version",
            OptionId::Eval => "--eval",
            OptionId::Print => "--print",
            OptionId::Require => "--require",
            OptionId::Import => "--import",
            OptionId::Inspect => "--inspect",
            OptionId::InspectBrk => "--inspect-brk",
            OptionId::InspectWait => "--inspect-wait",
            OptionId::Conditions => "--conditions",
            OptionId::CpuProf => "--cpu-prof",
            OptionId::CpuProfDir => "--cpu-prof-dir",
            OptionId::CpuProfInterval => "--cpu-prof-interval",
            OptionId::CpuProfName => "--cpu-prof-name",
            OptionId::HeapProf => "--heap-prof",
            OptionId::HeapProfDir => "--heap-prof-dir",
            OptionId::HeapProfName => "--heap-prof-name",
            OptionId::DnsResultOrder => "--dns-result-order",
            OptionId::EnvFile => "--env-file",
            OptionId::ExposeGc => "--expose-gc",
            OptionId::NoAddons => "--no-addons",
            OptionId::NoDeprecation => "--no-deprecation",
            OptionId::ThrowDeprecation => "--throw-deprecation",
            OptionId::Title => "--title",
            OptionId::UnhandledRejections => "--unhandled-rejections",
            OptionId::UseBundledCa => "--use-bundled-ca",
            OptionId::UseOpensslCa => "--use-openssl-ca",
            OptionId::UseSystemCa => "--use-system-ca",
            OptionId::ZeroFillBuffers => "--zero-fill-buffers",
            OptionId::BunConfig => "--bun-config",
            OptionId::BunConsoleDepth => "--bun-console-depth",
            OptionId::BunEnvFile => "--bun-env-file",
            OptionId::BunFetchPreconnect => "--bun-fetch-preconnect",
            OptionId::BunHot => "--bun-hot",
            OptionId::BunInstall => "--bun-install",
            OptionId::BunNoClearScreen => "--bun-no-clear-screen",
            OptionId::BunNoEnvFile => "--bun-no-env-file",
            OptionId::BunPort => "--bun-port",
            OptionId::BunPreferLatest => "--bun-prefer-latest",
            OptionId::BunPreferOffline => "--bun-prefer-offline",
            OptionId::BunPreload => "--bun-preload",
            OptionId::BunSmol => "--bun-smol",
            OptionId::BunUserAgent => "--bun-user-agent",
            OptionId::BunWatch => "--bun-watch",
        }
    }

    pub fn short_name(self) -> (short: Option<char>)
        ensures
            short == spec_short_name(self),
    {
        match self {
            OptionId::Help => Some('h'),
            OptionId::Version => Some('v'),
            OptionId::Eval => Some('e'),
            OptionId::Print => Some('p'),
            OptionId::Require => Some('r'),
            OptionId::Import => None,
            OptionId::Inspect => None,
            OptionId::InspectBrk => None,
            OptionId::InspectWait => None,
            OptionId::Conditions => Some('C'),
            OptionId::CpuProf => None,
            OptionId::CpuProfDir => None,
            OptionId::CpuProfInterval => None,
            OptionId::CpuProfName => None,
            OptionId::HeapProf => None,
            OptionId::HeapProfDir => None,
            OptionId::HeapProfName => None,
            OptionId::DnsResultOrder => None,
            OptionId::EnvFile => None,
            OptionId::ExposeGc => None,
            OptionId::NoAddons => None,
            OptionId::NoDeprecation => None,
            OptionId::ThrowDeprecation => None,
            OptionId::Title => None,
            OptionId::UnhandledRejections => None,
            OptionId::UseBundledCa => None,
            OptionId::UseOpensslCa => None,
            OptionId::UseSystemCa => None,
            OptionId::ZeroFillBuffers => None,
            OptionId::BunConfig => None,
            OptionId::BunConsoleDepth => None,
            OptionId::BunEnvFile => None,
            OptionId::BunFetchPreconnect => None,
            OptionId::BunHot => None,
            OptionId::BunInstall => None,
            OptionId::BunNoClearScreen => None,
            OptionId::BunNoEnvFile => None,
            OptionId::BunPort => None,
            OptionId::BunPreferLatest => None,
            OptionId::BunPreferOffline => None,
            OptionId::BunPreload => None,
            OptionId::BunSmol => None,
            OptionId::BunUserAgent => None,
            OptionId::BunWatch => None,
        }
    }

    pub fn value_mode(self) -> (mode: ValueMode)
        ensures
            mode == spec_value_mode(self),
    {
        match self {
            OptionId::Help => ValueMode::NoValue,
            OptionId::Version => ValueMode::NoValue,
            OptionId::Eval => ValueMode::Required,
            OptionId::Print => ValueMode::Required,
            OptionId::Require => ValueMode::Required,
            OptionId::Import => ValueMode::Required,
            OptionId::Inspect => ValueMode::OptionalEquals,
            OptionId::InspectBrk => ValueMode::OptionalEquals,
            OptionId::InspectWait => ValueMode::OptionalEquals,
            OptionId::Conditions => ValueMode::Required,
            OptionId::CpuProf => ValueMode::NoValue,
            OptionId::CpuProfDir => ValueMode::Required,
            OptionId::CpuProfInterval => ValueMode::Required,
            OptionId::CpuProfName => ValueMode::Required,
            OptionId::HeapProf => ValueMode::NoValue,
            OptionId::HeapProfDir => ValueMode::Required,
            OptionId::HeapProfName => ValueMode::Required,
            OptionId::DnsResultOrder => ValueMode::Required,
            OptionId::EnvFile => ValueMode::Required,
            OptionId::ExposeGc => ValueMode::NoValue,
            OptionId::NoAddons => ValueMode::NoValue,
            OptionId::NoDeprecation => ValueMode::NoValue,
            OptionId::ThrowDeprecation => ValueMode::NoValue,
            OptionId::Title => ValueMode::Required,
            OptionId::UnhandledRejections => ValueMode::Required,
            OptionId::UseBundledCa => ValueMode::NoValue,
            OptionId::UseOpensslCa => ValueMode::NoValue,
            OptionId::UseSystemCa => ValueMode::NoValue,
            OptionId::ZeroFillBuffers => ValueMode::NoValue,
            OptionId::BunConfig => ValueMode::Required,
            OptionId::BunConsoleDepth => ValueMode::Required,
            OptionId::BunEnvFile => ValueMode::Required,
            OptionId::BunFetchPreconnect => ValueMode::Required,
            OptionId::BunHot => ValueMode::NoValue,
            OptionId::BunInstall => ValueMode::Required,
            OptionId::BunNoClearScreen => ValueMode::NoValue,
            OptionId::BunNoEnvFile => ValueMode::NoValue,
            OptionId::BunPort => ValueMode::Required,
            OptionId::BunPreferLatest => ValueMode::NoValue,
            OptionId::BunPreferOffline => ValueMode::NoValue,
            OptionId::BunPreload => ValueMode::Required,
            OptionId::BunSmol => ValueMode::NoValue,
            OptionId::BunUserAgent => ValueMode::Required,
            OptionId::BunWatch => ValueMode::NoValue,
        }
    }

    pub fn section(self) -> (section: HelpSection)
        ensures
            section == spec_section(self),
    {
        match self {
            OptionId::Help => HelpSection::Node,
            OptionId::Version => HelpSection::Node,
            OptionId::Eval => HelpSection::Node,
            OptionId::Print => HelpSection::Node,
            OptionId::Require => HelpSection::Node,
            OptionId::Import => HelpSection::Node,
            OptionId::Inspect => HelpSection::Node,
            OptionId::InspectBrk => HelpSection::Node,
            OptionId::InspectWait => HelpSection::Node,
            OptionId::Conditions => HelpSection::Node,
            OptionId::CpuProf => HelpSection::Node,
            OptionId::CpuProfDir => HelpSection::Node,
            OptionId::CpuProfInterval => HelpSection::Node,
            OptionId::CpuProfName => HelpSection::Node,
            OptionId::HeapProf => HelpSection::Node,
            OptionId::HeapProfDir => HelpSection::Node,
            OptionId::HeapProfName => HelpSection::Node,
            OptionId::DnsResultOrder => HelpSection::Node,
            OptionId::EnvFile => HelpSection::Node,
            OptionId::ExposeGc => HelpSection::Node,
            OptionId::NoAddons => HelpSection::Node,
            OptionId::NoDeprecation => HelpSection::Node,
            OptionId::ThrowDeprecation => HelpSection::Node,
            OptionId::Title => HelpSection::Node,
            OptionId::UnhandledRejections => HelpSection::Node,
            OptionId::UseBundledCa => HelpSection::Node,
            OptionId::UseOpensslCa => HelpSection::Node,
            OptionId::UseSystemCa => HelpSection::Node,
            OptionId::ZeroFillBuffers => HelpSection::Node,
            OptionId::BunConfig => HelpSection::Bun,
            OptionId::BunConsoleDepth => HelpSection::Bun,
            OptionId::BunEnvFile => HelpSection::Bun,
            OptionId::BunFetchPreconnect => HelpSection::Bun,
            OptionId::BunHot => HelpSection::Bun,
            OptionId::BunInstall => HelpSection::Bun,
            OptionId::BunNoClearScreen => HelpSection::Bun,
            OptionId::BunNoEnvFile => HelpSection::Bun,
            OptionId::BunPort => HelpSection::Bun,
            OptionId::BunPreferLatest => HelpSection::Bun,
            OptionId::BunPreferOffline => HelpSection::Bun,
            OptionId::BunPreload => HelpSection::Bun,
            OptionId::BunSmol => HelpSection::Bun,
            OptionId::BunUserAgent => HelpSection::Bun,
            OptionId::BunWatch => HelpSection::Bun,
        }
    }

    pub fn effect(self) -> (effect: OptionEffect)
        ensures
            effect == spec_effect(self),
    {
        match self {
            OptionId::Help => OptionEffect::Help,
            OptionId::Version => OptionEffect::Version,
            OptionId::Eval => OptionEffect::Eval,
            OptionId::Print => OptionEffect::Print,
            OptionId::Require => OptionEffect::Require,
            OptionId::Import => OptionEffect::Import,
            OptionId::Inspect => OptionEffect::OptionalValue,
            OptionId::InspectBrk => OptionEffect::OptionalValue,
            OptionId::InspectWait => OptionEffect::OptionalValue,
            OptionId::Conditions => OptionEffect::Value,
            OptionId::CpuProf => OptionEffect::Flag,
            OptionId::CpuProfDir => OptionEffect::Value,
            OptionId::CpuProfInterval => OptionEffect::Value,
            OptionId::CpuProfName => OptionEffect::Value,
            OptionId::HeapProf => OptionEffect::Flag,
            OptionId::HeapProfDir => OptionEffect::Value,
            OptionId::HeapProfName => OptionEffect::Value,
            OptionId::DnsResultOrder => OptionEffect::Value,
            OptionId::EnvFile => OptionEffect::NodeEnvFile,
            OptionId::ExposeGc => OptionEffect::Flag,
            OptionId::NoAddons => OptionEffect::Flag,
            OptionId::NoDeprecation => OptionEffect::Flag,
            OptionId::ThrowDeprecation => OptionEffect::Flag,
            OptionId::Title => OptionEffect::Value,
            OptionId::UnhandledRejections => OptionEffect::Value,
            OptionId::UseBundledCa => OptionEffect::Flag,
            OptionId::UseOpensslCa => OptionEffect::Flag,
            OptionId::UseSystemCa => OptionEffect::Flag,
            OptionId::ZeroFillBuffers => OptionEffect::Flag,
            OptionId::BunConfig => OptionEffect::Value,
            OptionId::BunConsoleDepth => OptionEffect::Value,
            OptionId::BunEnvFile => OptionEffect::BunEnvFile,
            OptionId::BunFetchPreconnect => OptionEffect::Value,
            OptionId::BunHot => OptionEffect::Flag,
            OptionId::BunInstall => OptionEffect::Value,
            OptionId::BunNoClearScreen => OptionEffect::Flag,
            OptionId::BunNoEnvFile => OptionEffect::Flag,
            OptionId::BunPort => OptionEffect::Value,
            OptionId::BunPreferLatest => OptionEffect::Flag,
            OptionId::BunPreferOffline => OptionEffect::Flag,
            OptionId::BunPreload => OptionEffect::BunPreload,
            OptionId::BunSmol => OptionEffect::Flag,
            OptionId::BunUserAgent => OptionEffect::Value,
            OptionId::BunWatch => OptionEffect::Flag,
        }
    }

    pub fn bun_name(self) -> (name: &'static str)
        ensures
            name@ == spec_bun_name(self),
    {
        match self {
            OptionId::Help => "",
            OptionId::Version => "",
            OptionId::Eval => "",
            OptionId::Print => "",
            OptionId::Require => "",
            OptionId::Import => "",
            OptionId::Inspect => "--inspect",
            OptionId::InspectBrk => "--inspect-brk",
            OptionId::InspectWait => "--inspect-wait",
            OptionId::Conditions => "--conditions",
            OptionId::CpuProf => "--cpu-prof",
            OptionId::CpuProfDir => "--cpu-prof-dir",
            OptionId::CpuProfInterval => "--cpu-prof-interval",
            OptionId::CpuProfName => "--cpu-prof-name",
            OptionId::HeapProf => "--heap-prof",
            OptionId::HeapProfDir => "--heap-prof-dir",
            OptionId::HeapProfName => "--heap-prof-name",
            OptionId::DnsResultOrder => "--dns-result-order",
            OptionId::EnvFile => "",
            OptionId::ExposeGc => "--expose-gc",
            OptionId::NoAddons => "--no-addons",
            OptionId::NoDeprecation => "--no-deprecation",
            OptionId::ThrowDeprecation => "--throw-deprecation",
            OptionId::Title => "--title",
            OptionId::UnhandledRejections => "--unhandled-rejections",
            OptionId::UseBundledCa => "--use-bundled-ca",
            OptionId::UseOpensslCa => "--use-openssl-ca",
            OptionId::UseSystemCa => "--use-system-ca",
            OptionId::ZeroFillBuffers => "--zero-fill-buffers",
            OptionId::BunConfig => "--config",
            OptionId::BunConsoleDepth => "--console-depth",
            OptionId::BunEnvFile => "",
            OptionId::BunFetchPreconnect => "--fetch-preconnect",
            OptionId::BunHot => "--hot",
            OptionId::BunInstall => "--install",
            OptionId::BunNoClearScreen => "--no-clear-screen",
            OptionId::BunNoEnvFile => "--no-env-file",
            OptionId::BunPort => "--port",
            OptionId::BunPreferLatest => "--prefer-latest",
            OptionId::BunPreferOffline => "--prefer-offline",
            OptionId::BunPreload => "",
            OptionId::BunSmol => "--smol",
            OptionId::BunUserAgent => "--user-agent",
            OptionId::BunWatch => "--watch",
        }
    }

    pub fn value_name(self) -> (name: Option<&'static str>)
        ensures
            match name {
                Some(n) => spec_value_name(self) == Some(n@),
                None => spec_value_name(self).is_none(),
            },
    {
        match self {
            OptionId::Help => None,
            OptionId::Version => None,
            OptionId::Eval => Some("..."),
            OptionId::Print => Some("..."),
            OptionId::Require => Some("..."),
            OptionId::Import => Some("..."),
            OptionId::Inspect => Some("[host:]port"),
            OptionId::InspectBrk => Some("[host:]port"),
            OptionId::InspectWait => Some("[host:]port"),
            OptionId::Conditions => Some("..."),
            OptionId::CpuProf => None,
            OptionId::CpuProfDir => Some("..."),
            OptionId::CpuProfInterval => Some("..."),
            OptionId::CpuProfName => Some("..."),
            OptionId::HeapProf => None,
            OptionId::HeapProfDir => Some("..."),
            OptionId::HeapProfName => Some("..."),
            OptionId::DnsResultOrder => Some("..."),
            OptionId::EnvFile => Some("..."),
            OptionId::ExposeGc => None,
            OptionId::NoAddons => None,
            OptionId::NoDeprecation => None,
            OptionId::ThrowDeprecation => None,
            OptionId::Title => Some("..."),
            OptionId::UnhandledRejections => Some("..."),
            OptionId::UseBundledCa => None,
            OptionId::UseOpensslCa => None,
            OptionId::UseSystemCa => None,
            OptionId::ZeroFillBuffers => None,
            OptionId::BunConfig => Some("..."),
            OptionId::BunConsoleDepth => Some("..."),
            OptionId::BunEnvFile => Some("..."),
            OptionId::BunFetchPreconnect => Some("..."),
            OptionId::BunHot => None,
            OptionId::BunInstall => Some("..."),
            OptionId::BunNoClearScreen => None,
            OptionId::BunNoEnvFile => None,
            OptionId::BunPort => Some("..."),
            OptionId::BunPreferLatest => None,
            OptionId::BunPreferOffline => None,
            OptionId::BunPreload => Some("..."),
            OptionId::BunSmol => None,
            OptionId::BunUserAgent => Some("..."),
            OptionId::BunWatch => None,
        }
    }

    pub fn description(self) -> (text: &'static str)
        ensures
            text@ == spec_description(self),
    {
        match self {
            OptionId::Help => "print Bunode supported options",
            OptionId::Version => "print Node-compatible Bunode version",
            OptionId::Eval => "evaluate script",
            OptionId::Print => "evaluate script and print the result",
            OptionId::Require => "preload CommonJS module (translated to Bun preload)",
            OptionId::Import => "preload ES module (translated to Bun preload)",
            OptionId::Inspect => "activate inspector",
            OptionId::InspectBrk => "activate inspector and break at start",
            OptionId::InspectWait => "activate inspector and wait for debugger",
            OptionId::Conditions => "pass custom conditions to resolve",
            OptionId::CpuProf => "start CPU profiler",
            OptionId::CpuProfDir => "set CPU profile output directory",
            OptionId::CpuProfInterval => "set CPU profile sampling interval",
            OptionId::CpuProfName => "set CPU profile output file name",
            OptionId::HeapProf => "write heap profile on exit",
            OptionId::HeapProfDir => "set heap profile output directory",
            OptionId::HeapProfName => "set heap profile output file name",
            OptionId::DnsResultOrder => "set default dns.lookup result order",
            OptionId::EnvFile => "load environment variables from a file",
            OptionId::ExposeGc => "expose gc on the global object",
            OptionId::NoAddons => "disable native addons",
            OptionId::NoDeprecation => "suppress deprecation warnings",
            OptionId::ThrowDeprecation => "throw deprecation warnings as exceptions",
            OptionId::Title => "set process title",
            OptionId::UnhandledRejections => "set unhandled rejection mode",
            OptionId::UseBundledCa => "use bundled CA store",
            OptionId::UseOpensslCa => "use OpenSSL CA store",
            OptionId::UseSystemCa => "use system CA store",
            OptionId::ZeroFillBuffers => "zero-fill Buffer.allocUnsafe",
            OptionId::BunConfig => "specify bunfig.toml path",
            OptionId::BunConsoleDepth => "set console inspection depth",
            OptionId::BunEnvFile => "load Bun environment file",
            OptionId::BunFetchPreconnect => "preconnect while code is loading",
            OptionId::BunHot => "enable Bun hot reload",
            OptionId::BunInstall => "configure Bun auto-install behavior",
            OptionId::BunNoClearScreen => "disable reload clear screen behavior",
            OptionId::BunNoEnvFile => "disable automatic .env loading",
            OptionId::BunPort => "set default Bun.serve port",
            OptionId::BunPreferLatest => "prefer latest packages in Bun runtime",
            OptionId::BunPreferOffline => "prefer offline package resolution",
            OptionId::BunPreload => "run an additional Bun preload",
            OptionId::BunSmol => "enable Bun smol mode",
            OptionId::BunUserAgent => "set default HTTP User-Agent",
            OptionId::BunWatch => "restart on file changes",
        }
    }

    pub fn records_exec_argv(self) -> (result: bool)
        ensures
            result == spec_records_exec_argv(self),
    {
        self.section() == HelpSection::Node
    }

    pub fn node_options_allowed(self) -> (result: bool)
        ensures
            result == spec_node_options_allowed(self),
    {
        self.section() == HelpSection::Node
            && !(self == OptionId::Help || self == OptionId::Version || self == OptionId::Eval
                || self == OptionId::Print || self == OptionId::EnvFile)
    }
}

/// Every option, in help order.
pub open spec fn all_option_ids() -> Seq<OptionId> {
    seq![
        OptionId::Help,
        OptionId::Version,
        OptionId::Eval,
        OptionId::Print,
        OptionId::Require,
        OptionId::Import,
        OptionId::Inspect,
        OptionId::InspectBrk,
        OptionId::InspectWait,
        OptionId::Conditions,
        OptionId::CpuProf,
        OptionId::CpuProfDir,
        OptionId::CpuProfInterval,
        OptionId::CpuProfName,
        OptionId::HeapProf,
        OptionId::HeapProfDir,
        OptionId::HeapProfName,
        OptionId::DnsResultOrder,
        OptionId::EnvFile,
        OptionId::ExposeGc,
        OptionId::NoAddons,
        OptionId::NoDeprecation,
        OptionId::ThrowDeprecation,
        OptionId::Title,
        OptionId::UnhandledRejections,
        OptionId::UseBundledCa,
        OptionId::UseOpensslCa,
        OptionId::UseSystemCa,
        OptionId::ZeroFillBuffers,
        OptionId::BunConfig,
        OptionId::BunConsoleDepth,
        OptionId::BunEnvFile,
        OptionId::BunFetchPreconnect,
        OptionId::BunHot,
        OptionId::BunInstall,
        OptionId::BunNoClearScreen,
        OptionId::BunNoEnvFile,
        OptionId::BunPort,
        OptionId::BunPreferLatest,
        OptionId::BunPreferOffline,
        OptionId::BunPreload,
        OptionId::BunSmol,
        OptionId::BunUserAgent,
        OptionId::BunWatch
    ]
}

/// The options a Bun version supports.
pub struct OptionShape {
    ids: Vec<OptionId>,
}

impl OptionShape {
    pub closed spec fn spec_ids(&self) -> Seq<OptionId> {
        self.ids@
    }

    /// The supported options, in help order.
    pub fn specs(&self) -> (ids: &Vec<OptionId>)
        ensures
            ids@ == self.spec_ids(),
    {
        &self.ids
    }
}

/// The option set of the baseline translation layer, used for every Bun release it
/// supports.
pub fn option_shape_for_bun(major: u64, minor: u64, patch: u64) -> (shape: OptionShape)
    ensures
        shape.spec_ids() == all_option_ids(),
{
    let mut ids: Vec<OptionId> = Vec::new();
    ids.push(OptionId::Help);
    ids.push(OptionId::Version);
    ids.push(OptionId::Eval);
    ids.push(OptionId::Print);
    ids.push(OptionId::Require);
    ids.push(OptionId::Import);
    ids.push(OptionId::Inspect);
    ids.push(OptionId::InspectBrk);
    ids.push(OptionId::InspectWait);
    ids.push(OptionId::Conditions);
    ids.push(OptionId::CpuProf);
    ids.push(OptionId::CpuProfDir);
    ids.push(OptionId::CpuProfInterval);
    ids.push(OptionId::CpuProfName);
    ids.push(OptionId::HeapProf);
    ids.push(OptionId::HeapProfDir);
    ids.push(OptionId::HeapProfName);
    ids.push(OptionId::DnsResultOrder);
    ids.push(OptionId::EnvFile);
    ids.push(OptionId::ExposeGc);
    ids.push(OptionId::NoAddons);
    ids.push(OptionId::NoDeprecation);
    ids.push(OptionId::ThrowDeprecation);
    ids.push(OptionId::Title);
    ids.push(OptionId::UnhandledRejections);
    ids.push(OptionId::UseBundledCa);
    ids.push(OptionId::UseOpensslCa);
    ids.push(OptionId::UseSystemCa);
    ids.push(OptionId::ZeroFillBuffers);
    ids.push(OptionId::BunConfig);
    ids.push(OptionId::BunConsoleDepth);
    ids.push(OptionId::BunEnvFile);
    ids.push(OptionId::BunFetchPreconnect);
    ids.push(OptionId::BunHot);
    ids.push(OptionId::BunInstall);
    ids.push(OptionId::BunNoClearScreen);
    ids.push(OptionId::BunNoEnvFile);
    ids.push(OptionId::BunPort);
    ids.push(OptionId::BunPreferLatest);
    ids.push(OptionId::BunPreferOffline);
    ids.push(OptionId::BunPreload);
    ids.push(OptionId::BunSmol);
    ids.push(OptionId::BunUserAgent);
    ids.push(OptionId::BunWatch);
    assert(ids@ =~= all_option_ids());
    OptionShape { ids }
}

/// The first option of `ids` whose long name is `name`.
pub open spec fn find_long_in(ids: Seq<OptionId>, name: Seq<char>) -> Option<OptionId>
    decreases ids.len(),
{
    if ids.len() == 0 {
        None
    } else if spec_long_name(ids[0]) == name {
        Some(ids[0])
    } else {
        find_long_in(ids.drop_first(), name)
    }
}

/// The first option of `ids` whose short name is `short`.
pub open spec fn find_short_in(ids: Seq<OptionId>, short: char) -> Option<OptionId>
    decreases ids.len(),
{
    if ids.len() == 0 {
        None
    } else if spec_short_name(ids[0]) == Some(short) {
        Some(ids[0])
    } else {
        find_short_in(ids.drop_first(), short)
    }
}

/// Looks up an option by its long name (with dashes).
pub fn find_long_option(shape: &OptionShape, name: &str) -> (found: Option<OptionId>)
    ensures
        found == find_long_in(shape.spec_ids(), name@),
{
    let ids = shape.specs();
    let mut i: usize = 0;
    assert(ids@.skip(0) =~= ids@);
    while i < ids.len()
        invariant
            ids@ == shape.spec_ids(),
            i <= ids@.len(),
            find_long_in(ids@, name@) == find_long_in(ids@.skip(i as int), name@),
        decreases ids.len() - i,
    {
        let id = ids[i];
        assert(ids@.skip(i as int).drop_first() =~= ids@.skip(i + 1));
        if same_text(id.long_name(), name) {
            return Some(id);
        }
        i += 1;
    }
    None
}

/// Looks up an option by its short name.
pub fn find_short_option(shape: &OptionShape, short: char) -> (found: Option<OptionId>)
    ensures
        found == find_short_in(shape.spec_ids(), short),
{
    let ids = shape.specs();
    let mut i: usize = 0;
    assert(ids@.skip(0) =~= ids@);
    while i < ids.len()
        invariant
            ids@ == shape.spec_ids(),
            i <= ids@.len(),
            find_short_in(ids@, short) == find_short_in(ids@.skip(i as int), short),
        decreases ids.len() - i,
    {
        let id = ids[i];
        assert(ids@.skip(i as int).drop_first() =~= ids@.skip(i + 1));
        if id.short_name() == Some(short) {
            return Some(id);
        }
        i += 1;
    }
    None
}

} // verus!
