//! What holds of the option table as a whole: the names options are forwarded to Bun
//! under.

use vstd::prelude::*;

use super::{OptionEffect, OptionId, spec_bun_name, spec_effect, spec_long_name};
use crate::text::has_prefix;

verus! {

/// The name a forwarded option is handed to Bun under: a Node option keeps its own long
/// name, and a Bun-specific `--bun-<name>` option becomes `--<name>`.
pub open spec fn forwarded_name(long: Seq<char>) -> Seq<char> {
    if has_prefix(long, "--bun-"@) { "--"@ + long.skip(6) } else { long }
}

/// Every option that is forwarded to Bun by name (a flag, an option with a value, or one
/// with an optional value) is forwarded under the name the user gave it, less its `bun-`
/// part for Bun-specific options; no other option is forwarded by name.
pub proof fn law_forwarded_option_names(id: OptionId)
    ensures
        (spec_effect(id) is Flag || spec_effect(id) is Value || spec_effect(id) is OptionalValue)
            <==> spec_bun_name(id).len() > 0,
        spec_bun_name(id).len() > 0 ==> spec_bun_name(id) == forwarded_name(spec_long_name(id)),
{
    match id {
        OptionId::Help => { reveal_strlit(""); reveal_strlit("--"); reveal_strlit("--bun-"); reveal_strlit("--help"); assert(!has_prefix("--help"@, "--bun-"@)) by { reveal_strlit("--"); reveal_strlit("--bun-"); reveal_strlit("--help"); if "--bun-"@.len() <= "--help"@.len() { assert("--help"@.take(6)[3] != "--bun-"@[3] || "--help"@.take(6)[4] != "--bun-"@[4] || "--help"@.take(6)[2] != "--bun-"@[2] || "--help"@.take(6)[5] != "--bun-"@[5]); } } },
        OptionId::Version => { reveal_strlit(""); reveal_strlit("--"); reveal_strlit("--bun-"); reveal_strlit("--version"); assert(!has_prefix("--version"@, "--bun-"@)) by { reveal_strlit("--"); reveal_strlit("--bun-"); reveal_strlit("--version"); if "--bun-"@.len() <= "--version"@.len() { assert("--version"@.take(6)[3] != "--bun-"@[3] || "--version"@.take(6)[4] != "--bun-"@[4] || "--version"@.take(6)[2] != "--bun-"@[2] || "--version"@.take(6)[5] != "--bun-"@[5]); } } },
        OptionId::Eval => { reveal_strlit(""); reveal_strlit("--"); reveal_strlit("--bun-"); reveal_strlit("--eval"); assert(!has_prefix("--eval"@, "--bun-"@)) by { reveal_strlit("--"); reveal_strlit("--bun-"); reveal_strlit("--eval"); if "--bun-"@.len() <= "--eval"@.len() { assert("--eval"@.take(6)[3] != "--bun-"@[3] || "--eval"@.take(6)[4] != "--bun-"@[4] || "--eval"@.take(6)[2] != "--bun-"@[2] || "--eval"@.take(6)[5] != "--bun-"@[5]); } } },
        OptionId::Print => { reveal_strlit(""); reveal_strlit("--"); reveal_strlit("--bun-"); reveal_strlit("--print"); assert(!has_prefix("--print"@, "--bun-"@)) by { reveal_strlit("--"); reveal_strlit("--bun-"); reveal_strlit("--print"); if "--bun-"@.len() <= "--print"@.len() { assert("--print"@.take(6)[3] != "--bun-"@[3] || "--print"@.take(6)[4] != "--bun-"@[4] || "--print"@.take(6)[2] != "--bun-"@[2] || "--print"@.take(6)[5] != "--bun-"@[5]); } } },
        OptionId::Require => { reveal_strlit(""); reveal_strlit("--"); reveal_strlit("--bun-"); reveal_strlit("--require"); assert(!has_prefix("--require"@, "--bun-"@)) by { reveal_strlit("--"); reveal_strlit("--bun-"); reveal_strlit("--require"); if "--bun-"@.len() <= "--require"@.len() { assert("--require"@.take(6)[3] != "--bun-"@[3] || "--require"@.take(6)[4] != "--bun-"@[4] || "--require"@.take(6)[2] != "--bun-"@[2] || "--require"@.take(6)[5] != "--bun-"@[5]); } } },
        OptionId::Import => { reveal_strlit(""); reveal_strlit("--"); reveal_strlit("--bun-"); reveal_strlit("--import"); assert(!has_prefix("--import"@, "--bun-"@)) by { reveal_strlit("--"); reveal_strlit("--bun-"); reveal_strlit("--import"); if "--bun-"@.len() <= "--import"@.len() { assert("--import"@.take(6)[3] != "--bun-"@[3] || "--import"@.take(6)[4] != "--bun-"@[4] || "--import"@.take(6)[2] != "--bun-"@[2] || "--import"@.take(6)[5] != "--bun-"@[5]); } } },
        OptionId::Inspect => { reveal_strlit("--"); reveal_strlit("--bun-"); reveal_strlit("--inspect"); assert(!has_prefix("--inspect"@, "--bun-"@)) by { reveal_strlit("--"); reveal_strlit("--bun-"); reveal_strlit("--inspect"); if "--bun-"@.len() <= "--inspect"@.len() { assert("--inspect"@.take(6)[3] != "--bun-"@[3] || "--inspect"@.take(6)[4] != "--bun-"@[4] || "--inspect"@.take(6)[2] != "--bun-"@[2] || "--inspect"@.take(6)[5] != "--bun-"@[5]); } } },
        OptionId::InspectBrk => { reveal_strlit("--"); reveal_strlit("--bun-"); reveal_strlit("--inspect-brk"); assert(!has_prefix("--inspect-brk"@, "--bun-"@)) by { reveal_strlit("--"); reveal_strlit("--bun-"); reveal_strlit("--inspect-brk"); if "--bun-"@.len() <= "--inspect-brk"@.len() { assert("--inspect-brk"@.take(6)[3] != "--bun-"@[3] || "--inspect-brk"@.take(6)[4] != "--bun-"@[4] || "--inspect-brk"@.take(6)[2] != "--bun-"@[2] || "--inspect-brk"@.take(6)[5] != "--bun-"@[5]); } } },
        OptionId::InspectWait => { reveal_strlit("--"); reveal_strlit("--bun-"); reveal_strlit("--inspect-wait"); assert(!has_prefix("--inspect-wait"@, "--bun-"@)) by { reveal_strlit("--"); reveal_strlit("--bun-"); reveal_strlit("--inspect-wait"); if "--bun-"@.len() <= "--inspect-wait"@.len() { assert("--inspect-wait"@.take(6)[3] != "--bun-"@[3] || "--inspect-wait"@.take(6)[4] != "--bun-"@[4] || "--inspect-wait"@.take(6)[2] != "--bun-"@[2] || "--inspect-wait"@.take(6)[5] != "--bun-"@[5]); } } },
        OptionId::Conditions => { reveal_strlit("--"); reveal_strlit("--bun-"); reveal_strlit("--conditions"); assert(!has_prefix("--conditions"@, "--bun-"@)) by { reveal_strlit("--"); reveal_strlit("--bun-"); reveal_strlit("--conditions"); if "--bun-"@.len() <= "--conditions"@.len() { assert("--conditions"@.take(6)[3] != "--bun-"@[3] || "--conditions"@.take(6)[4] != "--bun-"@[4] || "--conditions"@.take(6)[2] != "--bun-"@[2] || "--conditions"@.take(6)[5] != "--bun-"@[5]); } } },
        OptionId::CpuProf => { reveal_strlit("--"); reveal_strlit("--bun-"); reveal_strlit("--cpu-prof"); assert(!has_prefix("--cpu-prof"@, "--bun-"@)) by { reveal_strlit("--"); reveal_strlit("--bun-"); reveal_strlit("--cpu-prof"); if "--bun-"@.len() <= "--cpu-prof"@.len() { assert("--cpu-prof"@.take(6)[3] != "--bun-"@[3] || "--cpu-prof"@.take(6)[4] != "--bun-"@[4] || "--cpu-prof"@.take(6)[2] != "--bun-"@[2] || "--cpu-prof"@.take(6)[5] != "--bun-"@[5]); } } },
        OptionId::CpuProfDir => { reveal_strlit("--"); reveal_strlit("--bun-"); reveal_strlit("--cpu-prof-dir"); assert(!has_prefix("--cpu-prof-dir"@, "--bun-"@)) by { reveal_strlit("--"); reveal_strlit("--bun-"); reveal_strlit("--cpu-prof-dir"); if "--bun-"@.len() <= "--cpu-prof-dir"@.len() { assert("--cpu-prof-dir"@.take(6)[3] != "--bun-"@[3] || "--cpu-prof-dir"@.take(6)[4] != "--bun-"@[4] || "--cpu-prof-dir"@.take(6)[2] != "--bun-"@[2] || "--cpu-prof-dir"@.take(6)[5] != "--bun-"@[5]); } } },
        OptionId::CpuProfInterval => { reveal_strlit("--"); reveal_strlit("--bun-"); reveal_strlit("--cpu-prof-interval"); assert(!has_prefix("--cpu-prof-interval"@, "--bun-"@)) by { reveal_strlit("--"); reveal_strlit("--bun-"); reveal_strlit("--cpu-prof-interval"); if "--bun-"@.len() <= "--cpu-prof-interval"@.len() { assert("--cpu-prof-interval"@.take(6)[3] != "--bun-"@[3] || "--cpu-prof-interval"@.take(6)[4] != "--bun-"@[4] || "--cpu-prof-interval"@.take(6)[2] != "--bun-"@[2] || "--cpu-prof-interval"@.take(6)[5] != "--bun-"@[5]); } } },
        OptionId::CpuProfName => { reveal_strlit("--"); reveal_strlit("--bun-"); reveal_strlit("--cpu-prof-name"); assert(!has_prefix("--cpu-prof-name"@, "--bun-"@)) by { reveal_strlit("--"); reveal_strlit("--bun-"); reveal_strlit("--cpu-prof-name"); if "--bun-"@.len() <= "--cpu-prof-name"@.len() { assert("--cpu-prof-name"@.take(6)[3] != "--bun-"@[3] || "--cpu-prof-name"@.take(6)[4] != "--bun-"@[4] || "--cpu-prof-name"@.take(6)[2] != "--bun-"@[2] || "--cpu-prof-name"@.take(6)[5] != "--bun-"@[5]); } } },
        OptionId::HeapProf => { reveal_strlit("--"); reveal_strlit("--bun-"); reveal_strlit("--heap-prof"); assert(!has_prefix("--heap-prof"@, "--bun-"@)) by { reveal_strlit("--"); reveal_strlit("--bun-"); reveal_strlit("--heap-prof"); if "--bun-"@.len() <= "--heap-prof"@.len() { assert("--heap-prof"@.take(6)[3] != "--bun-"@[3] || "--heap-prof"@.take(6)[4] != "--bun-"@[4] || "--heap-prof"@.take(6)[2] != "--bun-"@[2] || "--heap-prof"@.take(6)[5] != "--bun-"@[5]); } } },
        OptionId::HeapProfDir => { reveal_strlit("--"); reveal_strlit("--bun-"); reveal_strlit("--heap-prof-dir"); assert(!has_prefix("--heap-prof-dir"@, "--bun-"@)) by { reveal_strlit("--"); reveal_strlit("--bun-"); reveal_strlit("--heap-prof-dir"); if "--bun-"@.len() <= "--heap-prof-dir"@.len() { assert("--heap-prof-dir"@.take(6)[3] != "--bun-"@[3] || "--heap-prof-dir"@.take(6)[4] != "--bun-"@[4] || "--heap-prof-dir"@.take(6)[2] != "--bun-"@[2] || "--heap-prof-dir"@.take(6)[5] != "--bun-"@[5]); } } },
        OptionId::HeapProfName => { reveal_strlit("--"); reveal_strlit("--bun-"); reveal_strlit("--heap-prof-name"); assert(!has_prefix("--heap-prof-name"@, "--bun-"@)) by { reveal_strlit("--"); reveal_strlit("--bun-"); reveal_strlit("--heap-prof-name"); if "--bun-"@.len() <= "--heap-prof-name"@.len() { assert("--heap-prof-name"@.take(6)[3] != "--bun-"@[3] || "--heap-prof-name"@.take(6)[4] != "--bun-"@[4] || "--heap-prof-name"@.take(6)[2] != "--bun-"@[2] || "--heap-prof-name"@.take(6)[5] != "--bun-"@[5]); } } },
        OptionId::DnsResultOrder => { reveal_strlit("--"); reveal_strlit("--bun-"); reveal_strlit("--dns-result-order"); assert(!has_prefix("--dns-result-order"@, "--bun-"@)) by { reveal_strlit("--"); reveal_strlit("--bun-"); reveal_strlit("--dns-result-order"); if "--bun-"@.len() <= "--dns-result-order"@.len() { assert("--dns-result-order"@.take(6)[3] != "--bun-"@[3] || "--dns-result-order"@.take(6)[4] != "--bun-"@[4] || "--dns-result-order"@.take(6)[2] != "--bun-"@[2] || "--dns-result-order"@.take(6)[5] != "--bun-"@[5]); } } },
        OptionId::EnvFile => { reveal_strlit(""); reveal_strlit("--"); reveal_strlit("--bun-"); reveal_strlit("--env-file"); assert(!has_prefix("--env-file"@, "--bun-"@)) by { reveal_strlit("--"); reveal_strlit("--bun-"); reveal_strlit("--env-file"); if "--bun-"@.len() <= "--env-file"@.len() { assert("--env-file"@.take(6)[3] != "--bun-"@[3] || "--env-file"@.take(6)[4] != "--bun-"@[4] || "--env-file"@.take(6)[2] != "--bun-"@[2] || "--env-file"@.take(6)[5] != "--bun-"@[5]); } } },
        OptionId::ExposeGc => { reveal_strlit("--"); reveal_strlit("--bun-"); reveal_strlit("--expose-gc"); assert(!has_prefix("--expose-gc"@, "--bun-"@)) by { reveal_strlit("--"); reveal_strlit("--bun-"); reveal_strlit("--expose-gc"); if "--bun-"@.len() <= "--expose-gc"@.len() { assert("--expose-gc"@.take(6)[3] != "--bun-"@[3] || "--expose-gc"@.take(6)[4] != "--bun-"@[4] || "--expose-gc"@.take(6)[2] != "--bun-"@[2] || "--expose-gc"@.take(6)[5] != "--bun-"@[5]); } } },
        OptionId::NoAddons => { reveal_strlit("--"); reveal_strlit("--bun-"); reveal_strlit("--no-addons"); assert(!has_prefix("--no-addons"@, "--bun-"@)) by { reveal_strlit("--"); reveal_strlit("--bun-"); reveal_strlit("--no-addons"); if "--bun-"@.len() <= "--no-addons"@.len() { assert("--no-addons"@.take(6)[3] != "--bun-"@[3] || "--no-addons"@.take(6)[4] != "--bun-"@[4] || "--no-addons"@.take(6)[2] != "--bun-"@[2] || "--no-addons"@.take(6)[5] != "--bun-"@[5]); } } },
        OptionId::NoDeprecation => { reveal_strlit("--"); reveal_strlit("--bun-"); reveal_strlit("--no-deprecation"); assert(!has_prefix("--no-deprecation"@, "--bun-"@)) by { reveal_strlit("--"); reveal_strlit("--bun-"); reveal_strlit("--no-deprecation"); if "--bun-"@.len() <= "--no-deprecation"@.len() { assert("--no-deprecation"@.take(6)[3] != "--bun-"@[3] || "--no-deprecation"@.take(6)[4] != "--bun-"@[4] || "--no-deprecation"@.take(6)[2] != "--bun-"@[2] || "--no-deprecation"@.take(6)[5] != "--bun-"@[5]); } } },
        OptionId::ThrowDeprecation => { reveal_strlit("--"); reveal_strlit("--bun-"); reveal_strlit("--throw-deprecation"); assert(!has_prefix("--throw-deprecation"@, "--bun-"@)) by { reveal_strlit("--"); reveal_strlit("--bun-"); reveal_strlit("--throw-deprecation"); if "--bun-"@.len() <= "--throw-deprecation"@.len() { assert("--throw-deprecation"@.take(6)[3] != "--bun-"@[3] || "--throw-deprecation"@.take(6)[4] != "--bun-"@[4] || "--throw-deprecation"@.take(6)[2] != "--bun-"@[2] || "--throw-deprecation"@.take(6)[5] != "--bun-"@[5]); } } },
        OptionId::Title => { reveal_strlit("--"); reveal_strlit("--bun-"); reveal_strlit("--title"); assert(!has_prefix("--title"@, "--bun-"@)) by { reveal_strlit("--"); reveal_strlit("--bun-"); reveal_strlit("--title"); if "--bun-"@.len() <= "--title"@.len() { assert("--title"@.take(6)[3] != "--bun-"@[3] || "--title"@.take(6)[4] != "--bun-"@[4] || "--title"@.take(6)[2] != "--bun-"@[2] || "--title"@.take(6)[5] != "--bun-"@[5]); } } },
        OptionId::UnhandledRejections => { reveal_strlit("--"); reveal_strlit("--bun-"); reveal_strlit("--unhandled-rejections"); assert(!has_prefix("--unhandled-rejections"@, "--bun-"@)) by { reveal_strlit("--"); reveal_strlit("--bun-"); reveal_strlit("--unhandled-rejections"); if "--bun-"@.len() <= "--unhandled-rejections"@.len() { assert("--unhandled-rejections"@.take(6)[3] != "--bun-"@[3] || "--unhandled-rejections"@.take(6)[4] != "--bun-"@[4] || "--unhandled-rejections"@.take(6)[2] != "--bun-"@[2] || "--unhandled-rejections"@.take(6)[5] != "--bun-"@[5]); } } },
        OptionId::UseBundledCa => { reveal_strlit("--"); reveal_strlit("--bun-"); reveal_strlit("--use-bundled-ca"); assert(!has_prefix("--use-bundled-ca"@, "--bun-"@)) by { reveal_strlit("--"); reveal_strlit("--bun-"); reveal_strlit("--use-bundled-ca"); if "--bun-"@.len() <= "--use-bundled-ca"@.len() { assert("--use-bundled-ca"@.take(6)[3] != "--bun-"@[3] || "--use-bundled-ca"@.take(6)[4] != "--bun-"@[4] || "--use-bundled-ca"@.take(6)[2] != "--bun-"@[2] || "--use-bundled-ca"@.take(6)[5] != "--bun-"@[5]); } } },
        OptionId::UseOpensslCa => { reveal_strlit("--"); reveal_strlit("--bun-"); reveal_strlit("--use-openssl-ca"); assert(!has_prefix("--use-openssl-ca"@, "--bun-"@)) by { reveal_strlit("--"); reveal_strlit("--bun-"); reveal_strlit("--use-openssl-ca"); if "--bun-"@.len() <= "--use-openssl-ca"@.len() { assert("--use-openssl-ca"@.take(6)[3] != "--bun-"@[3] || "--use-openssl-ca"@.take(6)[4] != "--bun-"@[4] || "--use-openssl-ca"@.take(6)[2] != "--bun-"@[2] || "--use-openssl-ca"@.take(6)[5] != "--bun-"@[5]); } } },
        OptionId::UseSystemCa => { reveal_strlit("--"); reveal_strlit("--bun-"); reveal_strlit("--use-system-ca"); assert(!has_prefix("--use-system-ca"@, "--bun-"@)) by { reveal_strlit("--"); reveal_strlit("--bun-"); reveal_strlit("--use-system-ca"); if "--bun-"@.len() <= "--use-system-ca"@.len() { assert("--use-system-ca"@.take(6)[3] != "--bun-"@[3] || "--use-system-ca"@.take(6)[4] != "--bun-"@[4] || "--use-system-ca"@.take(6)[2] != "--bun-"@[2] || "--use-system-ca"@.take(6)[5] != "--bun-"@[5]); } } },
        OptionId::ZeroFillBuffers => { reveal_strlit("--"); reveal_strlit("--bun-"); reveal_strlit("--zero-fill-buffers"); assert(!has_prefix("--zero-fill-buffers"@, "--bun-"@)) by { reveal_strlit("--"); reveal_strlit("--bun-"); reveal_strlit("--zero-fill-buffers"); if "--bun-"@.len() <= "--zero-fill-buffers"@.len() { assert("--zero-fill-buffers"@.take(6)[3] != "--bun-"@[3] || "--zero-fill-buffers"@.take(6)[4] != "--bun-"@[4] || "--zero-fill-buffers"@.take(6)[2] != "--bun-"@[2] || "--zero-fill-buffers"@.take(6)[5] != "--bun-"@[5]); } } },
        OptionId::BunConfig => { reveal_strlit("--"); reveal_strlit("--bun-"); reveal_strlit("--bun-config"); reveal_strlit("--config"); assert("--bun-config"@.take(6) =~= "--bun-"@); assert(has_prefix("--bun-config"@, "--bun-"@)); assert("--"@ + "--bun-config"@.skip(6) =~= "--config"@); },
        OptionId::BunConsoleDepth => { reveal_strlit("--"); reveal_strlit("--bun-"); reveal_strlit("--bun-console-depth"); reveal_strlit("--console-depth"); assert("--bun-console-depth"@.take(6) =~= "--bun-"@); assert(has_prefix("--bun-console-depth"@, "--bun-"@)); assert("--"@ + "--bun-console-depth"@.skip(6) =~= "--console-depth"@); },
        OptionId::BunEnvFile => { reveal_strlit(""); reveal_strlit("--"); reveal_strlit("--bun-"); reveal_strlit("--bun-env-file"); },
        OptionId::BunFetchPreconnect => { reveal_strlit("--"); reveal_strlit("--bun-"); reveal_strlit("--bun-fetch-preconnect"); reveal_strlit("--fetch-preconnect"); assert("--bun-fetch-preconnect"@.take(6) =~= "--bun-"@); assert(has_prefix("--bun-fetch-preconnect"@, "--bun-"@)); assert("--"@ + "--bun-fetch-preconnect"@.skip(6) =~= "--fetch-preconnect"@); },
        OptionId::BunHot => { reveal_strlit("--"); reveal_strlit("--bun-"); reveal_strlit("--bun-hot"); reveal_strlit("--hot"); assert("--bun-hot"@.take(6) =~= "--bun-"@); assert(has_prefix("--bun-hot"@, "--bun-"@)); assert("--"@ + "--bun-hot"@.skip(6) =~= "--hot"@); },
        OptionId::BunInstall => { reveal_strlit("--"); reveal_strlit("--bun-"); reveal_strlit("--bun-install"); reveal_strlit("--install"); assert("--bun-install"@.take(6) =~= "--bun-"@); assert(has_prefix("--bun-install"@, "--bun-"@)); assert("--"@ + "--bun-install"@.skip(6) =~= "--install"@); },
        OptionId::BunNoClearScreen => { reveal_strlit("--"); reveal_strlit("--bun-"); reveal_strlit("--bun-no-clear-screen"); reveal_strlit("--no-clear-screen"); assert("--bun-no-clear-screen"@.take(6) =~= "--bun-"@); assert(has_prefix("--bun-no-clear-screen"@, "--bun-"@)); assert("--"@ + "--bun-no-clear-screen"@.skip(6) =~= "--no-clear-screen"@); },
        OptionId::BunNoEnvFile => { reveal_strlit("--"); reveal_strlit("--bun-"); reveal_strlit("--bun-no-env-file"); reveal_strlit("--no-env-file"); assert("--bun-no-env-file"@.take(6) =~= "--bun-"@); assert(has_prefix("--bun-no-env-file"@, "--bun-"@)); assert("--"@ + "--bun-no-env-file"@.skip(6) =~= "--no-env-file"@); },
        OptionId::BunPort => { reveal_strlit("--"); reveal_strlit("--bun-"); reveal_strlit("--bun-port"); reveal_strlit("--port"); assert("--bun-port"@.take(6) =~= "--bun-"@); assert(has_prefix("--bun-port"@, "--bun-"@)); assert("--"@ + "--bun-port"@.skip(6) =~= "--port"@); },
        OptionId::BunPreferLatest => { reveal_strlit("--"); reveal_strlit("--bun-"); reveal_strlit("--bun-prefer-latest"); reveal_strlit("--prefer-latest"); assert("--bun-prefer-latest"@.take(6) =~= "--bun-"@); assert(has_prefix("--bun-prefer-latest"@, "--bun-"@)); assert("--"@ + "--bun-prefer-latest"@.skip(6) =~= "--prefer-latest"@); },
        OptionId::BunPreferOffline => { reveal_strlit("--"); reveal_strlit("--bun-"); reveal_strlit("--bun-prefer-offline"); reveal_strlit("--prefer-offline"); assert("--bun-prefer-offline"@.take(6) =~= "--bun-"@); assert(has_prefix("--bun-prefer-offline"@, "--bun-"@)); assert("--"@ + "--bun-prefer-offline"@.skip(6) =~= "--prefer-offline"@); },
        OptionId::BunPreload => { reveal_strlit(""); reveal_strlit("--"); reveal_strlit("--bun-"); reveal_strlit("--bun-preload"); },
        OptionId::BunSmol => { reveal_strlit("--"); reveal_strlit("--bun-"); reveal_strlit("--bun-smol"); reveal_strlit("--smol"); assert("--bun-smol"@.take(6) =~= "--bun-"@); assert(has_prefix("--bun-smol"@, "--bun-"@)); assert("--"@ + "--bun-smol"@.skip(6) =~= "--smol"@); },
        OptionId::BunUserAgent => { reveal_strlit("--"); reveal_strlit("--bun-"); reveal_strlit("--bun-user-agent"); reveal_strlit("--user-agent"); assert("--bun-user-agent"@.take(6) =~= "--bun-"@); assert(has_prefix("--bun-user-agent"@, "--bun-"@)); assert("--"@ + "--bun-user-agent"@.skip(6) =~= "--user-agent"@); },
        OptionId::BunWatch => { reveal_strlit("--"); reveal_strlit("--bun-"); reveal_strlit("--bun-watch"); reveal_strlit("--watch"); assert("--bun-watch"@.take(6) =~= "--bun-"@); assert(has_prefix("--bun-watch"@, "--bun-"@)); assert("--"@ + "--bun-watch"@.skip(6) =~= "--watch"@); },
    }
}


} // verus!
