//! Node builtin module detection used by preload translation.

use vstd::prelude::*;

use crate::text::{has_prefix, same_text, strip_prefix};

verus! {

/// The module specifiers that Node resolves to its own builtins.
pub open spec fn builtin_module_names() -> Set<Seq<char>> {
    set![
        "_http_agent"@,
        "_http_client"@,
        "_http_common"@,
        "_http_incoming"@,
        "_http_outgoing"@,
        "_http_server"@,
        "_tls_common"@,
        "_tls_wrap"@,
        "assert"@,
        "assert/strict"@,
        "async_hooks"@,
        "buffer"@,
        "child_process"@,
        "cluster"@,
        "console"@,
        "constants"@,
        "crypto"@,
        "dgram"@,
        "diagnostics_channel"@,
        "dns"@,
        "dns/promises"@,
        "domain"@,
        "events"@,
        "fs"@,
        "fs/promises"@,
        "http"@,
        "http2"@,
        "https"@,
        "inspector"@,
        "inspector/promises"@,
        "module"@,
        "net"@,
        "node:sea"@,
        "node:sqlite"@,
        "node:test"@,
        "node:test/reporters"@,
        "os"@,
        "path"@,
        "path/posix"@,
        "path/win32"@,
        "perf_hooks"@,
        "process"@,
        "punycode"@,
        "querystring"@,
        "readline"@,
        "readline/promises"@,
        "repl"@,
        "stream"@,
        "stream/consumers"@,
        "stream/promises"@,
        "stream/web"@,
        "string_decoder"@,
        "sys"@,
        "timers"@,
        "timers/promises"@,
        "tls"@,
        "trace_events"@,
        "tty"@,
        "url"@,
        "util"@,
        "util/types"@,
        "v8"@,
        "vm"@,
        "wasi"@,
        "worker_threads"@,
        "zlib"@
    ]
}

/// A specifier names a builtin, with or without the `node:` scheme.
pub open spec fn spec_is_builtin_module(specifier: Seq<char>) -> bool {
    builtin_module_names().contains(specifier)
        || (has_prefix(specifier, "node:"@) && builtin_module_names().contains(specifier.skip(5)))
}

fn is_listed(name: &str) -> (result: bool)
    ensures
        result == builtin_module_names().contains(name@),
{
    same_text(name, "_http_agent") ||
        same_text(name, "_http_client") ||
        same_text(name, "_http_common") ||
        same_text(name, "_http_incoming") ||
        same_text(name, "_http_outgoing") ||
        same_text(name, "_http_server") ||
        same_text(name, "_tls_common") ||
        same_text(name, "_tls_wrap") ||
        same_text(name, "assert") ||
        same_text(name, "assert/strict") ||
        same_text(name, "async_hooks") ||
        same_text(name, "buffer") ||
        same_text(name, "child_process") ||
        same_text(name, "cluster") ||
        same_text(name, "console") ||
        same_text(name, "constants") ||
        same_text(name, "crypto") ||
        same_text(name, "dgram") ||
        same_text(name, "diagnostics_channel") ||
        same_text(name, "dns") ||
        same_text(name, "dns/promises") ||
        same_text(name, "domain") ||
        same_text(name, "events") ||
        same_text(name, "fs") ||
        same_text(name, "fs/promises") ||
        same_text(name, "http") ||
        same_text(name, "http2") ||
        same_text(name, "https") ||
        same_text(name, "inspector") ||
        same_text(name, "inspector/promises") ||
        same_text(name, "module") ||
        same_text(name, "net") ||
        same_text(name, "node:sea") ||
        same_text(name, "node:sqlite") ||
        same_text(name, "node:test") ||
        same_text(name, "node:test/reporters") ||
        same_text(name, "os") ||
        same_text(name, "path") ||
        same_text(name, "path/posix") ||
        same_text(name, "path/win32") ||
        same_text(name, "perf_hooks") ||
        same_text(name, "process") ||
        same_text(name, "punycode") ||
        same_text(name, "querystring") ||
        same_text(name, "readline") ||
        same_text(name, "readline/promises") ||
        same_text(name, "repl") ||
        same_text(name, "stream") ||
        same_text(name, "stream/consumers") ||
        same_text(name, "stream/promises") ||
        same_text(name, "stream/web") ||
        same_text(name, "string_decoder") ||
        same_text(name, "sys") ||
        same_text(name, "timers") ||
        same_text(name, "timers/promises") ||
        same_text(name, "tls") ||
        same_text(name, "trace_events") ||
        same_text(name, "tty") ||
        same_text(name, "url") ||
        same_text(name, "util") ||
        same_text(name, "util/types") ||
        same_text(name, "v8") ||
        same_text(name, "vm") ||
        same_text(name, "wasi") ||
        same_text(name, "worker_threads") ||
        same_text(name, "zlib")
}

/// Whether `specifier` names a Node builtin module.
pub fn is_builtin_module(specifier: &str) -> (result: bool)
    ensures
        result == spec_is_builtin_module(specifier@),
{
    if is_listed(specifier) {
        return true;
    }
    match strip_prefix(specifier, "node:") {
        Some(bare) => {
            proof {
                reveal_strlit("node:");
            }
            is_listed(bare.as_str())
        },
        None => false,
    }
}

} // verus!
