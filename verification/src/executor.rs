//! Version-selected command execution: what the executor decides before it hands the
//! process over to Bun.

use vstd::prelude::*;

use crate::argv::{runtime_flags, spec_build_bun_args, spec_normalize_eval_code, spec_script_requires_explicit_relative_path,
    user_arguments, validate_script, BunMode, BunModeView, PathStyle};
use crate::error::{BunodeError, BunodeErrorView, FailureErrorView};
use crate::js::{escape_json, js_string_literal, push_escaped_json, spec_js_string_literal};
use crate::parser::{CommandView, ExecutionPlan, NodeCommand, PlanView};
use crate::text::{owned, same_text};

verus! {

/// Node-like `module`, `exports`, `require`, `__filename` and `__dirname` globals for
/// script-shaped input read from `filename` (`[eval]` or `[stdin]`).
pub open spec fn spec_node_globals_setup(filename: Seq<char>) -> Seq<char> {
    "const __bunodeModule=globalThis.module??{exports:{}};const __bunodeExports=globalThis.exports??__bunodeModule.exports;Object.assign(globalThis,{__filename:"@ + spec_js_string_literal(filename) + ",__dirname:\".\",require,module:__bunodeModule,exports:__bunodeExports});"@
}

pub fn node_globals_setup(filename: &str) -> (text: String)
    ensures
        text@ == spec_node_globals_setup(filename@),
{
    let literal = js_string_literal(filename);
    let mut text = owned("const __bunodeModule=globalThis.module??{exports:{}};const __bunodeExports=globalThis.exports??__bunodeModule.exports;Object.assign(globalThis,{__filename:");
    text.append(literal.as_str());
    text.append(",__dirname:\".\",require,module:__bunodeModule,exports:__bunodeExports});");
    text
}

/// Helpers shared by the print shims: strip a hashbang, and reject module-shaped input
/// the way Node reports `ERR_EVAL_ESM_CANNOT_PRINT`.
pub open spec fn spec_print_helpers() -> Seq<char> {
    "const __bunodeStripHashbang=(source)=>{if(!source.startsWith(\"#!\"))return source;const index=source.indexOf(String.fromCharCode(10));return source.slice(index===-1?source.length:index+1)};const __bunodeRejectPrintModuleSource=(_source,error)=>{if(error instanceof SyntaxError){console.error(\"Error [ERR_EVAL_ESM_CANNOT_PRINT]: --print cannot be used with ESM input\");process.exit(1)}throw error};"@
}

pub fn print_helpers() -> (text: &'static str)
    ensures
        text@ == spec_print_helpers(),
{
    "const __bunodeStripHashbang=(source)=>{if(!source.startsWith(\"#!\"))return source;const index=source.indexOf(String.fromCharCode(10));return source.slice(index===-1?source.length:index+1)};const __bunodeRejectPrintModuleSource=(_source,error)=>{if(error instanceof SyntaxError){console.error(\"Error [ERR_EVAL_ESM_CANNOT_PRINT]: --print cannot be used with ESM input\");process.exit(1)}throw error};"
}

/// The `-e` program that evaluates `code` as a script, or as a module when it does
/// not parse as a script.
pub open spec fn spec_build_eval_expression(code: Seq<char>) -> Seq<char> {
    "await(async()=>{const __bunodeSource="@ + spec_js_string_literal(code) + ";try{new Function(__bunodeSource);"@ + spec_node_globals_setup("[eval]"@) + "return globalThis.eval(__bunodeSource)}catch(__bunodeError){if(!(__bunodeError instanceof SyntaxError))throw __bunodeError;const __bunodeUrl=URL.createObjectURL(new Blob([__bunodeSource],{type:\"text/javascript\"}));try{await import(__bunodeUrl)}finally{URL.revokeObjectURL(__bunodeUrl)}}})()"@
}

pub fn build_eval_expression(code: &str) -> (text: String)
    ensures
        text@ == spec_build_eval_expression(code@),
{
    let source = js_string_literal(code);
    let globals = node_globals_setup("[eval]");
    let mut text = owned("await(async()=>{const __bunodeSource=");
    text.append(source.as_str());
    text.append(";try{new Function(__bunodeSource);");
    text.append(globals.as_str());
    text.append("return globalThis.eval(__bunodeSource)}catch(__bunodeError){if(!(__bunodeError instanceof SyntaxError))throw __bunodeError;const __bunodeUrl=URL.createObjectURL(new Blob([__bunodeSource],{type:\"text/javascript\"}));try{await import(__bunodeUrl)}finally{URL.revokeObjectURL(__bunodeUrl)}}})()");
    text
}

/// The `-e` program that evaluates `code` and prints the result.
pub open spec fn spec_build_print_expression(code: Seq<char>) -> Seq<char> {
    "(()=>{"@ + spec_print_helpers() + "const __bunodeSource="@ + spec_js_string_literal(code) + ";try{new Function(__bunodeStripHashbang(__bunodeSource))}catch(__bunodeError){__bunodeRejectPrintModuleSource(__bunodeSource,__bunodeError)}"@ + spec_node_globals_setup("[eval]"@) + "return globalThis.eval(__bunodeSource)})()"@
}

pub fn build_print_expression(code: &str) -> (text: String)
    ensures
        text@ == spec_build_print_expression(code@),
{
    let source = js_string_literal(code);
    let globals = node_globals_setup("[eval]");
    let helpers = print_helpers();
    let mut text = owned("(()=>{");
    text.append(helpers);
    text.append("const __bunodeSource=");
    text.append(source.as_str());
    text.append(";try{new Function(__bunodeStripHashbang(__bunodeSource))}catch(__bunodeError){__bunodeRejectPrintModuleSource(__bunodeSource,__bunodeError)}");
    text.append(globals.as_str());
    text.append("return globalThis.eval(__bunodeSource)})()");
    text
}

/// The `-e` program that reads the program from fd 0 and prints its result.
pub open spec fn spec_build_print_stdin_expression() -> Seq<char> {
    "(()=>{"@ + spec_print_helpers() + "const __bunodeFs=require(\"node:fs\");const __bunodeSource=__bunodeFs.readFileSync(0,\"utf8\");try{new Function(__bunodeStripHashbang(__bunodeSource))}catch(__bunodeError){__bunodeRejectPrintModuleSource(__bunodeSource,__bunodeError)}"@ + spec_node_globals_setup("[stdin]"@) + "return globalThis.eval(__bunodeSource)})()"@
}

pub fn build_print_stdin_expression() -> (text: String)
    ensures
        text@ == spec_build_print_stdin_expression(),
{
    // Read fd 0 inside Bun so preloads can exit before an unbounded pipe is drained.
    let globals = node_globals_setup("[stdin]");
    let helpers = print_helpers();
    let mut text = owned("(()=>{");
    text.append(helpers);
    text.append("const __bunodeFs=require(\"node:fs\");const __bunodeSource=__bunodeFs.readFileSync(0,\"utf8\");try{new Function(__bunodeStripHashbang(__bunodeSource))}catch(__bunodeError){__bunodeRejectPrintModuleSource(__bunodeSource,__bunodeError)}");
    text.append(globals.as_str());
    text.append("return globalThis.eval(__bunodeSource)})()");
    text
}

/// The `-e` program that runs the program read from fd 0 as a script, or as a module
/// when it does not parse as a script.
pub open spec fn spec_build_stdin_module_expression() -> Seq<char> {
    "await(async()=>{const __bunodeStripHashbang=(source)=>{if(!source.startsWith(\"#!\"))return source;const index=source.indexOf(String.fromCharCode(10));return source.slice(index===-1?source.length:index+1)};const __bunodeFs=require(\"node:fs\");const __bunodeSource=__bunodeFs.readFileSync(0,\"utf8\");if(__bunodeSource.length===0)return;try{new Function(__bunodeStripHashbang(__bunodeSource));"@ + spec_node_globals_setup("[stdin]"@) + "return globalThis.eval(__bunodeSource)}catch(__bunodeError){if(!(__bunodeError instanceof SyntaxError))throw __bunodeError;const __bunodeUrl=URL.createObjectURL(new Blob([__bunodeSource],{type:\"text/javascript\"}));try{await import(__bunodeUrl)}finally{URL.revokeObjectURL(__bunodeUrl)}}})()"@
}

pub fn build_stdin_module_expression() -> (text: String)
    ensures
        text@ == spec_build_stdin_module_expression(),
{
    // Parse first: plain stdin keeps Node's script-like globals, while ESM stdin uses a Blob module.
    let globals = node_globals_setup("[stdin]");
    let mut text = owned("await(async()=>{const __bunodeStripHashbang=(source)=>{if(!source.startsWith(\"#!\"))return source;const index=source.indexOf(String.fromCharCode(10));return source.slice(index===-1?source.length:index+1)};const __bunodeFs=require(\"node:fs\");const __bunodeSource=__bunodeFs.readFileSync(0,\"utf8\");if(__bunodeSource.length===0)return;try{new Function(__bunodeStripHashbang(__bunodeSource));");
    text.append(globals.as_str());
    text.append("return globalThis.eval(__bunodeSource)}catch(__bunodeError){if(!(__bunodeError instanceof SyntaxError))throw __bunodeError;const __bunodeUrl=URL.createObjectURL(new Blob([__bunodeSource],{type:\"text/javascript\"}));try{await import(__bunodeUrl)}finally{URL.revokeObjectURL(__bunodeUrl)}}})()");
    text
}

/// `execArgv` as a JSON array of strings, for the metadata preload.
pub open spec fn json_items(values: Seq<Seq<char>>) -> Seq<char>
    decreases values.len(),
{
    if values.len() == 0 {
        Seq::empty()
    } else if values.len() == 1 {
        spec_js_string_literal(values[0])
    } else {
        json_items(values.drop_last()) + seq![','] + spec_js_string_literal(values.last())
    }
}

pub open spec fn spec_encode_exec_argv_json(values: Seq<Seq<char>>) -> Seq<char> {
    seq!['['] + json_items(values) + seq![']']
}

pub fn encode_exec_argv_json(values: &Vec<String>) -> (text: String)
    ensures
        text@ == spec_encode_exec_argv_json(values.deep_view()),
{
    let mut text = String::new();
    text.push('[');
    let ghost all = values.deep_view();
    let mut i: usize = 0;
    assert(all.take(0) =~= Seq::<Seq<char>>::empty());
    while i < values.len()
        invariant
            all == values.deep_view(),
            i <= all.len(),
            text@ == seq!['['] + json_items(all.take(i as int)),
        decreases values.len() - i,
    {
        assert(all.take(i + 1).drop_last() =~= all.take(i as int));
        assert(all.take(i + 1).last() == values@[i as int]@);
        if i > 0 {
            text.push(',');
        }
        text.push('"');
        push_escaped_json(&mut text, values[i].as_str());
        text.push('"');
        assert(text@ =~= seq!['['] + json_items(all.take(i + 1)));
        i += 1;
    }
    text.push(']');
    assert(all.take(all.len() as int) =~= all);
    assert(text@ =~= spec_encode_exec_argv_json(all));
    text
}

/// What the executor does with a plan.
pub enum Launch {
    Help,
    Version,
    /// Replace the process with Bun running `invocation` in `mode`.
    Bun { invocation: ExecutionPlan, mode: BunMode },
}

pub enum LaunchView {
    Help,
    Version,
    Bun { invocation: PlanView, mode: BunModeView },
}

impl View for Launch {
    type V = LaunchView;

    open spec fn view(&self) -> LaunchView {
        match self {
            Launch::Help => LaunchView::Help,
            Launch::Version => LaunchView::Version,
            Launch::Bun { invocation, mode } => LaunchView::Bun { invocation: invocation@, mode: mode@ },
        }
    }
}

/// The plan with `argument` inserted before the script arguments.
pub open spec fn with_script_argument(plan: PlanView, argument: Seq<char>) -> PlanView {
    PlanView { script_arguments: seq![argument] + plan.script_arguments, ..plan }
}

/// What running a plan means; an interactive stdin selects Bun's REPL where Node
/// would start its own.
pub open spec fn spec_select_launch(plan: PlanView, stdin_is_terminal: bool, style: PathStyle) -> Result<LaunchView, BunodeErrorView> {
    match plan.command {
        CommandView::Help => Ok(LaunchView::Help),
        CommandView::Version => Ok(LaunchView::Version),
        CommandView::Eval(code) => Ok(LaunchView::Bun { invocation: plan, mode: BunModeView::Eval(spec_build_eval_expression(code)) }),
        CommandView::Print(code) => Ok(LaunchView::Bun { invocation: plan, mode: BunModeView::Eval(spec_build_print_expression(code)) }),
        CommandView::PrintStdin => if stdin_is_terminal {
            Ok(LaunchView::Bun { invocation: plan, mode: BunModeView::Repl })
        } else {
            Ok(LaunchView::Bun { invocation: plan, mode: BunModeView::Eval(spec_build_print_stdin_expression()) })
        },
        CommandView::Script(script) => if script == "-"@ {
            Ok(LaunchView::Bun {
                invocation: with_script_argument(plan, "-"@),
                mode: BunModeView::Eval(spec_build_stdin_module_expression()),
            })
        } else if spec_script_requires_explicit_relative_path(script, style) {
            Err(BunodeErrorView::Failure(FailureErrorView::DashScriptRequiresExplicitRelativePath(script)))
        } else {
            Ok(LaunchView::Bun { invocation: plan, mode: BunModeView::Script(script) })
        },
        CommandView::Direct => if stdin_is_terminal {
            Ok(LaunchView::Bun { invocation: plan, mode: BunModeView::Repl })
        } else {
            Ok(LaunchView::Bun { invocation: plan, mode: BunModeView::Eval(spec_build_stdin_module_expression()) })
        },
    }
}

/// A copy of `invocation` with `argument` as its first script argument.
pub fn invocation_with_script_argument(invocation: &ExecutionPlan, argument: String) -> (result: ExecutionPlan)
    ensures
        result@ == with_script_argument(invocation@, argument@),
{
    let mut result = invocation.duplicate();
    let mut arguments: Vec<String> = Vec::new();
    assert(arguments.deep_view() =~= Seq::<Seq<char>>::empty());
    crate::text::push_string(&mut arguments, argument);
    crate::text::extend_strings(&mut arguments, &invocation.script_arguments, 0);
    assert(invocation@.script_arguments.skip(0) =~= invocation@.script_arguments);
    result.script_arguments = arguments;
    assert(result@ =~= with_script_argument(invocation@, argument@));
    result
}

/// Decides how to run a parsed plan.
pub fn select_launch(invocation: &ExecutionPlan, stdin_is_terminal: bool, style: PathStyle) -> (result: Result<Launch, BunodeError>)
    ensures
        match result {
            Ok(launch) => spec_select_launch(invocation@, stdin_is_terminal, style) == Ok::<LaunchView, BunodeErrorView>(launch@),
            Err(e) => spec_select_launch(invocation@, stdin_is_terminal, style) == Err::<LaunchView, BunodeErrorView>(e@),
        },
{
    match &invocation.command {
        NodeCommand::Help => Ok(Launch::Help),
        NodeCommand::Version => Ok(Launch::Version),
        NodeCommand::Eval(code) => Ok(Launch::Bun {
            invocation: invocation.duplicate(),
            mode: BunMode::Eval(build_eval_expression(code.as_str())),
        }),
        NodeCommand::Print(code) => Ok(Launch::Bun {
            invocation: invocation.duplicate(),
            mode: BunMode::Eval(build_print_expression(code.as_str())),
        }),
        NodeCommand::PrintStdin => {
            if stdin_is_terminal {
                Ok(Launch::Bun { invocation: invocation.duplicate(), mode: BunMode::Repl })
            } else {
                Ok(Launch::Bun { invocation: invocation.duplicate(), mode: BunMode::Eval(build_print_stdin_expression()) })
            }
        },
        NodeCommand::Script(script) => {
            if same_text(script.as_str(), "-") {
                return Ok(Launch::Bun {
                    invocation: invocation_with_script_argument(invocation, owned("-")),
                    mode: BunMode::Eval(build_stdin_module_expression()),
                });
            }
            validate_script(script.as_str(), style)?;
            Ok(Launch::Bun { invocation: invocation.duplicate(), mode: BunMode::Script(script.clone()) })
        },
        NodeCommand::Direct => {
            if stdin_is_terminal {
                Ok(Launch::Bun { invocation: invocation.duplicate(), mode: BunMode::Repl })
            } else {
                Ok(Launch::Bun { invocation: invocation.duplicate(), mode: BunMode::Eval(build_stdin_module_expression()) })
            }
        },
    }
}

/// The exit code the wrapper reports for a finished Bun process: `128 + signal` for a
/// signal, the exit code otherwise, both clamped to `0..=255`, and 1 when neither is known.
pub open spec fn spec_exit_code_from_status(code: Option<i32>, signal: Option<i32>) -> u8 {
    match signal {
        Some(s) => clamp_to_u8(128 + s),
        None => match code {
            Some(c) => clamp_to_u8(c as int),
            None => 1,
        },
    }
}

pub open spec fn clamp_to_u8(n: int) -> u8 {
    if n < 0 { 0 } else if n > 255 { 255 } else { n as u8 }
}

pub fn exit_code_from_status(code: Option<i32>, signal: Option<i32>) -> (result: u8)
    requires
        signal matches Some(s) ==> s <= i32::MAX - 128,
    ensures
        result == spec_exit_code_from_status(code, signal),
{
    match signal {
        Some(s) => {
            let c = 128 + s;
            if c < 0 { 0 } else if c > 255 { 255 } else { c as u8 }
        },
        None => match code {
            Some(c) => if c < 0 { 0 } else if c > 255 { 255 } else { c as u8 },
            None => 1,
        },
    }
}

/// The plan with a `--preload=` for each generated CommonJS wrapper in front of its Bun
/// options, so that CommonJS preloads run before ES module and Bun preloads.
pub open spec fn with_common_js_wrappers(plan: PlanView, wrappers: Seq<Seq<char>>) -> PlanView {
    PlanView { bun_options: crate::parser::state::preload_options(wrappers) + plan.bun_options, ..plan }
}

/// Adds the generated CommonJS wrappers (one per `--require` preload) as Bun preloads.
pub fn add_common_js_wrappers(invocation: &ExecutionPlan, wrappers: &Vec<String>) -> (result: ExecutionPlan)
    ensures
        result@ == with_common_js_wrappers(invocation@, wrappers.deep_view()),
{
    let mut result = invocation.duplicate();
    let mut options: Vec<String> = Vec::new();
    let ghost wv = wrappers.deep_view();
    let mut i: usize = 0;
    while i < wrappers.len()
        invariant
            i <= wrappers@.len(),
            wv == wrappers.deep_view(),
            options.deep_view() == crate::parser::state::preload_options(wv.take(i as int)),
        decreases wrappers.len() - i,
    {
        let option = crate::text::concat("--preload=", wrappers[i].as_str());
        crate::text::push_string(&mut options, option);
        assert(crate::parser::state::preload_options(wv.take(i + 1))
            =~= crate::parser::state::preload_options(wv.take(i as int)).push("--preload="@ + wv[i as int]));
        i += 1;
    }
    assert(wv.take(wrappers@.len() as int) =~= wv);
    crate::text::extend_strings(&mut options, &invocation.bun_options, 0);
    assert(invocation@.bun_options.skip(0) =~= invocation@.bun_options);
    result.bun_options = options;
    assert(result@ =~= with_common_js_wrappers(invocation@, wrappers.deep_view()));
    result
}

/// The order of preloads in the Bun command line: the runtime preload first, then the
/// CommonJS wrappers, then the translated options with the ES module preloads after
/// them, and the Bun preloads last.
pub proof fn law_preload_order(
    argv0: Seq<char>,
    st: crate::parser::state::StateView,
    wrappers: Seq<Seq<char>>,
    code: Seq<char>,
    preload_path: Seq<char>,
    style: PathStyle,
)
    requires
        crate::parser::state::spec_finish(argv0, st) is Ok,
    ensures
        ({
            let plan = crate::parser::state::spec_finish(argv0, st)->Ok_0.0;
            spec_build_bun_args(with_common_js_wrappers(plan, wrappers), BunModeView::Eval(code), preload_path, style)
                == runtime_flags(preload_path) + crate::parser::state::preload_options(wrappers) + st.bun_options
                    + crate::parser::state::preload_options(st.es_module_preloads) + st.bun_preloads
                    + seq!["-e"@, spec_normalize_eval_code(code)] + user_arguments(plan.script_arguments, true)
        }),
{
    let plan = crate::parser::state::spec_finish(argv0, st)->Ok_0.0;
    assert(spec_build_bun_args(with_common_js_wrappers(plan, wrappers), BunModeView::Eval(code), preload_path, style)
        =~= runtime_flags(preload_path) + crate::parser::state::preload_options(wrappers) + st.bun_options
            + crate::parser::state::preload_options(st.es_module_preloads) + st.bun_preloads
            + seq!["-e"@, spec_normalize_eval_code(code)] + user_arguments(plan.script_arguments, true));
}

/// The Bun mode a launch runs in, if it runs Bun.
pub open spec fn launch_mode(launch: Result<LaunchView, BunodeErrorView>) -> Option<BunModeView> {
    match launch {
        Ok(LaunchView::Bun { mode, .. }) => Some(mode),
        _ => None,
    }
}

/// `node` with no script runs Bun on the plan as it is: Bun's REPL exactly when stdin is
/// a terminal, and otherwise the program piped in, run as `node -` runs it (there with
/// `-` as the script's first argument).
pub proof fn law_direct_runs_piped_program(plan: PlanView, stdin_is_terminal: bool, style: PathStyle)
    requires
        plan.command == CommandView::Direct,
    ensures
        spec_select_launch(plan, stdin_is_terminal, style) matches Ok(LaunchView::Bun { invocation, .. }) && invocation == plan,
        (launch_mode(spec_select_launch(plan, stdin_is_terminal, style)) == Some(BunModeView::Repl)) <==> stdin_is_terminal,
        !stdin_is_terminal ==> {
            let dash = PlanView { command: CommandView::Script("-"@), ..plan };
            &&& launch_mode(spec_select_launch(plan, stdin_is_terminal, style))
                == launch_mode(spec_select_launch(dash, stdin_is_terminal, style))
            &&& spec_select_launch(dash, stdin_is_terminal, style) matches Ok(LaunchView::Bun { invocation, .. })
                && invocation == with_script_argument(dash, "-"@)
        },
{
}

} // verus!
