//! The decisions of the plugin harness.
//!
//! The process around the library reads its arguments and standard input,
//! calls the plugin's execute function and performs the returned [`Action`]:
//! everything it writes and its exit status are decided here.

use vstd::prelude::*;
use vstd::string::*;
use crate::help::{help_text, write_plugin_help};
use crate::json::Json;
use crate::protocol::{
    CommandResult, ExecutionPlan, PlanResponse, PluginDefinition, PluginInfo, PluginRequest,
};
use crate::wire::{decodes_request, request_from_json, wire_error_text, WireError};

verus! {

/// Argument that asks a plugin for its metadata.
pub const INFO_FLAG: &'static str = "--meta-plugin-info";

/// Argument that asks a plugin to execute the request on its standard input.
pub const EXEC_FLAG: &'static str = "--meta-plugin-exec";

/// What the first process argument asks of the plugin.
#[derive(Debug, Clone, PartialEq, Eq)]
pub enum Invocation {
    /// No argument was given.
    Missing,
    /// Discovery: print the plugin's metadata.
    Info,
    /// Execution: read a request from standard input.
    Exec,
    /// `--help` or `-h`.
    Help,
    /// Any other argument.
    Unknown(String),
}

/// What the process is to do next.
#[derive(Debug, Clone, PartialEq, Eq)]
pub enum Action {
    /// Print the plugin's metadata as pretty JSON on stdout; exit 0.
    EmitInfo,
    /// Read standard input to its end and parse it as a request.
    ReadRequest,
    /// Print the envelope as one line of compact JSON on stdout; exit 0.
    EmitPlan(PlanResponse),
    /// Write `stdout` and `stderr` as they are, then exit with `exit_code`.
    Finish { stdout: String, stderr: String, exit_code: i32 },
}

/// The exit status that an action ends the process with; `None` for
/// [`Action::ReadRequest`], after which the process goes on.
pub open spec fn exit_status(a: Action) -> Option<int> {
    match a {
        Action::EmitInfo => Some(0),
        Action::ReadRequest => None,
        Action::EmitPlan(_) => Some(0),
        Action::Finish { exit_code, .. } => Some(exit_code as int),
    }
}

/// What the argument list (program name first) asks of the plugin.
pub open spec fn invocation_of(args: Seq<String>) -> Invocation {
    if args.len() < 2 {
        Invocation::Missing
    } else if args[1]@ == INFO_FLAG@ {
        Invocation::Info
    } else if args[1]@ == EXEC_FLAG@ {
        Invocation::Exec
    } else if args[1]@ == "--help"@ || args[1]@ == "-h"@ {
        Invocation::Help
    } else {
        Invocation::Unknown(args[1])
    }
}

/// The hint printed when the plugin is run without an argument.
pub open spec fn missing_argument_text(info: PluginInfo) -> Seq<char> {
    "This binary is a meta plugin. Use via: meta "@ + info.name@ + "\n"@
}

/// The hint printed when the plugin is run with an argument it does not know.
pub open spec fn unknown_flag_text(info: PluginInfo, flag: Seq<char>) -> Seq<char> {
    "Unknown flag: "@ + flag + ". This binary is a meta plugin.\n"@ + "Use via: meta "@ + info.name@
        + "\n"@
}

/// An action that writes `out` to stdout and `err` to stderr, then exits with `code`.
pub open spec fn is_finish(a: Action, out: Seq<char>, err: Seq<char>, code: int) -> bool {
    match a {
        Action::Finish { stdout, stderr, exit_code } => stdout@ == out && stderr@ == err
            && exit_code == code,
        _ => false,
    }
}

/// What the plugin does for an invocation, before any request is read.
pub open spec fn invocation_action_ok(info: PluginInfo, inv: Invocation, a: Action) -> bool {
    match inv {
        Invocation::Missing => is_finish(a, Seq::empty(), missing_argument_text(info), 1),
        Invocation::Info => a == Action::EmitInfo,
        Invocation::Exec => a == Action::ReadRequest,
        Invocation::Help => is_finish(a, help_text(info), Seq::empty(), 0),
        Invocation::Unknown(flag) => is_finish(a, Seq::empty(), unknown_flag_text(info, flag@), 1),
    }
}

/// The text printed when the request on standard input cannot be parsed.
pub open spec fn parse_failure_text(reason: Seq<char>) -> Seq<char> {
    "Failed to parse plugin request: "@ + reason + "\n"@
}

/// What the harness does with the result of the execute function.
pub open spec fn result_action_ok(info: PluginInfo, result: CommandResult, a: Action) -> bool {
    match result {
        CommandResult::Plan(commands, parallel) => a == Action::EmitPlan(
            PlanResponse { plan: ExecutionPlan { commands, parallel } },
        ),
        CommandResult::Message(msg) => is_finish(
            a,
            if msg@.len() == 0 {
                Seq::empty()
            } else {
                msg@ + "\n"@
            },
            Seq::empty(),
            0,
        ),
        CommandResult::Error(e) => is_finish(a, Seq::empty(), "Error: "@ + e@ + "\n"@, 1),
        CommandResult::ShowHelp(Some(e)) => is_finish(
            a,
            Seq::empty(),
            "error: "@ + e@ + "\n"@ + "\n"@ + help_text(info),
            1,
        ),
        CommandResult::ShowHelp(None) => is_finish(a, help_text(info), Seq::empty(), 0),
    }
}

/// The exit status owed to each result: 0 for a plan, a message and bare
/// help; 1 for an error and for help after an error message.
pub open spec fn result_exit_status(result: CommandResult) -> int {
    match result {
        CommandResult::Plan(_, _) => 0,
        CommandResult::Message(_) => 0,
        CommandResult::Error(_) => 1,
        CommandResult::ShowHelp(Some(_)) => 1,
        CommandResult::ShowHelp(None) => 0,
    }
}

/// Whether `s` holds the same characters as `lit`.
fn equals_literal(s: &String, lit: &str) -> (r: bool)
    ensures
        r == (s@ == lit@),
{
    let l = lit.to_string();
    *s == l
}

/// Reads what the argument list (program name first) asks of the plugin.
pub fn classify_invocation(args: &Vec<String>) -> (r: Invocation)
    ensures
        r == invocation_of(args@),
{
    if args.len() < 2 {
        Invocation::Missing
    } else if equals_literal(&args[1], INFO_FLAG) {
        Invocation::Info
    } else if equals_literal(&args[1], EXEC_FLAG) {
        Invocation::Exec
    } else if equals_literal(&args[1], "--help") || equals_literal(&args[1], "-h") {
        Invocation::Help
    } else {
        Invocation::Unknown(args[1].clone())
    }
}

/// A finishing action that writes only to stderr and exits 1.
fn fail_with(text: String) -> (r: Action)
    ensures
        is_finish(r, Seq::empty(), text@, 1),
{
    Action::Finish { stdout: String::new(), stderr: text, exit_code: 1 }
}

/// Decides what the plugin does for the argument list (program name first).
pub fn invocation_action(info: &PluginInfo, args: &Vec<String>) -> (r: Action)
    ensures
        invocation_action_ok(*info, invocation_of(args@), r),
        exit_status(r) == Some(0int) || exit_status(r) == Some(1int) || r == Action::ReadRequest,
{
    match classify_invocation(args) {
        Invocation::Missing => {
            let mut text = String::new();
            text.append("This binary is a meta plugin. Use via: meta ");
            text.append(info.name.as_str());
            text.append("\n");
            assert(text@ =~= missing_argument_text(*info));
            fail_with(text)
        },
        Invocation::Info => Action::EmitInfo,
        Invocation::Exec => Action::ReadRequest,
        Invocation::Help => {
            let mut out = String::new();
            write_plugin_help(info, &mut out);
            assert(out@ =~= help_text(*info));
            Action::Finish { stdout: out, stderr: String::new(), exit_code: 0 }
        },
        Invocation::Unknown(flag) => {
            let mut text = String::new();
            text.append("Unknown flag: ");
            text.append(flag.as_str());
            text.append(". This binary is a meta plugin.\n");
            text.append("Use via: meta ");
            text.append(info.name.as_str());
            text.append("\n");
            assert(text@ =~= unknown_flag_text(*info, flag@));
            fail_with(text)
        },
    }
}

/// Decides what the plugin does when the request cannot be parsed, `reason`
/// being the parser's description of the failure.
pub fn request_failure_action(reason: &String) -> (r: Action)
    ensures
        is_finish(r, Seq::empty(), parse_failure_text(reason@), 1),
{
    let mut text = String::new();
    text.append("Failed to parse plugin request: ");
    text.append(reason.as_str());
    text.append("\n");
    assert(text@ =~= parse_failure_text(reason@));
    fail_with(text)
}

/// Decides what the plugin does with the result of its execute function.
pub fn result_action(info: &PluginInfo, result: CommandResult) -> (r: Action)
    ensures
        result_action_ok(*info, result, r),
        exit_status(r) == Some(result_exit_status(result)),
{
    match result {
        CommandResult::Plan(commands, parallel) => Action::EmitPlan(
            PlanResponse { plan: ExecutionPlan { commands, parallel } },
        ),
        CommandResult::Message(msg) => {
            let mut out = String::new();
            if msg.as_str().unicode_len() > 0 {
                out.append(msg.as_str());
                out.append("\n");
            }
            assert(msg@.len() == 0 ==> out@ =~= Seq::<char>::empty());
            assert(msg@.len() > 0 ==> out@ =~= msg@ + "\n"@);
            Action::Finish { stdout: out, stderr: String::new(), exit_code: 0 }
        },
        CommandResult::Error(e) => {
            let mut text = String::new();
            text.append("Error: ");
            text.append(e.as_str());
            text.append("\n");
            assert(text@ =~= "Error: "@ + e@ + "\n"@);
            fail_with(text)
        },
        CommandResult::ShowHelp(Some(e)) => {
            let mut text = String::new();
            text.append("error: ");
            text.append(e.as_str());
            text.append("\n");
            text.append("\n");
            write_plugin_help(info, &mut text);
            assert(text@ =~= "error: "@ + e@ + "\n"@ + "\n"@ + help_text(*info));
            fail_with(text)
        },
        CommandResult::ShowHelp(None) => {
            let mut out = String::new();
            write_plugin_help(info, &mut out);
            assert(out@ =~= help_text(*info));
            Action::Finish { stdout: out, stderr: String::new(), exit_code: 0 }
        },
    }
}

/// Discovery depends on the metadata alone: any two argument lists that ask
/// for it lead to the same action, which reads no input and exits 0.
pub proof fn lemma_discovery_repeats(
    info: PluginInfo,
    args1: Seq<String>,
    args2: Seq<String>,
    a1: Action,
    a2: Action,
)
    requires
        invocation_of(args1) == Invocation::Info,
        invocation_of(args2) == Invocation::Info,
        invocation_action_ok(info, invocation_of(args1), a1),
        invocation_action_ok(info, invocation_of(args2), a2),
    ensures
        a1 == a2,
        a1 == Action::EmitInfo,
        exit_status(a1) == Some(0int),
{
}

/// Decides what the plugin does with the request read from standard input,
/// given as the JSON value it holds: the failure message when it is not a
/// valid request, else what the execute function's result asks for.
pub fn request_action<F: Fn(PluginRequest) -> CommandResult>(
    plugin: &PluginDefinition<F>,
    j: &Json,
) -> (r: Action)
    requires
        forall|req: PluginRequest| plugin.execute.requires((req,)),
    ensures
        exists|d: Result<PluginRequest, WireError>|
            #[trigger] decodes_request(*j, d) && match d {
                Err(e) => is_finish(r, Seq::empty(), parse_failure_text(wire_error_text(e)), 1),
                Ok(req) => exists|res: CommandResult|
                    plugin.execute.ensures((req,), res) && #[trigger] result_action_ok(
                        plugin.info,
                        res,
                        r,
                    ),
            },
{
    let decoded = request_from_json(j);
    match decoded {
        Err(e) => {
            let r = request_failure_action(&e.description());
            assert(decodes_request(*j, Err(e)));
            r
        },
        Ok(req) => {
            let ghost d = Ok::<PluginRequest, WireError>(req);
            let res = (plugin.execute)(req);
            let r = result_action(&plugin.info, res);
            assert(decodes_request(*j, d));
            assert(result_action_ok(plugin.info, res, r));
            r
        },
    }
}

} // verus!
