use meta_plugin_protocol::harness::{
    classify_invocation, invocation_action, request_action, request_failure_action,
    result_action, Action, Invocation,
};
use meta_plugin_protocol::help::{plugin_help_text, write_plugin_help};
use meta_plugin_protocol::json::Json;
use meta_plugin_protocol::protocol::{
    CommandResult, PlannedCommand, PluginDefinition, PluginHelp, PluginInfo, PluginRequest,
};

fn s(t: &str) -> String {
    t.to_string()
}

fn args(items: &[&str]) -> Vec<String> {
    items.iter().map(|t| t.to_string()).collect()
}

fn git_info() -> PluginInfo {
    PluginInfo {
        name: s("git"),
        version: s("1.2.0"),
        commands: vec![s("pull")],
        description: Some(s("Git across projects")),
        help: Some(PluginHelp {
            usage: s("meta git <command> [args...]"),
            commands: vec![(s("pull"), s("fetch+merge"))],
            examples: vec![s("meta git pull")],
            note: Some(s("Run raw git with: meta exec git ...")),
        }),
    }
}

fn bare_info() -> PluginInfo {
    PluginInfo {
        name: s("rust"),
        version: s("0.3.1"),
        commands: vec![],
        description: None,
        help: None,
    }
}

fn finish(a: Action) -> (String, String, i32) {
    match a {
        Action::Finish { stdout, stderr, exit_code } => (stdout, stderr, exit_code),
        other => panic!("expected a finishing action, got {:?}", other),
    }
}

#[test]
fn help_text_with_structured_help() {
    let text = plugin_help_text(&git_info());
    let expected = "meta git <command> [args...]\n\nCommands:\n  pull                 fetch+merge\n\nExamples:\n  meta git pull\n\nRun raw git with: meta exec git ...\n";
    assert_eq!(text, expected);
}

#[test]
fn help_text_pads_command_names_to_twenty_columns() {
    let mut info = git_info();
    if let Some(h) = info.help.as_mut() {
        h.commands = vec![
            (s("st"), s("status")),
            (s("a-very-long-command-name"), s("long")),
        ];
        h.examples = vec![];
        h.note = None;
    }
    let text = plugin_help_text(&info);
    let expected = format!(
        "meta git <command> [args...]\n\nCommands:\n  {}{} status\n  a-very-long-command-name long\n\n",
        "st",
        " ".repeat(18)
    );
    assert_eq!(text, expected);
}

#[test]
fn help_text_without_commands_or_examples() {
    let mut info = git_info();
    if let Some(h) = info.help.as_mut() {
        h.commands = vec![];
        h.examples = vec![];
        h.note = None;
    }
    assert_eq!(plugin_help_text(&info), "meta git <command> [args...]\n\n");
}

#[test]
fn help_text_fallback_summary() {
    assert_eq!(plugin_help_text(&bare_info()), "rust v0.3.1\n");
    let mut info = bare_info();
    info.description = Some(s("Cargo across projects"));
    assert_eq!(plugin_help_text(&info), "rust v0.3.1\nCargo across projects\n");
}

#[test]
fn write_plugin_help_appends_to_the_sink() {
    let mut w = s("before\n");
    write_plugin_help(&bare_info(), &mut w);
    assert_eq!(w, "before\nrust v0.3.1\n");
}

#[test]
fn classify_each_argument() {
    assert_eq!(classify_invocation(&args(&["bin"])), Invocation::Missing);
    assert_eq!(classify_invocation(&args(&["bin", "--meta-plugin-info"])), Invocation::Info);
    assert_eq!(classify_invocation(&args(&["bin", "--meta-plugin-exec"])), Invocation::Exec);
    assert_eq!(classify_invocation(&args(&["bin", "--help"])), Invocation::Help);
    assert_eq!(classify_invocation(&args(&["bin", "-h"])), Invocation::Help);
    assert_eq!(
        classify_invocation(&args(&["bin", "--bogus", "x"])),
        Invocation::Unknown(s("--bogus"))
    );
}

#[test]
fn missing_argument_names_the_plugin() {
    let (out, err, code) = finish(invocation_action(&git_info(), &args(&["meta-git"])));
    assert_eq!(out, "");
    assert!(err.contains("git"));
    assert_eq!(err, "This binary is a meta plugin. Use via: meta git\n");
    assert_eq!(code, 1);
}

#[test]
fn unknown_flag_is_reported() {
    let (out, err, code) = finish(invocation_action(&git_info(), &args(&["bin", "--nope"])));
    assert_eq!(out, "");
    assert_eq!(err, "Unknown flag: --nope. This binary is a meta plugin.\nUse via: meta git\n");
    assert_eq!(code, 1);
}

#[test]
fn help_flag_prints_help_to_stdout() {
    let (out, err, code) = finish(invocation_action(&bare_info(), &args(&["bin", "-h"])));
    assert_eq!(out, "rust v0.3.1\n");
    assert_eq!(err, "");
    assert_eq!(code, 0);
}

#[test]
fn discovery_and_exec_flags() {
    assert_eq!(
        invocation_action(&git_info(), &args(&["bin", "--meta-plugin-info"])),
        Action::EmitInfo
    );
    assert_eq!(
        invocation_action(&git_info(), &args(&["bin", "--meta-plugin-info"])),
        invocation_action(&git_info(), &args(&["other", "--meta-plugin-info"]))
    );
    assert_eq!(
        invocation_action(&git_info(), &args(&["bin", "--meta-plugin-exec"])),
        Action::ReadRequest
    );
}

#[test]
fn message_result_prints_with_newline() {
    let (out, err, code) = finish(result_action(&git_info(), CommandResult::Message(s("clean"))));
    assert_eq!(out, "clean\n");
    assert_eq!(err, "");
    assert_eq!(code, 0);
}

#[test]
fn empty_message_is_silent_success() {
    let (out, err, code) = finish(result_action(&git_info(), CommandResult::Message(s(""))));
    assert_eq!(out, "");
    assert_eq!(err, "");
    assert_eq!(code, 0);
}

#[test]
fn error_result_goes_to_stderr() {
    let (out, err, code) = finish(result_action(&git_info(), CommandResult::Error(s("boom"))));
    assert_eq!(out, "");
    assert_eq!(err, "Error: boom\n");
    assert_eq!(code, 1);
}

#[test]
fn show_help_with_error_goes_to_stderr() {
    let mut info = git_info();
    if let Some(h) = info.help.as_mut() {
        h.examples = vec![];
        h.note = None;
    }
    let (out, err, code) =
        finish(result_action(&info, CommandResult::ShowHelp(Some(s("missing command")))));
    assert_eq!(out, "");
    assert!(err.starts_with("error: missing command\n\nmeta git <command> [args...]\n"));
    assert!(err.contains("Commands:\n  pull"));
    assert_eq!(
        err,
        "error: missing command\n\nmeta git <command> [args...]\n\nCommands:\n  pull                 fetch+merge\n\n"
    );
    assert_eq!(code, 1);
}

#[test]
fn bare_show_help_goes_to_stdout() {
    let (out, err, code) = finish(result_action(&bare_info(), CommandResult::ShowHelp(None)));
    assert_eq!(out, "rust v0.3.1\n");
    assert_eq!(err, "");
    assert_eq!(code, 0);
}

#[test]
fn plan_result_becomes_an_envelope() {
    let cmds = vec![PlannedCommand { dir: s("a"), cmd: s("git pull"), env: None }];
    match result_action(&git_info(), CommandResult::Plan(cmds.clone(), Some(true))) {
        Action::EmitPlan(p) => {
            assert_eq!(p.plan.commands, cmds);
            assert_eq!(p.plan.parallel, Some(true));
        }
        other => panic!("expected a plan, got {:?}", other),
    }
}

#[test]
fn exit_codes_follow_the_result() {
    let info = git_info();
    let code = |r: CommandResult| match result_action(&info, r) {
        Action::EmitPlan(_) => 0,
        Action::Finish { exit_code, .. } => exit_code,
        other => panic!("unexpected {:?}", other),
    };
    assert_eq!(code(CommandResult::Plan(vec![], None)), 0);
    assert_eq!(code(CommandResult::Message(s("x"))), 0);
    assert_eq!(code(CommandResult::Error(s("x"))), 1);
    assert_eq!(code(CommandResult::ShowHelp(Some(s("x")))), 1);
    assert_eq!(code(CommandResult::ShowHelp(None)), 0);
}

#[test]
fn parse_failure_is_reported() {
    let (out, err, code) = finish(request_failure_action(&s("expected value at line 1 column 1")));
    assert_eq!(out, "");
    assert_eq!(err, "Failed to parse plugin request: expected value at line 1 column 1\n");
    assert_eq!(code, 1);
}

fn status_plugin(req: PluginRequest) -> CommandResult {
    if req.command == "status" && req.projects == vec![s("a"), s("b")] && req.cwd == "/repo" {
        CommandResult::Message(s("clean"))
    } else {
        CommandResult::Error(s("unexpected request"))
    }
}

#[test]
fn request_action_runs_the_plugin() {
    let plugin = PluginDefinition { info: git_info(), execute: status_plugin };
    let j = Json::Object(vec![
        (s("command"), Json::Str(s("status"))),
        (s("args"), Json::Array(vec![])),
        (s("projects"), Json::Array(vec![Json::Str(s("a")), Json::Str(s("b"))])),
        (s("cwd"), Json::Str(s("/repo"))),
        (s("options"), Json::Object(vec![])),
    ]);
    let (out, err, code) = finish(request_action(&plugin, &j));
    assert_eq!(out, "clean\n");
    assert_eq!(err, "");
    assert_eq!(code, 0);
}

#[test]
fn request_action_reports_an_invalid_request() {
    let plugin = PluginDefinition { info: git_info(), execute: status_plugin };
    let (out, err, code) = finish(request_action(&plugin, &Json::Str(s("not json"))));
    assert_eq!(out, "");
    assert!(err.starts_with("Failed to parse plugin request: "));
    assert_eq!(code, 1);
}

#[test]
fn text_that_is_not_json_fails_to_parse() {
    let err = serde_json::from_str::<serde_json::Value>("not json").unwrap_err();
    let (out, text, code) = finish(request_failure_action(&err.to_string()));
    assert_eq!(out, "");
    assert!(text.starts_with("Failed to parse plugin request: "));
    assert!(text.len() > "Failed to parse plugin request: \n".len());
    assert_eq!(code, 1);
}
