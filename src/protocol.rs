//! The messages exchanged between the host and a plugin.

use vstd::prelude::*;

verus! {

/// Metadata about a plugin, returned in response to `--meta-plugin-info`.
#[derive(Debug, Clone, PartialEq, Eq)]
pub struct PluginInfo {
    pub name: String,
    pub version: String,
    pub commands: Vec<String>,
    pub description: Option<String>,
    pub help: Option<PluginHelp>,
}

/// Help information for a plugin's commands.
#[derive(Debug, Clone, PartialEq, Eq)]
pub struct PluginHelp {
    /// Usage line (e.g. "meta git <command> [args...]").
    pub usage: String,
    /// Command descriptions, as (command name, description) entries.
    pub commands: Vec<(String, String)>,
    /// Example invocations, in order.
    pub examples: Vec<String>,
    /// Trailing note (e.g. how to run raw commands).
    pub note: Option<String>,
}

/// A request from the host to a plugin, sent as JSON on stdin.
#[derive(Debug, Clone, PartialEq, Eq)]
pub struct PluginRequest {
    pub command: String,
    pub args: Vec<String>,
    pub projects: Vec<String>,
    pub cwd: String,
    pub options: PluginRequestOptions,
}

/// Options forwarded from the host's own command line.
#[derive(Debug, Clone, PartialEq, Eq)]
pub struct PluginRequestOptions {
    pub json_output: bool,
    pub verbose: bool,
    pub parallel: bool,
    pub dry_run: bool,
    pub silent: bool,
    pub recursive: bool,
    pub depth: Option<usize>,
    pub include_filters: Option<Vec<String>>,
    pub exclude_filters: Option<Vec<String>>,
}

/// The options of a request that sets none of them.
pub open spec fn default_options() -> PluginRequestOptions {
    PluginRequestOptions {
        json_output: false,
        verbose: false,
        parallel: false,
        dry_run: false,
        silent: false,
        recursive: false,
        depth: None,
        include_filters: None,
        exclude_filters: None,
    }
}

impl Default for PluginRequestOptions {
    fn default() -> (r: Self)
        ensures
            r == default_options(),
    {
        PluginRequestOptions {
            json_output: false,
            verbose: false,
            parallel: false,
            dry_run: false,
            silent: false,
            recursive: false,
            depth: None,
            include_filters: None,
            exclude_filters: None,
        }
    }
}

/// An execution plan: commands for the host to run.
#[derive(Debug, Clone, PartialEq, Eq)]
pub struct ExecutionPlan {
    pub commands: Vec<PlannedCommand>,
    /// Whether to run the commands in parallel (overrides the host's `--parallel` if set).
    pub parallel: Option<bool>,
}

/// A single command to be run by the host.
#[derive(Debug, Clone, PartialEq, Eq)]
pub struct PlannedCommand {
    /// Directory to run in (relative to the host's root, or absolute).
    pub dir: String,
    /// Command line to run.
    pub cmd: String,
    /// Environment variables set for this command, as (name, value) entries,
    /// over the host's own environment.
    pub env: Option<Vec<(String, String)>>,
}

/// The envelope in which a plugin hands an execution plan to the host.
#[derive(Debug, Clone, PartialEq, Eq)]
pub struct PlanResponse {
    pub plan: ExecutionPlan,
}

/// The result of a plugin's execute function.
#[derive(Debug, Clone, PartialEq, Eq)]
pub enum CommandResult {
    /// A plan of commands for the host to run, with an optional parallel override.
    Plan(Vec<PlannedCommand>, Option<bool>),
    /// A message to display (no commands to run).
    Message(String),
    /// The command failed.
    Error(String),
    /// Show the help text, optionally after an error message.
    ShowHelp(Option<String>),
}

/// A plugin: its metadata and its execute function.
pub struct PluginDefinition<F: Fn(PluginRequest) -> CommandResult> {
    pub info: PluginInfo,
    /// Receives the parsed request and returns what the harness is to do.
    pub execute: F,
}

} // verus!
