//! Wire types and dispatch harness for subprocess plugins of a command-line host.
//!
//! The host discovers a plugin by running it with `--meta-plugin-info` and
//! executes a command by running it with `--meta-plugin-exec`, a request on
//! standard input. This library holds the message types, the help rendering,
//! the mapping between the messages and JSON values, and the decisions of the
//! harness: what each invocation prints and with which exit status.

pub mod protocol;
pub mod help;
pub mod harness;
pub mod json;
pub mod wire;
pub mod plan_codec;
pub mod info_codec;
