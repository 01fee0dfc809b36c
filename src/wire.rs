//! The mapping between the protocol's messages and JSON values.
//!
//! A request may leave out every field but `command`: a missing list is
//! empty, a missing flag false, a missing directory empty and missing options
//! are the defaults. Members that the message does not know are ignored.

use vstd::prelude::*;
use crate::json::{get_member, member, Json};
use crate::protocol::{default_options, PluginRequest, PluginRequestOptions};

verus! {

/// Why a JSON value is not a valid message.
#[derive(Debug, Clone, Copy, PartialEq, Eq, Structural)]
pub enum WireError {
    /// The value is not an object, or a member has the wrong type.
    Malformed,
    /// The request has no `command` member.
    MissingCommand,
    /// The request's `command` is the empty string.
    EmptyCommand,
}

/// The one-line description of a failure.
pub open spec fn wire_error_text(e: WireError) -> Seq<char> {
    match e {
        WireError::Malformed => "malformed message: not an object, or a member of the wrong type"@,
        WireError::MissingCommand => "missing field `command`"@,
        WireError::EmptyCommand => "field `command` is empty"@,
    }
}

impl WireError {
    /// A one-line description of the failure.
    pub fn description(&self) -> (r: String)
        ensures
            r@ == wire_error_text(*self),
    {
        match self {
            WireError::Malformed => {
                "malformed message: not an object, or a member of the wrong type".to_string()
            },
            WireError::MissingCommand => "missing field `command`".to_string(),
            WireError::EmptyCommand => "field `command` is empty".to_string(),
        }
    }
}

/// A looked-up reference seen as the value it refers to.
pub open spec fn deref_opt(v: Option<&Json>) -> Option<Json> {
    match v {
        Some(x) => Some(*x),
        None => None,
    }
}

/// Every item is a string.
pub open spec fn all_strings(items: Seq<Json>) -> bool {
    forall|i: int| 0 <= i < items.len() ==> items[i] is Str
}

/// The items are the strings of `out`, in order.
pub open spec fn strings_are(items: Seq<Json>, out: Seq<String>) -> bool {
    &&& out.len() == items.len()
    &&& forall|i: int| 0 <= i < items.len() ==> items[i] == Json::Str(out[i])
}

/// A list member with a default: absent, or an array of strings.
pub open spec fn list_ok(v: Option<Json>) -> bool {
    match v {
        None => true,
        Some(Json::Array(items)) => all_strings(items@),
        _ => false,
    }
}

/// The value of a list member with a default: empty when absent.
pub open spec fn list_is(v: Option<Json>, out: Seq<String>) -> bool {
    match v {
        Some(Json::Array(items)) => strings_are(items@, out),
        _ => out.len() == 0,
    }
}

/// An optional list member: absent, null, or an array of strings.
pub open spec fn optional_list_ok(v: Option<Json>) -> bool {
    match v {
        None => true,
        Some(Json::Null) => true,
        Some(Json::Array(items)) => all_strings(items@),
        _ => false,
    }
}

/// The value of an optional list member: `None` when absent or null.
pub open spec fn optional_list_is(v: Option<Json>, out: Option<Vec<String>>) -> bool {
    match v {
        Some(Json::Array(items)) => out is Some && strings_are(items@, out->0@),
        _ => out is None,
    }
}

/// A flag member: absent, or a boolean.
pub open spec fn flag_ok(v: Option<Json>) -> bool {
    match v {
        None => true,
        Some(Json::Bool(_)) => true,
        _ => false,
    }
}

/// The value of a flag member: false when absent.
pub open spec fn flag_value(v: Option<Json>) -> bool {
    match v {
        Some(Json::Bool(b)) => b,
        _ => false,
    }
}

/// The depth member: absent, null, or an integer that fits in `usize`.
pub open spec fn depth_ok(v: Option<Json>) -> bool {
    match v {
        None => true,
        Some(Json::Null) => true,
        Some(Json::UInt(n)) => n <= usize::MAX,
        _ => false,
    }
}

/// The value of the depth member: `None` when absent or null.
pub open spec fn depth_value(v: Option<Json>) -> Option<usize> {
    match v {
        Some(Json::UInt(n)) => Some(n as usize),
        _ => None,
    }
}

/// A text member with a default: absent, or a string.
pub open spec fn text_ok(v: Option<Json>) -> bool {
    match v {
        None => true,
        Some(Json::Str(_)) => true,
        _ => false,
    }
}

/// The value of a text member: empty when absent.
pub open spec fn text_is(v: Option<Json>, out: String) -> bool {
    match v {
        Some(Json::Str(s)) => out == s,
        _ => out@.len() == 0,
    }
}

/// The members of an options object have the right types.
pub open spec fn options_members_ok(ms: Seq<(String, Json)>) -> bool {
    &&& flag_ok(member(ms, "json_output"@))
    &&& flag_ok(member(ms, "verbose"@))
    &&& flag_ok(member(ms, "parallel"@))
    &&& flag_ok(member(ms, "dry_run"@))
    &&& flag_ok(member(ms, "silent"@))
    &&& flag_ok(member(ms, "recursive"@))
    &&& depth_ok(member(ms, "depth"@))
    &&& optional_list_ok(member(ms, "include_filters"@))
    &&& optional_list_ok(member(ms, "exclude_filters"@))
}

/// `o` holds what the members of an options object say, with the defaults
/// for those that are absent.
pub open spec fn options_members_are(ms: Seq<(String, Json)>, o: PluginRequestOptions) -> bool {
    &&& o.json_output == flag_value(member(ms, "json_output"@))
    &&& o.verbose == flag_value(member(ms, "verbose"@))
    &&& o.parallel == flag_value(member(ms, "parallel"@))
    &&& o.dry_run == flag_value(member(ms, "dry_run"@))
    &&& o.silent == flag_value(member(ms, "silent"@))
    &&& o.recursive == flag_value(member(ms, "recursive"@))
    &&& o.depth == depth_value(member(ms, "depth"@))
    &&& optional_list_is(member(ms, "include_filters"@), o.include_filters)
    &&& optional_list_is(member(ms, "exclude_filters"@), o.exclude_filters)
}

/// The options member: absent, or a well-typed object.
pub open spec fn options_ok(v: Option<Json>) -> bool {
    match v {
        None => true,
        Some(Json::Object(ms)) => options_members_ok(ms@),
        _ => false,
    }
}

/// The value of the options member: the defaults when absent.
pub open spec fn options_is(v: Option<Json>, o: PluginRequestOptions) -> bool {
    match v {
        Some(Json::Object(ms)) => options_members_are(ms@, o),
        _ => o == default_options(),
    }
}

/// The members of a request object have the right types (`command` a string).
pub open spec fn request_members_ok(ms: Seq<(String, Json)>) -> bool {
    &&& member(ms, "command"@) matches Some(Json::Str(_))
    &&& list_ok(member(ms, "args"@))
    &&& list_ok(member(ms, "projects"@))
    &&& text_ok(member(ms, "cwd"@))
    &&& options_ok(member(ms, "options"@))
}

/// `r` holds what the members of a request object say, with the defaults for
/// those that are absent.
pub open spec fn request_members_are(ms: Seq<(String, Json)>, r: PluginRequest) -> bool {
    &&& text_is(member(ms, "command"@), r.command)
    &&& list_is(member(ms, "args"@), r.args@)
    &&& list_is(member(ms, "projects"@), r.projects@)
    &&& text_is(member(ms, "cwd"@), r.cwd)
    &&& options_is(member(ms, "options"@), r.options)
}

/// The command named by a request object, empty if it names none.
pub open spec fn command_text(ms: Seq<(String, Json)>) -> Seq<char> {
    match member(ms, "command"@) {
        Some(Json::Str(s)) => s@,
        _ => Seq::empty(),
    }
}

/// What decoding `j` as a request gives.
pub open spec fn decodes_request(j: Json, r: Result<PluginRequest, WireError>) -> bool {
    match j {
        Json::Object(ms) => if member(ms@, "command"@) is None {
            r == Err::<PluginRequest, WireError>(WireError::MissingCommand)
        } else if !request_members_ok(ms@) {
            r == Err::<PluginRequest, WireError>(WireError::Malformed)
        } else if command_text(ms@).len() == 0 {
            r == Err::<PluginRequest, WireError>(WireError::EmptyCommand)
        } else {
            r matches Ok(req) && request_members_are(ms@, req)
        },
        _ => r == Err::<PluginRequest, WireError>(WireError::Malformed),
    }
}

/// The strings of an array whose items are all strings.
fn decode_strings(items: &Vec<Json>) -> (r: Option<Vec<String>>)
    ensures
        r is Some <==> all_strings(items@),
        r matches Some(out) ==> strings_are(items@, out@),
{
    let mut out: Vec<String> = Vec::new();
    let mut i: usize = 0;
    while i < items.len()
        invariant
            i <= items@.len(),
            all_strings(items@.take(i as int)),
            strings_are(items@.take(i as int), out@),
        decreases items@.len() - i,
    {
        match &items[i] {
            Json::Str(s) => {
                out.push(s.clone());
            },
            _ => {
                assert(!(items@[i as int] is Str));
                return None;
            },
        }
        i = i + 1;
        assert(items@.take(i as int)[i - 1] == items@[i - 1]);
    }
    assert(items@.take(i as int) =~= items@);
    Some(out)
}

/// Decodes a list member with a default.
fn decode_list(v: Option<&Json>) -> (r: Option<Vec<String>>)
    ensures
        r is Some <==> list_ok(deref_opt(v)),
        r matches Some(out) ==> list_is(deref_opt(v), out@),
{
    match v {
        None => Some(Vec::new()),
        Some(Json::Array(items)) => decode_strings(items),
        Some(_) => None,
    }
}

/// Decodes an optional list member.
fn decode_optional_list(v: Option<&Json>) -> (r: Option<Option<Vec<String>>>)
    ensures
        r is Some <==> optional_list_ok(deref_opt(v)),
        r matches Some(out) ==> optional_list_is(deref_opt(v), out),
{
    match v {
        None => Some(None),
        Some(Json::Null) => Some(None),
        Some(Json::Array(items)) => match decode_strings(items) {
            Some(out) => Some(Some(out)),
            None => None,
        },
        Some(_) => None,
    }
}

/// Decodes a flag member.
fn decode_flag(v: Option<&Json>) -> (r: Option<bool>)
    ensures
        r is Some <==> flag_ok(deref_opt(v)),
        r matches Some(b) ==> b == flag_value(deref_opt(v)),
{
    match v {
        None => Some(false),
        Some(Json::Bool(b)) => Some(*b),
        Some(_) => None,
    }
}

/// Decodes the depth member.
fn decode_depth(v: Option<&Json>) -> (r: Option<Option<usize>>)
    ensures
        r is Some <==> depth_ok(deref_opt(v)),
        r matches Some(d) ==> d == depth_value(deref_opt(v)),
{
    match v {
        None => Some(None),
        Some(Json::Null) => Some(None),
        Some(Json::UInt(n)) => if *n <= usize::MAX as u64 {
            Some(Some(*n as usize))
        } else {
            None
        },
        Some(_) => None,
    }
}

/// Decodes a text member with a default.
fn decode_text(v: Option<&Json>) -> (r: Option<String>)
    ensures
        r is Some <==> text_ok(deref_opt(v)),
        r matches Some(out) ==> text_is(deref_opt(v), out),
{
    match v {
        None => Some(String::new()),
        Some(Json::Str(s)) => Some(s.clone()),
        Some(_) => None,
    }
}

/// Decodes the members of an options object.
fn decode_options_members(ms: &Vec<(String, Json)>) -> (r: Option<PluginRequestOptions>)
    ensures
        r is Some <==> options_members_ok(ms@),
        r matches Some(o) ==> options_members_are(ms@, o),
{
    let json_output = decode_flag(get_member(ms, "json_output"))?;
    let verbose = decode_flag(get_member(ms, "verbose"))?;
    let parallel = decode_flag(get_member(ms, "parallel"))?;
    let dry_run = decode_flag(get_member(ms, "dry_run"))?;
    let silent = decode_flag(get_member(ms, "silent"))?;
    let recursive = decode_flag(get_member(ms, "recursive"))?;
    let depth = decode_depth(get_member(ms, "depth"))?;
    let include_filters = decode_optional_list(get_member(ms, "include_filters"))?;
    let exclude_filters = decode_optional_list(get_member(ms, "exclude_filters"))?;
    Some(
        PluginRequestOptions {
            json_output,
            verbose,
            parallel,
            dry_run,
            silent,
            recursive,
            depth,
            include_filters,
            exclude_filters,
        },
    )
}

/// Decodes the options member.
fn decode_options(v: Option<&Json>) -> (r: Option<PluginRequestOptions>)
    ensures
        r is Some <==> options_ok(deref_opt(v)),
        r matches Some(o) ==> options_is(deref_opt(v), o),
{
    match v {
        None => Some(PluginRequestOptions::default()),
        Some(Json::Object(ms)) => decode_options_members(ms),
        Some(_) => None,
    }
}

/// Decodes a request from a JSON value.
///
/// Fails with `MissingCommand` when the object has no `command`, with
/// `Malformed` when the value is not an object or a member has the wrong
/// type, and with `EmptyCommand` when `command` is empty.
pub fn request_from_json(j: &Json) -> (r: Result<PluginRequest, WireError>)
    ensures
        decodes_request(*j, r),
{
    let ms = match j {
        Json::Object(ms) => ms,
        _ => {
            return Err(WireError::Malformed);
        },
    };
    let command = match get_member(ms, "command") {
        None => {
            return Err(WireError::MissingCommand);
        },
        Some(Json::Str(s)) => s,
        Some(_) => {
            return Err(WireError::Malformed);
        },
    };
    let args = match decode_list(get_member(ms, "args")) {
        Some(a) => a,
        None => {
            return Err(WireError::Malformed);
        },
    };
    let projects = match decode_list(get_member(ms, "projects")) {
        Some(p) => p,
        None => {
            return Err(WireError::Malformed);
        },
    };
    let cwd = match decode_text(get_member(ms, "cwd")) {
        Some(c) => c,
        None => {
            return Err(WireError::Malformed);
        },
    };
    let options = match decode_options(get_member(ms, "options")) {
        Some(o) => o,
        None => {
            return Err(WireError::Malformed);
        },
    };
    if command.as_str().unicode_len() == 0 {
        return Err(WireError::EmptyCommand);
    }
    Ok(PluginRequest { command: command.clone(), args, projects, cwd, options })
}


/// Each member of an options object that is left out takes its default.
pub open spec fn omitted_options_default(os: Seq<(String, Json)>, o: PluginRequestOptions) -> bool {
    &&& member(os, "json_output"@) is None ==> !o.json_output
    &&& member(os, "verbose"@) is None ==> !o.verbose
    &&& member(os, "parallel"@) is None ==> !o.parallel
    &&& member(os, "dry_run"@) is None ==> !o.dry_run
    &&& member(os, "silent"@) is None ==> !o.silent
    &&& member(os, "recursive"@) is None ==> !o.recursive
    &&& member(os, "depth"@) is None ==> o.depth is None
    &&& member(os, "include_filters"@) is None ==> o.include_filters is None
    &&& member(os, "exclude_filters"@) is None ==> o.exclude_filters is None
}

/// Each member of a request object that is left out takes its default.
pub open spec fn omitted_members_default(ms: Seq<(String, Json)>, req: PluginRequest) -> bool {
    &&& member(ms, "args"@) is None ==> req.args@.len() == 0
    &&& member(ms, "projects"@) is None ==> req.projects@.len() == 0
    &&& member(ms, "cwd"@) is None ==> req.cwd@.len() == 0
    &&& member(ms, "options"@) is None ==> req.options == default_options()
    &&& match member(ms, "options"@) {
        Some(Json::Object(os)) => omitted_options_default(os@, req.options),
        _ => true,
    }
}

/// A request object whose members have the right types and whose command is
/// not empty decodes, whatever optional members it leaves out, and each of
/// those takes its default: empty lists, an empty directory, flags false, no
/// depth and no filters.
pub proof fn lemma_omitted_members_default(ms: Vec<(String, Json)>, r: Result<PluginRequest, WireError>)
    requires
        request_members_ok(ms@),
        command_text(ms@).len() > 0,
        decodes_request(Json::Object(ms), r),
    ensures
        r matches Ok(req) && omitted_members_default(ms@, req),
{
}

} // verus!
