//! The JSON form of a plugin's metadata, which discovery prints.
//!
//! Every field is written; an absent description, help or note is written as
//! null, as the host's reader accepts.

use vstd::prelude::*;
use crate::json::{key, Json};
use crate::plan_codec::{encode_string_map, string_map_encodes};
use crate::protocol::{PluginHelp, PluginInfo};
use crate::wire::strings_are;

verus! {

/// `j` is the array of the strings, in order.
pub open spec fn strings_encode(items: Seq<String>, j: Json) -> bool {
    match j {
        Json::Array(js) => strings_are(js@, items),
        _ => false,
    }
}

/// `j` is the string, or null when absent.
pub open spec fn optional_text_encodes(v: Option<String>, j: Json) -> bool {
    match v {
        Some(s) => j == Json::Str(s),
        None => j == Json::Null,
    }
}

/// `j` is the JSON form of the help.
pub open spec fn help_encodes(h: PluginHelp, j: Json) -> bool {
    match j {
        Json::Object(ms) => {
            &&& ms@.len() == 4
            &&& ms@[0].0@ == "usage"@ && ms@[0].1 == Json::Str(h.usage)
            &&& ms@[1].0@ == "commands"@ && string_map_encodes(h.commands@, ms@[1].1)
            &&& ms@[2].0@ == "examples"@ && strings_encode(h.examples@, ms@[2].1)
            &&& ms@[3].0@ == "note"@ && optional_text_encodes(h.note, ms@[3].1)
        },
        _ => false,
    }
}

/// `j` is the JSON form of the metadata.
pub open spec fn info_encodes(info: PluginInfo, j: Json) -> bool {
    match j {
        Json::Object(ms) => {
            &&& ms@.len() == 5
            &&& ms@[0].0@ == "name"@ && ms@[0].1 == Json::Str(info.name)
            &&& ms@[1].0@ == "version"@ && ms@[1].1 == Json::Str(info.version)
            &&& ms@[2].0@ == "commands"@ && strings_encode(info.commands@, ms@[2].1)
            &&& ms@[3].0@ == "description"@ && optional_text_encodes(info.description, ms@[3].1)
            &&& ms@[4].0@ == "help"@ && match info.help {
                Some(h) => help_encodes(h, ms@[4].1),
                None => ms@[4].1 == Json::Null,
            }
        },
        _ => false,
    }
}

/// The array of the strings.
fn encode_strings(items: &Vec<String>) -> (j: Json)
    ensures
        strings_encode(items@, j),
{
    let mut js: Vec<Json> = Vec::new();
    let mut i: usize = 0;
    while i < items.len()
        invariant
            i <= items@.len(),
            strings_are(js@, items@.take(i as int)),
        decreases items@.len() - i,
    {
        js.push(Json::Str(items[i].clone()));
        i = i + 1;
        assert(strings_are(js@, items@.take(i as int)));
    }
    assert(items@.take(i as int) =~= items@);
    Json::Array(js)
}

/// The string, or null.
fn encode_optional_text(v: &Option<String>) -> (j: Json)
    ensures
        optional_text_encodes(*v, j),
{
    match v {
        Some(s) => Json::Str(s.clone()),
        None => Json::Null,
    }
}

/// The JSON form of the help.
fn encode_help(h: &PluginHelp) -> (j: Json)
    ensures
        help_encodes(*h, j),
{
    let mut ms: Vec<(String, Json)> = Vec::new();
    ms.push((key("usage"), Json::Str(h.usage.clone())));
    ms.push((key("commands"), encode_string_map(&h.commands)));
    ms.push((key("examples"), encode_strings(&h.examples)));
    ms.push((key("note"), encode_optional_text(&h.note)));
    Json::Object(ms)
}

/// The JSON form of the metadata: what discovery prints.
pub fn plugin_info_to_json(info: &PluginInfo) -> (j: Json)
    ensures
        info_encodes(*info, j),
{
    let mut ms: Vec<(String, Json)> = Vec::new();
    ms.push((key("name"), Json::Str(info.name.clone())));
    ms.push((key("version"), Json::Str(info.version.clone())));
    ms.push((key("commands"), encode_strings(&info.commands)));
    ms.push((key("description"), encode_optional_text(&info.description)));
    let help = match &info.help {
        Some(h) => encode_help(h),
        None => Json::Null,
    };
    ms.push((key("help"), help));
    Json::Object(ms)
}

} // verus!
