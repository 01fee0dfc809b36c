//! The mapping between execution plans and JSON values.
//!
//! A plan is written as `{"plan": {"commands": [...], "parallel": b}}`, each
//! command as `{"dir": .., "cmd": .., "env": {..}}`; `parallel` and `env` are
//! left out when absent, and read back as absent when missing or null.

use vstd::prelude::*;
use crate::json::{get_member, key, member, member_from, Json};
use crate::protocol::{ExecutionPlan, PlanResponse, PlannedCommand};
use crate::wire::{deref_opt, WireError};

verus! {

/// The members are the (name, string value) entries, in order.
pub open spec fn string_map_is(ms: Seq<(String, Json)>, entries: Seq<(String, String)>) -> bool {
    &&& ms.len() == entries.len()
    &&& forall|i: int|
        0 <= i < ms.len() ==> #[trigger] ms[i] == (entries[i].0, Json::Str(entries[i].1))
}

/// `j` is the object of the (name, string value) entries.
pub open spec fn string_map_encodes(entries: Seq<(String, String)>, j: Json) -> bool {
    match j {
        Json::Object(ms) => string_map_is(ms@, entries),
        _ => false,
    }
}

/// `j` is the JSON form of the command.
pub open spec fn command_encodes(c: PlannedCommand, j: Json) -> bool {
    match j {
        Json::Object(ms) => {
            &&& ms@.len() == (if c.env is Some { 3int } else { 2int })
            &&& ms@[0].0@ == "dir"@ && ms@[0].1 == Json::Str(c.dir)
            &&& ms@[1].0@ == "cmd"@ && ms@[1].1 == Json::Str(c.cmd)
            &&& match c.env {
                Some(vars) => ms@[2].0@ == "env"@ && string_map_encodes(vars@, ms@[2].1),
                None => true,
            }
        },
        _ => false,
    }
}

/// `j` is the array of the JSON forms of the commands, in order.
pub open spec fn commands_encode(commands: Seq<PlannedCommand>, j: Json) -> bool {
    match j {
        Json::Array(items) => {
            &&& items@.len() == commands.len()
            &&& forall|i: int|
                0 <= i < items@.len() ==> command_encodes(#[trigger] commands[i], #[trigger] items@[i])
        },
        _ => false,
    }
}

/// `j` is the JSON form of the plan.
pub open spec fn plan_encodes(p: ExecutionPlan, j: Json) -> bool {
    match j {
        Json::Object(ms) => {
            &&& ms@.len() == (if p.parallel is Some { 2int } else { 1int })
            &&& ms@[0].0@ == "commands"@
            &&& commands_encode(p.commands@, ms@[0].1)
            &&& match p.parallel {
                Some(b) => ms@[1].0@ == "parallel"@ && ms@[1].1 == Json::Bool(b),
                None => true,
            }
        },
        _ => false,
    }
}

/// `j` is the JSON form of the envelope.
pub open spec fn plan_response_encodes(p: PlanResponse, j: Json) -> bool {
    match j {
        Json::Object(ms) => ms@.len() == 1 && ms@[0].0@ == "plan"@ && plan_encodes(p.plan, ms@[0].1),
        _ => false,
    }
}

/// An `env` member: absent, null, or an object of strings.
pub open spec fn env_ok(v: Option<Json>) -> bool {
    match v {
        None => true,
        Some(Json::Null) => true,
        Some(Json::Object(ms)) => forall|i: int| 0 <= i < ms@.len() ==> (#[trigger] ms@[i]).1 is Str,
        _ => false,
    }
}

/// The value of an `env` member: `None` when absent or null.
pub open spec fn env_is(v: Option<Json>, env: Option<Vec<(String, String)>>) -> bool {
    match v {
        Some(Json::Object(ms)) => match env {
            Some(vars) => string_map_is(ms@, vars@),
            None => false,
        },
        _ => env is None,
    }
}

/// `j` is a well-typed command object.
pub open spec fn command_ok(j: Json) -> bool {
    match j {
        Json::Object(ms) => {
            &&& member(ms@, "dir"@) matches Some(Json::Str(_))
            &&& member(ms@, "cmd"@) matches Some(Json::Str(_))
            &&& env_ok(member(ms@, "env"@))
        },
        _ => false,
    }
}

/// `c` holds what the command object `j` says.
pub open spec fn command_is(j: Json, c: PlannedCommand) -> bool {
    match j {
        Json::Object(ms) => {
            &&& member(ms@, "dir"@) == Some(Json::Str(c.dir))
            &&& member(ms@, "cmd"@) == Some(Json::Str(c.cmd))
            &&& env_is(member(ms@, "env"@), c.env)
        },
        _ => false,
    }
}

/// A `parallel` member: absent, null or a boolean.
pub open spec fn parallel_ok(v: Option<Json>) -> bool {
    match v {
        None => true,
        Some(Json::Null) => true,
        Some(Json::Bool(_)) => true,
        _ => false,
    }
}

/// The value of a `parallel` member: `None` when absent or null.
pub open spec fn parallel_value(v: Option<Json>) -> Option<bool> {
    match v {
        Some(Json::Bool(b)) => Some(b),
        _ => None,
    }
}

/// A `commands` member: an array of well-typed command objects.
pub open spec fn commands_ok(v: Option<Json>) -> bool {
    match v {
        Some(Json::Array(items)) => forall|i: int|
            0 <= i < items@.len() ==> command_ok(#[trigger] items@[i]),
        _ => false,
    }
}

/// `commands` holds what the `commands` member `v` says, in order.
pub open spec fn commands_are(v: Option<Json>, commands: Seq<PlannedCommand>) -> bool {
    match v {
        Some(Json::Array(items)) => {
            &&& items@.len() == commands.len()
            &&& forall|i: int|
                0 <= i < items@.len() ==> command_is(#[trigger] items@[i], #[trigger] commands[i])
        },
        _ => false,
    }
}

/// `j` is a well-typed plan object.
pub open spec fn plan_ok(j: Json) -> bool {
    match j {
        Json::Object(ms) => commands_ok(member(ms@, "commands"@)) && parallel_ok(
            member(ms@, "parallel"@),
        ),
        _ => false,
    }
}

/// `p` holds what the plan object `j` says.
pub open spec fn plan_is(j: Json, p: ExecutionPlan) -> bool {
    match j {
        Json::Object(ms) => {
            &&& commands_are(member(ms@, "commands"@), p.commands@)
            &&& p.parallel == parallel_value(member(ms@, "parallel"@))
        },
        _ => false,
    }
}

/// `j` is a well-typed envelope.
pub open spec fn plan_response_ok(j: Json) -> bool {
    match j {
        Json::Object(ms) => match member(ms@, "plan"@) {
            Some(p) => plan_ok(p),
            None => false,
        },
        _ => false,
    }
}

/// `p` holds what the envelope `j` says.
pub open spec fn plan_response_is(j: Json, p: PlanResponse) -> bool {
    match j {
        Json::Object(ms) => match member(ms@, "plan"@) {
            Some(v) => plan_is(v, p.plan),
            None => false,
        },
        _ => false,
    }
}

/// What decoding `j` as an envelope gives: the plan it holds when it is
/// well-typed, else `Malformed`.
pub open spec fn decodes_plan_response(j: Json, r: Result<PlanResponse, WireError>) -> bool {
    &&& r is Ok <==> plan_response_ok(j)
    &&& r matches Ok(p) ==> plan_response_is(j, p)
    &&& r matches Err(e) ==> e == WireError::Malformed
}

/// Two commands agree field for field.
pub open spec fn same_command(a: PlannedCommand, b: PlannedCommand) -> bool {
    &&& a.dir == b.dir
    &&& a.cmd == b.cmd
    &&& match (a.env, b.env) {
        (None, None) => true,
        (Some(x), Some(y)) => x@ == y@,
        _ => false,
    }
}

/// Two plans agree field for field, commands in the same order.
pub open spec fn same_plan(a: ExecutionPlan, b: ExecutionPlan) -> bool {
    &&& a.parallel == b.parallel
    &&& a.commands@.len() == b.commands@.len()
    &&& forall|i: int|
        0 <= i < a.commands@.len() ==> same_command(
            #[trigger] a.commands@[i],
            #[trigger] b.commands@[i],
        )
}

/// The member at position `i` is the first one named `key` at or after `j`.
proof fn lemma_member_from(ms: Seq<(String, Json)>, key: Seq<char>, j: int, i: int)
    requires
        0 <= j <= i < ms.len(),
        ms[i].0@ == key,
        forall|k: int| j <= k < i ==> (#[trigger] ms[k]).0@ != key,
    ensures
        member_from(ms, key, j) == Some(ms[i].1),
    decreases i - j,
{
    if j < i {
        lemma_member_from(ms, key, j + 1, i);
    }
}

/// No member at or after `j` is named `key`.
proof fn lemma_member_from_absent(ms: Seq<(String, Json)>, key: Seq<char>, j: int)
    requires
        0 <= j <= ms.len(),
        forall|k: int| j <= k < ms.len() ==> (#[trigger] ms[k]).0@ != key,
    ensures
        member_from(ms, key, j) is None,
    decreases ms.len() - j,
{
    if j < ms.len() {
        lemma_member_from_absent(ms, key, j + 1);
    }
}

/// The member names of commands and plans differ from one another.
proof fn lemma_distinct_names()
    ensures
        "dir"@ != "cmd"@,
        "dir"@ != "env"@,
        "cmd"@ != "env"@,
        "commands"@ != "parallel"@,
{
    reveal_strlit("dir");
    reveal_strlit("cmd");
    reveal_strlit("env");
    reveal_strlit("commands");
    reveal_strlit("parallel");
    assert("dir"@[0] != "cmd"@[0]);
    assert("dir"@[0] != "env"@[0]);
    assert("cmd"@[0] != "env"@[0]);
    assert("commands"@[0] != "parallel"@[0]);
}

/// The JSON form of a command decodes, and only to a command that agrees
/// with it.
proof fn lemma_command_round_trip(c: PlannedCommand, j: Json)
    requires
        command_encodes(c, j),
    ensures
        command_ok(j),
        forall|d: PlannedCommand| command_is(j, d) ==> same_command(c, d),
{
    lemma_distinct_names();
    if let Json::Object(ms) = j {
        let s = ms@;
        lemma_member_from(s, "dir"@, 0, 0);
        lemma_member_from(s, "cmd"@, 0, 1);
        match c.env {
            Some(vars) => {
                lemma_member_from(s, "env"@, 0, 2);
                if let Json::Object(es) = s[2].1 {
                    assert forall|i: int| 0 <= i < es@.len() implies (#[trigger] es@[i]).1 is Str by {
                        assert(es@[i] == (vars@[i].0, Json::Str(vars@[i].1)));
                    }
                    assert(member(s, "env"@) matches Some(Json::Object(it)) && it == es);
                    assert forall|d: PlannedCommand| command_is(j, d) implies same_command(c, d) by {
                        let w = d.env->Some_0;
                        assert forall|i: int| 0 <= i < w@.len() implies w@[i] == vars@[i] by {
                            assert(es@[i] == (w@[i].0, Json::Str(w@[i].1)));
                            assert(es@[i] == (vars@[i].0, Json::Str(vars@[i].1)));
                        }
                        assert(w@ =~= vars@);
                    }
                }
            },
            None => {
                lemma_member_from_absent(s, "env"@, 0);
            },
        }
    }
}

/// Writing an envelope as JSON and reading it back gives the same plan:
/// the commands in the same order, each with the same directory, command
/// line and environment entries, and the same parallel override, an absent
/// one staying absent.
pub proof fn lemma_plan_round_trip(p: PlanResponse, j: Json, r: Result<PlanResponse, WireError>)
    requires
        plan_response_encodes(p, j),
        decodes_plan_response(j, r),
    ensures
        r matches Ok(q) && same_plan(p.plan, q.plan),
{
    lemma_distinct_names();
    reveal_strlit("plan");
    if let Json::Object(top) = j {
        lemma_member_from(top@, "plan"@, 0, 0);
        let pj = top@[0].1;
        if let Json::Object(ms) = pj {
            let s = ms@;
            lemma_member_from(s, "commands"@, 0, 0);
            match p.plan.parallel {
                Some(b) => {
                    lemma_member_from(s, "parallel"@, 0, 1);
                },
                None => {
                    lemma_member_from_absent(s, "parallel"@, 0);
                },
            }
            if let Json::Array(items) = s[0].1 {
                assert forall|i: int| 0 <= i < items@.len() implies command_ok(
                    #[trigger] items@[i],
                ) by {
                    lemma_command_round_trip(p.plan.commands@[i], items@[i]);
                }
                assert(member(s, "commands"@) matches Some(Json::Array(it)) && it == items);
                assert(plan_ok(pj));
                assert(member(top@, "plan"@) matches Some(v) && v == pj);
                assert(plan_response_ok(j));
                let q = r->Ok_0;
                assert(plan_is(pj, q.plan));
                assert forall|i: int| 0 <= i < p.plan.commands@.len() implies same_command(
                    #[trigger] p.plan.commands@[i],
                    q.plan.commands@[i],
                ) by {
                    lemma_command_round_trip(p.plan.commands@[i], items@[i]);
                    assert(command_is(items@[i], q.plan.commands@[i]));
                }
            }
        }
    }
}

/// The object of the (name, string value) entries.
pub(crate) fn encode_string_map(entries: &Vec<(String, String)>) -> (j: Json)
    ensures
        string_map_encodes(entries@, j),
{
    let mut ms: Vec<(String, Json)> = Vec::new();
    let mut i: usize = 0;
    while i < entries.len()
        invariant
            i <= entries@.len(),
            string_map_is(ms@, entries@.take(i as int)),
        decreases entries@.len() - i,
    {
        ms.push((entries[i].0.clone(), Json::Str(entries[i].1.clone())));
        i = i + 1;
        assert(string_map_is(ms@, entries@.take(i as int)));
    }
    assert(entries@.take(i as int) =~= entries@);
    Json::Object(ms)
}

/// The JSON form of a command.
fn encode_command(c: &PlannedCommand) -> (j: Json)
    ensures
        command_encodes(*c, j),
{
    let mut ms: Vec<(String, Json)> = Vec::new();
    ms.push((key("dir"), Json::Str(c.dir.clone())));
    ms.push((key("cmd"), Json::Str(c.cmd.clone())));
    if let Some(vars) = &c.env {
        ms.push((key("env"), encode_string_map(vars)));
    }
    Json::Object(ms)
}

/// The JSON form of the envelope: what the plugin prints for a plan.
pub fn plan_response_to_json(p: &PlanResponse) -> (j: Json)
    ensures
        plan_response_encodes(*p, j),
{
    let commands = &p.plan.commands;
    let mut items: Vec<Json> = Vec::new();
    let mut i: usize = 0;
    while i < commands.len()
        invariant
            i <= commands@.len(),
            items@.len() == i,
            forall|k: int| 0 <= k < i ==> command_encodes(#[trigger] commands@[k], items@[k]),
        decreases commands@.len() - i,
    {
        let item = encode_command(&commands[i]);
        items.push(item);
        i = i + 1;
    }
    let mut plan: Vec<(String, Json)> = Vec::new();
    plan.push((key("commands"), Json::Array(items)));
    if let Some(b) = p.plan.parallel {
        plan.push((key("parallel"), Json::Bool(b)));
    }
    let mut top: Vec<(String, Json)> = Vec::new();
    top.push((key("plan"), Json::Object(plan)));
    Json::Object(top)
}

/// The (name, string value) entries of an object whose values are all strings.
fn decode_string_map(ms: &Vec<(String, Json)>) -> (r: Option<Vec<(String, String)>>)
    ensures
        r is Some <==> forall|i: int| 0 <= i < ms@.len() ==> (#[trigger] ms@[i]).1 is Str,
        r matches Some(out) ==> string_map_is(ms@, out@),
{
    let mut out: Vec<(String, String)> = Vec::new();
    let mut i: usize = 0;
    while i < ms.len()
        invariant
            i <= ms@.len(),
            forall|k: int| 0 <= k < i ==> (#[trigger] ms@[k]).1 is Str,
            string_map_is(ms@.take(i as int), out@),
        decreases ms@.len() - i,
    {
        match &ms[i].1 {
            Json::Str(s) => {
                out.push((ms[i].0.clone(), s.clone()));
            },
            _ => {
                return None;
            },
        }
        i = i + 1;
        assert(string_map_is(ms@.take(i as int), out@));
    }
    assert(ms@.take(i as int) =~= ms@);
    Some(out)
}

/// Decodes a command object.
fn decode_command(j: &Json) -> (r: Option<PlannedCommand>)
    ensures
        r is Some <==> command_ok(*j),
        r matches Some(c) ==> command_is(*j, c),
{
    let ms = match j {
        Json::Object(ms) => ms,
        _ => {
            return None;
        },
    };
    let dir = match get_member(ms, "dir") {
        Some(Json::Str(s)) => s.clone(),
        _ => {
            return None;
        },
    };
    let cmd = match get_member(ms, "cmd") {
        Some(Json::Str(s)) => s.clone(),
        _ => {
            return None;
        },
    };
    let env = match get_member(ms, "env") {
        None => None,
        Some(Json::Null) => None,
        Some(Json::Object(vars)) => match decode_string_map(vars) {
            Some(out) => Some(out),
            None => {
                return None;
            },
        },
        Some(_) => {
            return None;
        },
    };
    Some(PlannedCommand { dir, cmd, env })
}

/// Decodes a plan object.
fn decode_plan(j: &Json) -> (r: Option<ExecutionPlan>)
    ensures
        r is Some <==> plan_ok(*j),
        r matches Some(p) ==> plan_is(*j, p),
{
    let ms = match j {
        Json::Object(ms) => ms,
        _ => {
            return None;
        },
    };
    let items = match get_member(ms, "commands") {
        Some(Json::Array(items)) => items,
        _ => {
            return None;
        },
    };
    let mut commands: Vec<PlannedCommand> = Vec::new();
    let mut i: usize = 0;
    while i < items.len()
        invariant
            *j == Json::Object(*ms),
            member(ms@, "commands"@) == Some(Json::Array(*items)),
            i <= items@.len(),
            commands@.len() == i,
            forall|k: int| 0 <= k < i ==> command_ok(#[trigger] items@[k]),
            forall|k: int| 0 <= k < i ==> command_is(#[trigger] items@[k], commands@[k]),
        decreases items@.len() - i,
    {
        match decode_command(&items[i]) {
            Some(c) => {
                commands.push(c);
            },
            None => {
                assert(!command_ok(items@[i as int]));
                assert(member(ms@, "commands"@) matches Some(Json::Array(it)) && it == *items);
                return None;
            },
        }
        i = i + 1;
    }
    let parallel = match get_member(ms, "parallel") {
        None => None,
        Some(Json::Null) => None,
        Some(Json::Bool(b)) => Some(*b),
        Some(_) => {
            return None;
        },
    };
    Some(ExecutionPlan { commands, parallel })
}

/// Decodes an envelope, as the host reads it from a plugin's output.
///
/// Fails with `Malformed` exactly when the value is not a well-typed envelope.
pub fn plan_response_from_json(j: &Json) -> (r: Result<PlanResponse, WireError>)
    ensures
        decodes_plan_response(*j, r),
{
    let ms = match j {
        Json::Object(ms) => ms,
        _ => {
            return Err(WireError::Malformed);
        },
    };
    match get_member(ms, "plan") {
        Some(v) => match decode_plan(v) {
            Some(plan) => Ok(PlanResponse { plan }),
            None => Err(WireError::Malformed),
        },
        None => Err(WireError::Malformed),
    }
}

} // verus!
