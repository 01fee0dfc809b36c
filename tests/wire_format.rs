use meta_plugin_protocol::info_codec::plugin_info_to_json;
use meta_plugin_protocol::json::{get_member, Json};
use meta_plugin_protocol::plan_codec::{plan_response_from_json, plan_response_to_json};
use meta_plugin_protocol::protocol::{
    ExecutionPlan, PlanResponse, PlannedCommand, PluginHelp, PluginInfo, PluginRequestOptions,
};
use meta_plugin_protocol::wire::{request_from_json, WireError};

fn s(t: &str) -> String {
    t.to_string()
}

fn obj(members: Vec<(&str, Json)>) -> Json {
    Json::Object(members.into_iter().map(|(k, v)| (k.to_string(), v)).collect())
}

fn strs(items: &[&str]) -> Json {
    Json::Array(items.iter().map(|t| Json::Str(t.to_string())).collect())
}

#[test]
fn request_with_every_member() {
    let j = obj(vec![
        ("command", Json::Str(s("status"))),
        ("args", strs(&["--short"])),
        ("projects", strs(&["a", "b"])),
        ("cwd", Json::Str(s("/repo"))),
        ("options", obj(vec![
            ("json_output", Json::Bool(true)),
            ("verbose", Json::Bool(true)),
            ("parallel", Json::Bool(true)),
            ("dry_run", Json::Bool(true)),
            ("silent", Json::Bool(true)),
            ("recursive", Json::Bool(true)),
            ("depth", Json::UInt(3)),
            ("include_filters", strs(&["core"])),
            ("exclude_filters", strs(&["docs", "web"])),
        ])),
    ]);
    let req = request_from_json(&j).unwrap();
    assert_eq!(req.command, "status");
    assert_eq!(req.args, vec![s("--short")]);
    assert_eq!(req.projects, vec![s("a"), s("b")]);
    assert_eq!(req.cwd, "/repo");
    let o = req.options;
    assert!(o.json_output && o.verbose && o.parallel && o.dry_run && o.silent && o.recursive);
    assert_eq!(o.depth, Some(3));
    assert_eq!(o.include_filters, Some(vec![s("core")]));
    assert_eq!(o.exclude_filters, Some(vec![s("docs"), s("web")]));
}

#[test]
fn request_with_only_a_command_takes_defaults() {
    let req = request_from_json(&obj(vec![("command", Json::Str(s("pull")))])).unwrap();
    assert_eq!(req.command, "pull");
    assert!(req.args.is_empty());
    assert!(req.projects.is_empty());
    assert_eq!(req.cwd, "");
    assert_eq!(req.options, PluginRequestOptions::default());
    assert!(!req.options.verbose);
    assert_eq!(req.options.depth, None);
}

#[test]
fn empty_options_object_takes_defaults() {
    let j = obj(vec![
        ("command", Json::Str(s("status"))),
        ("args", strs(&[])),
        ("projects", strs(&["a", "b"])),
        ("cwd", Json::Str(s("/repo"))),
        ("options", obj(vec![])),
    ]);
    let req = request_from_json(&j).unwrap();
    assert_eq!(req.projects, vec![s("a"), s("b")]);
    assert_eq!(req.options, PluginRequestOptions::default());
}

#[test]
fn null_optional_options_read_as_absent() {
    let j = obj(vec![
        ("command", Json::Str(s("x"))),
        ("options", obj(vec![("depth", Json::Null), ("include_filters", Json::Null)])),
        ("unknown_member", Json::UInt(7)),
    ]);
    let req = request_from_json(&j).unwrap();
    assert_eq!(req.options.depth, None);
    assert_eq!(req.options.include_filters, None);
}

#[test]
fn request_errors() {
    assert_eq!(request_from_json(&Json::Str(s("not json"))), Err(WireError::Malformed));
    assert_eq!(request_from_json(&obj(vec![])), Err(WireError::MissingCommand));
    assert_eq!(
        request_from_json(&obj(vec![("args", strs(&["a"]))])),
        Err(WireError::MissingCommand)
    );
    assert_eq!(
        request_from_json(&obj(vec![("command", Json::Str(s("")))])),
        Err(WireError::EmptyCommand)
    );
    assert_eq!(
        request_from_json(&obj(vec![("command", Json::UInt(1))])),
        Err(WireError::Malformed)
    );
    assert_eq!(
        request_from_json(&obj(vec![
            ("command", Json::Str(s("x"))),
            ("projects", Json::Array(vec![Json::Bool(true)])),
        ])),
        Err(WireError::Malformed)
    );
    assert_eq!(
        request_from_json(&obj(vec![
            ("command", Json::Str(s("x"))),
            ("options", obj(vec![("depth", Json::OtherNumber)])),
        ])),
        Err(WireError::Malformed)
    );
    assert_eq!(
        request_from_json(&obj(vec![("command", Json::Str(s("x"))), ("options", Json::Null)])),
        Err(WireError::Malformed)
    );
}

#[test]
fn wire_error_descriptions() {
    assert_eq!(WireError::MissingCommand.description(), "missing field `command`");
    assert_eq!(WireError::EmptyCommand.description(), "field `command` is empty");
    assert!(WireError::Malformed.description().starts_with("malformed message"));
}

fn sample_plan(parallel: Option<bool>) -> PlanResponse {
    PlanResponse {
        plan: ExecutionPlan {
            commands: vec![
                PlannedCommand { dir: s("a"), cmd: s("git pull"), env: None },
                PlannedCommand {
                    dir: s("/abs/b"),
                    cmd: s("make"),
                    env: Some(vec![(s("CC"), s("clang")), (s("JOBS"), s("4"))]),
                },
            ],
            parallel,
        },
    }
}

#[test]
fn plan_envelope_shape() {
    let p = PlanResponse {
        plan: ExecutionPlan {
            commands: vec![PlannedCommand { dir: s("a"), cmd: s("git pull"), env: None }],
            parallel: Some(true),
        },
    };
    let j = plan_response_to_json(&p);
    let expected = obj(vec![(
        "plan",
        obj(vec![
            ("commands", Json::Array(vec![obj(vec![
                ("dir", Json::Str(s("a"))),
                ("cmd", Json::Str(s("git pull"))),
            ])])),
            ("parallel", Json::Bool(true)),
        ]),
    )]);
    assert_eq!(format!("{:?}", j), format!("{:?}", expected));
}

#[test]
fn plan_without_parallel_leaves_it_out() {
    let j = plan_response_to_json(&PlanResponse {
        plan: ExecutionPlan { commands: vec![], parallel: None },
    });
    let expected = obj(vec![("plan", obj(vec![("commands", Json::Array(vec![]))]))]);
    assert_eq!(format!("{:?}", j), format!("{:?}", expected));
}

#[test]
fn plan_round_trip_keeps_every_field() {
    for parallel in [None, Some(false), Some(true)] {
        let p = sample_plan(parallel);
        let back = plan_response_from_json(&plan_response_to_json(&p)).unwrap();
        assert_eq!(back, p);
    }
}

#[test]
fn plan_decoding_rejects_malformed_values() {
    assert_eq!(plan_response_from_json(&Json::Null), Err(WireError::Malformed));
    assert_eq!(plan_response_from_json(&obj(vec![])), Err(WireError::Malformed));
    let no_cmd = obj(vec![(
        "plan",
        obj(vec![("commands", Json::Array(vec![obj(vec![("dir", Json::Str(s("a")))])]))]),
    )]);
    assert_eq!(plan_response_from_json(&no_cmd), Err(WireError::Malformed));
    let null_parallel = obj(vec![(
        "plan",
        obj(vec![("commands", Json::Array(vec![])), ("parallel", Json::Null)]),
    )]);
    assert_eq!(plan_response_from_json(&null_parallel).unwrap().plan.parallel, None);
}

#[test]
fn info_json_shape_and_repeatability() {
    let info = PluginInfo {
        name: s("git"),
        version: s("1.2.0"),
        commands: vec![s("pull"), s("status")],
        description: None,
        help: Some(PluginHelp {
            usage: s("meta git <command>"),
            commands: vec![(s("pull"), s("fetch+merge"))],
            examples: vec![s("meta git pull")],
            note: None,
        }),
    };
    let j = plugin_info_to_json(&info);
    let expected = obj(vec![
        ("name", Json::Str(s("git"))),
        ("version", Json::Str(s("1.2.0"))),
        ("commands", strs(&["pull", "status"])),
        ("description", Json::Null),
        ("help", obj(vec![
            ("usage", Json::Str(s("meta git <command>"))),
            ("commands", obj(vec![("pull", Json::Str(s("fetch+merge")))])),
            ("examples", strs(&["meta git pull"])),
            ("note", Json::Null),
        ])),
    ]);
    assert_eq!(format!("{:?}", j), format!("{:?}", expected));
    assert_eq!(format!("{:?}", plugin_info_to_json(&info)), format!("{:?}", j));
}

#[test]
fn member_lookup_takes_the_first() {
    let ms = vec![(s("a"), Json::UInt(1)), (s("b"), Json::UInt(2)), (s("a"), Json::UInt(3))];
    assert!(matches!(get_member(&ms, "a"), Some(Json::UInt(1))));
    assert!(matches!(get_member(&ms, "b"), Some(Json::UInt(2))));
    assert!(get_member(&ms, "c").is_none());
}
