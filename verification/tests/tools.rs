use ryu_research::json::Json;
use ryu_research::mcp::{
    answer, dispatch, require_string, settle, tool_specs, unavailable, urlencoding_encode, Method,
    UpstreamCall, SERVER_NAME,
};
use ryu_research::reply::Exchange;

fn json(text: &str) -> Json {
    Json::from_bytes(text.as_bytes()).unwrap()
}

fn value(text: &str) -> serde_json::Value {
    serde_json::from_str(text).unwrap()
}

fn call(tool: &str, arguments: &str) -> UpstreamCall {
    dispatch(None, None, tool, &json(arguments)).unwrap()
}

fn body(call: &UpstreamCall) -> serde_json::Value {
    call.body.as_ref().unwrap().to_value()
}

fn path(call: &UpstreamCall) -> &str {
    call.url.strip_prefix("http://127.0.0.1:8087").unwrap()
}

fn reply(status: u16, body: &str) -> Exchange {
    Exchange::Reply {
        status,
        body: Some(body.as_bytes().to_vec()),
    }
}

#[test]
fn lists_eight_research_tool_specs() {
    let specs = tool_specs();
    assert_eq!(specs.len(), 8);
    assert!(specs.iter().all(|s| s.input_schema.is_object()));
    assert!(specs.iter().any(|s| s.name == "run"));
    assert!(specs.iter().any(|s| s.name == "init_workspace"));
}

#[test]
fn tool_schemas_are_exact() {
    let specs = tool_specs();
    let schema = |name: &str| {
        specs
            .iter()
            .find(|s| s.name == name)
            .unwrap()
            .input_schema
            .to_value()
    };
    assert_eq!(
        schema("list_experiments"),
        value("{\"type\":\"object\",\"properties\":{},\"additionalProperties\":false}")
    );
    assert_eq!(
        schema("read_file"),
        value(
            "{\"type\":\"object\",\"properties\":{\"workspace_id\":{\"type\":\"string\",\"description\":\"The workspace id returned by init_workspace.\"},\"path\":{\"type\":\"string\",\"description\":\"Workspace-relative file path.\"}},\"required\":[\"workspace_id\",\"path\"]}"
        )
    );
    assert_eq!(
        schema("write_file")["required"],
        value("[\"workspace_id\",\"path\",\"content\"]")
    );
    assert_eq!(schema("ledger")["properties"]["score"]["type"], "number");
    assert_eq!(schema("run")["properties"]["budget_s"]["type"], "integer");
}

#[test]
fn unknown_tool_is_an_error() {
    let error = dispatch(None, None, "does_not_exist", &json("{}")).unwrap_err();
    assert_eq!(error.message, "unknown Research tool 'does_not_exist'");
}

#[test]
fn missing_argument_is_an_error() {
    assert!(dispatch(None, None, "init_workspace", &json("{}")).is_err());
    assert!(dispatch(None, None, "run", &json("{}")).is_err());
    assert_eq!(
        dispatch(None, None, "keep", &json("{}")).unwrap_err().message,
        "missing required string argument 'workspace_id'"
    );
}

#[test]
fn encodes_query_values() {
    assert_eq!(urlencoding_encode("train.py"), "train.py");
    assert_eq!(urlencoding_encode("a b"), "a%20b");
    assert_eq!(urlencoding_encode("x=1&y"), "x%3D1%26y");
}

#[test]
fn encodes_reserved_and_unicode_but_keeps_path_chars() {
    // Path separators and the RFC-3986 unreserved set pass through unescaped.
    assert_eq!(urlencoding_encode("dir/sub-file_v.1"), "dir/sub-file_v.1");
    // A '?' and space are escaped; a 2-byte UTF-8 char is percent-encoded per byte.
    assert_eq!(urlencoding_encode("a?b"), "a%3Fb");
    assert_eq!(urlencoding_encode("é"), "%C3%A9");
}

#[test]
fn encoded_values_read_back() {
    let decode = |s: &str| {
        let bytes = s.as_bytes();
        let mut out = Vec::new();
        let mut i = 0;
        while i < bytes.len() {
            if bytes[i] == b'%' {
                out.push(u8::from_str_radix(&s[i + 1..i + 3], 16).unwrap());
                i += 3;
            } else {
                out.push(bytes[i]);
                i += 1;
            }
        }
        String::from_utf8(out).unwrap()
    };
    for s in ["", "%", "%41", "a b/c", "日本\u{1f600}", "\0\u{7f}~"] {
        assert_eq!(decode(&urlencoding_encode(s)), s);
    }
    assert_eq!(urlencoding_encode("~"), "~");
    assert_eq!(urlencoding_encode("AZaz09-._~/"), "AZaz09-._~/");
}

#[test]
fn require_string_extracts_and_rejects() {
    assert_eq!(require_string(&json("{\"k\":\"v\"}"), "k").unwrap(), "v");
    // Missing key and non-string value both error.
    assert!(require_string(&json("{}"), "k").is_err());
    assert!(require_string(&json("{\"k\":7}"), "k").is_err());
}

#[test]
fn read_file_requires_both_workspace_and_path() {
    assert!(dispatch(None, None, "read_file", &json("{\"workspace_id\":\"w\"}")).is_err());
    assert!(dispatch(None, None, "read_file", &json("{\"path\":\"train.py\"}")).is_err());
}

#[test]
fn unreachable_sidecar_degrades_to_available_false_not_err() {
    for (tool, args) in [
        ("list_experiments", "{}"),
        ("init_workspace", "{\"experiment\":\"toy\"}"),
        ("read_file", "{\"workspace_id\":\"w\",\"path\":\"train.py\"}"),
        (
            "write_file",
            "{\"workspace_id\":\"w\",\"path\":\"train.py\",\"content\":\"x\"}",
        ),
        ("run", "{\"workspace_id\":\"w\"}"),
        ("keep", "{\"workspace_id\":\"w\"}"),
        ("reset", "{\"workspace_id\":\"w\"}"),
        ("ledger", "{\"workspace_id\":\"w\"}"),
    ] {
        let call = dispatch(Some("127.0.0.1:1"), None, tool, &json(args)).expect("degrades, not Err");
        assert!(call.url.starts_with("http://127.0.0.1:1/"));
        let out = settle(&Exchange::Unreachable {
            error: "connection refused".to_owned(),
        })
        .to_value();
        assert_eq!(out["available"], false, "tool {tool}");
        assert!(out["reason"].as_str().unwrap().contains("not reachable"));
    }
}

#[test]
fn unavailable_results_carry_a_hint() {
    assert_eq!(
        unavailable("why").to_value(),
        value(
            "{\"available\":false,\"reason\":\"why\",\"hint\":\"Install the Research sidecar from the Store (or run `python -m ryu_research`) to enable autoresearch.\"}"
        )
    );
}

#[test]
fn dispatch_routes_every_tool_to_the_right_upstream_call() {
    // list_experiments → GET /experiments.
    let list = call("list_experiments", "{}");
    assert_eq!(list.method, Method::Get);
    assert_eq!(path(&list), "/experiments");
    assert!(list.body.is_none());
    let out = settle(&reply(200, "{\"experiments\":[{\"id\":\"toy\"}]}")).to_value();
    assert_eq!(out["experiments"][0]["id"], "toy");

    // init_workspace → POST /workspace/init with the experiment.
    let init = call("init_workspace", "{\"experiment\":\"toy\"}");
    assert_eq!(init.method, Method::Post);
    assert_eq!(path(&init), "/workspace/init");
    assert_eq!(body(&init), value("{\"experiment\":\"toy\"}"));

    // read_file: the path arg is percent-encoded into the query string.
    let read = call(
        "read_file",
        "{\"workspace_id\":\"ws 1\",\"path\":\"a b.py\"}",
    );
    assert_eq!(read.method, Method::Get);
    assert_eq!(path(&read), "/workspace/ws 1/file?path=a%20b.py");

    // write_file: content defaulted to empty string.
    let write = call("write_file", "{\"workspace_id\":\"w\",\"path\":\"t.py\"}");
    assert_eq!(write.method, Method::Put);
    assert_eq!(path(&write), "/workspace/w/file");
    assert_eq!(body(&write), value("{\"path\":\"t.py\",\"content\":\"\"}"));
    let full = call(
        "write_file",
        "{\"workspace_id\":\"w\",\"path\":\"t.py\",\"content\":\"x\"}",
    );
    assert_eq!(body(&full)["content"], "x");

    // run WITH budget_s.
    let run = call("run", "{\"workspace_id\":\"w\",\"budget_s\":42}");
    assert_eq!(run.method, Method::Post);
    assert_eq!(path(&run), "/workspace/w/run");
    assert_eq!(body(&run), value("{\"budget_s\":42}"));
    // run WITHOUT budget_s → empty object body.
    assert_eq!(body(&call("run", "{\"workspace_id\":\"w\"}")), value("{}"));

    // keep → advance, reset → reset.
    let keep = call("keep", "{\"workspace_id\":\"w\"}");
    assert_eq!(keep.method, Method::Post);
    assert_eq!(path(&keep), "/workspace/w/git");
    assert_eq!(body(&keep), value("{\"action\":\"advance\"}"));
    let reset = call("reset", "{\"workspace_id\":\"w\"}");
    assert_eq!(body(&reset), value("{\"action\":\"reset\"}"));

    // ledger read vs append.
    let ledger = call("ledger", "{\"workspace_id\":\"w\"}");
    assert_eq!(ledger.method, Method::Get);
    assert_eq!(path(&ledger), "/workspace/w/ledger");
    assert!(ledger.body.is_none());
    let append = call(
        "ledger",
        "{\"workspace_id\":\"w\",\"commit\":\"abc\",\"score\":0.5,\"status\":\"ok\"}",
    );
    assert_eq!(append.method, Method::Post);
    assert_eq!(body(&append)["commit"], "abc");
    assert_eq!(body(&append)["score"], 0.5);
    assert_eq!(body(&append)["status"], "ok");
    // Unsupplied append fields default (not omitted).
    assert_eq!(body(&append)["memory_gb"], serde_json::Value::Null);
    assert_eq!(body(&append)["description"], "");
}

#[test]
fn ledger_append_triggers_on_score_or_status_alone() {
    assert_eq!(
        call("ledger", "{\"workspace_id\":\"w\",\"score\":0.1}").method,
        Method::Post
    );
    assert_eq!(
        call("ledger", "{\"workspace_id\":\"w\",\"status\":\"crash\"}").method,
        Method::Post
    );
}

#[test]
fn ledger_append_triggers_on_any_field_of_a_row() {
    let append = call(
        "ledger",
        "{\"workspace_id\":\"w\",\"description\":\"tried lr 0.1\"}",
    );
    assert_eq!(append.method, Method::Post);
    assert_eq!(path(&append), "/workspace/w/ledger");
    assert_eq!(
        body(&append),
        value(
            "{\"commit\":\"\",\"score\":null,\"memory_gb\":null,\"status\":\"\",\"description\":\"tried lr 0.1\"}"
        )
    );
    let memory = call("ledger", "{\"workspace_id\":\"w\",\"memory_gb\":1}");
    assert_eq!(memory.method, Method::Post);
    assert_eq!(body(&memory)["memory_gb"], 1);
    let other = call("ledger", "{\"workspace_id\":\"w\",\"path\":\"x\"}");
    assert_eq!(other.method, Method::Get);
}

#[test]
fn every_tool_request_carries_the_engine_token() {
    for spec in tool_specs() {
        let mut arguments = Json::object();
        for name in ["workspace_id", "experiment", "path", "content"] {
            arguments = arguments.with(name, Json::text("x"));
        }
        let call = dispatch(None, Some("tok"), &spec.name, &arguments).unwrap();
        assert_eq!(call.bearer.as_deref(), Some("tok"), "{}", spec.name);
        let bare = dispatch(None, None, &spec.name, &arguments).unwrap();
        assert_eq!(bare.bearer, None);
    }
}

#[test]
fn non_success_upstream_stays_available_true_with_error() {
    let out = settle(&reply(500, "{\"detail\":\"engine broke\"}")).to_value();
    // A 5xx is surfaced but the turn stays alive: available:true + error + detail.
    assert_eq!(out["available"], true);
    assert!(out["error"].as_str().unwrap().contains("500"));
    assert_eq!(
        out["error"],
        "research sidecar returned 500 Internal Server Error"
    );
    assert_eq!(out["detail"]["detail"], "engine broke");
    assert_eq!(answer(204, json("[1]")).printed(), "[1]");
}

#[test]
fn non_json_success_body_is_wrapped_as_raw() {
    let out = settle(&reply(200, "plain text")).to_value();
    assert_eq!(out["raw"], "plain text");
    let unread = settle(&Exchange::Reply {
        status: 200,
        body: None,
    });
    assert_eq!(unread.get_str("raw"), Some(""));
}

#[test]
fn qualified_ids_match_the_pre_severance_scheme() {
    for spec in tool_specs() {
        let id = format!("{}__{}", SERVER_NAME, spec.name);
        assert!(id.starts_with("research__"), "got {id}");
    }
}

#[test]
fn every_listed_tool_dispatches_with_its_required_arguments() {
    for spec in tool_specs() {
        let mut arguments = Json::object();
        if let Some(required) = spec.input_schema.get("required") {
            for name in required.as_list().unwrap() {
                arguments = arguments.with(name.as_str().unwrap(), Json::text("x"));
            }
        }
        assert!(dispatch(None, None, &spec.name, &arguments).is_ok(), "{}", spec.name);
    }
}
