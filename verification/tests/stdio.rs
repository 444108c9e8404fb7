use ryu_research::json::Json;
use ryu_research::mcp::SERVER_NAME;
use ryu_research::mcp_stdio::{
    finish_call, frame_line, handle_frame, handle_line, tool_call_result, FrameOutcome,
    ERR_INVALID_PARAMS, ERR_METHOD_NOT_FOUND, ERR_PARSE, PROTOCOL_VERSION,
};
use ryu_research::reply::Exchange;

fn json(text: &str) -> Json {
    Json::from_bytes(text.as_bytes()).unwrap()
}

fn req(id: i64, method: &str, params: &str) -> Json {
    Json::object()
        .with("jsonrpc", Json::text("2.0"))
        .with("id", Json::integer(id))
        .with("method", Json::text(method))
        .with("params", json(params))
}

fn reply(outcome: FrameOutcome) -> serde_json::Value {
    match outcome {
        FrameOutcome::Reply(frame) => frame.to_value(),
        other => panic!("not answered at once: {other:?}"),
    }
}

fn silent(outcome: FrameOutcome) -> bool {
    matches!(outcome, FrameOutcome::Silent)
}

#[test]
fn tools_list_advertises_the_eight_bare_tool_names() {
    let resp = reply(handle_frame(None, None, &req(1, "tools/list", "{}")));
    let tools = resp["result"]["tools"].as_array().expect("tools array");
    assert_eq!(tools.len(), 8, "got {tools:?}");

    let names: Vec<&str> = tools.iter().map(|t| t["name"].as_str().unwrap()).collect();
    assert_eq!(
        names,
        vec![
            "list_experiments",
            "init_workspace",
            "read_file",
            "write_file",
            "run",
            "keep",
            "reset",
            "ledger",
        ]
    );
    assert!(
        names.iter().all(|n| !n.contains("__")),
        "tool names must be bare, got {names:?}"
    );
}

#[test]
fn every_tool_carries_a_camel_case_input_schema() {
    let resp = reply(handle_frame(None, None, &req(1, "tools/list", "{}")));
    for tool in resp["result"]["tools"].as_array().unwrap() {
        let name = tool["name"].as_str().unwrap();
        assert!(
            tool.get("input_schema").is_none(),
            "{name} must not emit snake_case input_schema"
        );
        let schema = tool
            .get("inputSchema")
            .unwrap_or_else(|| panic!("{name} has no inputSchema"));
        assert_eq!(schema["type"], "object", "{name} schema: {schema}");
        assert!(
            tool["description"].as_str().is_some_and(|d| !d.is_empty()),
            "{name} needs a description"
        );
    }
    let init = resp["result"]["tools"]
        .as_array()
        .unwrap()
        .iter()
        .find(|t| t["name"] == "init_workspace")
        .unwrap();
    assert_eq!(init["inputSchema"]["required"][0], "experiment");
}

#[test]
fn initialize_states_the_protocol_and_tools_capability() {
    let resp = reply(handle_frame(None, None, &req(7, "initialize", "{}")));
    assert_eq!(resp["id"], 7);
    assert_eq!(resp["jsonrpc"], "2.0");
    assert!(resp.get("error").is_none(), "initialize must not error");
    assert_eq!(resp["result"]["protocolVersion"], PROTOCOL_VERSION);
    assert!(resp["result"]["capabilities"]["tools"].is_object());
    assert_eq!(resp["result"]["serverInfo"]["name"], SERVER_NAME);
    assert_eq!(resp["result"]["serverInfo"]["version"], "0.3.0");
    let other = reply(handle_frame(
        None,
        None,
        &req(8, "initialize", "{\"protocolVersion\":\"1999-01-01\"}"),
    ));
    assert_eq!(other["result"], resp["result"]);
}

#[test]
fn notifications_get_no_response() {
    let frame = json("{\"jsonrpc\":\"2.0\",\"method\":\"notifications/initialized\",\"params\":{}}");
    assert!(silent(handle_frame(None, None, &frame)));
    // An explicit `"id": null` is not a valid request id either.
    let nulled = json("{\"jsonrpc\":\"2.0\",\"id\":null,\"method\":\"tools/list\"}");
    assert!(silent(handle_frame(None, None, &nulled)));
}

#[test]
fn unknown_method_is_a_method_not_found_error() {
    let resp = reply(handle_frame(None, None, &req(3, "resources/list", "{}")));
    assert_eq!(resp["error"]["code"], ERR_METHOD_NOT_FOUND);
    assert_eq!(resp["error"]["code"], -32601);
    assert_eq!(resp["error"]["message"], "unknown method 'resources/list'");
    assert!(resp.get("result").is_none());
}

#[test]
fn unknown_tool_and_missing_argument_are_protocol_errors() {
    let unknown = reply(handle_frame(
        None,
        None,
        &req(4, "tools/call", "{\"name\":\"no_such_tool\"}"),
    ));
    assert_eq!(unknown["error"]["code"], ERR_INVALID_PARAMS);
    assert_eq!(unknown["error"]["code"], -32602);
    assert!(unknown["error"]["message"]
        .as_str()
        .unwrap()
        .contains("no_such_tool"));

    let missing = reply(handle_frame(
        None,
        None,
        &req(5, "tools/call", "{\"name\":\"read_file\",\"arguments\":{}}"),
    ));
    assert_eq!(missing["error"]["code"], ERR_INVALID_PARAMS);
    assert!(missing["error"]["message"]
        .as_str()
        .unwrap()
        .contains("workspace_id"));

    let no_name = reply(handle_frame(None, None, &req(6, "tools/call", "{}")));
    assert_eq!(no_name["error"]["code"], ERR_INVALID_PARAMS);
}

#[test]
fn an_unreachable_engine_returns_a_result_not_an_error() {
    let outcome = handle_frame(
        Some("127.0.0.1:1"),
        Some("tok"),
        &req(8, "tools/call", "{\"name\":\"list_experiments\"}"),
    );
    let resp = match outcome {
        FrameOutcome::Call { id, call } => {
            assert_eq!(call.url, "http://127.0.0.1:1/experiments");
            assert_eq!(call.bearer.as_deref(), Some("tok"));
            finish_call(
                id,
                &Exchange::Unreachable {
                    error: "connection refused".to_owned(),
                },
            )
            .to_value()
        }
        other => panic!("{other:?}"),
    };
    assert!(
        resp.get("error").is_none(),
        "a down engine must not abort the turn: {resp}"
    );
    assert_eq!(resp["id"], 8);
    assert_eq!(resp["result"]["isError"], false);
    assert_eq!(resp["result"]["structuredContent"]["available"], false);
    let text = resp["result"]["content"][0]["text"].as_str().unwrap();
    assert!(text.contains("\"available\":false"), "got {text}");
}

#[test]
fn a_non_object_result_omits_structured_content() {
    let arr = tool_call_result(json("[{\"commit\":\"abc\"}]")).to_value();
    assert!(arr.get("structuredContent").is_none());
    assert_eq!(arr["content"][0]["type"], "text");
    assert_eq!(arr["content"][0]["text"], "[{\"commit\":\"abc\"}]");
    let obj = tool_call_result(json("{\"ok\":true}")).to_value();
    assert_eq!(obj["structuredContent"]["ok"], true);
}

#[test]
fn a_line_that_is_not_json_is_answered_under_the_null_id() {
    let resp = reply(handle_line(None, None, "  {nope  "));
    assert_eq!(resp["id"], serde_json::Value::Null);
    assert_eq!(resp["error"]["code"], ERR_PARSE);
    assert_eq!(resp["error"]["code"], -32700);
    let expected = serde_json::from_str::<serde_json::Value>("{nope").unwrap_err();
    assert_eq!(
        resp["error"]["message"],
        format!("invalid JSON: {expected}")
    );
}

#[test]
fn blank_lines_are_passed_over() {
    assert!(silent(handle_line(None, None, "")));
    assert!(silent(handle_line(None, None, " \t ")));
}

#[test]
fn a_line_is_handled_as_its_frame() {
    let resp = reply(handle_line(
        None,
        None,
        " {\"id\":\"x\",\"method\":\"initialize\"} ",
    ));
    assert_eq!(resp["id"], "x");
    assert_eq!(resp["result"]["protocolVersion"], "2024-11-05");
}

#[test]
fn one_frame_is_one_line() {
    let line = frame_line(&Json::object().with("a", Json::text("x\ny")));
    assert_eq!(line, "{\"a\":\"x\\ny\"}\n");
    assert_eq!(line.lines().count(), 1);
}
