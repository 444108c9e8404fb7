//! The research tools as a server of the Model Context Protocol over lines of JSON-RPC 2.0.
//!
//! Each line in is one frame, and each frame out is one line. Tool names are bare, and schemas go
//! under `inputSchema`. A malformed call is answered with an error; an engine that cannot be
//! reached is a result, so that the caller's turn goes on.

use vstd::prelude::*;
use vstd::utf8::*;
use crate::base_url;
use crate::json::items;
use crate::json::json_of_bytes;
use crate::json::obj;
use crate::json::one_line;
use crate::json::whole;
use crate::json::Json;
use crate::json::JsonTree;
use crate::json::NumberView;
use crate::mcp::dispatch;
use crate::mcp::dispatched;
use crate::mcp::field_or;
use crate::mcp::listed;
use crate::mcp::meets_schema;
use crate::mcp::percent_encoded;
use crate::mcp::settle;
use crate::mcp::settled;
use crate::mcp::spec_views;
use crate::mcp::tool_specs;
use crate::mcp::tool_views;
use crate::mcp::tree_or;
use crate::mcp::CallView;
use crate::mcp::Method;
use crate::mcp::ResearchToolSpec;
use crate::mcp::ToolView;
use crate::mcp::UpstreamCall;
use crate::mcp::SERVER_NAME;
use crate::reply::Exchange;
use crate::text::opt_str;
use crate::text::same_text;
use crate::text::trim;
use crate::text::trimmed;
use crate::text::white_space;

verus! {

/// The protocol version that this server speaks, whatever version a client asks for.
pub const PROTOCOL_VERSION: &'static str = "2024-11-05";

/// The version of this package.
pub const PACKAGE_VERSION: &'static str = "0.3.0";

/// The line is not JSON.
pub const ERR_PARSE: i64 = -32700;

/// There is no method of that name.
pub const ERR_METHOD_NOT_FOUND: i64 = -32601;

/// The parameters of a call are malformed.
pub const ERR_INVALID_PARAMS: i64 = -32602;

/// How a tool is listed.
pub open spec fn listing(tool: ToolView) -> JsonTree {
    obj().put("name"@, JsonTree::Text(tool.name)).put(
        "description"@,
        JsonTree::Text(tool.description),
    ).put("inputSchema"@, tool.schema)
}

/// How the research tools are listed.
pub open spec fn tools_list_tree() -> JsonTree {
    obj().put("tools"@, JsonTree::List(tool_views().map_values(|tool: ToolView| listing(tool))))
}

/// The `tools/list` payload: every tool with its bare name and a camelCase `inputSchema`.
pub fn tools_list_result() -> (r: Json)
    ensures
        r.tree() == tools_list_tree(),
{
    let specs: Vec<ResearchToolSpec> = tool_specs();
    let ghost all = tool_views().map_values(|tool: ToolView| listing(tool));
    let mut tools: Json = Json::list();
    let mut i: usize = 0;
    assert(all.take(0) =~= Seq::<JsonTree>::empty());
    while i < specs.len()
        invariant
            i <= specs@.len(),
            spec_views(specs@) == tool_views(),
            all == tool_views().map_values(|tool: ToolView| listing(tool)),
            tools.tree() == JsonTree::List(all.take(i as int)),
        decreases specs@.len() - i,
    {
        let spec: &ResearchToolSpec = &specs[i];
        let entry: Json = Json::object().with("name", Json::text(spec.name.as_str())).with(
            "description",
            Json::text(spec.description.as_str()),
        ).with("inputSchema", spec.input_schema.clone());
        proof {
            assert(spec_views(specs@)[i as int] == specs@[i as int]@);
            assert(entry.tree() == all[i as int]);
            assert(all.take(i + 1) =~= all.take(i as int).push(entry.tree()));
        }
        tools = tools.and(entry);
        i += 1;
    }
    assert(all.take(all.len() as int) =~= all);
    assert(spec_views(specs@).len() == all.len());
    Json::object().with("tools", tools)
}

/// The `initialize` payload.
pub open spec fn initialize_tree() -> JsonTree {
    obj().put("protocolVersion"@, JsonTree::Text(PROTOCOL_VERSION@)).put(
        "capabilities"@,
        obj().put("tools"@, obj()),
    ).put(
        "serverInfo"@,
        obj().put("name"@, JsonTree::Text(SERVER_NAME@)).put(
            "version"@,
            JsonTree::Text(PACKAGE_VERSION@),
        ),
    )
}

/// The `initialize` payload. The empty `tools` capability tells a client that `tools/list` is
/// worth calling.
pub fn initialize_result() -> (r: Json)
    ensures
        r.tree() == initialize_tree(),
{
    Json::object().with("protocolVersion", Json::text(PROTOCOL_VERSION)).with(
        "capabilities",
        Json::object().with("tools", Json::object()),
    ).with(
        "serverInfo",
        Json::object().with("name", Json::text(SERVER_NAME)).with(
            "version",
            Json::text(PACKAGE_VERSION),
        ),
    )
}

/// The result of a tool call: the value as compact text, and once more as it is where it is an
/// object.
pub open spec fn tool_result_tree(value: JsonTree) -> JsonTree {
    let result = obj().put(
        "content"@,
        items().and(
            obj().put("type"@, JsonTree::Text("text"@)).put(
                "text"@,
                JsonTree::Text(value.printed()),
            ),
        ),
    ).put("isError"@, JsonTree::Bool(false));
    if value is Object {
        result.put("structuredContent"@, value)
    } else {
        result
    }
}

/// Wraps the value of a tool call as the result of a `tools/call`.
pub fn tool_call_result(value: Json) -> (r: Json)
    ensures
        r.tree() == tool_result_tree(value.tree()),
{
    let text: String = match value.to_text() {
        Some(text) => text,
        None => "null".to_owned(),
    };
    let result: Json = Json::object().with(
        "content",
        Json::list().and(
            Json::object().with("type", Json::text("text")).with(
                "text",
                Json::text(text.as_str()),
            ),
        ),
    ).with("isError", Json::Bool(false));
    if value.is_object() {
        result.with("structuredContent", value)
    } else {
        result
    }
}

/// The frame that answers a request with a result.
pub open spec fn ok_tree(id: JsonTree, result: JsonTree) -> JsonTree {
    obj().put("jsonrpc"@, JsonTree::Text("2.0"@)).put("id"@, id).put("result"@, result)
}

/// The frame that answers a request with an error.
pub open spec fn err_tree(id: JsonTree, code: int, message: Seq<char>) -> JsonTree {
    obj().put("jsonrpc"@, JsonTree::Text("2.0"@)).put("id"@, id).put(
        "error"@,
        obj().put("code"@, whole(code)).put("message"@, JsonTree::Text(message)),
    )
}

fn ok_frame(id: Json, result: Json) -> (r: Json)
    ensures
        r.tree() == ok_tree(id.tree(), result.tree()),
{
    Json::object().with("jsonrpc", Json::text("2.0")).with("id", id).with("result", result)
}

fn err_frame(id: Json, code: i64, message: &str) -> (r: Json)
    ensures
        r.tree() == err_tree(id.tree(), code as int, message@),
{
    Json::object().with("jsonrpc", Json::text("2.0")).with("id", id).with(
        "error",
        Json::object().with("code", Json::integer(code)).with("message", Json::text(message)),
    )
}

/// What a frame calls for.
#[derive(Debug)]
pub enum FrameOutcome {
    /// Nothing: the frame is a notification.
    Silent,
    /// The frame is answered at once.
    Reply(Json),
    /// The frame is answered, under its id, with what comes of a request to the engine.
    Call { id: Json, call: UpstreamCall },
}

/// What a frame calls for.
pub enum FrameView {
    Silent,
    Reply(JsonTree),
    Call { id: JsonTree, call: CallView },
}

impl View for FrameOutcome {
    type V = FrameView;

    open spec fn view(&self) -> FrameView {
        match *self {
            FrameOutcome::Silent => FrameView::Silent,
            FrameOutcome::Reply(frame) => FrameView::Reply(frame.tree()),
            FrameOutcome::Call { id, call } => FrameView::Call { id: id.tree(), call: call@ },
        }
    }
}

/// The id under which a frame is to be answered. A null id is none.
pub open spec fn request_id(frame: JsonTree) -> Option<JsonTree> {
    match frame.field("id"@) {
        Some(id) if !(id is Null) => Some(id),
        _ => None,
    }
}

/// The method that a frame names.
pub open spec fn method_of(frame: JsonTree) -> Seq<char> {
    match frame.field_text("method"@) {
        Some(method) => method,
        None => ""@,
    }
}

/// What a `tools/call` with those parameters calls for.
pub open spec fn call_view(
    base: Seq<char>,
    token: Option<Seq<char>>,
    id: JsonTree,
    params: JsonTree,
) -> FrameView {
    match params.field_text("name"@) {
        None => FrameView::Reply(
            err_tree(id, ERR_INVALID_PARAMS as int, "tools/call requires a string 'name'"@),
        ),
        Some(name) => match dispatched(base, name, tree_or(params.field("arguments"@), obj())) {
            Ok(call) => FrameView::Call { id: id, call: call.under(token) },
            Err(message) => FrameView::Reply(err_tree(id, ERR_INVALID_PARAMS as int, message)),
        },
    }
}

/// What a frame calls for, with the engine at a base URL and under a token.
pub open spec fn frame_view(
    base: Seq<char>,
    token: Option<Seq<char>>,
    frame: JsonTree,
) -> FrameView {
    match request_id(frame) {
        None => FrameView::Silent,
        Some(id) => if method_of(frame) == "initialize"@ {
            FrameView::Reply(ok_tree(id, initialize_tree()))
        } else if method_of(frame) == "tools/list"@ {
            FrameView::Reply(ok_tree(id, tools_list_tree()))
        } else if method_of(frame) == "tools/call"@ {
            call_view(base, token, id, tree_or(frame.field("params"@), obj()))
        } else {
            FrameView::Reply(
                err_tree(
                    id,
                    ERR_METHOD_NOT_FOUND as int,
                    "unknown method '"@ + method_of(frame) + "'"@,
                ),
            )
        },
    }
}

/// Handles one decoded frame. `upstream` overrides where the engine is, and `token` is the engine's
/// token. A notification, which has no id, calls for nothing.
pub fn handle_frame(upstream: Option<&str>, token: Option<&str>, frame: &Json) -> (r: FrameOutcome)
    ensures
        r@ == frame_view(base_url(opt_str(upstream)), opt_str(token), frame.tree()),
{
    let method: &str = match frame.get_str("method") {
        Some(method) => method,
        None => "",
    };
    let id: Json = match frame.get("id") {
        Some(id) => {
            if id.is_null() {
                return FrameOutcome::Silent;
            }
            id.clone()
        },
        None => {
            return FrameOutcome::Silent;
        },
    };
    if same_text(method, "initialize") {
        FrameOutcome::Reply(ok_frame(id, initialize_result()))
    } else if same_text(method, "tools/list") {
        FrameOutcome::Reply(ok_frame(id, tools_list_result()))
    } else if same_text(method, "tools/call") {
        let params: Json = field_or(frame, "params", Json::object());
        let name: &str = match params.get_str("name") {
            Some(name) => name,
            None => {
                return FrameOutcome::Reply(
                    err_frame(id, ERR_INVALID_PARAMS, "tools/call requires a string 'name'"),
                );
            },
        };
        let arguments: Json = field_or(&params, "arguments", Json::object());
        match dispatch(upstream, token, name, &arguments) {
            Ok(call) => FrameOutcome::Call { id: id, call: call },
            Err(e) => FrameOutcome::Reply(err_frame(id, ERR_INVALID_PARAMS, e.message())),
        }
    } else {
        let mut message: String = "unknown method '".to_owned();
        message.append(method);
        message.append("'");
        FrameOutcome::Reply(err_frame(id, ERR_METHOD_NOT_FOUND, message.as_str()))
    }
}

/// The answer to a call of a tool that gave back a value.
pub open spec fn call_answer_tree(id: JsonTree, value: JsonTree) -> JsonTree {
    ok_tree(id, tool_result_tree(value))
}

/// A frame as a line.
pub open spec fn line_of(frame: JsonTree) -> Seq<char> {
    frame.printed().push('\n')
}

/// The frame that answers a tool call with the value that it brought.
pub fn answer_call(id: Json, value: Json) -> (r: Json)
    ensures
        r.tree() == ok_tree(id.tree(), tool_result_tree(value.tree())),
        r.tree() == call_answer_tree(id.tree(), value.tree()),
{
    ok_frame(id, tool_call_result(value))
}

/// The frame that answers a tool call, by what came of its request to the engine.
pub fn finish_call(id: Json, exchange: &Exchange) -> (r: Json)
    ensures
        r.tree() == ok_tree(id.tree(), tool_result_tree(settled(*exchange))),
        r.tree() == call_answer_tree(id.tree(), settled(*exchange)),
{
    answer_call(id, settle(exchange))
}

/// What is said to a line that is not JSON: an error under the null id.
pub open spec fn parse_error_tree(error: Seq<char>) -> JsonTree {
    err_tree(JsonTree::Null, ERR_PARSE as int, "invalid JSON: "@ + error)
}

/// What a line calls for, with the engine at a base URL and under a token.
pub open spec fn line_view(base: Seq<char>, token: Option<Seq<char>>, line: Seq<char>) -> FrameView {
    if trimmed(line).len() == 0 {
        FrameView::Silent
    } else {
        match json_of_bytes(encode_utf8(trimmed(line))) {
            Ok(frame) => frame_view(base, token, frame),
            Err(error) => FrameView::Reply(parse_error_tree(error)),
        }
    }
}

/// The answer to a line that is not JSON, with what the reader said.
pub fn parse_error(error: &str) -> (r: Json)
    ensures
        r.tree() == parse_error_tree(error@),
{
    let mut message: String = "invalid JSON: ".to_owned();
    message.append(error);
    err_frame(Json::Null, ERR_PARSE, message.as_str())
}

/// Handles one line of input. Blank lines are passed over, and a line that is not JSON is answered
/// under the null id.
pub fn handle_line(upstream: Option<&str>, token: Option<&str>, line: &str) -> (r: FrameOutcome)
    ensures
        r@ == line_view(base_url(opt_str(upstream)), opt_str(token), line@),
{
    let line: &str = trim(line);
    if line.is_empty() {
        return FrameOutcome::Silent;
    }
    match Json::from_bytes(line.as_bytes()) {
        Ok(frame) => handle_frame(upstream, token, &frame),
        Err(error) => FrameOutcome::Reply(parse_error(error.as_str())),
    }
}

/// The line that carries a frame: one line, and the only line break is its last character.
pub fn frame_line(frame: &Json) -> (r: String)
    ensures
        r@ == frame.tree().printed().push('\n'),
        r@ == line_of(frame.tree()),
        one_line(r@.drop_last()),
{
    let mut line: String = frame.printed();
    let ghost text = line@;
    line.push('\n');
    assert(line@.drop_last() =~= text);
    line
}

proof fn lemma_frame_names_differ()
    ensures
        "jsonrpc"@ != "id"@,
        "jsonrpc"@ != "result"@,
        "jsonrpc"@ != "error"@,
        "id"@ != "result"@,
        "id"@ != "error"@,
        "result"@ != "error"@,
{
    reveal_strlit("jsonrpc");
    reveal_strlit("id");
    reveal_strlit("result");
    reveal_strlit("error");
    assert("jsonrpc"@.len() == 7 && "id"@.len() == 2 && "result"@.len() == 6 && "error"@.len()
        == 5);
}

/// A notification, with no id or a null one, is never answered; a request always is.
pub proof fn law_only_requests_are_answered(
    base: Seq<char>,
    token: Option<Seq<char>>,
    frame: JsonTree,
)
    ensures
        frame_view(base, token, frame) is Silent <==> request_id(frame) is None,
{
}

/// A frame is answered under its own id, with a result or an error and never both. A request that it
/// makes of the engine carries the engine's token.
pub proof fn law_replies_echo_their_id(
    base: Seq<char>,
    token: Option<Seq<char>>,
    frame: JsonTree,
)
    ensures
        frame_view(base, token, frame) matches FrameView::Reply(reply) ==> {
            &&& reply.field("id"@) == frame.field("id"@)
            &&& reply.field("jsonrpc"@) == Some(JsonTree::Text("2.0"@))
            &&& (reply.field("result"@) is Some) != (reply.field("error"@) is Some)
        },
        frame_view(base, token, frame) matches FrameView::Call { id, call } ==> Some(id)
            == frame.field("id"@) && call.bearer == token,
{
    lemma_frame_names_differ();
}

/// An `initialize` request always succeeds, and states the version that this server speaks, whatever
/// version the client asks for.
pub proof fn law_initialize_states_the_version_spoken(
    base: Seq<char>,
    token: Option<Seq<char>>,
    frame: JsonTree,
)
    requires
        request_id(frame) is Some,
        method_of(frame) == "initialize"@,
    ensures
        frame_view(base, token, frame) matches FrameView::Reply(reply) && {
            &&& reply.field("error"@) is None
            &&& reply.field("result"@) matches Some(result) && result.field_text(
                "protocolVersion"@,
            ) == Some(PROTOCOL_VERSION@)
        },
{
    lemma_frame_names_differ();
    reveal_strlit("protocolVersion");
    reveal_strlit("capabilities");
    reveal_strlit("serverInfo");
    assert("protocolVersion"@.len() == 15 && "capabilities"@.len() == 12 && "serverInfo"@.len()
        == 10);
}

/// What a call of the engine brought is answered under the id of the frame, as a result and never
/// as an error, whatever came of it.
pub proof fn law_engine_trouble_is_a_result(id: JsonTree, value: JsonTree)
    ensures
        ({
            let reply = ok_tree(id, tool_result_tree(value));
            &&& reply.field("id"@) == Some(id)
            &&& reply.field("error"@) is None
            &&& reply.field("result"@) == Some(tool_result_tree(value))
            &&& tool_result_tree(value).field("isError"@) == Some(JsonTree::Bool(false))
        }),
{
    lemma_frame_names_differ();
    reveal_strlit("content");
    reveal_strlit("isError");
    reveal_strlit("structuredContent");
    assert("isError"@.len() == 7 && "structuredContent"@.len() == 17);
}

/// The value of a tool call is repeated as structured content exactly where it is an object.
pub proof fn law_structured_content_is_an_object(value: JsonTree)
    ensures
        tool_result_tree(value).field("structuredContent"@) == (if value is Object {
            Some(value)
        } else {
            None
        }),
{
    reveal_strlit("content");
    reveal_strlit("isError");
    reveal_strlit("structuredContent");
    assert("content"@.len() == 7 && "isError"@.len() == 7 && "structuredContent"@.len() == 17);
}

/// A malformed tool call is an error of its parameters that says what is wrong with it.
pub proof fn law_malformed_calls_are_protocol_errors(
    base: Seq<char>,
    token: Option<Seq<char>>,
    id: JsonTree,
    params: JsonTree,
)
    ensures
        params.field_text("name"@) is None ==> call_view(base, token, id, params) == FrameView::Reply(
            err_tree(id, ERR_INVALID_PARAMS as int, "tools/call requires a string 'name'"@),
        ),
        params.field_text("name"@) matches Some(name) ==> (!listed(name) ==> call_view(
            base,
            token,
            id,
            params,
        ) == FrameView::Reply(
            err_tree(
                id,
                ERR_INVALID_PARAMS as int,
                "unknown Research tool '"@ + name + "'"@,
            ),
        )),
{
    match params.field_text("name"@) {
        Some(name) => {
            if !listed(name) {
                crate::mcp::law_unlisted_tools_are_refused(
                    base,
                    name,
                    tree_or(params.field("arguments"@), obj()),
                );
            }
        },
        None => {},
    }
}

/// Every tool is listed under its bare name, with its schema under `inputSchema` and nowhere else.
pub proof fn law_listing_carries_every_schema(i: int)
    requires
        0 <= i < tool_views().len(),
    ensures
        tools_list_tree().field_list("tools"@) matches Some(tools) && {
            &&& tools.len() == tool_views().len()
            &&& tools[i].field_text("name"@) == Some(tool_views()[i].name)
            &&& tools[i].field("inputSchema"@) == Some(tool_views()[i].schema)
            &&& tools[i].field("input_schema"@) is None
        },
{
    reveal_strlit("name");
    reveal_strlit("description");
    reveal_strlit("inputSchema");
    reveal_strlit("input_schema");
    assert("name"@.len() == 4 && "description"@.len() == 11 && "inputSchema"@.len() == 11
        && "input_schema"@.len() == 12);
    assert("description"@[0] == 'd' && "inputSchema"@[0] == 'i');
}

/// A frame asks for an answer exactly where it has an id that is not null, and the id is taken whole.
pub proof fn law_requests_have_an_id(frame: JsonTree, id: JsonTree)
    ensures
        request_id(frame) == Some(id) <==> frame.field("id"@) == Some(id) && id != JsonTree::Null,
{
}

/// A call of a tool makes the request that the tool makes of exactly the arguments in the frame, under
/// the frame's id and the engine's token; what the tool refuses is answered with its own words.
pub proof fn law_tool_calls_carry_their_arguments(
    base: Seq<char>,
    token: Option<Seq<char>>,
    frame: JsonTree,
    id: JsonTree,
    params: JsonTree,
    name: Seq<char>,
    args: JsonTree,
)
    requires
        frame.field("id"@) == Some(id),
        id != JsonTree::Null,
        frame.field_text("method"@) == Some("tools/call"@),
        frame.field("params"@) == Some(params),
        params.field_text("name"@) == Some(name),
        params.field("arguments"@) == Some(args),
    ensures
        dispatched(base, name, args) matches Ok(made) ==> (frame_view(base, token, frame)
            matches FrameView::Call { id: under, call } && under == id && call.method == made.method
            && call.url == made.url && call.body == made.body && call.bearer == token),
        dispatched(base, name, args) matches Err(message) ==> {
            &&& frame_view(base, token, frame) matches FrameView::Reply(reply)
            &&& reply.field("id"@) == Some(id)
            &&& reply.field("error"@) matches Some(error)
            &&& error.field("code"@) == Some(JsonTree::Number(NumberView::Integer(-32602)))
            &&& error.field_text("message"@) == Some(message)
        },
{
    reveal_strlit("initialize");
    reveal_strlit("tools/list");
    reveal_strlit("tools/call");
    assert("initialize"@[0] == 'i' && "tools/list"@[6] == 'l' && "tools/call"@[6] == 'c');
    lemma_frame_names_differ();
    reveal_strlit("code");
    reveal_strlit("message");
    assert("code"@.len() == 4 && "message"@.len() == 7);
}

/// A call of a listed tool with arguments that meet its schema reaches the engine.
pub proof fn law_sound_tool_calls_reach_the_engine(
    base: Seq<char>,
    token: Option<Seq<char>>,
    frame: JsonTree,
    params: JsonTree,
    i: int,
    args: JsonTree,
)
    requires
        frame.field("id"@) is Some,
        !(frame.field("id"@)->0 is Null),
        frame.field_text("method"@) == Some("tools/call"@),
        frame.field("params"@) == Some(params),
        0 <= i < tool_views().len(),
        params.field_text("name"@) == Some(tool_views()[i].name),
        params.field("arguments"@) == Some(args),
        meets_schema(tool_views()[i].schema, args),
    ensures
        frame_view(base, token, frame) matches FrameView::Call { id, call } && id == frame.field(
            "id"@,
        )->0 && call.bearer == token,
{
    crate::mcp::law_listed_tools_dispatch(base, i, args);
    law_tool_calls_carry_their_arguments(
        base,
        token,
        frame,
        frame.field("id"@)->0,
        params,
        tool_views()[i].name,
        args,
    );
}

/// A frame that asks for a file is a request for that file in that workspace.
pub proof fn law_frames_read_the_file_they_name(
    base: Seq<char>,
    token: Option<Seq<char>>,
    frame: JsonTree,
    id: JsonTree,
    params: JsonTree,
    args: JsonTree,
    workspace: Seq<char>,
    path: Seq<char>,
)
    requires
        frame.field("id"@) == Some(id),
        id != JsonTree::Null,
        frame.field_text("method"@) == Some("tools/call"@),
        frame.field("params"@) == Some(params),
        params.field_text("name"@) == Some("read_file"@),
        params.field("arguments"@) == Some(args),
        args.field_text("workspace_id"@) == Some(workspace),
        args.field_text("path"@) == Some(path),
    ensures
        frame_view(base, token, frame) matches FrameView::Call { id: under, call } && {
            &&& under == id
            &&& call.method == Method::Get
            &&& call.url == base + "/workspace/"@ + workspace + "/file?path="@ + percent_encoded(
                encode_utf8(path),
            )
            &&& call.body is None
            &&& call.bearer == token
        },
{
    crate::mcp::law_files_are_read_by_their_path(base, args, workspace, path);
    law_tool_calls_carry_their_arguments(base, token, frame, id, params, "read_file"@, args);
}

/// A frame that writes a file writes its content to that file in that workspace, character for
/// character.
pub proof fn law_frames_write_the_content_they_hold(
    base: Seq<char>,
    token: Option<Seq<char>>,
    frame: JsonTree,
    id: JsonTree,
    params: JsonTree,
    args: JsonTree,
    workspace: Seq<char>,
    path: Seq<char>,
    content: Seq<char>,
)
    requires
        frame.field("id"@) == Some(id),
        id != JsonTree::Null,
        frame.field_text("method"@) == Some("tools/call"@),
        frame.field("params"@) == Some(params),
        params.field_text("name"@) == Some("write_file"@),
        params.field("arguments"@) == Some(args),
        args.field_text("workspace_id"@) == Some(workspace),
        args.field_text("path"@) == Some(path),
        args.field_text("content"@) == Some(content),
    ensures
        frame_view(base, token, frame) matches FrameView::Call { id: under, call } && {
            &&& under == id
            &&& call.method == Method::Put
            &&& call.url == base + "/workspace/"@ + workspace + "/file"@
            &&& call.body matches Some(body) && body.field_text("path"@) == Some(path)
                && body.field_text("content"@) == Some(content)
            &&& call.bearer == token
        },
{
    crate::mcp::law_files_are_written_verbatim(base, args, workspace, path);
    law_tool_calls_carry_their_arguments(base, token, frame, id, params, "write_file"@, args);
}

/// A call without arguments is one with an empty object of them.
pub proof fn law_absent_arguments_are_none_at_all(
    base: Seq<char>,
    token: Option<Seq<char>>,
    id: JsonTree,
    params: JsonTree,
    filled: JsonTree,
)
    requires
        params.field("arguments"@) is None,
        filled.field("arguments"@) == Some(JsonTree::Object(Map::empty())),
        filled.field_text("name"@) == params.field_text("name"@),
    ensures
        call_view(base, token, id, params) == call_view(base, token, id, filled),
{
}

/// A call without params names no tool.
pub proof fn law_calls_without_params_name_no_tool(
    base: Seq<char>,
    token: Option<Seq<char>>,
    frame: JsonTree,
    id: JsonTree,
)
    requires
        frame.field("id"@) == Some(id),
        id != JsonTree::Null,
        frame.field_text("method"@) == Some("tools/call"@),
        frame.field("params"@) is None || frame.field("params"@)->0.field_text("name"@) is None,
    ensures
        ({
            &&& frame_view(base, token, frame) matches FrameView::Reply(reply)
            &&& reply.field("id"@) == Some(id)
            &&& reply.field("error"@) matches Some(error)
            &&& error.field("code"@) == Some(JsonTree::Number(NumberView::Integer(-32602)))
            &&& error.field_text("message"@) == Some("tools/call requires a string 'name'"@)
        }),
{
    reveal_strlit("initialize");
    reveal_strlit("tools/list");
    reveal_strlit("tools/call");
    assert("initialize"@[0] == 'i' && "tools/list"@[6] == 'l' && "tools/call"@[6] == 'c');
    lemma_frame_names_differ();
    reveal_strlit("code");
    reveal_strlit("message");
    assert("code"@.len() == 4 && "message"@.len() == 7);
}

/// A request to initialize is answered with the version of the protocol, the tools as the one
/// capability, and the name and version of the server.
pub proof fn law_initialize_is_answered(
    base: Seq<char>,
    token: Option<Seq<char>>,
    frame: JsonTree,
    id: JsonTree,
)
    requires
        frame.field("id"@) == Some(id),
        id != JsonTree::Null,
        frame.field_text("method"@) == Some("initialize"@),
    ensures
        ({
            &&& frame_view(base, token, frame) matches FrameView::Reply(reply)
            &&& reply.field("id"@) == Some(id)
            &&& reply.field("result"@) matches Some(result)
            &&& result.field_text("protocolVersion"@) == Some("2024-11-05"@)
            &&& result.field("capabilities"@) matches Some(capabilities) && capabilities.field(
                "tools"@,
            ) == Some(JsonTree::Object(Map::empty())) && forall|name: Seq<char>| #[trigger]
                capabilities.field(name) is Some ==> name == "tools"@
            &&& result.field("serverInfo"@) matches Some(server) && server.field_text("name"@) == Some(
                "research"@,
            ) && server.field_text("version"@) == Some("0.3.0"@)
        }),
{
    reveal_strlit("initialize");
    reveal_strlit("tools/list");
    reveal_strlit("tools/call");
    assert("initialize"@[0] == 'i' && "tools/list"@[6] == 'l' && "tools/call"@[6] == 'c');
    lemma_frame_names_differ();
    reveal_strlit("protocolVersion");
    reveal_strlit("capabilities");
    reveal_strlit("serverInfo");
    reveal_strlit("tools");
    reveal_strlit("name");
    reveal_strlit("version");
    assert("protocolVersion"@.len() == 15 && "capabilities"@.len() == 12
        && "serverInfo"@.len() == 10 && "tools"@.len() == 5 && "name"@.len() == 4
        && "version"@.len() == 7);
}

/// A request for the tools is answered with all of them, in their order: each by its name, its
/// description and its schema, and by nothing else.
pub proof fn law_tools_are_listed_in_order(
    base: Seq<char>,
    token: Option<Seq<char>>,
    frame: JsonTree,
    id: JsonTree,
    i: int,
)
    requires
        frame.field("id"@) == Some(id),
        id != JsonTree::Null,
        frame.field_text("method"@) == Some("tools/list"@),
        0 <= i < tool_views().len(),
    ensures
        ({
            &&& frame_view(base, token, frame) matches FrameView::Reply(reply)
            &&& reply.field("id"@) == Some(id)
            &&& reply.field("result"@) matches Some(result)
            &&& result.field_list("tools"@) matches Some(tools)
            &&& tools.len() == tool_views().len()
            &&& tools[i].field_text("name"@) == Some(tool_views()[i].name)
            &&& tools[i].field_text("description"@) == Some(tool_views()[i].description)
            &&& tools[i].field("inputSchema"@) == Some(tool_views()[i].schema)
            &&& forall|name: Seq<char>| #[trigger]
                tools[i].field(name) is Some ==> name == "name"@ || name == "description"@ || name
                    == "inputSchema"@
        }),
{
    reveal_strlit("initialize");
    reveal_strlit("tools/list");
    reveal_strlit("tools/call");
    assert("initialize"@[0] == 'i' && "tools/list"@[6] == 'l' && "tools/call"@[6] == 'c');
    lemma_frame_names_differ();
    reveal_strlit("name");
    reveal_strlit("description");
    reveal_strlit("inputSchema");
    assert("name"@.len() == 4 && "description"@.len() == 11 && "inputSchema"@.len() == 11);
    assert("description"@[0] == 'd' && "inputSchema"@[0] == 'i');
}

/// Any other method is refused by its name, and a frame without one by an empty name.
pub proof fn law_unknown_methods_are_refused_by_name(
    base: Seq<char>,
    token: Option<Seq<char>>,
    frame: JsonTree,
    id: JsonTree,
    method: Seq<char>,
)
    requires
        frame.field("id"@) == Some(id),
        id != JsonTree::Null,
        frame.field_text("method"@) == Some(method) || (frame.field_text("method"@) is None && method
            == Seq::<char>::empty()),
        method != "initialize"@ && method != "tools/list"@ && method != "tools/call"@,
    ensures
        ({
            &&& frame_view(base, token, frame) matches FrameView::Reply(reply)
            &&& reply.field("id"@) == Some(id)
            &&& reply.field("error"@) matches Some(error)
            &&& error.field("code"@) == Some(JsonTree::Number(NumberView::Integer(-32601)))
            &&& error.field_text("message"@) == Some("unknown method '"@ + method + "'"@)
        }),
{
    lemma_frame_names_differ();
    reveal_strlit("");
    assert(""@ =~= Seq::<char>::empty());
    reveal_strlit("code");
    reveal_strlit("message");
    assert("code"@.len() == 4 && "message"@.len() == 7);
}

/// An answer holds the version of the protocol, the id and the result; an error holds a code and a
/// message in place of the result. Neither holds anything more.
pub proof fn law_answers_hold_their_parts(
    id: JsonTree,
    result: JsonTree,
    code: int,
    message: Seq<char>,
)
    ensures
        forall|name: Seq<char>| #[trigger]
            ok_tree(id, result).field(name) == (if name == "jsonrpc"@ {
                Some(JsonTree::Text("2.0"@))
            } else if name == "id"@ {
                Some(id)
            } else if name == "result"@ {
                Some(result)
            } else {
                None
            }),
        forall|name: Seq<char>| #[trigger]
            err_tree(id, code, message).field(name) is Some <==> name == "jsonrpc"@ || name == "id"@
                || name == "error"@,
        err_tree(id, code, message).field("jsonrpc"@) == Some(JsonTree::Text("2.0"@)),
        err_tree(id, code, message).field("id"@) == Some(id),
        err_tree(id, code, message).field("error"@) matches Some(error) && forall|name: Seq<char>|
            #[trigger] error.field(name) == (if name == "code"@ {
                Some(JsonTree::Number(NumberView::Integer(code)))
            } else if name == "message"@ {
                Some(JsonTree::Text(message))
            } else {
                None
            }),
{
    lemma_frame_names_differ();
    reveal_strlit("code");
    reveal_strlit("message");
    assert("code"@.len() == 4 && "message"@.len() == 7);
}

/// What a tool gives back is its value in print, as the one piece of content, never marked as an error;
/// an object stands beside it as it is.
pub proof fn law_tool_results_hold_the_value(value: JsonTree)
    ensures
        ({
            let result = tool_result_tree(value);
            &&& result.field_list("content"@) matches Some(content) && content.len() == 1
                && content[0].field_text("type"@) == Some("text"@) && content[0].field_text("text"@)
                == Some(value.printed()) && forall|name: Seq<char>| #[trigger]
                content[0].field(name) is Some ==> name == "type"@ || name == "text"@
            &&& result.field("isError"@) == Some(JsonTree::Bool(false))
            &&& result.field("structuredContent"@) == (if value is Object {
                Some(value)
            } else {
                None
            })
            &&& forall|name: Seq<char>| #[trigger]
                result.field(name) is Some ==> name == "content"@ || name == "isError"@ || name
                    == "structuredContent"@
        }),
{
    reveal_strlit("content");
    reveal_strlit("isError");
    reveal_strlit("structuredContent");
    reveal_strlit("type");
    reveal_strlit("text");
    assert("content"@.len() == 7 && "isError"@.len() == 7 && "structuredContent"@.len() == 17
        && "type"@.len() == 4 && "text"@.len() == 4);
    assert("content"@[0] == 'c' && "isError"@[0] == 'i' && "type"@[1] == 'y' && "text"@[1] == 'e');
}

/// A line of white space is passed over; white space around a line means nothing; a line that is JSON
/// is its frame; any other is answered, under a null id, with what is wrong with it.
pub proof fn law_lines_hold_frames(base: Seq<char>, token: Option<Seq<char>>, line: Seq<char>)
    ensures
        (forall|i: int| 0 <= i < line.len() ==> white_space(#[trigger] line[i])) ==> line_view(
            base,
            token,
            line,
        ) == FrameView::Silent,
        line_view(base, token, trimmed(line)) == line_view(base, token, line),
        trimmed(line).len() > 0 ==> match json_of_bytes(encode_utf8(trimmed(line))) {
            Ok(frame) => line_view(base, token, line) == frame_view(base, token, frame),
            Err(error) => {
                &&& line_view(base, token, line) matches FrameView::Reply(reply)
                &&& reply.field("id"@) == Some(JsonTree::Null)
                &&& reply.field("error"@) matches Some(trouble)
                &&& trouble.field("code"@) == Some(JsonTree::Number(NumberView::Integer(-32700)))
                &&& trouble.field_text("message"@) == Some("invalid JSON: "@ + error)
            },
        },
{
    lemma_frame_names_differ();
    crate::text::law_trimming_is_idempotent(line);
    crate::text::law_blank_is_empty_after_trimming(line);
    reveal_strlit("code");
    reveal_strlit("message");
    assert("code"@.len() == 4 && "message"@.len() == 7);
}

/// What a frame leads to is seen whole.
pub proof fn law_outcomes_are_seen_whole(reply: Json, id: Json, call: UpstreamCall)
    ensures
        FrameOutcome::Silent@ == FrameView::Silent,
        FrameOutcome::Reply(reply)@ == FrameView::Reply(reply.tree()),
        (FrameOutcome::Call { id: id, call: call })@ == (FrameView::Call { id: id.tree(), call: call@ }),
{
}

/// A call is answered under its id with the value in print, never as an error; an object is there as it
/// is.
pub proof fn law_calls_are_answered_with_their_value(id: JsonTree, value: JsonTree)
    ensures
        ({
            let answer = call_answer_tree(id, value);
            &&& answer.field("id"@) == Some(id)
            &&& answer.field("error"@) is None
            &&& answer.field("result"@) matches Some(result)
            &&& result.field("isError"@) == Some(JsonTree::Bool(false))
            &&& result.field_list("content"@) matches Some(content)
            &&& content.len() == 1
            &&& content[0].field_text("type"@) == Some("text"@)
            &&& content[0].field_text("text"@) == Some(value.printed())
            &&& value is Object ==> result.field("structuredContent"@) == Some(value)
        }),
{
    lemma_frame_names_differ();
    law_tool_results_hold_the_value(value);
}

/// A frame goes out as it prints, and a line break behind it.
pub proof fn law_frames_end_their_line(frame: JsonTree)
    ensures
        line_of(frame).last() == '\n',
        line_of(frame).drop_last() == frame.printed(),
{
    assert(line_of(frame).drop_last() =~= frame.printed());
}

} // verus!
