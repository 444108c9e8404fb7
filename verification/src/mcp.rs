//! The research tools: what they are called and take, which engine call each of them makes, and
//! what comes back.
//!
//! Every tool is always listed. A call of a tool fails only where the call itself is malformed;
//! an engine that cannot be reached is an ordinary result, so that the caller's turn goes on.

use vstd::prelude::*;
use vstd::utf8::*;
use crate::failure::Failure;
use crate::json::items;
use crate::json::obj;
use crate::json::Json;
use crate::json::JsonTree;
use crate::reply::body_or_empty;
use crate::reply::body_tree;
use crate::reply::bytes_or_none;
use crate::reply::is_success;
use crate::reply::status_text;
use crate::reply::status_words;
use crate::reply::success;
use crate::reply::Exchange;
use crate::base_url;
use crate::research_base_url;
use crate::text::opt_str;
use crate::text::opt_text;
use crate::text::same_text;

verus! {

/// Reserved registry server name for the Research provider.
pub const SERVER_NAME: &'static str = "research";

/// What a caller is told to do where the engine is missing.
pub const UNAVAILABLE_HINT: &'static str =
    "Install the Research sidecar from the Store (or run `python -m ryu_research`) to enable autoresearch.";

/// A research tool: its bare name, a description, and the JSON schema of its arguments.
#[derive(Debug)]
pub struct ResearchToolSpec {
    pub name: String,
    pub description: String,
    pub input_schema: Json,
}

/// What a tool specification says.
pub struct ToolView {
    pub name: Seq<char>,
    pub description: Seq<char>,
    pub schema: JsonTree,
}

impl View for ResearchToolSpec {
    type V = ToolView;

    open spec fn view(&self) -> ToolView {
        ToolView {
            name: self.name@,
            description: self.description@,
            schema: self.input_schema.tree(),
        }
    }
}

/// The method of a request to the engine.
#[derive(Debug, Clone, Copy, PartialEq, Eq, Structural)]
pub enum Method {
    Get,
    Post,
    Put,
}

/// A request to the engine.
#[derive(Debug)]
pub struct UpstreamCall {
    pub method: Method,
    pub url: String,
    pub body: Option<Json>,
    /// The token that the request presents as its bearer.
    pub bearer: Option<String>,
}

/// What a request to the engine asks for.
pub struct CallView {
    pub method: Method,
    pub url: Seq<char>,
    pub body: Option<JsonTree>,
    pub bearer: Option<Seq<char>>,
}

impl CallView {
    /// The same request under another bearer.
    pub open spec fn under(self, bearer: Option<Seq<char>>) -> CallView {
        CallView { bearer: bearer, ..self }
    }
}

impl View for UpstreamCall {
    type V = CallView;

    open spec fn view(&self) -> CallView {
        CallView {
            method: self.method,
            url: self.url@,
            body: match self.body {
                Some(body) => Some(body.tree()),
                None => None,
            },
            bearer: opt_text(self.bearer),
        }
    }
}

impl UpstreamCall {
    /// The same request under another bearer.
    pub fn under(self, token: Option<&str>) -> (r: Self)
        ensures
            r@ == self@.under(opt_str(token)),
    {
        UpstreamCall {
            method: self.method,
            url: self.url,
            body: self.body,
            bearer: match token {
                Some(token) => Some(token.to_owned()),
                None => None,
            },
        }
    }
}

/// A request without a body.
pub open spec fn get_call(url: Seq<char>) -> CallView {
    CallView { method: Method::Get, url: url, body: None, bearer: None }
}

/// A request that posts a value.
pub open spec fn post_call(url: Seq<char>, body: JsonTree) -> CallView {
    CallView { method: Method::Post, url: url, body: Some(body), bearer: None }
}

/// A request that puts a value.
pub open spec fn put_call(url: Seq<char>, body: JsonTree) -> CallView {
    CallView { method: Method::Put, url: url, body: Some(body), bearer: None }
}

/// The request of a call, or what is said against it.
pub open spec fn call_outcome(r: Result<UpstreamCall, Failure>) -> Result<CallView, Seq<char>> {
    match r {
        Ok(call) => Ok(call@),
        Err(e) => Err(e@),
    }
}

/// A request without a body.
pub(crate) fn get(url: String) -> (r: UpstreamCall)
    ensures
        r@ == get_call(url@),
{
    UpstreamCall { method: Method::Get, url: url, body: None, bearer: None }
}

/// A request that posts a value.
pub(crate) fn post(url: String, body: Json) -> (r: UpstreamCall)
    ensures
        r@ == post_call(url@, body.tree()),
{
    UpstreamCall { method: Method::Post, url: url, body: Some(body), bearer: None }
}

fn put(url: String, body: Json) -> (r: UpstreamCall)
    ensures
        r@ == put_call(url@, body.tree()),
{
    UpstreamCall { method: Method::Put, url: url, body: Some(body), bearer: None }
}

/// The result that tells that the engine is not available.
pub open spec fn unavailable_tree(reason: Seq<char>) -> JsonTree {
    obj().put("available"@, JsonTree::Bool(false)).put("reason"@, JsonTree::Text(reason)).put(
        "hint"@,
        JsonTree::Text(UNAVAILABLE_HINT@),
    )
}

/// A structured "engine unavailable" result, so that a stopped engine does not abort the
/// caller's turn.
pub fn unavailable(reason: &str) -> (r: Json)
    ensures
        r.tree() == unavailable_tree(reason@),
{
    Json::object().with("available", Json::Bool(false)).with("reason", Json::text(reason)).with(
        "hint",
        Json::text(UNAVAILABLE_HINT),
    )
}

/// The schema of one argument.
pub open spec fn prop_tree(kind: Seq<char>, description: Seq<char>) -> JsonTree {
    obj().put("type"@, JsonTree::Text(kind)).put("description"@, JsonTree::Text(description))
}

/// The schema of the workspace argument.
pub open spec fn ws_prop_tree() -> JsonTree {
    prop_tree("string"@, "The workspace id returned by init_workspace."@)
}

/// The schema of an object with those arguments, some of them required.
pub open spec fn schema_tree(properties: JsonTree, required: JsonTree) -> JsonTree {
    obj().put("type"@, JsonTree::Text("object"@)).put("properties"@, properties).put(
        "required"@,
        required,
    )
}

/// The list with one more name at its end.
pub open spec fn and_name(list: JsonTree, name: Seq<char>) -> JsonTree {
    list.and(JsonTree::Text(name))
}

fn prop(kind: &str, description: &str) -> (r: Json)
    ensures
        r.tree() == prop_tree(kind@, description@),
{
    Json::object().with("type", Json::text(kind)).with("description", Json::text(description))
}

fn ws_prop() -> (r: Json)
    ensures
        r.tree() == ws_prop_tree(),
{
    prop("string", "The workspace id returned by init_workspace.")
}

fn schema(properties: Json, required: Json) -> (r: Json)
    ensures
        r.tree() == schema_tree(properties.tree(), required.tree()),
{
    Json::object().with("type", Json::text("object")).with("properties", properties).with(
        "required",
        required,
    )
}

fn tool(name: &str, description: &str, schema: Json) -> (r: ResearchToolSpec)
    ensures
        r@ == (ToolView { name: name@, description: description@, schema: schema.tree() }),
{
    ResearchToolSpec {
        name: name.to_owned(),
        description: description.to_owned(),
        input_schema: schema,
    }
}

/// The tool that lists the experiments.
pub open spec fn list_experiments_view() -> ToolView {
    ToolView {
        name: "list_experiments"@,
        description:
            "List the available autoresearch experiment kinds (id, gpu_required, budget_s, mutable_files)."@,
        schema: obj().put("type"@, JsonTree::Text("object"@)).put("properties"@, obj()).put(
            "additionalProperties"@,
            JsonTree::Bool(false),
        ),
    }
}

/// The tool that opens a workspace.
pub open spec fn init_workspace_view() -> ToolView {
    ToolView {
        name: "init_workspace"@,
        description:
            "Create a fresh git-versioned workspace for an experiment kind. Returns workspace_id, the mutable_files you may edit, and program_md (the researcher instructions)."@,
        schema: schema_tree(
            obj().put(
                "experiment"@,
                prop_tree("string"@, "Experiment kind id, e.g. 'toy' or 'nanochat'."@),
            ),
            and_name(items(), "experiment"@),
        ),
    }
}

/// The tool that reads a file.
pub open spec fn read_file_view() -> ToolView {
    ToolView {
        name: "read_file"@,
        description: "Read a file from the workspace (typically a mutable train.py)."@,
        schema: schema_tree(
            obj().put("workspace_id"@, ws_prop_tree()).put(
                "path"@,
                prop_tree("string"@, "Workspace-relative file path."@),
            ),
            and_name(and_name(items(), "workspace_id"@), "path"@),
        ),
    }
}

/// The tool that writes a file.
pub open spec fn write_file_view() -> ToolView {
    ToolView {
        name: "write_file"@,
        description: "Overwrite a file in the workspace with new content (your proposed edit)."@,
        schema: schema_tree(
            obj().put("workspace_id"@, ws_prop_tree()).put(
                "path"@,
                prop_tree("string"@, "Workspace-relative file path."@),
            ).put("content"@, prop_tree("string"@, "Full new file content."@)),
            and_name(and_name(and_name(items(), "workspace_id"@), "path"@), "content"@),
        ),
    }
}

/// The tool that runs an attempt.
pub open spec fn run_view() -> ToolView {
    ToolView {
        name: "run"@,
        description:
            "Commit the current state and run one experiment attempt under a wall-clock budget. Returns {score (lower=better, or null), memory_gb, status: ok|crash|timeout, commit, logs_tail}."@,
        schema: schema_tree(
            obj().put("workspace_id"@, ws_prop_tree()).put(
                "budget_s"@,
                prop_tree(
                    "integer"@,
                    "Optional wall-clock cap in seconds; defaults to the experiment's budget_s."@,
                ),
            ),
            and_name(items(), "workspace_id"@),
        ),
    }
}

/// The tool that keeps the last attempt.
pub open spec fn keep_view() -> ToolView {
    ToolView {
        name: "keep"@,
        description: "Keep the last attempt (advance the git ledger). Use when the score improved."@,
        schema: schema_tree(
            obj().put("workspace_id"@, ws_prop_tree()),
            and_name(items(), "workspace_id"@),
        ),
    }
}

/// The tool that discards the last attempt.
pub open spec fn reset_view() -> ToolView {
    ToolView {
        name: "reset"@,
        description:
            "Discard the last attempt (git reset --hard HEAD~1). Use when the score did not improve, or the run crashed/timed out."@,
        schema: schema_tree(
            obj().put("workspace_id"@, ws_prop_tree()),
            and_name(items(), "workspace_id"@),
        ),
    }
}

/// The tool that reads and appends to the ledger.
pub open spec fn ledger_view() -> ToolView {
    ToolView {
        name: "ledger"@,
        description:
            "Read the results ledger (no extra fields), OR append a row when commit/score/memory_gb/status/description are provided. Lower score = better."@,
        schema: schema_tree(
            obj().put("workspace_id"@, ws_prop_tree()).put(
                "commit"@,
                prop_tree("string"@, "Commit sha of the attempt (append mode)."@),
            ).put(
                "score"@,
                prop_tree("number"@, "Parsed metric, lower=better (append mode)."@),
            ).put(
                "memory_gb"@,
                prop_tree("number"@, "Peak memory of the attempt (append mode)."@),
            ).put("status"@, prop_tree("string"@, "ok|crash|timeout (append mode)."@)).put(
                "description"@,
                prop_tree(
                    "string"@,
                    "What the attempt changed + its outcome (append mode)."@,
                ),
            ),
            and_name(items(), "workspace_id"@),
        ),
    }
}

/// The research tools, in the order in which they are listed.
pub open spec fn tool_views() -> Seq<ToolView> {
    seq![
        list_experiments_view(),
        init_workspace_view(),
        read_file_view(),
        write_file_view(),
        run_view(),
        keep_view(),
        reset_view(),
        ledger_view(),
    ]
}

/// What the tool specifications say, in order.
pub open spec fn spec_views(specs: Seq<ResearchToolSpec>) -> Seq<ToolView> {
    specs.map_values(|s: ResearchToolSpec| s@)
}

/// The research tools exposed through the registry.
pub fn tool_specs() -> (r: Vec<ResearchToolSpec>)
    ensures
        spec_views(r@) == tool_views(),
        r@.len() == 8,
{
    let mut specs: Vec<ResearchToolSpec> = Vec::new();
    specs.push(
        tool(
            "list_experiments",
            "List the available autoresearch experiment kinds (id, gpu_required, budget_s, mutable_files).",
            Json::object().with("type", Json::text("object")).with("properties", Json::object()).with(
                "additionalProperties",
                Json::Bool(false),
            ),
        ),
    );
    specs.push(
        tool(
            "init_workspace",
            "Create a fresh git-versioned workspace for an experiment kind. Returns workspace_id, the mutable_files you may edit, and program_md (the researcher instructions).",
            schema(
                Json::object().with(
                    "experiment",
                    prop("string", "Experiment kind id, e.g. 'toy' or 'nanochat'."),
                ),
                Json::list().and(Json::text("experiment")),
            ),
        ),
    );
    specs.push(
        tool(
            "read_file",
            "Read a file from the workspace (typically a mutable train.py).",
            schema(
                Json::object().with("workspace_id", ws_prop()).with(
                    "path",
                    prop("string", "Workspace-relative file path."),
                ),
                Json::list().and(Json::text("workspace_id")).and(Json::text("path")),
            ),
        ),
    );
    specs.push(
        tool(
            "write_file",
            "Overwrite a file in the workspace with new content (your proposed edit).",
            schema(
                Json::object().with("workspace_id", ws_prop()).with(
                    "path",
                    prop("string", "Workspace-relative file path."),
                ).with("content", prop("string", "Full new file content.")),
                Json::list().and(Json::text("workspace_id")).and(Json::text("path")).and(
                    Json::text("content"),
                ),
            ),
        ),
    );
    specs.push(
        tool(
            "run",
            "Commit the current state and run one experiment attempt under a wall-clock budget. Returns {score (lower=better, or null), memory_gb, status: ok|crash|timeout, commit, logs_tail}.",
            schema(
                Json::object().with("workspace_id", ws_prop()).with(
                    "budget_s",
                    prop(
                        "integer",
                        "Optional wall-clock cap in seconds; defaults to the experiment's budget_s.",
                    ),
                ),
                Json::list().and(Json::text("workspace_id")),
            ),
        ),
    );
    specs.push(
        tool(
            "keep",
            "Keep the last attempt (advance the git ledger). Use when the score improved.",
            schema(
                Json::object().with("workspace_id", ws_prop()),
                Json::list().and(Json::text("workspace_id")),
            ),
        ),
    );
    specs.push(
        tool(
            "reset",
            "Discard the last attempt (git reset --hard HEAD~1). Use when the score did not improve, or the run crashed/timed out.",
            schema(
                Json::object().with("workspace_id", ws_prop()),
                Json::list().and(Json::text("workspace_id")),
            ),
        ),
    );
    specs.push(
        tool(
            "ledger",
            "Read the results ledger (no extra fields), OR append a row when commit/score/memory_gb/status/description are provided. Lower score = better.",
            schema(
                Json::object().with("workspace_id", ws_prop()).with(
                    "commit",
                    prop("string", "Commit sha of the attempt (append mode)."),
                ).with("score", prop("number", "Parsed metric, lower=better (append mode).")).with(
                    "memory_gb",
                    prop("number", "Peak memory of the attempt (append mode)."),
                ).with("status", prop("string", "ok|crash|timeout (append mode).")).with(
                    "description",
                    prop("string", "What the attempt changed + its outcome (append mode)."),
                ),
                Json::list().and(Json::text("workspace_id")),
            ),
        ),
    );
    assert(spec_views(specs@) =~= tool_views());
    specs
}

/// The bytes that stand for themselves in a query value: the unreserved ones, which are the
/// letters, the digits, `-`, `_`, `.` and `~`, and the path separator.
pub open spec fn kept(b: u8) -> bool {
    let c = b as char;
    ||| 'A' <= c <= 'Z'
    ||| 'a' <= c <= 'z'
    ||| '0' <= c <= '9'
    ||| c == '-'
    ||| c == '_'
    ||| c == '.'
    ||| c == '~'
    ||| c == '/'
}

fn is_kept(b: u8) -> (r: bool)
    ensures
        r == kept(b),
{
    let c: char = b as char;
    ('A' <= c && c <= 'Z') || ('a' <= c && c <= 'z') || ('0' <= c && c <= '9') || c == '-' || c
        == '_' || c == '.' || c == '~' || c == '/'
}

/// The upper-case hexadecimal digit of a number below sixteen.
pub open spec fn hex_upper(d: int) -> char {
    if d < 10 {
        (d + 48) as u8 as char
    } else {
        (d + 55) as u8 as char
    }
}

/// How one byte is written in a query value.
pub open spec fn escaped(b: u8) -> Seq<char> {
    if kept(b) {
        seq![b as char]
    } else {
        seq!['%', hex_upper(b as int / 16), hex_upper(b as int % 16)]
    }
}

/// How some bytes are written in a query value.
pub open spec fn percent_encoded(bytes: Seq<u8>) -> Seq<char>
    decreases bytes.len(),
{
    if bytes.len() == 0 {
        Seq::empty()
    } else {
        escaped(bytes[0]) + percent_encoded(bytes.drop_first())
    }
}

/// The number that an upper-case hexadecimal digit stands for.
pub open spec fn hex_value(c: char) -> Option<int> {
    if '0' <= c <= '9' {
        Some(c as int - 48)
    } else if 'A' <= c <= 'F' {
        Some(c as int - 55)
    } else {
        None
    }
}

/// The bytes that a query value stands for.
pub open spec fn percent_decoded(s: Seq<char>) -> Option<Seq<u8>>
    decreases s.len(),
{
    if s.len() == 0 {
        Some(Seq::empty())
    } else if s[0] == '%' {
        if s.len() >= 3 && hex_value(s[1]) is Some && hex_value(s[2]) is Some {
            match percent_decoded(s.subrange(3, s.len() as int)) {
                Some(rest) => Some(
                    seq![(hex_value(s[1])->0 * 16 + hex_value(s[2])->0) as u8] + rest,
                ),
                None => None,
            }
        } else {
            None
        }
    } else if s[0] as u32 <= 255 {
        match percent_decoded(s.subrange(1, s.len() as int)) {
            Some(rest) => Some(seq![s[0] as u8] + rest),
            None => None,
        }
    } else {
        None
    }
}

fn hex_upper_digit(d: u8) -> (r: char)
    requires
        d < 16,
    ensures
        r == hex_upper(d as int),
{
    if d < 10 {
        (d + 48) as char
    } else {
        (d + 55) as char
    }
}

/// Minimal percent-encoding for a query value.
pub fn urlencoding_encode(s: &str) -> (r: String)
    ensures
        r@ == percent_encoded(encode_utf8(s@)),
{
    let bytes: &[u8] = s.as_bytes();
    let mut out: String = String::new();
    let mut i: usize = 0;
    assert(bytes@.subrange(0, bytes@.len() as int) =~= bytes@);
    assert(out@ + percent_encoded(bytes@) =~= percent_encoded(bytes@));
    while i < bytes.len()
        invariant
            i <= bytes@.len(),
            out@ + percent_encoded(bytes@.subrange(i as int, bytes@.len() as int))
                == percent_encoded(bytes@),
        decreases bytes@.len() - i,
    {
        let b: u8 = bytes[i];
        let ghost before = out@;
        let ghost rest = bytes@.subrange(i as int, bytes@.len() as int);
        if is_kept(b) {
            out.push(b as char);
        } else {
            out.push('%');
            out.push(hex_upper_digit(b / 16));
            out.push(hex_upper_digit(b % 16));
        }
        proof {
            assert(out@ =~= before + escaped(b));
            assert(rest.drop_first() =~= bytes@.subrange(i + 1, bytes@.len() as int));
            assert(before + (escaped(b) + percent_encoded(rest.drop_first())) =~= (before + escaped(
                b,
            )) + percent_encoded(rest.drop_first()));
        }
        i += 1;
    }
    assert(out@ + percent_encoded(bytes@.subrange(i as int, bytes@.len() as int)) =~= out@);
    out
}

/// The failure of a call that lacks an argument.
pub open spec fn missing_argument(key: Seq<char>) -> Seq<char> {
    "missing required string argument '"@ + key + "'"@
}

/// The text of a required argument, or what is said against the call.
pub open spec fn required_text(args: JsonTree, key: Seq<char>) -> Result<Seq<char>, Seq<char>> {
    match args.field_text(key) {
        Some(text) => Ok(text),
        None => Err(missing_argument(key)),
    }
}

/// The text of a required argument.
pub fn require_string(args: &Json, key: &str) -> (r: Result<String, Failure>)
    ensures
        match r {
            Ok(text) => required_text(args.tree(), key@) == Ok::<Seq<char>, Seq<char>>(text@),
            Err(e) => required_text(args.tree(), key@) == Err::<Seq<char>, Seq<char>>(e@),
        },
{
    match args.get_str(key) {
        Some(text) => Ok(text.to_owned()),
        None => {
            let mut message: String = "missing required string argument '".to_owned();
            message.append(key);
            message.append("'");
            Err(Failure { message: message })
        },
    }
}

/// The URL of something in a workspace.
pub open spec fn workspace_url(base: Seq<char>, ws: Seq<char>, tail: Seq<char>) -> Seq<char> {
    base + "/workspace/"@ + ws + tail
}

fn in_workspace(base: &str, ws: &str, tail: &str) -> (r: String)
    ensures
        r@ == workspace_url(base@, ws@, tail@),
{
    let mut url: String = base.to_owned();
    url.append("/workspace/");
    url.append(ws);
    url.append(tail);
    url
}

/// A value, or a stand-in where there is none.
pub open spec fn tree_or(value: Option<JsonTree>, default: JsonTree) -> JsonTree {
    match value {
        Some(tree) => tree,
        None => default,
    }
}

/// The member of that name, or a stand-in where there is none.
pub fn field_or(value: &Json, name: &str, default: Json) -> (r: Json)
    ensures
        r.tree() == tree_or(value.tree().field(name@), default.tree()),
{
    match value.get(name) {
        Some(found) => found.clone(),
        None => default,
    }
}

/// Whether a ledger call appends a row: it does where it gives any field of one.
pub open spec fn appends(args: JsonTree) -> bool {
    ||| args.field("commit"@) is Some
    ||| args.field("score"@) is Some
    ||| args.field("memory_gb"@) is Some
    ||| args.field("status"@) is Some
    ||| args.field("description"@) is Some
}

/// The row that a ledger call appends. Fields that it does not give get their defaults.
pub open spec fn ledger_row(args: JsonTree) -> JsonTree {
    obj().put("commit"@, tree_or(args.field("commit"@), JsonTree::Text(""@))).put(
        "score"@,
        tree_or(args.field("score"@), JsonTree::Null),
    ).put("memory_gb"@, tree_or(args.field("memory_gb"@), JsonTree::Null)).put(
        "status"@,
        tree_or(args.field("status"@), JsonTree::Text(""@)),
    ).put("description"@, tree_or(args.field("description"@), JsonTree::Text(""@)))
}

/// The request of a call that moves the git ledger of a workspace.
pub open spec fn git_outcome(
    base: Seq<char>,
    args: JsonTree,
    action: Seq<char>,
) -> Result<CallView, Seq<char>> {
    match required_text(args, "workspace_id"@) {
        Ok(ws) => Ok(
            post_call(
                workspace_url(base, ws, "/git"@),
                obj().put("action"@, JsonTree::Text(action)),
            ),
        ),
        Err(e) => Err(e),
    }
}

/// The request that a tool call makes of the engine at a base URL, or what is said against the
/// call.
pub open spec fn dispatched(base: Seq<char>, tool: Seq<char>, args: JsonTree) -> Result<
    CallView,
    Seq<char>,
> {
    if tool == "list_experiments"@ {
        Ok(get_call(base + "/experiments"@))
    } else if tool == "init_workspace"@ {
        match required_text(args, "experiment"@) {
            Ok(experiment) => Ok(
                post_call(
                    base + "/workspace/init"@,
                    obj().put("experiment"@, JsonTree::Text(experiment)),
                ),
            ),
            Err(e) => Err(e),
        }
    } else if tool == "read_file"@ {
        match required_text(args, "workspace_id"@) {
            Ok(ws) => match required_text(args, "path"@) {
                Ok(path) => Ok(
                    get_call(
                        workspace_url(base, ws, "/file?path="@) + percent_encoded(
                            encode_utf8(path),
                        ),
                    ),
                ),
                Err(e) => Err(e),
            },
            Err(e) => Err(e),
        }
    } else if tool == "write_file"@ {
        match required_text(args, "workspace_id"@) {
            Ok(ws) => match required_text(args, "path"@) {
                Ok(path) => Ok(
                    put_call(
                        workspace_url(base, ws, "/file"@),
                        obj().put("path"@, JsonTree::Text(path)).put(
                            "content"@,
                            JsonTree::Text(
                                match args.field_text("content"@) {
                                    Some(content) => content,
                                    None => ""@,
                                },
                            ),
                        ),
                    ),
                ),
                Err(e) => Err(e),
            },
            Err(e) => Err(e),
        }
    } else if tool == "run"@ {
        match required_text(args, "workspace_id"@) {
            Ok(ws) => Ok(
                post_call(
                    workspace_url(base, ws, "/run"@),
                    match args.field("budget_s"@) {
                        Some(budget) => obj().put("budget_s"@, budget),
                        None => obj(),
                    },
                ),
            ),
            Err(e) => Err(e),
        }
    } else if tool == "keep"@ {
        git_outcome(base, args, "advance"@)
    } else if tool == "reset"@ {
        git_outcome(base, args, "reset"@)
    } else if tool == "ledger"@ {
        match required_text(args, "workspace_id"@) {
            Ok(ws) => if appends(args) {
                Ok(post_call(workspace_url(base, ws, "/ledger"@), ledger_row(args)))
            } else {
                Ok(get_call(workspace_url(base, ws, "/ledger"@)))
            },
            Err(e) => Err(e),
        }
    } else {
        Err("unknown Research tool '"@ + tool + "'"@)
    }
}

fn git_action(base: &str, arguments: &Json, action: &str) -> (r: Result<UpstreamCall, Failure>)
    ensures
        call_outcome(r) == git_outcome(base@, arguments.tree(), action@),
{
    match require_string(arguments, "workspace_id") {
        Ok(ws) => Ok(
            post(
                in_workspace(base, ws.as_str(), "/git"),
                Json::object().with("action", Json::text(action)),
            ),
        ),
        Err(e) => Err(e),
    }
}

/// The request of a tool call, for an engine at a base URL.
fn engine_call(base: &str, tool: &str, arguments: &Json) -> (r: Result<UpstreamCall, Failure>)
    ensures
        call_outcome(r) == dispatched(base@, tool@, arguments.tree()),
{
    if same_text(tool, "list_experiments") {
        let mut url: String = base.to_owned();
        url.append("/experiments");
        Ok(get(url))
    } else if same_text(tool, "init_workspace") {
        let experiment: String = match require_string(arguments, "experiment") {
            Ok(experiment) => experiment,
            Err(e) => {
                return Err(e);
            },
        };
        let mut url: String = base.to_owned();
        url.append("/workspace/init");
        Ok(post(url, Json::object().with("experiment", Json::text(experiment.as_str()))))
    } else if same_text(tool, "read_file") {
        let ws: String = match require_string(arguments, "workspace_id") {
            Ok(ws) => ws,
            Err(e) => {
                return Err(e);
            },
        };
        let path: String = match require_string(arguments, "path") {
            Ok(path) => path,
            Err(e) => {
                return Err(e);
            },
        };
        let mut url: String = in_workspace(base, ws.as_str(), "/file?path=");
        url.append(urlencoding_encode(path.as_str()).as_str());
        Ok(get(url))
    } else if same_text(tool, "write_file") {
        let ws: String = match require_string(arguments, "workspace_id") {
            Ok(ws) => ws,
            Err(e) => {
                return Err(e);
            },
        };
        let path: String = match require_string(arguments, "path") {
            Ok(path) => path,
            Err(e) => {
                return Err(e);
            },
        };
        let content: &str = match arguments.get_str("content") {
            Some(content) => content,
            None => "",
        };
        Ok(
            put(
                in_workspace(base, ws.as_str(), "/file"),
                Json::object().with("path", Json::text(path.as_str())).with(
                    "content",
                    Json::text(content),
                ),
            ),
        )
    } else if same_text(tool, "run") {
        let ws: String = match require_string(arguments, "workspace_id") {
            Ok(ws) => ws,
            Err(e) => {
                return Err(e);
            },
        };
        let mut body: Json = Json::object();
        if let Some(budget) = arguments.get("budget_s") {
            body = body.with("budget_s", budget.clone());
        }
        Ok(post(in_workspace(base, ws.as_str(), "/run"), body))
    } else if same_text(tool, "keep") {
        git_action(base, arguments, "advance")
    } else if same_text(tool, "reset") {
        git_action(base, arguments, "reset")
    } else if same_text(tool, "ledger") {
        let ws: String = match require_string(arguments, "workspace_id") {
            Ok(ws) => ws,
            Err(e) => {
                return Err(e);
            },
        };
        let url: String = in_workspace(base, ws.as_str(), "/ledger");
        if arguments.get("commit").is_some() || arguments.get("score").is_some() || arguments.get(
            "memory_gb",
        ).is_some() || arguments.get("status").is_some() || arguments.get(
            "description",
        ).is_some() {
            let body: Json = Json::object().with(
                "commit",
                field_or(arguments, "commit", Json::text("")),
            ).with("score", field_or(arguments, "score", Json::Null)).with(
                "memory_gb",
                field_or(arguments, "memory_gb", Json::Null),
            ).with("status", field_or(arguments, "status", Json::text(""))).with(
                "description",
                field_or(arguments, "description", Json::text("")),
            );
            Ok(post(url, body))
        } else {
            Ok(get(url))
        }
    } else {
        let mut message: String = "unknown Research tool '".to_owned();
        message.append(tool);
        message.append("'");
        Err(Failure { message: message })
    }
}

/// The request of an outcome under a bearer.
pub open spec fn outcome_under(
    outcome: Result<CallView, Seq<char>>,
    bearer: Option<Seq<char>>,
) -> Result<CallView, Seq<char>> {
    match outcome {
        Ok(call) => Ok(call.under(bearer)),
        Err(e) => Err(e),
    }
}

/// The engine request of a tool call. `upstream` overrides where the engine is, `token` is the
/// engine's token, which the request presents as its bearer, and `tool` is the bare tool name. It
/// fails only for a malformed call: an unknown tool, or a missing argument.
pub fn dispatch(upstream: Option<&str>, token: Option<&str>, tool: &str, arguments: &Json) -> (r:
    Result<UpstreamCall, Failure>)
    ensures
        call_outcome(r) == outcome_under(
            dispatched(base_url(opt_str(upstream)), tool@, arguments.tree()),
            opt_str(token),
        ),
        r matches Ok(call) ==> call@.bearer == opt_str(token),
{
    let base: String = research_base_url(upstream);
    match engine_call(base.as_str(), tool, arguments) {
        Ok(call) => Ok(call.under(token)),
        Err(e) => Err(e),
    }
}

/// The result of a tool call that the engine answered with a value.
pub open spec fn answered(status: u16, value: JsonTree) -> JsonTree {
    if success(status) {
        value
    } else {
        obj().put("available"@, JsonTree::Bool(true)).put(
            "error"@,
            JsonTree::Text("research sidecar returned "@ + status_words(status)),
        ).put("detail"@, value)
    }
}

/// The result of a tool call, by what came of its request.
pub open spec fn settled(exchange: Exchange) -> JsonTree {
    match exchange {
        Exchange::Reply { status, body } => answered(status, body_tree(bytes_or_none(body))),
        Exchange::Unreachable { error } => unavailable_tree(
            "research sidecar not reachable: "@ + error@,
        ),
    }
}

/// The result of a tool call that the engine answered with a value. Where the engine refuses,
/// its answer is surfaced and the caller's turn goes on.
pub fn answer(status: u16, value: Json) -> (r: Json)
    ensures
        r.tree() == answered(status, value.tree()),
{
    if is_success(status) {
        value
    } else {
        let mut error: String = "research sidecar returned ".to_owned();
        error.append(status_text(status).as_str());
        Json::object().with("available", Json::Bool(true)).with(
            "error",
            Json::text(error.as_str()),
        ).with("detail", value)
    }
}

/// The result of a tool call, by what came of its request. An engine that cannot be reached, and
/// one that refuses, are results too.
pub fn settle(exchange: &Exchange) -> (r: Json)
    ensures
        r.tree() == settled(*exchange),
{
    match exchange {
        Exchange::Reply { status, body } => answer(*status, body_or_empty(body)),
        Exchange::Unreachable { error } => {
            let mut reason: String = "research sidecar not reachable: ".to_owned();
            reason.append(error.as_str());
            unavailable(reason.as_str())
        },
    }
}

/// The bytes of a query value come back when it is decoded.
pub proof fn law_percent_encoding_reads_back(bytes: Seq<u8>)
    ensures
        percent_decoded(percent_encoded(bytes)) == Some(bytes),
    decreases bytes.len(),
{
    let s = percent_encoded(bytes);
    if bytes.len() > 0 {
        let b = bytes[0];
        let rest = percent_encoded(bytes.drop_first());
        law_percent_encoding_reads_back(bytes.drop_first());
        if kept(b) {
            assert(s.subrange(1, s.len() as int) =~= rest);
            assert(s[0] == b as char);
        } else {
            assert(s.subrange(3, s.len() as int) =~= rest);
            assert(s[0] == '%' && s[1] == hex_upper(b as int / 16) && s[2] == hex_upper(
                b as int % 16,
            ));
            assert(hex_value(s[1]) == Some(b as int / 16));
            assert(hex_value(s[2]) == Some(b as int % 16));
        }
        assert(seq![b] + bytes.drop_first() =~= bytes);
    }
}

/// Two texts that are written alike in a query are one text.
pub proof fn law_percent_encoding_is_injective(a: Seq<char>, b: Seq<char>)
    requires
        percent_encoded(encode_utf8(a)) == percent_encoded(encode_utf8(b)),
    ensures
        a == b,
{
    law_percent_encoding_reads_back(encode_utf8(a));
    law_percent_encoding_reads_back(encode_utf8(b));
    encode_utf8_decode_utf8(a);
    encode_utf8_decode_utf8(b);
}

/// A query value holds nothing but percent signs and characters that stand for themselves.
pub proof fn law_query_values_are_plain(bytes: Seq<u8>, i: int)
    requires
        0 <= i < percent_encoded(bytes).len(),
    ensures
        ({
            let c = percent_encoded(bytes)[i];
            c == '%' || (c as u32 <= 127 && kept(c as u8))
        }),
    decreases bytes.len(),
{
    let head = escaped(bytes[0]);
    if i >= head.len() {
        law_query_values_are_plain(bytes.drop_first(), i - head.len());
    }
}

/// A text made of characters that stand for themselves is written as it is.
pub proof fn law_plain_paths_pass_through(bytes: Seq<u8>)
    requires
        forall|i: int| 0 <= i < bytes.len() ==> kept(#[trigger] bytes[i]),
    ensures
        percent_encoded(bytes) == bytes.map_values(|b: u8| b as char),
    decreases bytes.len(),
{
    if bytes.len() > 0 {
        let rest = bytes.drop_first();
        assert forall|i: int| 0 <= i < rest.len() implies kept(#[trigger] rest[i]) by {
            assert(rest[i] == bytes[i + 1]);
        }
        law_plain_paths_pass_through(rest);
    }
    assert(percent_encoded(bytes) =~= bytes.map_values(|b: u8| b as char));
}

/// Whether the arguments of a call hold, as texts, all that a schema requires.
pub open spec fn meets_schema(schema: JsonTree, args: JsonTree) -> bool {
    schema.field("required"@) matches Some(JsonTree::List(names)) ==> forall|i: int|
        0 <= i < names.len() ==> ((#[trigger] names[i]).text() matches Some(name)
            ==> args.field_text(name) is Some)
}

/// Whether a tool of that name is listed.
pub open spec fn listed(tool: Seq<char>) -> bool {
    exists|i: int| 0 <= i < tool_views().len() && (#[trigger] tool_views()[i]).name == tool
}

/// Every listed tool can be called: where the arguments hold all that its schema requires, the
/// call makes a request.
pub proof fn law_listed_tools_dispatch(base: Seq<char>, i: int, args: JsonTree)
    requires
        0 <= i < tool_views().len(),
        meets_schema(tool_views()[i].schema, args),
    ensures
        dispatched(base, tool_views()[i].name, args) is Ok,
{
    lemma_tool_names_differ();
    let one = and_name(items(), "workspace_id"@);
    let first = and_name(items(), "experiment"@);
    let two = and_name(one, "path"@);
    let three = and_name(two, "content"@);
    if i == 1 {
        let names = first->List_0;
        assert(names[0].text() == Some("experiment"@));
    } else if i == 2 {
        let names = two->List_0;
        assert(names[0].text() == Some("workspace_id"@));
        assert(names[1].text() == Some("path"@));
    } else if i == 3 {
        let names = three->List_0;
        assert(names[0].text() == Some("workspace_id"@));
        assert(names[1].text() == Some("path"@));
    } else if i > 3 {
        let names = one->List_0;
        assert(names[0].text() == Some("workspace_id"@));
    }
}

/// A tool that is not listed is refused by name, whatever its arguments.
pub proof fn law_unlisted_tools_are_refused(base: Seq<char>, tool: Seq<char>, args: JsonTree)
    requires
        !listed(tool),
    ensures
        dispatched(base, tool, args) == Err::<CallView, Seq<char>>(
            "unknown Research tool '"@ + tool + "'"@,
        ),
{
    let views = tool_views();
    assert(views[0].name == "list_experiments"@);
    assert(views[1].name == "init_workspace"@);
    assert(views[2].name == "read_file"@);
    assert(views[3].name == "write_file"@);
    assert(views[4].name == "run"@);
    assert(views[5].name == "keep"@);
    assert(views[6].name == "reset"@);
    assert(views[7].name == "ledger"@);
}

/// A ledger call writes exactly where it gives a field of a row, and then every field that it gives
/// stands in the row; any other reads.
pub proof fn law_ledger_writes_only_to_append(base: Seq<char>, args: JsonTree)
    requires
        args.field_text("workspace_id"@) is Some,
    ensures
        dispatched(base, "ledger"@, args) is Ok,
        ({
            let call = dispatched(base, "ledger"@, args)->Ok_0;
            if appends(args) {
                &&& call.method == Method::Post
                &&& call.body == Some(ledger_row(args))
                &&& args.field("commit"@) is Some ==> ledger_row(args).field("commit"@)
                    == args.field("commit"@)
                &&& args.field("score"@) is Some ==> ledger_row(args).field("score"@) == args.field(
                    "score"@,
                )
                &&& args.field("memory_gb"@) is Some ==> ledger_row(args).field("memory_gb"@)
                    == args.field("memory_gb"@)
                &&& args.field("status"@) is Some ==> ledger_row(args).field("status"@)
                    == args.field("status"@)
                &&& args.field("description"@) is Some ==> ledger_row(args).field("description"@)
                    == args.field("description"@)
            } else {
                call.method == Method::Get && call.body is None
            }
        }),
{
    lemma_tool_names_differ();
    reveal_strlit("commit");
    reveal_strlit("score");
    reveal_strlit("memory_gb");
    reveal_strlit("status");
    reveal_strlit("description");
    assert("commit"@.len() == 6 && "score"@.len() == 5 && "memory_gb"@.len() == 9 && "status"@.len()
        == 6 && "description"@.len() == 11);
    assert("commit"@[0] == 'c' && "status"@[0] == 's');
}

proof fn lemma_tool_names_differ()
    ensures
        forall|i: int, j: int|
            0 <= i < j < tool_views().len() ==> (#[trigger] tool_views()[i]).name != (
            #[trigger] tool_views()[j]).name,
{
    reveal_strlit("list_experiments");
    reveal_strlit("init_workspace");
    reveal_strlit("read_file");
    reveal_strlit("write_file");
    reveal_strlit("run");
    reveal_strlit("keep");
    reveal_strlit("reset");
    reveal_strlit("ledger");
    let views = tool_views();
    assert(views[0].name.len() == 16);
    assert(views[1].name.len() == 14);
    assert(views[2].name.len() == 9);
    assert(views[3].name.len() == 10);
    assert(views[4].name.len() == 3);
    assert(views[5].name.len() == 4);
    assert(views[6].name.len() == 5);
    assert(views[7].name.len() == 6);
    assert forall|i: int, j: int| 0 <= i < j < views.len() implies (#[trigger] views[i]).name != (
    #[trigger] views[j]).name by {
        assert(views[i].name.len() != views[j].name.len());
    }
}

/// No two tools share a name, and no name holds the separator of qualified tool names.
pub proof fn law_tool_names_are_bare_and_unique()
    ensures
        forall|i: int, j: int|
            0 <= i < j < tool_views().len() ==> (#[trigger] tool_views()[i]).name != (
            #[trigger] tool_views()[j]).name,
        forall|i: int, k: int|
            0 <= i < tool_views().len() && 0 <= k < (#[trigger] tool_views()[i]).name.len() - 1
                ==> !(#[trigger] tool_views()[i].name[k] == '_' && tool_views()[i].name[k + 1]
                == '_'),
{
    lemma_tool_names_differ();
    reveal_strlit("list_experiments");
    reveal_strlit("init_workspace");
    reveal_strlit("read_file");
    reveal_strlit("write_file");
    reveal_strlit("run");
    reveal_strlit("keep");
    reveal_strlit("reset");
    reveal_strlit("ledger");
    let views = tool_views();
    assert(views[0].name == "list_experiments"@);
    assert(views[1].name == "init_workspace"@);
    assert(views[2].name == "read_file"@);
    assert(views[3].name == "write_file"@);
    assert(views[4].name == "run"@);
    assert(views[5].name == "keep"@);
    assert(views[6].name == "reset"@);
    assert(views[7].name == "ledger"@);
}

/// An engine that cannot be reached is a result that says so, with `available` false.
pub proof fn law_unreachable_engine_is_a_result(error: String)
    ensures
        settled(Exchange::Unreachable { error: error }).field("available"@) == Some(
            JsonTree::Bool(false),
        ),
{
    reveal_strlit("available");
    reveal_strlit("reason");
    reveal_strlit("hint");
    assert("available"@.len() == 9 && "reason"@.len() == 6 && "hint"@.len() == 4);
}

/// An engine that refuses is available still, and what it said comes back under `detail`.
pub proof fn law_refusing_engine_stays_available(status: u16, value: JsonTree)
    requires
        !success(status),
    ensures
        answered(status, value).field("available"@) == Some(JsonTree::Bool(true)),
        answered(status, value).field("detail"@) == Some(value),
{
    reveal_strlit("available");
    reveal_strlit("error");
    reveal_strlit("detail");
    assert("available"@.len() == 9 && "error"@.len() == 5 && "detail"@.len() == 6);
}

/// The experiments are listed by one plain request, whatever the arguments.
pub proof fn law_experiments_are_listed_without_arguments(base: Seq<char>, args: JsonTree)
    ensures
        dispatched(base, "list_experiments"@, args) matches Ok(call) && {
            &&& call.method == Method::Get
            &&& call.url == base + "/experiments"@
            &&& call.body is None
            &&& call.bearer is None
        },
{
}

/// A workspace is created by posting the experiment that was named, word for word and alone; without
/// a name there is no request.
pub proof fn law_workspaces_are_created_for_the_named_experiment(base: Seq<char>, args: JsonTree)
    ensures
        args.field_text("experiment"@) matches Some(experiment) ==> (dispatched(
            base,
            "init_workspace"@,
            args,
        ) matches Ok(call) && {
            &&& call.method == Method::Post
            &&& call.url == base + "/workspace/init"@
            &&& call.body matches Some(body) && body is Object && forall|name: Seq<char>|
                #[trigger] body.field(name) == (if name == "experiment"@ {
                    Some(JsonTree::Text(experiment))
                } else {
                    None
                })
            &&& call.bearer is None
        }),
        args.field_text("experiment"@) is None ==> dispatched(base, "init_workspace"@, args) == Err::<CallView, Seq<char>>(
            "missing required string argument 'experiment'"@,
        ),
{
    lemma_tool_names_differ();
    let views = tool_views();
    assert(views[0].name == "list_experiments"@);
    assert(views[1].name == "init_workspace"@);
    assert(views[2].name == "read_file"@);
    assert(views[3].name == "write_file"@);
    assert(views[4].name == "run"@);
    assert(views[5].name == "keep"@);
    assert(views[6].name == "reset"@);
    assert(views[7].name == "ledger"@);
    reveal_strlit("missing required string argument '");
    reveal_strlit("experiment");
    reveal_strlit("'");
    reveal_strlit("missing required string argument 'experiment'");
    assert("missing required string argument '"@ + "experiment"@ + "'"@
        =~= "missing required string argument 'experiment'"@);
}

/// A file is read from its workspace under its own path, percent-encoded.
pub proof fn law_files_are_read_by_their_path(
    base: Seq<char>,
    args: JsonTree,
    workspace: Seq<char>,
    path: Seq<char>,
)
    requires
        args.field_text("workspace_id"@) == Some(workspace),
        args.field_text("path"@) == Some(path),
    ensures
        dispatched(base, "read_file"@, args) matches Ok(call) && {
            &&& call.method == Method::Get
            &&& call.url == base + "/workspace/"@ + workspace + "/file?path="@ + percent_encoded(
                encode_utf8(path),
            )
            &&& call.body is None
            &&& call.bearer is None
        },
{
    lemma_tool_names_differ();
    let views = tool_views();
    assert(views[0].name == "list_experiments"@);
    assert(views[1].name == "init_workspace"@);
    assert(views[2].name == "read_file"@);
    assert(views[3].name == "write_file"@);
    assert(views[4].name == "run"@);
    assert(views[5].name == "keep"@);
    assert(views[6].name == "reset"@);
    assert(views[7].name == "ledger"@);
}

/// A file is written to its workspace under its own path and with its own content, character for
/// character; a content that is no text stands for an empty file.
pub proof fn law_files_are_written_verbatim(
    base: Seq<char>,
    args: JsonTree,
    workspace: Seq<char>,
    path: Seq<char>,
)
    requires
        args.field_text("workspace_id"@) == Some(workspace),
        args.field_text("path"@) == Some(path),
    ensures
        dispatched(base, "write_file"@, args) matches Ok(call) && {
            &&& call.method == Method::Put
            &&& call.url == base + "/workspace/"@ + workspace + "/file"@
            &&& call.body matches Some(body) && {
                &&& body.field_text("path"@) == args.field_text("path"@)
                &&& args.field_text("content"@) is Some ==> body.field_text("content"@)
                    == args.field_text("content"@)
                &&& args.field_text("content"@) is None ==> body.field_text("content"@) == Some(
                    Seq::<char>::empty(),
                )
                &&& forall|name: Seq<char>| #[trigger]
                    body.field(name) is Some ==> name == "path"@ || name == "content"@
            }
            &&& call.bearer is None
        },
{
    lemma_tool_names_differ();
    let views = tool_views();
    assert(views[0].name == "list_experiments"@);
    assert(views[1].name == "init_workspace"@);
    assert(views[2].name == "read_file"@);
    assert(views[3].name == "write_file"@);
    assert(views[4].name == "run"@);
    assert(views[5].name == "keep"@);
    assert(views[6].name == "reset"@);
    assert(views[7].name == "ledger"@);
    reveal_strlit("");
    assert(""@ =~= Seq::<char>::empty());
    reveal_strlit("path");
    reveal_strlit("content");
    assert("path"@.len() == 4 && "content"@.len() == 7);
}

/// What is written and what is read back speak of the same file: the two requests go to the same
/// workspace, and the path that is written is the one that the query encodes.
pub proof fn law_reads_and_writes_meet(base: Seq<char>, args: JsonTree)
    requires
        args.field_text("workspace_id"@) is Some,
        args.field_text("path"@) is Some,
    ensures
        dispatched(base, "write_file"@, args) matches Ok(write) && dispatched(
            base,
            "read_file"@,
            args,
        ) matches Ok(read) && write.body matches Some(body) && body.field_text("path"@) matches Some(
            path,
        ) && read.url == write.url + "?path="@ + percent_encoded(encode_utf8(path)),
{
    let workspace = args.field_text("workspace_id"@)->0;
    let path = args.field_text("path"@)->0;
    law_files_are_read_by_their_path(base, args, workspace, path);
    law_files_are_written_verbatim(base, args, workspace, path);
    reveal_strlit("/file?path=");
    reveal_strlit("/file");
    reveal_strlit("?path=");
    assert("/file?path="@ =~= "/file"@ + "?path="@);
    assert(base + "/workspace/"@ + workspace + "/file?path="@ + percent_encoded(encode_utf8(path))
        =~= base + "/workspace/"@ + workspace + "/file"@ + "?path="@ + percent_encoded(
        encode_utf8(path),
    ));
}

/// An attempt is run in its workspace, with the budget that was given, as it was given, and with none
/// where none was given.
pub proof fn law_runs_keep_their_budget(base: Seq<char>, args: JsonTree, workspace: Seq<char>)
    requires
        args.field_text("workspace_id"@) == Some(workspace),
    ensures
        dispatched(base, "run"@, args) matches Ok(call) && {
            &&& call.method == Method::Post
            &&& call.url == base + "/workspace/"@ + workspace + "/run"@
            &&& call.body matches Some(body) && body is Object && body.field("budget_s"@)
                == args.field("budget_s"@) && forall|name: Seq<char>| #[trigger]
                body.field(name) is Some ==> name == "budget_s"@
            &&& call.bearer is None
        },
{
    lemma_tool_names_differ();
    let views = tool_views();
    assert(views[0].name == "list_experiments"@);
    assert(views[1].name == "init_workspace"@);
    assert(views[2].name == "read_file"@);
    assert(views[3].name == "write_file"@);
    assert(views[4].name == "run"@);
    assert(views[5].name == "keep"@);
    assert(views[6].name == "reset"@);
    assert(views[7].name == "ledger"@);
}

/// Keeping an attempt advances the history of its workspace and resetting discards it: the two
/// requests differ in nothing but their action.
pub proof fn law_keep_advances_and_reset_discards(
    base: Seq<char>,
    args: JsonTree,
    workspace: Seq<char>,
)
    requires
        args.field_text("workspace_id"@) == Some(workspace),
    ensures
        dispatched(base, "keep"@, args) matches Ok(call) && {
            &&& call.method == Method::Post
            &&& call.url == base + "/workspace/"@ + workspace + "/git"@
            &&& call.body matches Some(body) && body is Object && forall|name: Seq<char>|
                #[trigger] body.field(name) == (if name == "action"@ {
                    Some(JsonTree::Text("advance"@))
                } else {
                    None
                })
            &&& call.bearer is None
        },
        dispatched(base, "reset"@, args) matches Ok(call) && {
            &&& call.method == Method::Post
            &&& call.url == base + "/workspace/"@ + workspace + "/git"@
            &&& call.body matches Some(body) && body is Object && forall|name: Seq<char>|
                #[trigger] body.field(name) == (if name == "action"@ {
                    Some(JsonTree::Text("reset"@))
                } else {
                    None
                })
            &&& call.bearer is None
        },
{
    lemma_tool_names_differ();
    let views = tool_views();
    assert(views[0].name == "list_experiments"@);
    assert(views[1].name == "init_workspace"@);
    assert(views[2].name == "read_file"@);
    assert(views[3].name == "write_file"@);
    assert(views[4].name == "run"@);
    assert(views[5].name == "keep"@);
    assert(views[6].name == "reset"@);
    assert(views[7].name == "ledger"@);
}

/// A ledger call with any field of a row posts a row: each field that was given stands in it as it was
/// given, a text that was not given is empty, and a number that was not given is null. Without any it
/// reads the same ledger.
pub proof fn law_ledger_rows_hold_what_was_given(
    base: Seq<char>,
    args: JsonTree,
    workspace: Seq<char>,
)
    requires
        args.field_text("workspace_id"@) == Some(workspace),
    ensures
        dispatched(base, "ledger"@, args) matches Ok(call) && {
            let given = args.field("commit"@) is Some || args.field("score"@) is Some || args.field(
                "memory_gb"@,
            ) is Some || args.field("status"@) is Some || args.field("description"@) is Some;
            &&& call.url == base + "/workspace/"@ + workspace + "/ledger"@
            &&& call.bearer is None
            &&& call.method == (if given {
                Method::Post
            } else {
                Method::Get
            })
            &&& call.body is Some <==> given
            &&& call.body matches Some(row) ==> {
                &&& row is Object
                &&& forall|name: Seq<char>| #[trigger]
                    row.field(name) is Some <==> (name == "commit"@ || name == "score"@ || name
                        == "memory_gb"@ || name == "status"@ || name == "description"@)
                &&& forall|name: Seq<char>|
                    row.field(name) is Some && #[trigger] args.field(name) is Some ==> row.field(name)
                        == args.field(name)
                &&& forall|name: Seq<char>|
                    row.field(name) is Some && #[trigger] args.field(name) is None ==> row.field(name)
                        == (if name == "score"@ || name == "memory_gb"@ {
                        Some(JsonTree::Null)
                    } else {
                        Some(JsonTree::Text(Seq::<char>::empty()))
                    })
            }
        },
{
    lemma_tool_names_differ();
    let views = tool_views();
    assert(views[0].name == "list_experiments"@);
    assert(views[1].name == "init_workspace"@);
    assert(views[2].name == "read_file"@);
    assert(views[3].name == "write_file"@);
    assert(views[4].name == "run"@);
    assert(views[5].name == "keep"@);
    assert(views[6].name == "reset"@);
    assert(views[7].name == "ledger"@);
    reveal_strlit("");
    assert(""@ =~= Seq::<char>::empty());
    reveal_strlit("commit");
    reveal_strlit("score");
    reveal_strlit("memory_gb");
    reveal_strlit("status");
    reveal_strlit("description");
    assert("commit"@.len() == 6 && "score"@.len() == 5 && "memory_gb"@.len() == 9
        && "status"@.len() == 6 && "description"@.len() == 11);
    assert("commit"@[0] == 'c' && "status"@[0] == 's');
}

/// A listed tool is refused only for a text that it needs and was not given, and the refusal names
/// that text: the experiment for a new workspace, the workspace for everything in one, and after it the
/// path for a file.
pub proof fn law_refusals_name_the_missing_argument(
    base: Seq<char>,
    tool: Seq<char>,
    args: JsonTree,
)
    requires
        tool == "read_file"@ || tool == "write_file"@ || tool == "run"@ || tool == "keep"@ || tool
            == "reset"@ || tool == "ledger"@,
    ensures
        args.field_text("workspace_id"@) is None ==> dispatched(base, tool, args) == Err::<CallView, Seq<char>>(
            "missing required string argument 'workspace_id'"@,
        ),
        args.field_text("workspace_id"@) is Some && (tool == "read_file"@ || tool == "write_file"@)
            && args.field_text("path"@) is None ==> dispatched(base, tool, args) == Err::<CallView, Seq<char>>(
            "missing required string argument 'path'"@,
        ),
        dispatched(base, tool, args) is Ok <==> args.field_text("workspace_id"@) is Some && ((tool
            == "read_file"@ || tool == "write_file"@) ==> args.field_text("path"@) is Some),
{
    lemma_tool_names_differ();
    let views = tool_views();
    assert(views[0].name == "list_experiments"@);
    assert(views[1].name == "init_workspace"@);
    assert(views[2].name == "read_file"@);
    assert(views[3].name == "write_file"@);
    assert(views[4].name == "run"@);
    assert(views[5].name == "keep"@);
    assert(views[6].name == "reset"@);
    assert(views[7].name == "ledger"@);
    reveal_strlit("missing required string argument '");
    reveal_strlit("workspace_id");
    reveal_strlit("path");
    reveal_strlit("'");
    reveal_strlit("missing required string argument 'workspace_id'");
    reveal_strlit("missing required string argument 'path'");
    assert("missing required string argument '"@ + "workspace_id"@ + "'"@
        =~= "missing required string argument 'workspace_id'"@);
    assert("missing required string argument '"@ + "path"@ + "'"@
        =~= "missing required string argument 'path'"@);
}

/// A required text is the text that stands under its key, and nothing else will do.
pub proof fn law_required_texts_are_taken_as_they_are(args: JsonTree, key: Seq<char>)
    ensures
        args.field(key) matches Some(JsonTree::Text(text)) ==> required_text(args, key) == Ok::<
            Seq<char>,
            Seq<char>,
        >(text),
        !(args.field(key) matches Some(JsonTree::Text(_))) ==> required_text(args, key) == Err::<
            Seq<char>,
            Seq<char>,
        >("missing required string argument '"@ + key + "'"@),
{
}

/// A request goes out under the token that there is, and is otherwise left as it is; a refusal stays
/// what it is.
pub proof fn law_the_token_changes_nothing_else(
    base: Seq<char>,
    tool: Seq<char>,
    args: JsonTree,
    token: Option<Seq<char>>,
)
    ensures
        dispatched(base, tool, args) matches Ok(bare) ==> (outcome_under(
            dispatched(base, tool, args),
            token,
        ) matches Ok(call) && call.bearer == token && call.method == bare.method && call.url
            == bare.url && call.body == bare.body && bare.bearer is None),
        dispatched(base, tool, args) matches Err(message) ==> outcome_under(
            dispatched(base, tool, args),
            token,
        ) == Err::<CallView, Seq<char>>(message),
{
}

/// The requests of the three kinds differ in their method and in whether they have a body.
pub proof fn law_requests_carry_their_parts(url: Seq<char>, body: JsonTree)
    ensures
        ({
            let call = get_call(url);
            call.method == Method::Get && call.url == url && call.body is None && call.bearer is None
        }),
        ({
            let call = post_call(url, body);
            call.method == Method::Post && call.url == url && call.body == Some(body) && call.bearer
                is None
        }),
        ({
            let call = put_call(url, body);
            call.method == Method::Put && call.url == url && call.body == Some(body) && call.bearer
                is None
        }),
{
}

/// The address of something in a workspace is the engine's address, the workspace and what is in it.
pub proof fn law_workspace_addresses_nest(
    base: Seq<char>,
    workspace: Seq<char>,
    tail: Seq<char>,
    more: Seq<char>,
)
    ensures
        workspace_url(base, workspace, tail) == base + "/workspace/"@ + workspace + tail,
        workspace_url(base, workspace, tail + more) == workspace_url(base, workspace, tail) + more,
{
    assert(base + "/workspace/"@ + workspace + (tail + more) =~= base + "/workspace/"@ + workspace
        + tail + more);
}

/// What the engine answers with success is the result as it stands; any other answer becomes a result
/// that says that the engine is there, which status it gave, and its whole answer.
pub proof fn law_answers_are_passed_on_whole(status: u16, value: JsonTree)
    ensures
        200 <= status <= 299 ==> answered(status, value) == value,
        !(200 <= status <= 299) ==> {
            let result = answered(status, value);
            &&& result.field("available"@) == Some(JsonTree::Bool(true))
            &&& result.field_text("error"@) == Some(
                "research sidecar returned "@ + status_words(status),
            )
            &&& result.field("detail"@) == Some(value)
            &&& forall|name: Seq<char>| #[trigger]
                result.field(name) is Some ==> name == "available"@ || name == "error"@ || name
                    == "detail"@
        },
{
    reveal_strlit("available");
    reveal_strlit("error");
    reveal_strlit("detail");
    assert("available"@.len() == 9 && "error"@.len() == 5 && "detail"@.len() == 6);
}

/// The result of a request that did not get through says so, why, and what can be done about it.
pub proof fn law_unavailability_is_explained(reason: Seq<char>)
    ensures
        ({
            let result = unavailable_tree(reason);
            &&& result.field("available"@) == Some(JsonTree::Bool(false))
            &&& result.field_text("reason"@) == Some(reason)
            &&& result.field_text("hint"@) == Some(
                "Install the Research sidecar from the Store (or run `python -m ryu_research`) to enable autoresearch."@,
            )
            &&& forall|name: Seq<char>| #[trigger]
                result.field(name) is Some ==> name == "available"@ || name == "reason"@ || name
                    == "hint"@
        }),
{
    reveal_strlit("available");
    reveal_strlit("reason");
    reveal_strlit("hint");
    assert("available"@.len() == 9 && "reason"@.len() == 6 && "hint"@.len() == 4);
}

/// The result of an exchange is that of its status and of its body, an unread body counting as empty;
/// where there was no exchange, it carries the trouble word for word.
pub proof fn law_exchanges_settle_by_their_answer(status: u16, body: Option<Vec<u8>>, error: String)
    ensures
        settled(Exchange::Reply { status: status, body: body }) == answered(
            status,
            body_tree(
                match body {
                    Some(bytes) => bytes@,
                    None => Seq::<u8>::empty(),
                },
            ),
        ),
        settled(Exchange::Unreachable { error: error }).field_text("reason"@) == Some(
            "research sidecar not reachable: "@ + error@,
        ),
{
    law_unavailability_is_explained("research sidecar not reachable: "@ + error@);
}

/// A field is taken where there is one, null or not, and the default only where there is none.
pub proof fn law_defaults_stand_in_for_absent_fields(
    value: JsonTree,
    name: Seq<char>,
    default: JsonTree,
)
    ensures
        value.field(name) matches Some(found) ==> tree_or(value.field(name), default) == found,
        value.field(name) is None ==> tree_or(value.field(name), default) == default,
{
}

/// Percent-encoding goes byte by byte: the encoding of two texts in a row is their encodings in a row.
pub proof fn law_percent_encoding_goes_byte_by_byte(a: Seq<u8>, b: Seq<u8>)
    ensures
        percent_encoded(a + b) == percent_encoded(a) + percent_encoded(b),
    decreases a.len(),
{
    if a.len() == 0 {
        assert(a + b =~= b);
    } else {
        assert((a + b).drop_first() =~= a.drop_first() + b);
        law_percent_encoding_goes_byte_by_byte(a.drop_first(), b);
    }
}

/// A letter, a digit, and each of `-`, `_`, `.`, `~` and `/` stands for itself; any other byte becomes
/// a percent sign and its two hexadecimal digits in upper case.
pub proof fn law_bytes_stand_for_themselves_or_are_escaped(b: u8)
    ensures
        ({
            let c = b as char;
            let coded = percent_encoded(seq![b]);
            if ('A' <= c <= 'Z') || ('a' <= c <= 'z') || ('0' <= c <= '9') || c == '-' || c == '_'
                || c == '.' || c == '~' || c == '/' {
                coded == seq![c]
            } else {
                &&& coded.len() == 3
                &&& coded[0] == '%'
                &&& ('0' <= coded[1] <= '9' && coded[1] as int - '0' as int == b as int / 16) || (
                'A' <= coded[1] <= 'F' && coded[1] as int - 'A' as int + 10 == b as int / 16)
                &&& ('0' <= coded[2] <= '9' && coded[2] as int - '0' as int == b as int % 16) || (
                'A' <= coded[2] <= 'F' && coded[2] as int - 'A' as int + 10 == b as int % 16)
            }
        }),
{
    assert(seq![b].drop_first() =~= Seq::<u8>::empty());
    assert(percent_encoded(Seq::<u8>::empty()) =~= Seq::<char>::empty());
    assert(percent_encoded(seq![b]) =~= escaped(b));
}

/// There are eight tools, in a fixed order, and the first takes no argument at all.
pub proof fn law_there_are_eight_tools()
    ensures
        tool_views().len() == 8,
        ({
            let tool = tool_views()[0];
            &&& tool.name == "list_experiments"@
            &&& tool.description
                == "List the available autoresearch experiment kinds (id, gpu_required, budget_s, mutable_files)."@
            &&& tool.schema.field_text("type"@) == Some("object"@)
            &&& tool.schema.field("properties"@) matches Some(properties) && properties is Object
                && forall|name: Seq<char>| #[trigger] properties.field(name) is None
            &&& tool.schema.field("additionalProperties"@) == Some(JsonTree::Bool(false))
            &&& tool.schema.field("required"@) is None
        }),
{
    reveal_strlit("type");
    reveal_strlit("properties");
    reveal_strlit("additionalProperties");
    reveal_strlit("required");
    assert("type"@.len() == 4 && "properties"@.len() == 10 && "additionalProperties"@.len() == 20
        && "required"@.len() == 8);
}

/// A new workspace is asked for by its experiment, a text.
pub proof fn law_init_workspace_states_its_arguments()
    ensures
        ({
            let tool = tool_views()[1];
            &&& tool.name == "init_workspace"@
            &&& tool.description
                == "Create a fresh git-versioned workspace for an experiment kind. Returns workspace_id, the mutable_files you may edit, and program_md (the researcher instructions)."@
            &&& tool.schema.field_text("type"@) == Some("object"@)
            &&& tool.schema.field("properties"@) matches Some(properties) && {
                &&& forall|name: Seq<char>| #[trigger]
                    properties.field(name) is Some ==> name == "experiment"@
                &&& properties.field("experiment"@) matches Some(property) && property.field_text("type"@)
                    == Some("string"@) && property.field_text("description"@) == Some(
                    "Experiment kind id, e.g. 'toy' or 'nanochat'."@,
                )
            }
            &&& tool.schema.field_list("required"@) == Some(
                seq![
                    JsonTree::Text("experiment"@),
                ],
            )
            &&& tool.schema.field("additionalProperties"@) is None
        }),
{
    reveal_strlit("type");
    reveal_strlit("properties");
    reveal_strlit("additionalProperties");
    reveal_strlit("required");
    reveal_strlit("description");
    reveal_strlit("experiment");
    assert("type"@.len() == 4 && "properties"@.len() == 10 && "additionalProperties"@.len() == 20
        && "required"@.len() == 8 && "description"@.len() == 11 && "experiment"@.len() == 10);
    assert("properties"@[0] == 'p' && "experiment"@[0] == 'e');
    let required = tool_views()[1].schema.field_list("required"@)->0;
    assert(required =~= seq![JsonTree::Text("experiment"@)]);
}

/// A read is asked for by its workspace and its path, both texts.
pub proof fn law_read_file_states_its_arguments()
    ensures
        ({
            let tool = tool_views()[2];
            &&& tool.name == "read_file"@
            &&& tool.description
                == "Read a file from the workspace (typically a mutable train.py)."@
            &&& tool.schema.field_text("type"@) == Some("object"@)
            &&& tool.schema.field("properties"@) matches Some(properties) && {
                &&& forall|name: Seq<char>| #[trigger]
                    properties.field(name) is Some ==> name == "workspace_id"@ || name == "path"@
                &&& properties.field("workspace_id"@) matches Some(property) && property.field_text("type"@)
                    == Some("string"@) && property.field_text("description"@) == Some(
                    "The workspace id returned by init_workspace."@,
                )
                &&& properties.field("path"@) matches Some(property) && property.field_text("type"@)
                    == Some("string"@) && property.field_text("description"@) == Some(
                    "Workspace-relative file path."@,
                )
            }
            &&& tool.schema.field_list("required"@) == Some(
                seq![
                    JsonTree::Text("workspace_id"@),
                    JsonTree::Text("path"@),
                ],
            )
            &&& tool.schema.field("additionalProperties"@) is None
        }),
{
    reveal_strlit("type");
    reveal_strlit("properties");
    reveal_strlit("additionalProperties");
    reveal_strlit("required");
    reveal_strlit("description");
    reveal_strlit("workspace_id");
    reveal_strlit("path");
    assert("type"@.len() == 4 && "properties"@.len() == 10 && "additionalProperties"@.len() == 20
        && "required"@.len() == 8 && "description"@.len() == 11 && "workspace_id"@.len() == 12
        && "path"@.len() == 4);
    assert("type"@[0] == 't' && "path"@[0] == 'p');
    let required = tool_views()[2].schema.field_list("required"@)->0;
    assert(required =~= seq![JsonTree::Text("workspace_id"@), JsonTree::Text("path"@)]);
}

/// A write is asked for by its workspace, its path and its content, all of them texts.
pub proof fn law_write_file_states_its_arguments()
    ensures
        ({
            let tool = tool_views()[3];
            &&& tool.name == "write_file"@
            &&& tool.description
                == "Overwrite a file in the workspace with new content (your proposed edit)."@
            &&& tool.schema.field_text("type"@) == Some("object"@)
            &&& tool.schema.field("properties"@) matches Some(properties) && {
                &&& forall|name: Seq<char>| #[trigger]
                    properties.field(name) is Some ==> name == "workspace_id"@ || name == "path"@ || name == "content"@
                &&& properties.field("workspace_id"@) matches Some(property) && property.field_text("type"@)
                    == Some("string"@) && property.field_text("description"@) == Some(
                    "The workspace id returned by init_workspace."@,
                )
                &&& properties.field("path"@) matches Some(property) && property.field_text("type"@)
                    == Some("string"@) && property.field_text("description"@) == Some(
                    "Workspace-relative file path."@,
                )
                &&& properties.field("content"@) matches Some(property) && property.field_text("type"@)
                    == Some("string"@) && property.field_text("description"@) == Some(
                    "Full new file content."@,
                )
            }
            &&& tool.schema.field_list("required"@) == Some(
                seq![
                    JsonTree::Text("workspace_id"@),
                    JsonTree::Text("path"@),
                    JsonTree::Text("content"@),
                ],
            )
            &&& tool.schema.field("additionalProperties"@) is None
        }),
{
    reveal_strlit("type");
    reveal_strlit("properties");
    reveal_strlit("additionalProperties");
    reveal_strlit("required");
    reveal_strlit("description");
    reveal_strlit("workspace_id");
    reveal_strlit("path");
    reveal_strlit("content");
    assert("type"@.len() == 4 && "properties"@.len() == 10 && "additionalProperties"@.len() == 20
        && "required"@.len() == 8 && "description"@.len() == 11 && "workspace_id"@.len() == 12
        && "path"@.len() == 4 && "content"@.len() == 7);
    assert("type"@[0] == 't' && "path"@[0] == 'p');
    let required = tool_views()[3].schema.field_list("required"@)->0;
    assert(required =~= seq![JsonTree::Text("workspace_id"@), JsonTree::Text("path"@), JsonTree::Text("content"@)]);
}

/// A run is asked for by its workspace, and may be given a whole number of seconds.
pub proof fn law_run_states_its_arguments()
    ensures
        ({
            let tool = tool_views()[4];
            &&& tool.name == "run"@
            &&& tool.description
                == "Commit the current state and run one experiment attempt under a wall-clock budget. Returns {score (lower=better, or null), memory_gb, status: ok|crash|timeout, commit, logs_tail}."@
            &&& tool.schema.field_text("type"@) == Some("object"@)
            &&& tool.schema.field("properties"@) matches Some(properties) && {
                &&& forall|name: Seq<char>| #[trigger]
                    properties.field(name) is Some ==> name == "workspace_id"@ || name == "budget_s"@
                &&& properties.field("workspace_id"@) matches Some(property) && property.field_text("type"@)
                    == Some("string"@) && property.field_text("description"@) == Some(
                    "The workspace id returned by init_workspace."@,
                )
                &&& properties.field("budget_s"@) matches Some(property) && property.field_text("type"@)
                    == Some("integer"@) && property.field_text("description"@) == Some(
                    "Optional wall-clock cap in seconds; defaults to the experiment's budget_s."@,
                )
            }
            &&& tool.schema.field_list("required"@) == Some(
                seq![
                    JsonTree::Text("workspace_id"@),
                ],
            )
            &&& tool.schema.field("additionalProperties"@) is None
        }),
{
    reveal_strlit("type");
    reveal_strlit("properties");
    reveal_strlit("additionalProperties");
    reveal_strlit("required");
    reveal_strlit("description");
    reveal_strlit("workspace_id");
    reveal_strlit("budget_s");
    assert("type"@.len() == 4 && "properties"@.len() == 10 && "additionalProperties"@.len() == 20
        && "required"@.len() == 8 && "description"@.len() == 11 && "workspace_id"@.len() == 12
        && "budget_s"@.len() == 8);
    assert("required"@[0] == 'r' && "budget_s"@[0] == 'b');
    let required = tool_views()[4].schema.field_list("required"@)->0;
    assert(required =~= seq![JsonTree::Text("workspace_id"@)]);
}

/// Keeping is asked for by the workspace alone.
pub proof fn law_keep_states_its_arguments()
    ensures
        ({
            let tool = tool_views()[5];
            &&& tool.name == "keep"@
            &&& tool.description
                == "Keep the last attempt (advance the git ledger). Use when the score improved."@
            &&& tool.schema.field_text("type"@) == Some("object"@)
            &&& tool.schema.field("properties"@) matches Some(properties) && {
                &&& forall|name: Seq<char>| #[trigger]
                    properties.field(name) is Some ==> name == "workspace_id"@
                &&& properties.field("workspace_id"@) matches Some(property) && property.field_text("type"@)
                    == Some("string"@) && property.field_text("description"@) == Some(
                    "The workspace id returned by init_workspace."@,
                )
            }
            &&& tool.schema.field_list("required"@) == Some(
                seq![
                    JsonTree::Text("workspace_id"@),
                ],
            )
            &&& tool.schema.field("additionalProperties"@) is None
        }),
{
    reveal_strlit("type");
    reveal_strlit("properties");
    reveal_strlit("additionalProperties");
    reveal_strlit("required");
    reveal_strlit("description");
    reveal_strlit("workspace_id");
    assert("type"@.len() == 4 && "properties"@.len() == 10 && "additionalProperties"@.len() == 20
        && "required"@.len() == 8 && "description"@.len() == 11 && "workspace_id"@.len() == 12);
    let required = tool_views()[5].schema.field_list("required"@)->0;
    assert(required =~= seq![JsonTree::Text("workspace_id"@)]);
}

/// Resetting is asked for by the workspace alone.
pub proof fn law_reset_states_its_arguments()
    ensures
        ({
            let tool = tool_views()[6];
            &&& tool.name == "reset"@
            &&& tool.description
                == "Discard the last attempt (git reset --hard HEAD~1). Use when the score did not improve, or the run crashed/timed out."@
            &&& tool.schema.field_text("type"@) == Some("object"@)
            &&& tool.schema.field("properties"@) matches Some(properties) && {
                &&& forall|name: Seq<char>| #[trigger]
                    properties.field(name) is Some ==> name == "workspace_id"@
                &&& properties.field("workspace_id"@) matches Some(property) && property.field_text("type"@)
                    == Some("string"@) && property.field_text("description"@) == Some(
                    "The workspace id returned by init_workspace."@,
                )
            }
            &&& tool.schema.field_list("required"@) == Some(
                seq![
                    JsonTree::Text("workspace_id"@),
                ],
            )
            &&& tool.schema.field("additionalProperties"@) is None
        }),
{
    reveal_strlit("type");
    reveal_strlit("properties");
    reveal_strlit("additionalProperties");
    reveal_strlit("required");
    reveal_strlit("description");
    reveal_strlit("workspace_id");
    assert("type"@.len() == 4 && "properties"@.len() == 10 && "additionalProperties"@.len() == 20
        && "required"@.len() == 8 && "description"@.len() == 11 && "workspace_id"@.len() == 12);
    let required = tool_views()[6].schema.field_list("required"@)->0;
    assert(required =~= seq![JsonTree::Text("workspace_id"@)]);
}

/// The ledger is asked for by its workspace, and may be given the five fields of a row, two of them
/// numbers.
pub proof fn law_ledger_states_its_arguments()
    ensures
        ({
            let tool = tool_views()[7];
            &&& tool.name == "ledger"@
            &&& tool.description
                == "Read the results ledger (no extra fields), OR append a row when commit/score/memory_gb/status/description are provided. Lower score = better."@
            &&& tool.schema.field_text("type"@) == Some("object"@)
            &&& tool.schema.field("properties"@) matches Some(properties) && {
                &&& forall|name: Seq<char>| #[trigger]
                    properties.field(name) is Some ==> name == "workspace_id"@ || name == "commit"@ || name == "score"@ || name == "memory_gb"@ || name == "status"@ || name == "description"@
                &&& properties.field("workspace_id"@) matches Some(property) && property.field_text("type"@)
                    == Some("string"@) && property.field_text("description"@) == Some(
                    "The workspace id returned by init_workspace."@,
                )
                &&& properties.field("commit"@) matches Some(property) && property.field_text("type"@)
                    == Some("string"@) && property.field_text("description"@) == Some(
                    "Commit sha of the attempt (append mode)."@,
                )
                &&& properties.field("score"@) matches Some(property) && property.field_text("type"@)
                    == Some("number"@) && property.field_text("description"@) == Some(
                    "Parsed metric, lower=better (append mode)."@,
                )
                &&& properties.field("memory_gb"@) matches Some(property) && property.field_text("type"@)
                    == Some("number"@) && property.field_text("description"@) == Some(
                    "Peak memory of the attempt (append mode)."@,
                )
                &&& properties.field("status"@) matches Some(property) && property.field_text("type"@)
                    == Some("string"@) && property.field_text("description"@) == Some(
                    "ok|crash|timeout (append mode)."@,
                )
                &&& properties.field("description"@) matches Some(property) && property.field_text("type"@)
                    == Some("string"@) && property.field_text("description"@) == Some(
                    "What the attempt changed + its outcome (append mode)."@,
                )
            }
            &&& tool.schema.field_list("required"@) == Some(
                seq![
                    JsonTree::Text("workspace_id"@),
                ],
            )
            &&& tool.schema.field("additionalProperties"@) is None
        }),
{
    reveal_strlit("type");
    reveal_strlit("properties");
    reveal_strlit("additionalProperties");
    reveal_strlit("required");
    reveal_strlit("description");
    reveal_strlit("workspace_id");
    reveal_strlit("commit");
    reveal_strlit("score");
    reveal_strlit("memory_gb");
    reveal_strlit("status");
    assert("type"@.len() == 4 && "properties"@.len() == 10 && "additionalProperties"@.len() == 20
        && "required"@.len() == 8 && "description"@.len() == 11 && "workspace_id"@.len() == 12
        && "commit"@.len() == 6 && "score"@.len() == 5 && "memory_gb"@.len() == 9
        && "status"@.len() == 6);
    assert("commit"@[0] == 'c' && "status"@[0] == 's');
    let required = tool_views()[7].schema.field_list("required"@)->0;
    assert(required =~= seq![JsonTree::Text("workspace_id"@)]);
}

/// A request is seen whole: its method, address, body and bearer as they are sent.
pub proof fn law_requests_are_seen_whole(call: UpstreamCall, failure: Failure)
    ensures
        call@.method == call.method,
        call@.url == call.url@,
        call.body matches Some(body) ==> call@.body == Some(body.tree()),
        call.body is None ==> call@.body is None,
        call.bearer matches Some(bearer) ==> call@.bearer == Some(bearer@),
        call.bearer is None ==> call@.bearer is None,
        call_outcome(Ok::<UpstreamCall, Failure>(call)) == Ok::<CallView, Seq<char>>(call@),
        call_outcome(Err::<UpstreamCall, Failure>(failure)) == Err::<CallView, Seq<char>>(
            failure.message@,
        ),
{
}

/// A tool is seen whole: its name, its description and its schema.
pub proof fn law_tools_are_seen_whole(specs: Seq<ResearchToolSpec>, i: int)
    requires
        0 <= i < specs.len(),
    ensures
        spec_views(specs).len() == specs.len(),
        spec_views(specs)[i].name == specs[i].name@,
        spec_views(specs)[i].description == specs[i].description@,
        spec_views(specs)[i].schema == specs[i].input_schema.tree(),
{
}

} // verus!
