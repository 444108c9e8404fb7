//! The `/api/research/*` data path: what each route asks of the engine, and what it answers.

use vstd::prelude::*;
use crate::base_url;
use crate::failure::Failure;
use crate::json::items;
use crate::json::json_of_bytes;
use crate::json::obj;
use crate::json::opt_tree;
use crate::json::Json;
use crate::json::JsonTree;
use crate::mcp::field_or;
use crate::mcp::get;
use crate::mcp::get_call;
use crate::mcp::post;
use crate::mcp::post_call;
use crate::mcp::tree_or;
use crate::mcp::workspace_url;
use crate::mcp::CallView;
use crate::mcp::Method;
use crate::mcp::UpstreamCall;
use crate::reasoning::campaign_id_ok;
use crate::reasoning::campaign_url;
use crate::reasoning::next_variant;
use crate::reasoning::valid_campaign_id;
use crate::reasoning::value_outcome;
use crate::reasoning::AwaitingHistory;
use crate::reply::body_or_empty;
use crate::reply::body_tree;
use crate::reply::bytes_or_none;
use crate::reply::is_success;
use crate::reply::success;
use crate::reply::Exchange;
use crate::research_base_url;
use crate::text::opt_str;
use crate::text::opt_text;

verus! {

/// This app's plugin id: the namespace of every event that it may emit.
pub const PLUGIN_ID: &'static str = "@ryu/research";

/// Event: a fresh experiment workspace was initialised.
pub const EV_WORKSPACE_CREATED: &'static str = "@ryu/research#workspace.created";

/// Request body for `POST /api/research/workspace`.
#[derive(Debug, Clone, PartialEq, Eq)]
pub struct InitWorkspaceBody {
    /// Name of the experiment to open a workspace for.
    pub experiment: String,
    /// Human-readable campaign objective and metric direction.
    pub goal: Option<String>,
    /// Optional campaign label shown in Experiments.
    pub name: Option<String>,
    /// Character count at which an analysis becomes mandatory before another attempt.
    pub reasoning_threshold_chars: Option<u64>,
}

/// A reply of the data path: its status and the value in its body.
#[derive(Debug, Clone)]
pub struct ApiReply {
    pub status: u16,
    pub body: Json,
}

/// What a reply says.
pub struct ReplyView {
    pub status: u16,
    pub body: JsonTree,
}

impl View for ApiReply {
    type V = ReplyView;

    open spec fn view(&self) -> ReplyView {
        ReplyView { status: self.status, body: self.body.tree() }
    }
}

/// What a route goes on with.
#[derive(Debug)]
pub enum Next {
    /// It answers at once.
    Answer(ApiReply),
    /// It passes on what comes of a request to the engine.
    Forward(UpstreamCall),
    /// It prepares the next variant of a campaign.
    Prepare(AwaitingHistory),
}

/// What a route does: whether it wakes the engine first, and what it goes on with. A wake that
/// fails changes nothing.
#[derive(Debug)]
pub struct Plan {
    pub wake: bool,
    pub next: Next,
}

/// The reply to an invalid campaign id.
pub open spec fn invalid_campaign() -> ReplyView {
    ReplyView { status: 400, body: obj().put("error"@, JsonTree::Text("invalid campaign id"@)) }
}

/// Whether a plan wakes the engine and forwards that request.
pub open spec fn wakes_and_forwards(plan: Plan, call: CallView) -> bool {
    plan.wake && (plan.next matches Next::Forward(forwarded) && forwarded@ == call)
}

fn invalid_campaign_reply() -> (r: ApiReply)
    ensures
        r@ == invalid_campaign(),
{
    ApiReply {
        status: 400,
        body: Json::object().with("error", Json::text("invalid campaign id")),
    }
}

fn forward_get(url: String, token: Option<&str>) -> (r: Plan)
    ensures
        wakes_and_forwards(r, get_call(url@).under(opt_str(token))),
{
    Plan { wake: true, next: Next::Forward(get(url).under(token)) }
}

/// The experiments that a catalog lists.
pub open spec fn experiments_tree(catalog: Option<JsonTree>) -> JsonTree {
    match catalog {
        Some(value) => tree_or(value.field("experiments"@), items()),
        None => items(),
    }
}

/// The catalog that the engine answered with, where it did.
pub open spec fn catalog_tree(exchange: Exchange) -> Option<JsonTree> {
    match exchange {
        Exchange::Reply { status, body: Some(bytes) } if success(status) => {
            match json_of_bytes(bytes@) {
                Ok(tree) => Some(tree),
                Err(_) => None,
            }
        },
        _ => None,
    }
}

/// The state that the status route reports.
pub open spec fn status_tree(installed: bool, running: bool, experiments: JsonTree) -> JsonTree {
    obj().put("installed"@, JsonTree::Bool(installed)).put("running"@, JsonTree::Bool(running)).put(
        "experiments"@,
        experiments,
    )
}

/// Where the experiment catalog is read.
pub fn experiments_url(upstream: Option<&str>) -> (r: String)
    ensures
        r@ == base_url(opt_str(upstream)) + "/experiments"@,
{
    let mut url: String = research_base_url(upstream);
    url.append("/experiments");
    url
}

/// The request for the experiment catalog, under the engine's token.
pub fn catalog_request(upstream: Option<&str>, token: Option<&str>) -> (r: UpstreamCall)
    ensures
        r@ == get_call(base_url(opt_str(upstream)) + "/experiments"@).under(opt_str(token)),
        r@ == routed(base_url(opt_str(upstream)), opt_str(token), Route::Experiments),
{
    get(experiments_url(upstream)).under(token)
}

/// The experiments that a catalog lists: none without a catalog, or where it names none.
pub fn experiments_of(catalog: Option<&Json>) -> (r: Json)
    ensures
        r.tree() == experiments_tree(opt_tree(catalog)),
{
    match catalog {
        Some(value) => field_or(value, "experiments", Json::list()),
        None => Json::list(),
    }
}

/// The body of the status route. `catalog` is what came of the request for the experiment catalog,
/// The status of the engine, given what came of asking for its experiments.
pub open spec fn status_of(installed: bool, running: bool, catalog: Option<Exchange>) -> JsonTree {
    status_tree(
        installed,
        running,
        experiments_tree(
            match catalog {
                Some(exchange) if running => catalog_tree(exchange),
                _ => None,
            },
        ),
    )
}

/// which is made only where the engine is running. The engine is never started for it.
pub fn research_status(installed: bool, running: bool, catalog: Option<&Exchange>) -> (r: Json)
    ensures
        r.tree() == status_tree(
            installed,
            running,
            experiments_tree(
                match catalog {
                    Some(exchange) if running => catalog_tree(*exchange),
                    _ => None,
                },
            ),
        ),
        catalog matches Some(exchange) ==> r.tree() == status_of(installed, running, Some(*exchange)),
        catalog is None ==> r.tree() == status_of(installed, running, None),
{
    let mut experiments: Json = experiments_of(None);
    if running {
        if let Some(exchange) = catalog {
            if let Exchange::Reply { status, body } = exchange {
                if is_success(*status) {
                    if let Some(bytes) = body {
                        if let Ok(value) = Json::from_bytes(bytes.as_slice()) {
                            experiments = experiments_of(Some(&value));
                        }
                    }
                }
            }
        }
    }
    Json::object().with("installed", Json::Bool(installed)).with("running", Json::Bool(running)).with(
        "experiments",
        experiments,
    )
}

/// What a request to the engine is made of, by route.
pub enum Route {
    Experiments,
    Init(JsonTree),
    Ledger(Seq<char>),
    Campaigns,
    Campaign(Seq<char>),
}

/// The request that a route makes of the engine.
pub open spec fn routed(base: Seq<char>, token: Option<Seq<char>>, route: Route) -> CallView {
    match route {
        Route::Experiments => get_call(base + "/experiments"@),
        Route::Init(body) => post_call(base + "/workspace/init"@, body),
        Route::Ledger(id) => get_call(workspace_url(base, id, "/ledger"@)),
        Route::Campaigns => get_call(base + "/campaigns"@),
        Route::Campaign(id) => get_call(campaign_url(base, id, "?full=1"@)),
    }.under(token)
}

/// The route that opens a workspace: it wakes the engine and forwards the body as it is.
pub fn research_init_workspace(upstream: Option<&str>, token: Option<&str>, body: Json) -> (r: Plan)
    ensures
        wakes_and_forwards(
            r,
            post_call(base_url(opt_str(upstream)) + "/workspace/init"@, body.tree()).under(
                opt_str(token),
            ),
        ),
        wakes_and_forwards(
            r,
            routed(base_url(opt_str(upstream)), opt_str(token), Route::Init(body.tree())),
        ),
{
    let mut url: String = research_base_url(upstream);
    url.append("/workspace/init");
    Plan { wake: true, next: Next::Forward(post(url, body).under(token)) }
}

/// The event that the reply to a new workspace raises. It is raised only where a workspace came
/// into existence: the reply is a success and names it.
pub open spec fn created_tree(reply: ReplyView) -> Option<JsonTree> {
    if success(reply.status) {
        match reply.body.field_text("workspace_id"@) {
            Some(workspace_id) => Some(
                obj().put("workspace_id"@, JsonTree::Text(workspace_id)).put(
                    "experiment"@,
                    tree_or(reply.body.field("experiment"@), JsonTree::Null),
                ).put("mutable_files"@, tree_or(reply.body.field("mutable_files"@), items())),
            ),
            None => None,
        }
    } else {
        None
    }
}

/// The payload of `EV_WORKSPACE_CREATED` that the reply to a new workspace raises.
pub fn workspace_created(reply: &ApiReply) -> (r: Option<Json>)
    ensures
        match r {
            Some(payload) => created_tree(reply@) == Some(payload.tree()),
            None => created_tree(reply@) is None,
        },
{
    if !is_success(reply.status) {
        return None;
    }
    match reply.body.get_str("workspace_id") {
        Some(workspace_id) => Some(
            Json::object().with("workspace_id", Json::text(workspace_id)).with(
                "experiment",
                field_or(&reply.body, "experiment", Json::Null),
            ).with("mutable_files", field_or(&reply.body, "mutable_files", Json::list())),
        ),
        None => None,
    }
}

/// The route that reads the ledger of a workspace.
pub fn research_ledger(upstream: Option<&str>, token: Option<&str>, id: &str) -> (r: Plan)
    ensures
        wakes_and_forwards(
            r,
            get_call(workspace_url(base_url(opt_str(upstream)), id@, "/ledger"@)).under(
                opt_str(token),
            ),
        ),
        wakes_and_forwards(
            r,
            routed(base_url(opt_str(upstream)), opt_str(token), Route::Ledger(id@)),
        ),
{
    let mut url: String = research_base_url(upstream);
    url.append("/workspace/");
    url.append(id);
    url.append("/ledger");
    forward_get(url, token)
}

/// The route that lists the campaigns.
pub fn research_campaigns(upstream: Option<&str>, token: Option<&str>) -> (r: Plan)
    ensures
        wakes_and_forwards(
            r,
            get_call(base_url(opt_str(upstream)) + "/campaigns"@).under(opt_str(token)),
        ),
        wakes_and_forwards(
            r,
            routed(base_url(opt_str(upstream)), opt_str(token), Route::Campaigns),
        ),
{
    let mut url: String = research_base_url(upstream);
    url.append("/campaigns");
    forward_get(url, token)
}

/// The route that reads one campaign, with its whole history. It wakes the engine before it looks
/// at the id, and asks nothing of it for an invalid one.
pub fn research_campaign(upstream: Option<&str>, token: Option<&str>, id: &str) -> (r: Plan)
    ensures
        r.wake,
        campaign_id_ok(id@) ==> wakes_and_forwards(
            r,
            get_call(campaign_url(base_url(opt_str(upstream)), id@, "?full=1"@)).under(
                opt_str(token),
            ),
        ),
        !campaign_id_ok(id@) ==> (r.next matches Next::Answer(reply) && reply@
            == invalid_campaign()),
        campaign_id_ok(id@) ==> wakes_and_forwards(
            r,
            routed(base_url(opt_str(upstream)), opt_str(token), Route::Campaign(id@)),
        ),
{
    if !valid_campaign_id(id) {
        return Plan { wake: true, next: Next::Answer(invalid_campaign_reply()) };
    }
    let mut url: String = research_base_url(upstream);
    url.append("/campaigns/");
    url.append(id);
    url.append("?full=1");
    forward_get(url, token)
}

/// The route that prepares the next variant of a campaign. It looks at the id before it wakes the
/// engine. Its request body is ignored: callers can trigger the preparation, not author evidence.
pub fn research_analyze_campaign(
    upstream: Option<&str>,
    token: Option<&str>,
    has_broker: bool,
    id: &str,
) -> (r: Plan)
    ensures
        r.wake == campaign_id_ok(id@),
        campaign_id_ok(id@) ==> (r.next matches Next::Prepare(awaiting) && {
            &&& awaiting.base@ == base_url(opt_str(upstream))
            &&& awaiting.campaign_id@ == id@
            &&& awaiting.has_broker == has_broker
            &&& opt_text(awaiting.token) == opt_str(token)
        }),
        !campaign_id_ok(id@) ==> (r.next matches Next::Answer(reply) && reply@
            == invalid_campaign()),
{
    match next_variant(upstream, token, has_broker, id) {
        Ok(awaiting) => Plan { wake: true, next: Next::Prepare(awaiting) },
        Err(_) => Plan { wake: false, next: Next::Answer(invalid_campaign_reply()) },
    }
}

/// The reply to a preparation, by its result.
pub open spec fn analysis_view(result: Result<JsonTree, Seq<char>>) -> ReplyView {
    match result {
        Ok(value) => ReplyView { status: 200, body: value },
        Err(message) => ReplyView {
            status: 424,
            body: obj().put("error"@, JsonTree::Text(message)),
        },
    }
}

/// The reply to a preparation, by its result.
pub fn analysis_reply(result: Result<Json, Failure>) -> (r: ApiReply)
    ensures
        r@ == analysis_view(value_outcome(result)),
{
    match result {
        Ok(value) => ApiReply { status: 200, body: value },
        Err(e) => ApiReply {
            status: 424,
            body: Json::object().with("error", Json::text(e.message())),
        },
    }
}

/// The status under which an answer of the engine is passed on.
pub open spec fn passed_status(status: u16) -> u16 {
    if success(status) {
        200
    } else if 100 <= status <= 999 {
        status
    } else {
        502
    }
}

/// The reply where the engine cannot be reached.
pub open spec fn unreachable_view(url: Seq<char>, error: Seq<char>) -> ReplyView {
    ReplyView {
        status: 502,
        body: obj().put(
            "error"@,
            JsonTree::Text(
                "research sidecar not reachable at "@ + url + ": "@ + error
                    + ". Install it from the Store (or run `python -m ryu_research`) first."@,
            ),
        ),
    }
}

/// The reply that passes on what came of a request to the engine.
pub open spec fn proxied_view(url: Seq<char>, exchange: Exchange) -> ReplyView {
    match exchange {
        Exchange::Reply { status, body } => ReplyView {
            status: passed_status(status),
            body: body_tree(bytes_or_none(body)),
        },
        Exchange::Unreachable { error } => unreachable_view(url, error@),
    }
}

/// An answer of the engine, passed on.
pub open spec fn passed_view(status: u16, value: JsonTree) -> ReplyView {
    ReplyView { status: passed_status(status), body: value }
}

/// Passes on an answer of the engine: its status where it is no success, and its value untouched.
pub fn pass_through(status: u16, value: Json) -> (r: ApiReply)
    ensures
        r@ == (ReplyView { status: passed_status(status), body: value.tree() }),
        r@ == passed_view(status, value.tree()),
{
    let passed: u16 = if is_success(status) {
        200
    } else if 100 <= status && status <= 999 {
        status
    } else {
        502
    };
    ApiReply { status: passed, body: value }
}

/// The reply where the engine cannot be reached.
pub fn unreachable_err(url: &str, error: &str) -> (r: ApiReply)
    ensures
        r@ == unreachable_view(url@, error@),
{
    let mut message: String = "research sidecar not reachable at ".to_owned();
    message.append(url);
    message.append(": ");
    message.append(error);
    message.append(". Install it from the Store (or run `python -m ryu_research`) first.");
    ApiReply { status: 502, body: Json::object().with("error", Json::text(message.as_str())) }
}

/// The reply that passes on what came of a request to the engine.
pub fn proxied(url: &str, exchange: &Exchange) -> (r: ApiReply)
    ensures
        r@ == proxied_view(url@, *exchange),
{
    match exchange {
        Exchange::Reply { status, body } => pass_through(*status, body_or_empty(body)),
        Exchange::Unreachable { error } => unreachable_err(url, error.as_str()),
    }
}

/// A success of the engine is passed on as 200, and nothing else is: a failure is never masked.
pub proof fn law_failures_are_never_masked(status: u16)
    ensures
        passed_status(status) == 200 <==> success(status),
        !success(status) && 100 <= status <= 999 ==> passed_status(status) == status,
        success(passed_status(status)) <==> success(status),
{
}

/// The event of a new workspace is raised for no failed request, and for no reply that names no
/// workspace.
pub proof fn law_events_tell_of_real_workspaces(status: u16, body: JsonTree)
    ensures
        created_tree(ReplyView { status: passed_status(status), body: body }) is Some <==> success(
            status,
        ) && body.field_text("workspace_id"@) is Some,
{
}

/// Each route asks the engine for its own thing, under the token: its experiments by nothing; a
/// workspace by what was posted, as it was posted; a ledger by its workspace; the campaigns by nothing;
/// one campaign, in full, by its id.
pub proof fn law_routes_ask_for_their_own_thing(
    base: Seq<char>,
    token: Option<Seq<char>>,
    id: Seq<char>,
    body: JsonTree,
)
    ensures
        ({
            let call = routed(base, token, Route::Experiments);
            call.method == Method::Get && call.url == base + "/experiments"@ && call.body is None
                && call.bearer == token
        }),
        ({
            let call = routed(base, token, Route::Init(body));
            call.method == Method::Post && call.url == base + "/workspace/init"@ && call.body == Some(
                body,
            ) && call.bearer == token
        }),
        ({
            let call = routed(base, token, Route::Ledger(id));
            call.method == Method::Get && call.url == base + "/workspace/"@ + id + "/ledger"@
                && call.body is None && call.bearer == token
        }),
        ({
            let call = routed(base, token, Route::Campaigns);
            call.method == Method::Get && call.url == base + "/campaigns"@ && call.body is None
                && call.bearer == token
        }),
        ({
            let call = routed(base, token, Route::Campaign(id));
            call.method == Method::Get && call.url == base + "/campaigns/"@ + id + "?full=1"@
                && call.body is None && call.bearer == token
        }),
{
}

/// The status tells whether the engine is installed and whether it runs, as they are. The experiments
/// are those that a running engine gave with success, whatever they are, and otherwise an empty list.
pub proof fn law_the_status_tells_what_is_there(
    installed: bool,
    running: bool,
    status: u16,
    bytes: Vec<u8>,
    catalog: Option<Exchange>,
)
    ensures
        ({
            let told = status_of(installed, running, catalog);
            &&& told.field("installed"@) == Some(JsonTree::Bool(installed))
            &&& told.field("running"@) == Some(JsonTree::Bool(running))
            &&& told.field("experiments"@) is Some
            &&& forall|name: Seq<char>| #[trigger]
                told.field(name) is Some ==> name == "installed"@ || name == "running"@ || name
                    == "experiments"@
            &&& !running || catalog is None || catalog->0 is Unreachable ==> told.field(
                "experiments"@,
            ) == Some(JsonTree::List(Seq::empty()))
        }),
        running && 200 <= status <= 299 ==> (json_of_bytes(bytes@) matches Ok(value) ==> (value.field(
            "experiments"@,
        ) is Some ==> status_of(
            installed,
            running,
            Some(Exchange::Reply { status: status, body: Some(bytes) }),
        ).field("experiments"@) == value.field("experiments"@))),
        !(200 <= status <= 299) || json_of_bytes(bytes@) is Err || (json_of_bytes(bytes@)
            matches Ok(value) && value.field("experiments"@) is None) ==> status_of(
            installed,
            running,
            Some(Exchange::Reply { status: status, body: Some(bytes) }),
        ).field("experiments"@) == Some(JsonTree::List(Seq::empty())),
        status_of(
            installed,
            running,
            Some(Exchange::Reply { status: status, body: None }),
        ).field("experiments"@) == Some(JsonTree::List(Seq::empty())),
{
    reveal_strlit("installed");
    reveal_strlit("running");
    reveal_strlit("experiments");
    assert("installed"@.len() == 9 && "running"@.len() == 7 && "experiments"@.len() == 11);
}

/// A workspace that was created is told of by its id, its experiment and its mutable files, as the
/// engine gave them: an absent experiment is null, and absent files are an empty list.
pub proof fn law_creations_are_told_as_they_were_given(status: u16, body: JsonTree)
    ensures
        created_tree(ReplyView { status: status, body: body }) is Some <==> 200 <= status <= 299
            && body.field_text("workspace_id"@) is Some,
        created_tree(ReplyView { status: status, body: body }) matches Some(event) ==> {
            &&& event.field_text("workspace_id"@) == body.field_text("workspace_id"@)
            &&& body.field("experiment"@) is Some ==> event.field("experiment"@) == body.field(
                "experiment"@,
            )
            &&& body.field("experiment"@) is None ==> event.field("experiment"@) == Some(
                JsonTree::Null,
            )
            &&& body.field("mutable_files"@) is Some ==> event.field("mutable_files"@) == body.field(
                "mutable_files"@,
            )
            &&& body.field("mutable_files"@) is None ==> event.field("mutable_files"@) == Some(
                JsonTree::List(Seq::empty()),
            )
            &&& forall|name: Seq<char>| #[trigger]
                event.field(name) is Some ==> name == "workspace_id"@ || name == "experiment"@ || name
                    == "mutable_files"@
        },
{
    reveal_strlit("workspace_id");
    reveal_strlit("experiment");
    reveal_strlit("mutable_files");
    assert("workspace_id"@.len() == 12 && "experiment"@.len() == 10
        && "mutable_files"@.len() == 13);
}

/// A prepared variant is answered as it is; one that could not be prepared is answered, as a failed
/// dependency, with the reason alone.
pub proof fn law_preparations_are_answered(value: JsonTree, message: Seq<char>)
    ensures
        ({
            let reply = analysis_view(Ok::<JsonTree, Seq<char>>(value));
            reply.status == 200 && reply.body == value
        }),
        ({
            let reply = analysis_view(Err::<JsonTree, Seq<char>>(message));
            &&& reply.status == 424
            &&& forall|name: Seq<char>| #[trigger]
                reply.body.field(name) == (if name == "error"@ {
                    Some(JsonTree::Text(message))
                } else {
                    None
                })
        }),
{
}

/// A bad campaign id is a bad request that says so.
pub proof fn law_bad_campaign_ids_are_bad_requests()
    ensures
        invalid_campaign().status == 400,
        invalid_campaign().body.field_text("error"@) == Some("invalid campaign id"@),
{
}

/// A status of the two hundreds is passed on as 200, any other that HTTP knows as it is, and one that it
/// does not know as a bad upstream.
pub proof fn law_statuses_are_passed_on(status: u16)
    ensures
        200 <= status <= 299 ==> passed_status(status) == 200,
        (100 <= status <= 199) || (300 <= status <= 999) ==> passed_status(status) == status,
        status < 100 || status > 999 ==> passed_status(status) == 502,
{
}

/// What the engine said is passed on whole, under its status; an engine that was not reached is told by
/// where it was looked for, the trouble, and what can be done about it.
pub proof fn law_engine_answers_are_passed_on(
    url: Seq<char>,
    status: u16,
    bytes: Vec<u8>,
    error: String,
)
    ensures
        ({
            let reply = proxied_view(url, Exchange::Reply { status: status, body: Some(bytes) });
            reply.status == passed_status(status) && reply.body == body_tree(bytes@)
        }),
        ({
            let reply = proxied_view(url, Exchange::Reply { status: status, body: None });
            reply.status == passed_status(status) && reply.body == body_tree(Seq::<u8>::empty())
        }),
        ({
            let reply = proxied_view(url, Exchange::Unreachable { error: error });
            &&& reply.status == 502
            &&& forall|name: Seq<char>| #[trigger]
                reply.body.field(name) == (if name == "error"@ {
                    Some(
                        JsonTree::Text(
                            "research sidecar not reachable at "@ + url + ": "@ + error@
                                + ". Install it from the Store (or run `python -m ryu_research`) first."@,
                        ),
                    )
                } else {
                    None
                })
        }),
{
}

/// The event of a created workspace is named after this plugin.
pub proof fn law_events_are_named_after_the_plugin()
    ensures
        PLUGIN_ID@ == "@ryu/research"@,
        EV_WORKSPACE_CREATED@ == "@ryu/research"@ + "#workspace.created"@,
{
    reveal_strlit("@ryu/research");
    reveal_strlit("#workspace.created");
    reveal_strlit("@ryu/research#workspace.created");
    assert("@ryu/research"@ + "#workspace.created"@ =~= "@ryu/research#workspace.created"@);
}

/// A plan that wakes and forwards does both: it wakes the engine, and what it forwards is the request.
pub proof fn law_forwarded_requests_are_the_routes_own(plan: Plan, call: CallView, reply: ApiReply)
    ensures
        wakes_and_forwards(plan, call) ==> plan.wake && (plan.next matches Next::Forward(forwarded)
            && forwarded@ == call),
        reply@.status == reply.status,
        reply@.body == reply.body.tree(),
{
}

/// A value is passed on as it is, whatever its status becomes, and success stays success alone.
pub proof fn law_values_are_passed_on_as_they_are(status: u16, value: JsonTree)
    ensures
        passed_view(status, value).body == value,
        passed_view(status, value).status == 200 <==> 200 <= status <= 299,
{
}

} // verus!
