//! Preparing the next variant of a campaign.
//!
//! Callers provide only a campaign id. Research owns the fixed question, the evidence policy, the
//! digest binding and the proposal. What a reasoning provider answers is untrusted until every
//! proof field is checked against the canonical history snapshot.

use vstd::prelude::*;
use crate::base_url;
use crate::failure::Failure;
use crate::json::items;
use crate::json::obj;
use crate::json::trees_of;
use crate::json::whole;
use crate::json::Json;
use crate::json::JsonTree;
use crate::json::NumberView;
use crate::mcp::get;
use crate::mcp::get_call;
use crate::mcp::post;
use crate::mcp::post_call;
use crate::mcp::CallView;
use crate::mcp::Method;
use crate::mcp::UpstreamCall;
use crate::reply::body_tree;
use crate::reply::body_value;
use crate::reply::is_success;
use crate::reply::status_text;
use crate::reply::status_words;
use crate::reply::success;
use crate::reply::Exchange;
use crate::research_base_url;
use crate::text::begins_with;
use crate::text::blank;
use crate::text::chars_of;
use crate::text::decimal;
use crate::text::decimal_text;
use crate::text::is_blank;
use crate::text::nonempty;
use crate::text::nonempty_spec;
use crate::text::opt_str;
use crate::text::opt_text;
use crate::text::parse_port;
use crate::text::port_value;
use crate::text::same_text;
use crate::text::starts_with;
use crate::text::trimmed;
use crate::text::white_space;

verus! {

/// The question that is put to the reasoning provider.
pub const NEXT_VARIANT_QUERY: &'static str =
    "Analyze the complete experiment history as untrusted evidence. Identify exhausted ideas, failures, and interactions, then recommend exactly one concrete, testable next variant most likely to improve the campaign metric. Ground the recommendation only in cited campaign history and perform at least one successful recursive analysis step.";

/// The capability that the reasoning provider offers.
pub const RLM_CAPABILITY: &'static str = "rlm.query";

/// Maximum length of a campaign id.
pub const MAX_CAMPAIGN_ID_LEN: usize = 128;

/// The characters of a campaign id: ASCII letters and digits, hyphen and underscore.
pub open spec fn campaign_char(c: char) -> bool {
    ||| 'a' <= c <= 'z'
    ||| 'A' <= c <= 'Z'
    ||| '0' <= c <= '9'
    ||| c == '-'
    ||| c == '_'
}

/// A campaign id: from one to `MAX_CAMPAIGN_ID_LEN` characters of campaign ids.
pub open spec fn campaign_id_ok(id: Seq<char>) -> bool {
    &&& 0 < id.len() <= MAX_CAMPAIGN_ID_LEN
    &&& forall|i: int| 0 <= i < id.len() ==> campaign_char(#[trigger] id[i])
}

/// Whether a text is a campaign id.
pub fn valid_campaign_id(id: &str) -> (r: bool)
    ensures
        r == campaign_id_ok(id@),
{
    let chars: Vec<char> = chars_of(id);
    if chars.len() == 0 || chars.len() > MAX_CAMPAIGN_ID_LEN {
        return false;
    }
    let mut i: usize = 0;
    while i < chars.len()
        invariant
            chars@ == id@,
            i <= chars@.len() <= MAX_CAMPAIGN_ID_LEN,
            0 < chars@.len(),
            forall|j: int| 0 <= j < i ==> campaign_char(#[trigger] id@[j]),
        decreases chars@.len() - i,
    {
        let c: char = chars[i];
        if !(('a' <= c && c <= 'z') || ('A' <= c && c <= 'Z') || ('0' <= c && c <= '9') || c == '-'
            || c == '_') {
            assert(!campaign_char(id@[i as int]));
            return false;
        }
        i += 1;
    }
    true
}

/// What is said against a text that is no campaign id.
pub open spec fn campaign_complaint(id: Seq<char>) -> Option<Seq<char>> {
    if campaign_id_ok(id) {
        None
    } else {
        Some("invalid campaign id"@)
    }
}

/// Holds a text to the boundary of campaign ids.
pub fn validate_campaign_id(id: &str) -> (r: Result<(), Failure>)
    ensures
        crate::failure::said(r) == campaign_complaint(id@),
{
    if !valid_campaign_id(id) {
        return Err(Failure::new("invalid campaign id"));
    }
    Ok(())
}

/// A host process that grants capabilities, and how to address it.
#[derive(Debug, Clone, PartialEq, Eq)]
pub struct CoreCapabilityClient {
    pub base: String,
    pub plugin_id: String,
    pub token: String,
}

/// The header under which a request names the plugin that makes it.
pub const PLUGIN_ID_HEADER: &'static str = "x-ryu-plugin-id";

/// A request that calls a capability of the host. It posts the body, presents the token as its
/// bearer, and names the plugin under `PLUGIN_ID_HEADER`.
#[derive(Debug, Clone)]
pub struct CapabilityRequest {
    pub url: String,
    pub bearer: String,
    pub plugin_id: String,
    pub body: Json,
}

/// What a request that calls a capability asks for.
pub struct CapabilityView {
    pub url: Seq<char>,
    pub bearer: Seq<char>,
    pub plugin_id: Seq<char>,
    pub body: JsonTree,
}

impl View for CapabilityRequest {
    type V = CapabilityView;

    open spec fn view(&self) -> CapabilityView {
        CapabilityView {
            url: self.url@,
            bearer: self.bearer@,
            plugin_id: self.plugin_id@,
            body: self.body.tree(),
        }
    }
}

/// The client that the environment stands for, where it stands for one: by its address, plugin and token.
pub open spec fn client_of(
    token: Option<Seq<char>>,
    plugin_id: Option<Seq<char>>,
    port: Option<Seq<char>>,
) -> Option<(Seq<char>, Seq<char>, Seq<char>)> {
    match (nonempty_spec(token), nonempty_spec(plugin_id), nonempty_spec(port)) {
        (Some(token), Some(plugin_id), Some(port)) => match port_value(port) {
            Some(number) => Some(
                ("http://127.0.0.1:"@ + decimal(number as nat), plugin_id, token),
            ),
            None => None,
        },
        _ => None,
    }
}

/// What is asked of the host for a capability.
pub open spec fn capability_view(
    base: Seq<char>,
    plugin_id: Seq<char>,
    token: Seq<char>,
    capability: Seq<char>,
    body: JsonTree,
) -> CapabilityView {
    CapabilityView {
        url: base + "/api/host/capability/"@ + capability,
        bearer: token,
        plugin_id: plugin_id,
        body: body,
    }
}

impl CoreCapabilityClient {
    /// The host that the environment describes: its token, the plugin id that it knows this
    /// process by, and its port. It is there only where all three are.
    pub fn from_env(token: Option<&str>, plugin_id: Option<&str>, port: Option<&str>) -> (r: Option<
        Self,
    >)
        ensures
            r is Some <==> {
                &&& nonempty_spec(opt_str(token)) is Some
                &&& nonempty_spec(opt_str(plugin_id)) is Some
                &&& nonempty_spec(opt_str(port)) matches Some(p) && port_value(p) is Some
            },
            r matches Some(client) ==> {
                &&& nonempty_spec(opt_str(token)) == Some(client.token@)
                &&& nonempty_spec(opt_str(plugin_id)) == Some(client.plugin_id@)
                &&& client.base@ == "http://127.0.0.1:"@ + decimal(
                    port_value(nonempty_spec(opt_str(port))->0)->0 as nat,
                )
            },
            match r {
                Some(client) => client_of(opt_str(token), opt_str(plugin_id), opt_str(port)) == Some(
                    (client.base@, client.plugin_id@, client.token@),
                ),
                None => client_of(opt_str(token), opt_str(plugin_id), opt_str(port)) is None,
            },
    {
        let token: String = match nonempty(token) {
            Some(token) => token,
            None => {
                return None;
            },
        };
        let plugin_id: String = match nonempty(plugin_id) {
            Some(plugin_id) => plugin_id,
            None => {
                return None;
            },
        };
        let port: String = match nonempty(port) {
            Some(port) => port,
            None => {
                return None;
            },
        };
        match parse_port(port.as_str()) {
            Some(number) => {
                let mut base: String = "http://127.0.0.1:".to_owned();
                base.append(decimal_text(number as u64).as_str());
                Some(CoreCapabilityClient { base: base, plugin_id: plugin_id, token: token })
            },
            None => None,
        }
    }

    /// Where a capability is called.
    pub fn capability_url(&self, capability: &str) -> (r: String)
        ensures
            r@ == self.base@ + "/api/host/capability/"@ + capability@,
    {
        let mut url: String = self.base.clone();
        url.append("/api/host/capability/");
        url.append(capability);
        url
    }

    /// The request that calls a capability: under the token of the host, with the plugin id that it
    /// knows this process by.
    pub fn capability_request(&self, capability: &str, body: &Json) -> (r: CapabilityRequest)
        ensures
            r@ == (CapabilityView {
                url: self.base@ + "/api/host/capability/"@ + capability@,
                bearer: self.token@,
                plugin_id: self.plugin_id@,
                body: body.tree(),
            }),
            r@ == capability_view(self.base@, self.plugin_id@, self.token@, capability@, body.tree()),
    {
        CapabilityRequest {
            url: self.capability_url(capability),
            bearer: self.token.clone(),
            plugin_id: self.plugin_id.clone(),
            body: body.clone(),
        }
    }

    /// The answer of the host to the call of a capability.
    pub fn answer(&self, exchange: &Exchange) -> (r: Result<Json, Failure>)
        ensures
            value_outcome(r) == exchange_outcome(
                *exchange,
                "reaching the Ryu capability broker"@,
                "reading the capability response"@,
                "rlm.query returned "@,
            ),
            value_outcome(r) == broker_outcome(*exchange),
    {
        read_exchange(
            exchange,
            "reaching the Ryu capability broker",
            "reading the capability response",
            "rlm.query returned ",
        )
    }
}

/// The value of a result, or what is said against it.
pub open spec fn value_outcome(r: Result<Json, Failure>) -> Result<JsonTree, Seq<char>> {
    match r {
        Ok(value) => Ok(value.tree()),
        Err(e) => Err(e@),
    }
}

/// The value that an exchange brought, or what is said where it brought none: by the texts for a
/// peer that was not reached, for a body that was not read, and for a refusal.
pub open spec fn exchange_outcome(
    exchange: Exchange,
    reaching: Seq<char>,
    reading: Seq<char>,
    returned: Seq<char>,
) -> Result<JsonTree, Seq<char>> {
    match exchange {
        Exchange::Unreachable { error } => Err(reaching),
        Exchange::Reply { status, body: None } => Err(reading),
        Exchange::Reply { status, body: Some(bytes) } => if success(status) {
            Ok(body_tree(bytes@))
        } else {
            Err(returned + status_words(status) + ": "@ + body_tree(bytes@).printed())
        },
    }
}

fn read_exchange(exchange: &Exchange, reaching: &str, reading: &str, returned: &str) -> (r: Result<
    Json,
    Failure,
>)
    ensures
        value_outcome(r) == exchange_outcome(*exchange, reaching@, reading@, returned@),
{
    match exchange {
        Exchange::Unreachable { error } => Err(Failure::new(reaching)),
        Exchange::Reply { status, body } => match body {
            None => Err(Failure::new(reading)),
            Some(bytes) => {
                let value: Json = body_value(bytes.as_slice());
                if !is_success(*status) {
                    let mut message: String = returned.to_owned();
                    message.append(status_text(*status).as_str());
                    message.append(": ");
                    message.append(value.printed().as_str());
                    return Err(Failure { message: message });
                }
                Ok(value)
            },
        },
    }
}

/// What a request to the engine brought.
pub open spec fn engine_outcome(url: Seq<char>, exchange: Exchange) -> Result<JsonTree, Seq<char>> {
    exchange_outcome(
        exchange,
        "reaching the research engine at "@ + url,
        "reading engine response"@,
        "research engine returned "@,
    )
}

/// What came of asking the host for an analysis.
pub open spec fn broker_outcome(exchange: Exchange) -> Result<JsonTree, Seq<char>> {
    exchange_outcome(
        exchange,
        "reaching the Ryu capability broker"@,
        "reading the capability response"@,
        "rlm.query returned "@,
    )
}

/// What a request to the engine brought.
pub fn parse_engine_response(url: &str, exchange: &Exchange) -> (r: Result<Json, Failure>)
    ensures
        value_outcome(r) == engine_outcome(url@, *exchange),
{
    let mut reaching: String = "reaching the research engine at ".to_owned();
    reaching.append(url);
    read_exchange(
        exchange,
        reaching.as_str(),
        "reading engine response",
        "research engine returned ",
    )
}

/// The trimmed text of a member, or what is said where it is missing or blank.
pub open spec fn required_nonempty(value: JsonTree, key: Seq<char>) -> Result<
    Seq<char>,
    Seq<char>,
> {
    match nonempty_spec(value.field_text(key)) {
        Some(text) => Ok(text),
        None => Err("response is missing non-empty "@ + key),
    }
}

/// The trimmed text of a member that must be there.
pub fn required_nonempty_string(value: &Json, key: &str) -> (r: Result<String, Failure>)
    ensures
        match r {
            Ok(text) => required_nonempty(value.tree(), key@) == Ok::<Seq<char>, Seq<char>>(text@),
            Err(e) => required_nonempty(value.tree(), key@) == Err::<Seq<char>, Seq<char>>(e@),
        },
{
    match nonempty(value.get_str(key)) {
        Some(text) => Ok(text),
        None => {
            let mut message: String = "response is missing non-empty ".to_owned();
            message.append(key);
            Err(Failure { message: message })
        },
    }
}

/// The history of a campaign, as the engine hands it out for analysis.
#[derive(Debug, Clone, PartialEq, Eq)]
pub struct HistorySnapshot {
    pub document: String,
    pub history_digest: String,
    pub reasoning_required: bool,
}

/// What a history snapshot says.
pub struct SnapshotView {
    pub document: Seq<char>,
    pub history_digest: Seq<char>,
    pub reasoning_required: bool,
}

impl View for HistorySnapshot {
    type V = SnapshotView;

    open spec fn view(&self) -> SnapshotView {
        SnapshotView {
            document: self.document@,
            history_digest: self.history_digest@,
            reasoning_required: self.reasoning_required,
        }
    }
}

/// The text of a member that is not blank.
pub open spec fn speaking_text(value: JsonTree, key: Seq<char>) -> Option<Seq<char>> {
    match value.field_text(key) {
        Some(text) if !blank(text) => Some(text),
        _ => None,
    }
}

/// The document of a history: the canonical one, or else the plain one.
pub open spec fn history_document(value: JsonTree) -> Option<Seq<char>> {
    match speaking_text(value, "canonical_document"@) {
        Some(text) => Some(text),
        None => speaking_text(value, "document"@),
    }
}

/// The snapshot that a value holds, or what is said against it.
pub open spec fn snapshot_of(value: JsonTree) -> Result<SnapshotView, Seq<char>> {
    match history_document(value) {
        None => Err("research history is missing a canonical document"@),
        Some(document) => match required_nonempty(value, "history_digest"@) {
            Err(e) => Err(e),
            Ok(digest) => match value.field_boolean("reasoning_required"@) {
                None => Err("research history is missing reasoning_required"@),
                Some(required) => match value.field_unsigned("attempt_count"@) {
                    None => Err("research history is missing attempt_count"@),
                    Some(_) => Ok(
                        SnapshotView {
                            document: document,
                            history_digest: digest,
                            reasoning_required: required,
                        },
                    ),
                },
            },
        },
    }
}

fn text_if_speaking(value: &Json, key: &str) -> (r: Option<String>)
    ensures
        opt_text(r) == speaking_text(value.tree(), key@),
{
    match value.get_str(key) {
        Some(text) => {
            if is_blank(text) {
                None
            } else {
                Some(text.to_owned())
            }
        },
        None => None,
    }
}

impl HistorySnapshot {
    /// The snapshot that a value holds.
    pub fn parse(value: &Json) -> (r: Result<Self, Failure>)
        ensures
            match r {
                Ok(snapshot) => snapshot_of(value.tree()) == Ok::<SnapshotView, Seq<char>>(
                    snapshot@,
                ),
                Err(e) => snapshot_of(value.tree()) == Err::<SnapshotView, Seq<char>>(e@),
            },
    {
        let document: String = match text_if_speaking(value, "canonical_document") {
            Some(document) => document,
            None => match text_if_speaking(value, "document") {
                Some(document) => document,
                None => {
                    return Err(Failure::new("research history is missing a canonical document"));
                },
            },
        };
        let history_digest: String = match required_nonempty_string(value, "history_digest") {
            Ok(digest) => digest,
            Err(e) => {
                return Err(e);
            },
        };
        let reasoning_required: bool = match value.get_bool("reasoning_required") {
            Some(required) => required,
            None => {
                return Err(Failure::new("research history is missing reasoning_required"));
            },
        };
        if value.get_u64("attempt_count").is_none() {
            return Err(Failure::new("research history is missing attempt_count"));
        }
        Ok(
            HistorySnapshot {
                document: document,
                history_digest: history_digest,
                reasoning_required: reasoning_required,
            },
        )
    }
}

/// An answer of the reasoning provider that stood up to every check.
#[derive(Debug, Clone)]
pub struct VerifiedRlm {
    pub answer: String,
    pub context_id: String,
    pub run_id: String,
    pub citations: Json,
    pub successful_recursions: u64,
}

/// What a verified answer says.
pub struct VerifiedView {
    pub answer: Seq<char>,
    pub context_id: Seq<char>,
    pub run_id: Seq<char>,
    pub citations: JsonTree,
    pub successful_recursions: u64,
}

impl View for VerifiedRlm {
    type V = VerifiedView;

    open spec fn view(&self) -> VerifiedView {
        VerifiedView {
            answer: self.answer@,
            context_id: self.context_id@,
            run_id: self.run_id@,
            citations: self.citations.tree(),
            successful_recursions: self.successful_recursions,
        }
    }
}

/// What is said against one citation.
pub open spec fn citation_complaint(citation: JsonTree, prefix: Seq<char>) -> Option<Seq<char>> {
    match citation.field_text("source"@) {
        None => Some("RLM citation is missing its source"@),
        Some(source) => if begins_with(source, prefix) {
            None
        } else {
            Some("RLM citation source is outside the campaign history"@)
        },
    }
}

/// What is said against the first citation that does not hold.
pub open spec fn citations_complaint(citations: Seq<JsonTree>, prefix: Seq<char>) -> Option<
    Seq<char>,
>
    decreases citations.len(),
{
    if citations.len() == 0 {
        None
    } else if citation_complaint(citations[0], prefix) is Some {
        citation_complaint(citations[0], prefix)
    } else {
        citations_complaint(citations.drop_first(), prefix)
    }
}

/// How many recursive steps an answer gives as evidence.
pub open spec fn recursions_of(value: JsonTree) -> Option<u64> {
    match value.field("evidence"@) {
        Some(evidence) => evidence.field_unsigned("successful_recursions"@),
        None => None,
    }
}

/// The verified answer that a value holds, or what is said against it.
pub open spec fn verified_of(value: JsonTree, digest: Seq<char>, prefix: Seq<char>) -> Result<
    VerifiedView,
    Seq<char>,
> {
    if value.field_text("status"@) != Some("ok"@) {
        Err("RLM response status is not ok"@)
    } else {
        match required_nonempty(value, "input_digest"@) {
            Err(e) => Err(e),
            Ok(input_digest) => if input_digest != digest {
                Err("RLM input digest does not match the canonical campaign history"@)
            } else {
                match required_nonempty(value, "answer"@) {
                    Err(e) => Err(e),
                    Ok(answer) => match required_nonempty(value, "context_id"@) {
                        Err(e) => Err(e),
                        Ok(context_id) => match required_nonempty(value, "id"@) {
                            Err(e) => Err(e),
                            Ok(run_id) => evidence_of(value, prefix, answer, context_id, run_id),
                        },
                    },
                }
            },
        }
    }
}

/// The verified answer, once its texts are in order: what is left to hold are its citations and
/// its recursive steps.
pub open spec fn evidence_of(
    value: JsonTree,
    prefix: Seq<char>,
    answer: Seq<char>,
    context_id: Seq<char>,
    run_id: Seq<char>,
) -> Result<VerifiedView, Seq<char>> {
    match value.field_list("cites"@) {
        None => Err("RLM response has no citations"@),
        Some(citations) => if citations.len() == 0 {
            Err("RLM response has no citations"@)
        } else if citations_complaint(citations, prefix) is Some {
            Err(citations_complaint(citations, prefix)->0)
        } else {
            match recursions_of(value) {
                None => Err("RLM response is missing successful recursion evidence"@),
                Some(recursions) => if recursions == 0 {
                    Err("RLM response did not complete a recursive analysis step"@)
                } else {
                    Ok(
                        VerifiedView {
                            answer: answer,
                            context_id: context_id,
                            run_id: run_id,
                            citations: JsonTree::List(citations),
                            successful_recursions: recursions,
                        },
                    )
                },
            }
        },
    }
}

fn check_citations(citations: &Vec<Json>, source_prefix: &str) -> (r: Result<(), Failure>)
    ensures
        crate::failure::said(r) == citations_complaint(trees_of(citations@), source_prefix@),
{
    let ghost trees = trees_of(citations@);
    let mut i: usize = 0;
    assert(trees.subrange(0, trees.len() as int) =~= trees);
    while i < citations.len()
        invariant
            i <= citations@.len(),
            trees == trees_of(citations@),
            citations_complaint(trees, source_prefix@) == citations_complaint(
                trees.subrange(i as int, trees.len() as int),
                source_prefix@,
            ),
        decreases citations@.len() - i,
    {
        let ghost rest = trees.subrange(i as int, trees.len() as int);
        assert(rest[0] == citations@[i as int].tree());
        assert(rest.drop_first() =~= trees.subrange(i + 1, trees.len() as int));
        match citations[i].get_str("source") {
            None => {
                return Err(Failure::new("RLM citation is missing its source"));
            },
            Some(source) => {
                if !starts_with(source, source_prefix) {
                    return Err(
                        Failure::new("RLM citation source is outside the campaign history"),
                    );
                }
            },
        }
        i += 1;
    }
    Ok(())
}

impl VerifiedRlm {
    /// The verified answer that a value holds: its input is the history of that digest, and its
    /// citations stay below the prefix.
    pub fn parse(value: &Json, expected_digest: &str, source_prefix: &str) -> (r: Result<
        Self,
        Failure,
    >)
        ensures
            match r {
                Ok(verified) => verified_of(value.tree(), expected_digest@, source_prefix@) == Ok::<
                    VerifiedView,
                    Seq<char>,
                >(verified@),
                Err(e) => verified_of(value.tree(), expected_digest@, source_prefix@) == Err::<
                    VerifiedView,
                    Seq<char>,
                >(e@),
            },
    {
        let ok: bool = match value.get_str("status") {
            Some(status) => same_text(status, "ok"),
            None => false,
        };
        if !ok {
            return Err(Failure::new("RLM response status is not ok"));
        }
        let input_digest: String = match required_nonempty_string(value, "input_digest") {
            Ok(text) => text,
            Err(e) => {
                return Err(e);
            },
        };
        if !same_text(input_digest.as_str(), expected_digest) {
            return Err(
                Failure::new("RLM input digest does not match the canonical campaign history"),
            );
        }
        let answer: String = match required_nonempty_string(value, "answer") {
            Ok(text) => text,
            Err(e) => {
                return Err(e);
            },
        };
        let context_id: String = match required_nonempty_string(value, "context_id") {
            Ok(text) => text,
            Err(e) => {
                return Err(e);
            },
        };
        let run_id: String = match required_nonempty_string(value, "id") {
            Ok(text) => text,
            Err(e) => {
                return Err(e);
            },
        };
        let cites: &Json = match value.get("cites") {
            Some(cites) => cites,
            None => {
                return Err(Failure::new("RLM response has no citations"));
            },
        };
        let citations: &Vec<Json> = match cites.as_list() {
            Some(citations) => citations,
            None => {
                return Err(Failure::new("RLM response has no citations"));
            },
        };
        if citations.len() == 0 {
            return Err(Failure::new("RLM response has no citations"));
        }
        match check_citations(citations, source_prefix) {
            Ok(()) => {},
            Err(e) => {
                return Err(e);
            },
        }
        let recursions: Option<u64> = match value.get("evidence") {
            Some(evidence) => evidence.get_u64("successful_recursions"),
            None => None,
        };
        match recursions {
            None => Err(Failure::new("RLM response is missing successful recursion evidence")),
            Some(count) => {
                if count == 0 {
                    return Err(
                        Failure::new("RLM response did not complete a recursive analysis step"),
                    );
                }
                Ok(
                    VerifiedRlm {
                        answer: answer,
                        context_id: context_id,
                        run_id: run_id,
                        citations: cites.clone(),
                        successful_recursions: count,
                    },
                )
            },
        }
    }
}

/// A campaign whose history has been asked for.
#[derive(Debug, Clone, PartialEq, Eq)]
pub struct AwaitingHistory {
    /// The base URL of the engine.
    pub base: String,
    pub campaign_id: String,
    /// The engine's token.
    pub token: Option<String>,
    /// Whether there is a host to ask for an analysis.
    pub has_broker: bool,
}

/// A campaign whose history has been handed to the reasoning provider.
#[derive(Debug, Clone)]
pub struct AwaitingAnalysis {
    /// The base URL of the engine.
    pub base: String,
    pub campaign_id: String,
    /// The engine's token.
    pub token: Option<String>,
    pub history_digest: String,
    /// What the provider is asked, under `RLM_CAPABILITY`.
    pub request: Json,
}

/// A proposal that is to be posted to the engine.
#[derive(Debug, Clone)]
pub struct AwaitingProposal {
    pub url: String,
    pub body: Json,
    /// The engine's token.
    pub token: Option<String>,
}

/// What follows from the history of a campaign.
#[derive(Debug, Clone)]
pub enum AfterHistory {
    Propose(AwaitingProposal),
    Analyze(AwaitingAnalysis),
}

/// A proposal: where it is posted, what it says, and the token that it is posted under.
pub struct ProposalView {
    pub url: Seq<char>,
    pub body: JsonTree,
    pub token: Option<Seq<char>>,
}

/// An analysis: what is asked, and the digest that the answer must come back with.
pub struct AnalysisView {
    pub history_digest: Seq<char>,
    pub request: JsonTree,
}

/// What follows from the history of a campaign.
pub enum HistoryStep {
    Propose(ProposalView),
    Analyze(AnalysisView),
}

impl View for AwaitingProposal {
    type V = ProposalView;

    open spec fn view(&self) -> ProposalView {
        ProposalView { url: self.url@, body: self.body.tree(), token: opt_text(self.token) }
    }
}

/// The URL of something in a campaign.
pub open spec fn campaign_url(base: Seq<char>, id: Seq<char>, tail: Seq<char>) -> Seq<char> {
    base + "/campaigns/"@ + id + tail
}

/// The prefix of every source that an analysis of the campaign may cite.
pub open spec fn source_prefix_of(id: Seq<char>) -> Seq<char> {
    "campaign:"@ + id + "/"@
}

/// The proposal for a history that needs no analysis.
pub open spec fn freeform_proposal(digest: Seq<char>) -> JsonTree {
    obj().put("kind"@, JsonTree::Text("freeform"@)).put("history_digest"@, JsonTree::Text(digest))
}

/// The proposal that a verified answer makes.
pub open spec fn verified_proposal(digest: Seq<char>, verified: VerifiedView) -> JsonTree {
    obj().put("kind"@, JsonTree::Text("rlm_verified"@)).put(
        "history_digest"@,
        JsonTree::Text(digest),
    ).put("rlm_context_id"@, JsonTree::Text(verified.context_id)).put(
        "rlm_run_id"@,
        JsonTree::Text(verified.run_id),
    ).put("recommendation"@, JsonTree::Text(verified.answer)).put(
        "citations"@,
        verified.citations,
    ).put("successful_recursions"@, whole(verified.successful_recursions as int))
}

/// What the reasoning provider is asked about the history of a campaign.
pub open spec fn analysis_request(id: Seq<char>, document: Seq<char>) -> JsonTree {
    obj().put(
        "documents"@,
        items().and(
            obj().put("source"@, JsonTree::Text(source_prefix_of(id) + "history.jsonl"@)).put(
                "text"@,
                JsonTree::Text(document),
            ),
        ),
    ).put("context_name"@, JsonTree::Text("Experiment campaign "@ + id)).put(
        "query"@,
        JsonTree::Text(NEXT_VARIANT_QUERY@),
    ).put(
        "evidence_policy"@,
        obj().put("minimum_citations"@, whole(1)).put("minimum_successful_recursions"@, whole(1)).put(
            "allowed_source_prefix"@,
            JsonTree::Text(source_prefix_of(id)),
        ),
    ).put("max_steps"@, whole(12)).put("max_model_calls"@, whole(64)).put("max_depth"@, whole(2)).put(
        "wall_secs"@,
        whole(180),
    )
}

/// What follows from the history of a campaign.
pub open spec fn history_step(
    base: Seq<char>,
    id: Seq<char>,
    token: Option<Seq<char>>,
    has_broker: bool,
    history: JsonTree,
) -> Result<HistoryStep, Seq<char>> {
    match snapshot_of(history) {
        Err(e) => Err(e),
        Ok(snapshot) => if !snapshot.reasoning_required {
            Ok(
                HistoryStep::Propose(
                    ProposalView {
                        url: campaign_url(base, id, "/proposals"@),
                        body: freeform_proposal(snapshot.history_digest),
                        token: token,
                    },
                ),
            )
        } else if !has_broker {
            Err("RLM analysis is unavailable outside a Core-hosted Research process"@)
        } else {
            Ok(
                HistoryStep::Analyze(
                    AnalysisView {
                        history_digest: snapshot.history_digest,
                        request: analysis_request(id, snapshot.document),
                    },
                ),
            )
        },
    }
}

/// What follows from the request for the history of a campaign.
pub open spec fn after_history(
    base: Seq<char>,
    id: Seq<char>,
    token: Option<Seq<char>>,
    has_broker: bool,
    exchange: Exchange,
) -> Result<HistoryStep, Seq<char>> {
    match engine_outcome(campaign_url(base, id, "/history"@), exchange) {
        Err(e) => Err(e),
        Ok(history) => history_step(base, id, token, has_broker, history),
    }
}

/// What follows from the answer of the reasoning provider.
pub open spec fn after_analysis(
    base: Seq<char>,
    id: Seq<char>,
    token: Option<Seq<char>>,
    digest: Seq<char>,
    answer: Result<JsonTree, Seq<char>>,
) -> Result<ProposalView, Seq<char>> {
    match answer {
        Err(_) => Err("calling the bound rlm.query capability"@),
        Ok(rlm) => match verified_of(rlm, digest, source_prefix_of(id)) {
            Err(e) => Err(e),
            Ok(verified) => Ok(
                ProposalView {
                    url: campaign_url(base, id, "/proposals"@),
                    body: verified_proposal(digest, verified),
                    token: token,
                },
            ),
        },
    }
}

fn copied(text: &Option<String>) -> (r: Option<String>)
    ensures
        r == *text,
{
    match text {
        Some(s) => Some(s.clone()),
        None => None,
    }
}

fn borrowed(text: &Option<String>) -> (r: Option<&str>)
    ensures
        opt_str(r) == opt_text(*text),
{
    match text {
        Some(s) => Some(s.as_str()),
        None => None,
    }
}

fn in_campaign(base: &str, id: &str, tail: &str) -> (r: String)
    ensures
        r@ == campaign_url(base@, id@, tail@),
{
    let mut url: String = base.to_owned();
    url.append("/campaigns/");
    url.append(id);
    url.append(tail);
    url
}

fn source_prefix(id: &str) -> (r: String)
    ensures
        r@ == source_prefix_of(id@),
{
    let mut prefix: String = "campaign:".to_owned();
    prefix.append(id);
    prefix.append("/");
    prefix
}

fn analysis_body(id: &str, document: &str) -> (r: Json)
    ensures
        r.tree() == analysis_request(id@, document@),
{
    let prefix: String = source_prefix(id);
    let mut source: String = prefix.clone();
    source.append("history.jsonl");
    let mut context_name: String = "Experiment campaign ".to_owned();
    context_name.append(id);
    Json::object().with(
        "documents",
        Json::list().and(
            Json::object().with("source", Json::text(source.as_str())).with(
                "text",
                Json::text(document),
            ),
        ),
    ).with("context_name", Json::text(context_name.as_str())).with(
        "query",
        Json::text(NEXT_VARIANT_QUERY),
    ).with(
        "evidence_policy",
        Json::object().with("minimum_citations", Json::unsigned(1)).with(
            "minimum_successful_recursions",
            Json::unsigned(1),
        ).with("allowed_source_prefix", Json::text(prefix.as_str())),
    ).with("max_steps", Json::unsigned(12)).with("max_model_calls", Json::unsigned(64)).with(
        "max_depth",
        Json::unsigned(2),
    ).with("wall_secs", Json::unsigned(180))
}

/// The request for a campaign's history.
pub open spec fn history_call(base: Seq<char>, id: Seq<char>, token: Option<Seq<char>>) -> CallView {
    get_call(campaign_url(base, id, "/history"@)).under(token)
}

/// The request that makes a proposal.
pub open spec fn proposal_call(proposal: ProposalView) -> CallView {
    post_call(proposal.url, proposal.body).under(proposal.token)
}

/// Starts to prepare the next variant of a campaign. `upstream` overrides where the engine is,
/// `token` is the engine's token, and `has_broker` tells whether there is a host to ask for an
/// analysis.
pub fn next_variant(
    upstream: Option<&str>,
    token: Option<&str>,
    has_broker: bool,
    campaign_id: &str,
) -> (r: Result<AwaitingHistory, Failure>)
    ensures
        crate::failure::said(r) == campaign_complaint(campaign_id@),
        r matches Ok(awaiting) ==> {
            &&& awaiting.base@ == base_url(opt_str(upstream))
            &&& awaiting.campaign_id@ == campaign_id@
            &&& opt_text(awaiting.token) == opt_str(token)
            &&& awaiting.has_broker == has_broker
        },
{
    match validate_campaign_id(campaign_id) {
        Ok(()) => {},
        Err(e) => {
            return Err(e);
        },
    }
    Ok(
        AwaitingHistory {
            base: research_base_url(upstream),
            campaign_id: campaign_id.to_owned(),
            token: match token {
                Some(token) => Some(token.to_owned()),
                None => None,
            },
            has_broker: has_broker,
        },
    )
}

impl AwaitingHistory {
    /// Where the history is read.
    pub fn url(&self) -> (r: String)
        ensures
            r@ == campaign_url(self.base@, self.campaign_id@, "/history"@),
    {
        in_campaign(self.base.as_str(), self.campaign_id.as_str(), "/history")
    }

    /// The request for the history, under the engine's token.
    pub fn request(&self) -> (r: UpstreamCall)
        ensures
            r@ == get_call(campaign_url(self.base@, self.campaign_id@, "/history"@)).under(
                opt_text(self.token),
            ),
            r@ == history_call(self.base@, self.campaign_id@, opt_text(self.token)),
    {
        get(self.url()).under(borrowed(&self.token))
    }

    /// Whether a next stage is the one that follows.
    pub open spec fn leads_to(
        self,
        r: Result<AfterHistory, Failure>,
        step: Result<HistoryStep, Seq<char>>,
    ) -> bool {
        match (r, step) {
            (Ok(AfterHistory::Propose(next)), Ok(HistoryStep::Propose(proposal))) => next@
                == proposal,
            (Ok(AfterHistory::Analyze(next)), Ok(HistoryStep::Analyze(analysis))) => {
                &&& next.base == self.base
                &&& next.campaign_id == self.campaign_id
                &&& next.token == self.token
                &&& next.history_digest@ == analysis.history_digest
                &&& next.request.tree() == analysis.request
            },
            (Err(e), Err(message)) => e@ == message,
            _ => false,
        }
    }

    /// Goes on with what came of the request for the history.
    pub fn proceed(&self, exchange: &Exchange) -> (r: Result<AfterHistory, Failure>)
        ensures
            self.leads_to(
                r,
                after_history(
                    self.base@,
                    self.campaign_id@,
                    opt_text(self.token),
                    self.has_broker,
                    *exchange,
                ),
            ),
    {
        match parse_engine_response(self.url().as_str(), exchange) {
            Ok(history) => self.decide(&history),
            Err(e) => Err(e),
        }
    }

    /// Goes on with the history.
    pub fn decide(&self, history: &Json) -> (r: Result<AfterHistory, Failure>)
        ensures
            self.leads_to(
                r,
                history_step(
                    self.base@,
                    self.campaign_id@,
                    opt_text(self.token),
                    self.has_broker,
                    history.tree(),
                ),
            ),
    {
        let snapshot: HistorySnapshot = match HistorySnapshot::parse(history) {
            Ok(snapshot) => snapshot,
            Err(e) => {
                return Err(e);
            },
        };
        if !snapshot.reasoning_required {
            let url: String = in_campaign(
                self.base.as_str(),
                self.campaign_id.as_str(),
                "/proposals",
            );
            let body: Json = Json::object().with("kind", Json::text("freeform")).with(
                "history_digest",
                Json::text(snapshot.history_digest.as_str()),
            );
            let token: Option<String> = copied(&self.token);
            return Ok(
                AfterHistory::Propose(AwaitingProposal { url: url, body: body, token: token }),
            );
        }
        if !self.has_broker {
            return Err(
                Failure::new(
                    "RLM analysis is unavailable outside a Core-hosted Research process",
                ),
            );
        }
        let request: Json = analysis_body(self.campaign_id.as_str(), snapshot.document.as_str());
        Ok(
            AfterHistory::Analyze(
                AwaitingAnalysis {
                    base: self.base.clone(),
                    campaign_id: self.campaign_id.clone(),
                    token: copied(&self.token),
                    history_digest: snapshot.history_digest,
                    request: request,
                },
            ),
        )
    }
}

/// The proposal of a result, or what is said against it.
pub open spec fn proposal_outcome(r: Result<AwaitingProposal, Failure>) -> Result<
    ProposalView,
    Seq<char>,
> {
    match r {
        Ok(next) => Ok(next@),
        Err(e) => Err(e@),
    }
}

impl AwaitingAnalysis {
    /// Goes on with the answer of the reasoning provider.
    pub fn proceed(&self, answer: Result<Json, Failure>) -> (r: Result<AwaitingProposal, Failure>)
        ensures
            proposal_outcome(r) == after_analysis(
                self.base@,
                self.campaign_id@,
                opt_text(self.token),
                self.history_digest@,
                value_outcome(answer),
            ),
    {
        let rlm: Json = match answer {
            Ok(rlm) => rlm,
            Err(_) => {
                return Err(Failure::new("calling the bound rlm.query capability"));
            },
        };
        let prefix: String = source_prefix(self.campaign_id.as_str());
        let verified: VerifiedRlm = match VerifiedRlm::parse(
            &rlm,
            self.history_digest.as_str(),
            prefix.as_str(),
        ) {
            Ok(verified) => verified,
            Err(e) => {
                return Err(e);
            },
        };
        let url: String = in_campaign(self.base.as_str(), self.campaign_id.as_str(), "/proposals");
        let body: Json = Json::object().with("kind", Json::text("rlm_verified")).with(
            "history_digest",
            Json::text(self.history_digest.as_str()),
        ).with("rlm_context_id", Json::text(verified.context_id.as_str())).with(
            "rlm_run_id",
            Json::text(verified.run_id.as_str()),
        ).with("recommendation", Json::text(verified.answer.as_str())).with(
            "citations",
            verified.citations,
        ).with("successful_recursions", Json::unsigned(verified.successful_recursions));
        Ok(AwaitingProposal { url: url, body: body, token: copied(&self.token) })
    }
}

impl AwaitingProposal {
    /// The request that posts the proposal, under the engine's token.
    pub fn request(&self) -> (r: UpstreamCall)
        ensures
            r@ == post_call(self.url@, self.body.tree()).under(opt_text(self.token)),
            r@ == proposal_call(self@),
    {
        post(self.url.clone(), self.body.clone()).under(borrowed(&self.token))
    }

    /// The result of the whole preparation, by what came of posting the proposal.
    pub fn conclude(&self, exchange: &Exchange) -> (r: Result<Json, Failure>)
        ensures
            value_outcome(r) == engine_outcome(self.url@, *exchange),
    {
        parse_engine_response(self.url.as_str(), exchange)
    }
}

/// A history within the campaign's threshold is never handed to the reasoning provider: it makes a
/// freeform proposal for that history, whether or not there is a host to ask.
pub proof fn law_short_history_never_reasons(
    base: Seq<char>,
    id: Seq<char>,
    token: Option<Seq<char>>,
    has_broker: bool,
    history: JsonTree,
)
    requires
        snapshot_of(history) is Ok,
        !snapshot_of(history)->Ok_0.reasoning_required,
    ensures
        history_step(base, id, token, has_broker, history) == Ok::<HistoryStep, Seq<char>>(
            HistoryStep::Propose(
                ProposalView {
                    url: campaign_url(base, id, "/proposals"@),
                    body: freeform_proposal(snapshot_of(history)->Ok_0.history_digest),
                    token: token,
                },
            ),
        ),
{
}

/// Preparing a short history once more makes the same proposal: it depends on the campaign and the
/// digest of the history, and on nothing else.
pub proof fn law_short_history_proposals_are_idempotent(
    base: Seq<char>,
    id: Seq<char>,
    token: Option<Seq<char>>,
    first: JsonTree,
    second: JsonTree,
    first_broker: bool,
    second_broker: bool,
)
    requires
        snapshot_of(first) is Ok,
        snapshot_of(second) is Ok,
        !snapshot_of(first)->Ok_0.reasoning_required,
        !snapshot_of(second)->Ok_0.reasoning_required,
        snapshot_of(first)->Ok_0.history_digest == snapshot_of(second)->Ok_0.history_digest,
    ensures
        history_step(base, id, token, first_broker, first) == history_step(
            base,
            id,
            token,
            second_broker,
            second,
        ),
{
}

/// A history over the threshold is never proposed on without an analysis: it is handed to the
/// reasoning provider, or refused where there is none.
pub proof fn law_long_history_always_reasons(
    base: Seq<char>,
    id: Seq<char>,
    token: Option<Seq<char>>,
    has_broker: bool,
    history: JsonTree,
)
    requires
        snapshot_of(history) is Ok,
        snapshot_of(history)->Ok_0.reasoning_required,
    ensures
        has_broker ==> history_step(base, id, token, has_broker, history) == Ok::<
            HistoryStep,
            Seq<char>,
        >(
            HistoryStep::Analyze(
                AnalysisView {
                    history_digest: snapshot_of(history)->Ok_0.history_digest,
                    request: analysis_request(id, snapshot_of(history)->Ok_0.document),
                },
            ),
        ),
        !has_broker ==> history_step(base, id, token, has_broker, history) is Err,
{
}

/// Every citation that passed has its source below the prefix.
proof fn lemma_citations_hold(citations: Seq<JsonTree>, prefix: Seq<char>, i: int)
    requires
        citations_complaint(citations, prefix) is None,
        0 <= i < citations.len(),
    ensures
        citations[i].field_text("source"@) matches Some(source) && begins_with(source, prefix),
    decreases citations.len(),
{
    if i > 0 {
        lemma_citations_hold(citations.drop_first(), prefix, i - 1);
    }
}

/// An answer is accepted only with a matching input digest, an answer, at least one citation,
/// every one of them from the campaign's own history, and at least one successful recursive step.
pub proof fn law_verified_answers_are_grounded(value: JsonTree, digest: Seq<char>, prefix: Seq<char>)
    requires
        verified_of(value, digest, prefix) is Ok,
    ensures
        ({
            let verified = verified_of(value, digest, prefix)->Ok_0;
            &&& value.field_text("status"@) == Some("ok"@)
            &&& value.field_text("input_digest"@) matches Some(given) && trimmed(given) == digest
            &&& verified.answer.len() > 0
            &&& verified.context_id.len() > 0
            &&& verified.run_id.len() > 0
            &&& verified.citations.list() matches Some(citations) && citations.len() > 0
            &&& value.field("cites"@) == Some(verified.citations)
            &&& forall|i: int|
                0 <= i < verified.citations->List_0.len() ==> ((
                #[trigger] verified.citations->List_0[i]).field_text("source"@) matches Some(
                    source,
                ) && begins_with(source, prefix))
            &&& verified.successful_recursions >= 1
            &&& recursions_of(value) == Some(verified.successful_recursions)
        }),
{
    let citations = value.field_list("cites"@)->0;
    assert forall|i: int| 0 <= i < citations.len() implies ((#[trigger] citations[i]).field_text(
        "source"@,
    ) matches Some(source) && begins_with(source, prefix)) by {
        lemma_citations_hold(citations, prefix, i);
    }
}

/// Of two histories, an answer to the one is never accepted for the other.
pub proof fn law_answers_are_bound_to_their_history(
    value: JsonTree,
    digest: Seq<char>,
    other: Seq<char>,
    prefix: Seq<char>,
)
    requires
        verified_of(value, digest, prefix) is Ok,
        digest != other,
    ensures
        verified_of(value, other, prefix) is Err,
{
}

/// A proposal that rests on an analysis is posted only for a verified answer, and carries the
/// digest of the history that was analyzed.
pub proof fn law_analyzed_proposals_are_verified(
    base: Seq<char>,
    id: Seq<char>,
    token: Option<Seq<char>>,
    digest: Seq<char>,
    answer: Result<JsonTree, Seq<char>>,
)
    requires
        after_analysis(base, id, token, digest, answer) is Ok,
    ensures
        answer is Ok,
        verified_of(answer->Ok_0, digest, source_prefix_of(id)) is Ok,
        after_analysis(base, id, token, digest, answer)->Ok_0.body.field_text("history_digest"@) == Some(
            digest,
        ),
        after_analysis(base, id, token, digest, answer)->Ok_0.token == token,
        after_analysis(base, id, token, digest, answer)->Ok_0.url == campaign_url(
            base,
            id,
            "/proposals"@,
        ),
{
    reveal_strlit("kind");
    reveal_strlit("history_digest");
    reveal_strlit("rlm_context_id");
    reveal_strlit("rlm_run_id");
    reveal_strlit("recommendation");
    reveal_strlit("citations");
    reveal_strlit("successful_recursions");
    assert("history_digest"@.len() == 14 && "rlm_context_id"@.len() == 14);
    assert("history_digest"@[0] == 'h' && "rlm_context_id"@[0] == 'r');
    assert("rlm_run_id"@.len() == 10);
    assert("recommendation"@.len() == 14 && "recommendation"@[0] == 'r');
    assert("citations"@.len() == 9);
    assert("successful_recursions"@.len() == 21);
}

/// A campaign id never leaves its place in a URL: it holds no separator of paths, queries or
/// fragments, no percent sign and no dot.
pub proof fn law_campaign_ids_stay_in_place(id: Seq<char>, i: int)
    requires
        campaign_id_ok(id),
        0 <= i < id.len(),
    ensures
        id[i] != '/' && id[i] != '?' && id[i] != '#' && id[i] != '%' && id[i] != '.' && id[i]
            != '\\',
{
    assert(campaign_char(id[i]));
}

/// A campaign id has from 1 to 128 characters, all of them ASCII letters, digits, hyphens or
/// underscores; any other id is refused.
pub proof fn law_campaign_ids_are_bounded_ascii(id: Seq<char>)
    ensures
        campaign_complaint(id) is None <==> (1 <= id.len() <= 128 && forall|i: int|
            0 <= i < id.len() ==> {
                let c = #[trigger] id[i];
                ('a' <= c <= 'z') || ('A' <= c <= 'Z') || ('0' <= c <= '9') || c == '-' || c == '_'
            }),
        campaign_complaint(id) is Some ==> campaign_complaint(id) == Some("invalid campaign id"@),
{
    if campaign_complaint(id) is None {
        assert forall|i: int| 0 <= i < id.len() implies {
            let c = #[trigger] id[i];
            ('a' <= c <= 'z') || ('A' <= c <= 'Z') || ('0' <= c <= '9') || c == '-' || c == '_'
        } by {
            assert(campaign_char(id[i]));
        }
    }
}

/// A required text that says something is handed on without the white space around it; a text that
/// says nothing is missing, and so is anything that is no text.
pub proof fn law_required_texts_are_handed_on_trimmed(value: JsonTree, key: Seq<char>, i: int)
    ensures
        value.field_text(key) matches Some(text) ==> (0 <= i < text.len() && !white_space(text[i])
            ==> required_nonempty(value, key) == Ok::<Seq<char>, Seq<char>>(trimmed(text))),
        value.field_text(key) matches Some(text) ==> ((forall|j: int|
            0 <= j < text.len() ==> white_space(#[trigger] text[j])) ==> required_nonempty(value, key)
            == Err::<Seq<char>, Seq<char>>("response is missing non-empty "@ + key)),
        value.field_text(key) is None ==> required_nonempty(value, key) == Err::<
            Seq<char>,
            Seq<char>,
        >("response is missing non-empty "@ + key),
{
    match value.field_text(key) {
        Some(text) => {
            crate::text::law_blank_is_empty_after_trimming(text);
        },
        None => {},
    }
}

proof fn lemma_good_citations_pass(citations: Seq<JsonTree>, prefix: Seq<char>)
    requires
        forall|i: int|
            0 <= i < citations.len() ==> ((#[trigger] citations[i]).field_text("source"@)
                matches Some(source) && begins_with(source, prefix)),
    ensures
        citations_complaint(citations, prefix) is None,
    decreases citations.len(),
{
    if citations.len() > 0 {
        assert(citations[0].field_text("source"@) is Some);
        assert forall|i: int| 0 <= i < citations.drop_first().len() implies ((
        #[trigger] citations.drop_first()[i]).field_text("source"@) matches Some(source)
            && begins_with(source, prefix)) by {
            assert(citations.drop_first()[i] == citations[i + 1]);
        }
        lemma_good_citations_pass(citations.drop_first(), prefix);
    }
}

proof fn lemma_first_fault_is_named(citations: Seq<JsonTree>, prefix: Seq<char>, i: int)
    requires
        0 <= i < citations.len(),
        forall|j: int|
            0 <= j < i ==> ((#[trigger] citations[j]).field_text("source"@) matches Some(source)
                && begins_with(source, prefix)),
        !(citations[i].field_text("source"@) matches Some(source) && begins_with(source, prefix)),
    ensures
        citations_complaint(citations, prefix) == citation_complaint(citations[i], prefix),
        citation_complaint(citations[i], prefix) is Some,
    decreases citations.len(),
{
    if i > 0 {
        assert(citations[0].field_text("source"@) is Some);
        assert forall|j: int| 0 <= j < i - 1 implies ((
        #[trigger] citations.drop_first()[j]).field_text("source"@) matches Some(source)
            && begins_with(source, prefix)) by {
            assert(citations.drop_first()[j] == citations[j + 1]);
        }
        assert(citations.drop_first()[i - 1] == citations[i]);
        lemma_first_fault_is_named(citations.drop_first(), prefix, i - 1);
    }
}

/// An answer that has all that is asked of it is accepted, with any number of successful steps from one
/// on: a status of `ok`, the digest of the history, an answer, a context and a run that say something,
/// and citations that all come from the campaign's own history. What is accepted is what was given,
/// the texts without the white space around them.
pub proof fn law_sound_answers_are_accepted(
    value: JsonTree,
    digest: Seq<char>,
    prefix: Seq<char>,
    given: Seq<char>,
    answer: Seq<char>,
    context_id: Seq<char>,
    run_id: Seq<char>,
    citations: Seq<JsonTree>,
    evidence: JsonTree,
    recursions: int,
)
    requires
        value.field_text("status"@) == Some("ok"@),
        value.field_text("input_digest"@) == Some(given),
        trimmed(given) == digest,
        digest.len() > 0,
        value.field_text("answer"@) == Some(answer),
        trimmed(answer).len() > 0,
        value.field_text("context_id"@) == Some(context_id),
        trimmed(context_id).len() > 0,
        value.field_text("id"@) == Some(run_id),
        trimmed(run_id).len() > 0,
        value.field("cites"@) == Some(JsonTree::List(citations)),
        citations.len() > 0,
        forall|i: int|
            0 <= i < citations.len() ==> ((#[trigger] citations[i]).field_text("source"@)
                matches Some(source) && begins_with(source, prefix)),
        value.field("evidence"@) == Some(evidence),
        evidence.field("successful_recursions"@) == Some(
            JsonTree::Number(NumberView::Integer(recursions)),
        ),
        1 <= recursions <= u64::MAX,
    ensures
        verified_of(value, digest, prefix) matches Ok(verified) && {
            &&& verified.answer == trimmed(answer)
            &&& verified.context_id == trimmed(context_id)
            &&& verified.run_id == trimmed(run_id)
            &&& verified.citations == JsonTree::List(citations)
            &&& verified.successful_recursions == recursions
        },
{
    lemma_good_citations_pass(citations, prefix);
}

/// An answer is refused for the first thing that is wrong with it: its status, its digest, then a text
/// that it lacks.
pub proof fn law_answers_of_another_history_are_refused(
    value: JsonTree,
    digest: Seq<char>,
    prefix: Seq<char>,
)
    ensures
        value.field_text("status"@) != Some("ok"@) ==> verified_of(value, digest, prefix) == Err::<VerifiedView, Seq<char>>(
            "RLM response status is not ok"@,
        ),
        value.field_text("status"@) == Some("ok"@) && (value.field_text("input_digest"@) is None
            || trimmed(value.field_text("input_digest"@)->0).len() == 0) ==> verified_of(
            value,
            digest,
            prefix,
        ) == Err::<VerifiedView, Seq<char>>("response is missing non-empty input_digest"@),
        value.field_text("status"@) == Some("ok"@) && (value.field_text("input_digest"@)
            matches Some(given) && trimmed(given).len() > 0 && trimmed(given) != digest)
            ==> verified_of(value, digest, prefix) == Err::<VerifiedView, Seq<char>>(
            "RLM input digest does not match the canonical campaign history"@,
        ),
{
    reveal_strlit("response is missing non-empty ");
    reveal_strlit("input_digest");
    reveal_strlit("response is missing non-empty input_digest");
    assert("response is missing non-empty "@ + "input_digest"@ =~= "response is missing non-empty input_digest"@);
}

/// An answer to the right history is refused by name for a text that it lacks: the answer first, then
/// its context, then its run.
pub proof fn law_answers_without_their_texts_are_refused(
    value: JsonTree,
    digest: Seq<char>,
    prefix: Seq<char>,
)
    requires
        value.field_text("status"@) == Some("ok"@),
        value.field_text("input_digest"@) matches Some(given) && trimmed(given) == digest,
        digest.len() > 0,
    ensures
        ({
            let answer = value.field_text("answer"@);
            let context_id = value.field_text("context_id"@);
            let run_id = value.field_text("id"@);
            &&& answer is None || trimmed(answer->0).len() == 0 ==> verified_of(value, digest, prefix)
                == Err::<VerifiedView, Seq<char>>("response is missing non-empty answer"@)
            &&& answer is Some && trimmed(answer->0).len() > 0 && (context_id is None || trimmed(
                context_id->0,
            ).len() == 0) ==> verified_of(value, digest, prefix) == Err::<VerifiedView, Seq<char>>(
                "response is missing non-empty context_id"@,
            )
            &&& answer is Some && trimmed(answer->0).len() > 0 && context_id is Some && trimmed(
                context_id->0,
            ).len() > 0 && (run_id is None || trimmed(run_id->0).len() == 0) ==> verified_of(
                value,
                digest,
                prefix,
            ) == Err::<VerifiedView, Seq<char>>("response is missing non-empty id"@)
        }),
{
    reveal_strlit("response is missing non-empty ");
    reveal_strlit("answer");
    reveal_strlit("response is missing non-empty answer");
    assert("response is missing non-empty "@ + "answer"@ =~= "response is missing non-empty answer"@);
    reveal_strlit("response is missing non-empty ");
    reveal_strlit("context_id");
    reveal_strlit("response is missing non-empty context_id");
    assert("response is missing non-empty "@ + "context_id"@ =~= "response is missing non-empty context_id"@);
    reveal_strlit("response is missing non-empty ");
    reveal_strlit("id");
    reveal_strlit("response is missing non-empty id");
    assert("response is missing non-empty "@ + "id"@ =~= "response is missing non-empty id"@);
}

/// An answer with its texts is refused for its evidence: for citing nothing, for the first citation
/// that has no source or one from elsewhere, for not counting its steps, and for having made none.
pub proof fn law_answers_without_evidence_are_refused(
    value: JsonTree,
    digest: Seq<char>,
    prefix: Seq<char>,
    i: int,
)
    requires
        value.field_text("status"@) == Some("ok"@),
        value.field_text("input_digest"@) matches Some(given) && trimmed(given) == digest,
        digest.len() > 0,
        value.field_text("answer"@) matches Some(text) && trimmed(text).len() > 0,
        value.field_text("context_id"@) matches Some(text) && trimmed(text).len() > 0,
        value.field_text("id"@) matches Some(text) && trimmed(text).len() > 0,
    ensures
        value.field_list("cites"@) is None || value.field_list("cites"@)->0.len() == 0 ==> verified_of(
            value,
            digest,
            prefix,
        ) == Err::<VerifiedView, Seq<char>>("RLM response has no citations"@),
        value.field_list("cites"@) matches Some(citations) ==> (0 <= i < citations.len() && (forall|
            j: int,
        |
            0 <= j < i ==> ((#[trigger] citations[j]).field_text("source"@) matches Some(source)
                && begins_with(source, prefix))) ==> {
            &&& citations[i].field_text("source"@) is None ==> verified_of(value, digest, prefix)
                == Err::<VerifiedView, Seq<char>>("RLM citation is missing its source"@)
            &&& citations[i].field_text("source"@) is Some && !begins_with(
                citations[i].field_text("source"@)->0,
                prefix,
            ) ==> verified_of(value, digest, prefix) == Err::<VerifiedView, Seq<char>>(
                "RLM citation source is outside the campaign history"@,
            )
        }),
        value.field_list("cites"@) matches Some(citations) ==> (citations.len() > 0 && (forall|j: int|
            0 <= j < citations.len() ==> ((#[trigger] citations[j]).field_text("source"@)
                matches Some(source) && begins_with(source, prefix))) ==> {
            let counted = match value.field("evidence"@) {
                Some(evidence) => evidence.field_unsigned("successful_recursions"@),
                None => None,
            };
            &&& counted is None ==> verified_of(value, digest, prefix) == Err::<VerifiedView, Seq<char>>(
                "RLM response is missing successful recursion evidence"@,
            )
            &&& counted == Some(0u64) ==> verified_of(value, digest, prefix) == Err::<VerifiedView, Seq<char>>(
                "RLM response did not complete a recursive analysis step"@,
            )
        }),
{
    match value.field_list("cites"@) {
        Some(citations) => {
            if 0 <= i < citations.len() && (forall|j: int|
                0 <= j < i ==> ((#[trigger] citations[j]).field_text("source"@) matches Some(source)
                    && begins_with(source, prefix))) && !(citations[i].field_text("source"@)
                matches Some(source) && begins_with(source, prefix)) {
                lemma_first_fault_is_named(citations, prefix, i);
            }
            if forall|j: int|
                0 <= j < citations.len() ==> ((#[trigger] citations[j]).field_text("source"@)
                    matches Some(source) && begins_with(source, prefix)) {
                lemma_good_citations_pass(citations, prefix);
            }
        },
        None => {},
    }
}

/// A history is read exactly where it has a document that says something, a digest, and says whether
/// reasoning is required and how many attempts there were. The canonical document goes before the
/// plain one, both as they stand; the digest is handed on without the white space around it.
pub proof fn law_sound_histories_are_read(value: JsonTree)
    ensures
        ({
            let canonical = value.field_text("canonical_document"@);
            let plain = value.field_text("document"@);
            let digest = value.field_text("history_digest"@);
            let has_canonical = canonical is Some && trimmed(canonical->0).len() > 0;
            let has_plain = plain is Some && trimmed(plain->0).len() > 0;
            let has_digest = digest is Some && trimmed(digest->0).len() > 0;
            let required = value.field_boolean("reasoning_required"@);
            let attempts = value.field_unsigned("attempt_count"@);
            &&& snapshot_of(value) is Ok <==> (has_canonical || has_plain) && has_digest && required
                is Some && attempts is Some
            &&& snapshot_of(value) matches Ok(snapshot) ==> {
                &&& has_canonical ==> Some(snapshot.document) == canonical
                &&& !has_canonical ==> Some(snapshot.document) == plain
                &&& snapshot.history_digest == trimmed(digest->0)
                &&& Some(snapshot.reasoning_required) == required
            }
            &&& !(has_canonical || has_plain) ==> snapshot_of(value) == Err::<SnapshotView, Seq<char>>(
                "research history is missing a canonical document"@,
            )
            &&& (has_canonical || has_plain) && !has_digest ==> snapshot_of(value) == Err::<SnapshotView, Seq<char>>(
                "response is missing non-empty history_digest"@,
            )
            &&& (has_canonical || has_plain) && has_digest && required is None ==> snapshot_of(value)
                == Err::<SnapshotView, Seq<char>>("research history is missing reasoning_required"@)
            &&& (has_canonical || has_plain) && has_digest && required is Some && attempts is None
                ==> snapshot_of(value) == Err::<SnapshotView, Seq<char>>("research history is missing attempt_count"@)
        }),
{
    match value.field_text("canonical_document"@) {
        Some(text) => {
            crate::text::law_blank_is_empty_after_trimming(text);
        },
        None => {},
    }
    match value.field_text("document"@) {
        Some(text) => {
            crate::text::law_blank_is_empty_after_trimming(text);
        },
        None => {},
    }
    reveal_strlit("response is missing non-empty ");
    reveal_strlit("history_digest");
    reveal_strlit("response is missing non-empty history_digest");
    assert("response is missing non-empty "@ + "history_digest"@ =~= "response is missing non-empty history_digest"@);
}

/// A successful exchange is its body; one that was refused says with which status and what else was
/// said; one that could not be read or made says just that.
pub proof fn law_exchanges_are_read_by_their_status(
    status: u16,
    bytes: Vec<u8>,
    error: String,
    reaching: Seq<char>,
    reading: Seq<char>,
    returned: Seq<char>,
)
    ensures
        200 <= status <= 299 ==> exchange_outcome(
            Exchange::Reply { status: status, body: Some(bytes) },
            reaching,
            reading,
            returned,
        ) == Ok::<JsonTree, Seq<char>>(body_tree(bytes@)),
        !(200 <= status <= 299) ==> exchange_outcome(
            Exchange::Reply { status: status, body: Some(bytes) },
            reaching,
            reading,
            returned,
        ) == Err::<JsonTree, Seq<char>>(
            returned + status_words(status) + ": "@ + body_tree(bytes@).printed(),
        ),
        exchange_outcome(
            Exchange::Reply { status: status, body: None },
            reaching,
            reading,
            returned,
        ) == Err::<JsonTree, Seq<char>>(reading),
        exchange_outcome(Exchange::Unreachable { error: error }, reaching, reading, returned) == Err::<
            JsonTree,
            Seq<char>,
        >(reaching),
{
}

/// What the engine says is read as an exchange, and trouble is told as the engine's: with its address
/// where it was not reached.
pub proof fn law_engine_trouble_names_the_engine(
    url: Seq<char>,
    status: u16,
    bytes: Vec<u8>,
    error: String,
)
    ensures
        engine_outcome(url, Exchange::Unreachable { error: error }) == Err::<JsonTree, Seq<char>>(
            "reaching the research engine at "@ + url,
        ),
        engine_outcome(url, Exchange::Reply { status: status, body: None }) == Err::<
            JsonTree,
            Seq<char>,
        >("reading engine response"@),
        200 <= status <= 299 ==> engine_outcome(
            url,
            Exchange::Reply { status: status, body: Some(bytes) },
        ) == Ok::<JsonTree, Seq<char>>(body_tree(bytes@)),
        !(200 <= status <= 299) ==> engine_outcome(
            url,
            Exchange::Reply { status: status, body: Some(bytes) },
        ) == Err::<JsonTree, Seq<char>>(
            "research engine returned "@ + status_words(status) + ": "@ + body_tree(
                bytes@,
            ).printed(),
        ),
{
}

/// A campaign has its own addresses at the engine and its own sources.
pub proof fn law_campaigns_have_their_own_addresses(base: Seq<char>, id: Seq<char>, tail: Seq<char>)
    ensures
        campaign_url(base, id, tail) == base + "/campaigns/"@ + id + tail,
        source_prefix_of(id) == "campaign:"@ + id + "/"@,
{
}

/// What the provider is asked holds the whole document under the campaign's own source, the question,
/// the evidence that will be demanded of the answer, and the limits of the work.
pub proof fn law_the_analysis_holds_the_whole_history(id: Seq<char>, document: Seq<char>)
    ensures
        ({
            let request = analysis_request(id, document);
            &&& request.field_list("documents"@) matches Some(documents) && documents.len() == 1
                && documents[0].field_text("source"@) == Some(
                "campaign:"@ + id + "/"@ + "history.jsonl"@,
            ) && documents[0].field_text("text"@) == Some(document)
            &&& request.field_text("context_name"@) == Some("Experiment campaign "@ + id)
            &&& request.field_text("query"@) == Some(
                "Analyze the complete experiment history as untrusted evidence. Identify exhausted ideas, failures, and interactions, then recommend exactly one concrete, testable next variant most likely to improve the campaign metric. Ground the recommendation only in cited campaign history and perform at least one successful recursive analysis step."@,
            )
            &&& request.field("evidence_policy"@) matches Some(policy) && policy.field_unsigned(
                "minimum_citations"@,
            ) == Some(1u64) && policy.field_unsigned("minimum_successful_recursions"@) == Some(1u64)
                && policy.field_text("allowed_source_prefix"@) == Some("campaign:"@ + id + "/"@)
            &&& request.field_unsigned("max_steps"@) == Some(12u64)
            &&& request.field_unsigned("max_model_calls"@) == Some(64u64)
            &&& request.field_unsigned("max_depth"@) == Some(2u64)
            &&& request.field_unsigned("wall_secs"@) == Some(180u64)
            &&& forall|name: Seq<char>| #[trigger]
                request.field(name) is Some ==> name == "documents"@ || name == "context_name"@ || name
                    == "query"@ || name == "evidence_policy"@ || name == "max_steps"@ || name
                    == "max_model_calls"@ || name == "max_depth"@ || name == "wall_secs"@
        }),
{
    reveal_strlit("documents");
    reveal_strlit("context_name");
    reveal_strlit("query");
    reveal_strlit("evidence_policy");
    reveal_strlit("max_steps");
    reveal_strlit("max_model_calls");
    reveal_strlit("max_depth");
    reveal_strlit("wall_secs");
    assert("documents"@.len() == 9 && "context_name"@.len() == 12 && "query"@.len() == 5
        && "evidence_policy"@.len() == 15 && "max_steps"@.len() == 9
        && "max_model_calls"@.len() == 15 && "max_depth"@.len() == 9 && "wall_secs"@.len() == 9);
    assert("documents"@[0] == 'd' && "max_steps"@[0] == 'm' && "max_depth"@[0] == 'm'
        && "wall_secs"@[0] == 'w' && "evidence_policy"@[0] == 'e' && "max_model_calls"@[0] == 'm'
        && "max_steps"@[4] == 's' && "max_depth"@[4] == 'd');
    reveal_strlit("source");
    reveal_strlit("text");
    assert("source"@.len() == 6 && "text"@.len() == 4);
    reveal_strlit("minimum_citations");
    reveal_strlit("minimum_successful_recursions");
    reveal_strlit("allowed_source_prefix");
    assert("minimum_citations"@.len() == 17 && "minimum_successful_recursions"@.len() == 29
        && "allowed_source_prefix"@.len() == 21);
}

/// The source under which the document is handed over is one that the answer may cite.
pub proof fn law_the_history_may_be_cited(id: Seq<char>, document: Seq<char>)
    ensures
        analysis_request(id, document).field_list("documents"@) matches Some(documents)
            && documents[0].field_text("source"@) matches Some(source) && begins_with(
            source,
            source_prefix_of(id),
        ),
{
    law_the_analysis_holds_the_whole_history(id, document);
    let source = "campaign:"@ + id + "/"@ + "history.jsonl"@;
    assert(source.subrange(0, source_prefix_of(id).len() as int) =~= source_prefix_of(id));
}

/// A proposal without reasoning holds its kind and the digest of the history, and nothing else.
pub proof fn law_freeform_proposals_hold_the_digest(digest: Seq<char>)
    ensures
        forall|name: Seq<char>| #[trigger]
            freeform_proposal(digest).field(name) == (if name == "kind"@ {
                Some(JsonTree::Text("freeform"@))
            } else if name == "history_digest"@ {
                Some(JsonTree::Text(digest))
            } else {
                None
            }),
{
    reveal_strlit("kind");
    reveal_strlit("history_digest");
    assert("kind"@.len() == 4 && "history_digest"@.len() == 14);
}

/// A proposal with reasoning holds its kind, the digest of the history and everything that was
/// accepted of the answer, each in its place.
pub proof fn law_verified_proposals_hold_the_answer(digest: Seq<char>, verified: VerifiedView)
    ensures
        ({
            let body = verified_proposal(digest, verified);
            &&& body.field_text("kind"@) == Some("rlm_verified"@)
            &&& body.field_text("history_digest"@) == Some(digest)
            &&& body.field_text("rlm_context_id"@) == Some(verified.context_id)
            &&& body.field_text("rlm_run_id"@) == Some(verified.run_id)
            &&& body.field_text("recommendation"@) == Some(verified.answer)
            &&& body.field("citations"@) == Some(verified.citations)
            &&& body.field_unsigned("successful_recursions"@) == Some(
                verified.successful_recursions,
            )
            &&& forall|name: Seq<char>| #[trigger]
                body.field(name) is Some ==> name == "kind"@ || name == "history_digest"@ || name
                    == "rlm_context_id"@ || name == "rlm_run_id"@ || name == "recommendation"@ || name
                    == "citations"@ || name == "successful_recursions"@
        }),
{
    reveal_strlit("kind");
    reveal_strlit("history_digest");
    reveal_strlit("rlm_context_id");
    reveal_strlit("rlm_run_id");
    reveal_strlit("recommendation");
    reveal_strlit("citations");
    reveal_strlit("successful_recursions");
    assert("kind"@.len() == 4 && "history_digest"@.len() == 14 && "rlm_context_id"@.len() == 14
        && "rlm_run_id"@.len() == 10 && "recommendation"@.len() == 14 && "citations"@.len() == 9
        && "successful_recursions"@.len() == 21);
    assert("history_digest"@[0] == 'h' && "rlm_context_id"@[0] == 'r' && "recommendation"@[0] == 'r'
        && "rlm_context_id"@[1] == 'l' && "recommendation"@[1] == 'e');
}

/// A history that can be read leads to a proposal where no reasoning is required, and to an analysis
/// of its document where it is and there is a host to ask; without a host it leads nowhere.
pub proof fn law_histories_lead_on(
    base: Seq<char>,
    id: Seq<char>,
    token: Option<Seq<char>>,
    has_broker: bool,
    history: JsonTree,
)
    ensures
        snapshot_of(history) matches Err(e) ==> history_step(base, id, token, has_broker, history)
            == Err::<HistoryStep, Seq<char>>(e),
        snapshot_of(history) matches Ok(snapshot) ==> {
            &&& !snapshot.reasoning_required ==> (history_step(base, id, token, has_broker, history)
                matches Ok(HistoryStep::Propose(proposal)) && proposal.url == base + "/campaigns/"@
                + id + "/proposals"@ && proposal.token == token && proposal.body.field_text("kind"@)
                == Some("freeform"@) && proposal.body.field_text("history_digest"@) == Some(
                snapshot.history_digest,
            ))
            &&& snapshot.reasoning_required && has_broker ==> (history_step(
                base,
                id,
                token,
                has_broker,
                history,
            ) matches Ok(HistoryStep::Analyze(analysis)) && analysis.history_digest
                == snapshot.history_digest && analysis.request == analysis_request(
                id,
                snapshot.document,
            ))
            &&& snapshot.reasoning_required && !has_broker ==> history_step(
                base,
                id,
                token,
                has_broker,
                history,
            ) == Err::<HistoryStep, Seq<char>>(
                "RLM analysis is unavailable outside a Core-hosted Research process"@,
            )
        },
{
    match snapshot_of(history) {
        Ok(snapshot) => {
            law_freeform_proposals_hold_the_digest(snapshot.history_digest);
        },
        Err(_) => {},
    }
}

/// What follows the engine's answer is what follows the history in it, and the engine's trouble where
/// there is none.
pub proof fn law_the_history_decides_what_follows(
    base: Seq<char>,
    id: Seq<char>,
    token: Option<Seq<char>>,
    has_broker: bool,
    status: u16,
    bytes: Vec<u8>,
    error: String,
)
    ensures
        200 <= status <= 299 ==> after_history(
            base,
            id,
            token,
            has_broker,
            Exchange::Reply { status: status, body: Some(bytes) },
        ) == history_step(base, id, token, has_broker, body_tree(bytes@)),
        !(200 <= status <= 299) ==> after_history(
            base,
            id,
            token,
            has_broker,
            Exchange::Reply { status: status, body: Some(bytes) },
        ) == Err::<HistoryStep, Seq<char>>(
            "research engine returned "@ + status_words(status) + ": "@ + body_tree(
                bytes@,
            ).printed(),
        ),
        after_history(
            base,
            id,
            token,
            has_broker,
            Exchange::Unreachable { error: error },
        ) == Err::<HistoryStep, Seq<char>>(
            "reaching the research engine at "@ + (base + "/campaigns/"@ + id + "/history"@),
        ),
{
}

/// An accepted answer is proposed to the campaign, whole and under the token; one that is not accepted
/// is refused for its own fault, and where no answer came that is what is said.
pub proof fn law_accepted_answers_are_proposed_whole(
    base: Seq<char>,
    id: Seq<char>,
    token: Option<Seq<char>>,
    digest: Seq<char>,
    value: JsonTree,
    trouble: Seq<char>,
)
    ensures
        verified_of(value, digest, "campaign:"@ + id + "/"@) matches Ok(verified) ==> (after_analysis(
            base,
            id,
            token,
            digest,
            Ok::<JsonTree, Seq<char>>(value),
        ) matches Ok(proposal) && {
            &&& proposal.url == base + "/campaigns/"@ + id + "/proposals"@
            &&& proposal.token == token
            &&& proposal.body.field_text("kind"@) == Some("rlm_verified"@)
            &&& proposal.body.field_text("history_digest"@) == Some(digest)
            &&& proposal.body.field_text("rlm_context_id"@) == Some(verified.context_id)
            &&& proposal.body.field_text("rlm_run_id"@) == Some(verified.run_id)
            &&& proposal.body.field_text("recommendation"@) == Some(verified.answer)
            &&& proposal.body.field("citations"@) == Some(verified.citations)
            &&& proposal.body.field_unsigned("successful_recursions"@) == Some(
                verified.successful_recursions,
            )
        }),
        verified_of(value, digest, "campaign:"@ + id + "/"@) matches Err(e) ==> after_analysis(
            base,
            id,
            token,
            digest,
            Ok::<JsonTree, Seq<char>>(value),
        ) == Err::<ProposalView, Seq<char>>(e),
        after_analysis(base, id, token, digest, Err::<JsonTree, Seq<char>>(trouble)) == Err::<
            ProposalView,
            Seq<char>,
        >("calling the bound rlm.query capability"@),
{
    match verified_of(value, digest, "campaign:"@ + id + "/"@) {
        Ok(verified) => {
            law_verified_proposals_hold_the_answer(digest, verified);
        },
        Err(_) => {},
    }
}

/// There is a host to ask exactly where the environment gives a token, a plugin and a port, each saying
/// something; it is asked on loopback, under that plugin and that token.
pub proof fn law_the_host_is_asked_on_loopback(
    token: Seq<char>,
    plugin_id: Seq<char>,
    port: Seq<char>,
    number: u16,
)
    ensures
        trimmed(token).len() > 0 && trimmed(plugin_id).len() > 0 && trimmed(port).len() > 0
            && port_value(trimmed(port)) == Some(number) ==> client_of(
            Some(token),
            Some(plugin_id),
            Some(port),
        ) == Some(
            ("http://127.0.0.1:"@ + decimal(number as nat), trimmed(plugin_id), trimmed(token)),
        ),
        trimmed(token).len() == 0 || trimmed(plugin_id).len() == 0 || trimmed(port).len() == 0
            || port_value(trimmed(port)) is None ==> client_of(
            Some(token),
            Some(plugin_id),
            Some(port),
        ) is None,
        client_of(None, Some(plugin_id), Some(port)) is None,
        client_of(Some(token), None, Some(port)) is None,
        client_of(Some(token), Some(plugin_id), None) is None,
{
}

/// A capability is asked for by its name, under the token and the plugin, with the body as it is.
pub proof fn law_capabilities_are_asked_for_by_name(
    base: Seq<char>,
    plugin_id: Seq<char>,
    token: Seq<char>,
    capability: Seq<char>,
    body: JsonTree,
)
    ensures
        ({
            let request = capability_view(base, plugin_id, token, capability, body);
            &&& request.url == base + "/api/host/capability/"@ + capability
            &&& request.bearer == token
            &&& request.plugin_id == plugin_id
            &&& request.body == body
        }),
        RLM_CAPABILITY@ == "rlm.query"@,
        PLUGIN_ID_HEADER@ == "x-ryu-plugin-id"@,
{
}

/// What the host says is read as an exchange, and trouble is told as the host's.
pub proof fn law_host_trouble_names_the_host(status: u16, bytes: Vec<u8>, error: String)
    ensures
        broker_outcome(Exchange::Unreachable { error: error }) == Err::<JsonTree, Seq<char>>(
            "reaching the Ryu capability broker"@,
        ),
        broker_outcome(Exchange::Reply { status: status, body: None }) == Err::<JsonTree, Seq<char>>(
            "reading the capability response"@,
        ),
        200 <= status <= 299 ==> broker_outcome(
            Exchange::Reply { status: status, body: Some(bytes) },
        ) == Ok::<JsonTree, Seq<char>>(body_tree(bytes@)),
        !(200 <= status <= 299) ==> broker_outcome(
            Exchange::Reply { status: status, body: Some(bytes) },
        ) == Err::<JsonTree, Seq<char>>(
            "rlm.query returned "@ + status_words(status) + ": "@ + body_tree(bytes@).printed(),
        ),
{
}

/// A history is read from its campaign, and a proposal is posted where it belongs, as it is; both go out
/// under the token.
pub proof fn law_campaigns_are_asked_at_their_addresses(
    base: Seq<char>,
    id: Seq<char>,
    token: Option<Seq<char>>,
    proposal: ProposalView,
)
    ensures
        ({
            let call = history_call(base, id, token);
            call.method == Method::Get && call.url == base + "/campaigns/"@ + id + "/history"@
                && call.body is None && call.bearer == token
        }),
        ({
            let call = proposal_call(proposal);
            call.method == Method::Post && call.url == proposal.url && call.body == Some(
                proposal.body,
            ) && call.bearer == proposal.token
        }),
{
}

/// What follows a history keeps to its campaign: an analysis is of the same engine, campaign and token,
/// with the digest and the request that were decided on; a proposal is the one that was decided on;
/// and trouble is told as it is.
pub proof fn law_what_follows_keeps_to_the_campaign(
    awaiting: AwaitingHistory,
    r: Result<AfterHistory, Failure>,
    step: Result<HistoryStep, Seq<char>>,
)
    requires
        awaiting.leads_to(r, step),
    ensures
        step matches Ok(HistoryStep::Propose(proposal)) ==> (r matches Ok(AfterHistory::Propose(next))
            && next.url@ == proposal.url && next.body.tree() == proposal.body && opt_text(next.token)
            == proposal.token),
        step matches Ok(HistoryStep::Analyze(analysis)) ==> (r matches Ok(AfterHistory::Analyze(next))
            && next.base@ == awaiting.base@ && next.campaign_id@ == awaiting.campaign_id@ && opt_text(
            next.token,
        ) == opt_text(awaiting.token) && next.history_digest@ == analysis.history_digest
            && next.request.tree() == analysis.request),
        step matches Err(message) ==> (r matches Err(e) && e.message@ == message),
{
}

/// What was read, accepted or decided is seen whole.
pub proof fn law_results_are_seen_whole(
    value: Json,
    next: AwaitingProposal,
    failure: Failure,
    snapshot: HistorySnapshot,
    verified: VerifiedRlm,
    request: CapabilityRequest,
)
    ensures
        value_outcome(Ok::<Json, Failure>(value)) == Ok::<JsonTree, Seq<char>>(value.tree()),
        value_outcome(Err::<Json, Failure>(failure)) == Err::<JsonTree, Seq<char>>(failure.message@),
        proposal_outcome(Ok::<AwaitingProposal, Failure>(next)) matches Ok(proposal) && proposal.url
            == next.url@ && proposal.body == next.body.tree() && proposal.token == opt_text(next.token),
        proposal_outcome(Err::<AwaitingProposal, Failure>(failure)) == Err::<ProposalView, Seq<char>>(
            failure.message@,
        ),
        snapshot@.document == snapshot.document@ && snapshot@.history_digest == snapshot.history_digest@
            && snapshot@.reasoning_required == snapshot.reasoning_required,
        verified@.answer == verified.answer@ && verified@.context_id == verified.context_id@
            && verified@.run_id == verified.run_id@ && verified@.citations == verified.citations.tree()
            && verified@.successful_recursions == verified.successful_recursions,
        request@.url == request.url@ && request@.bearer == request.bearer@ && request@.plugin_id
            == request.plugin_id@ && request@.body == request.body.tree(),
{
}

} // verus!
