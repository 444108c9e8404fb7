use ryu_research::api::{
    analysis_reply, catalog_request, experiments_url, pass_through, proxied, research_analyze_campaign, research_campaign,
    research_campaigns, research_init_workspace, research_ledger, research_status,
    unreachable_err, workspace_created, ApiReply, InitWorkspaceBody, Next, Plan,
    EV_WORKSPACE_CREATED, PLUGIN_ID,
};
use ryu_research::failure::Failure;
use ryu_research::json::Json;
use ryu_research::mcp::{Method, UpstreamCall};
use ryu_research::reply::Exchange;
use ryu_research::{health_url, is_running_now, research_base_url};

fn json(text: &str) -> Json {
    Json::from_bytes(text.as_bytes()).unwrap()
}

fn value(text: &str) -> serde_json::Value {
    serde_json::from_str(text).unwrap()
}

fn reply(status: u16, body: &str) -> Exchange {
    Exchange::Reply {
        status,
        body: Some(body.as_bytes().to_vec()),
    }
}

fn refused() -> Exchange {
    Exchange::Unreachable {
        error: "connection refused".to_owned(),
    }
}

fn forwarded(plan: Plan) -> UpstreamCall {
    assert!(plan.wake);
    match plan.next {
        Next::Forward(call) => call,
        other => panic!("{other:?}"),
    }
}

#[test]
fn base_url_defaults_to_loopback_when_unset() {
    assert_eq!(research_base_url(None), "http://127.0.0.1:8087");
}

#[test]
fn base_url_wraps_bare_host_port_in_http() {
    assert_eq!(
        research_base_url(Some("10.0.0.4:9999")),
        "http://10.0.0.4:9999"
    );
}

#[test]
fn base_url_keeps_explicit_http_scheme_and_trims_trailing_slash() {
    assert_eq!(
        research_base_url(Some("http://example.test:8087/")),
        "http://example.test:8087"
    );
}

#[test]
fn base_url_preserves_https_scheme() {
    assert_eq!(
        research_base_url(Some("https://secure.test/base/")),
        "https://secure.test/base"
    );
}

#[test]
fn base_url_treats_whitespace_only_override_as_unset() {
    assert_eq!(research_base_url(Some("   ")), "http://127.0.0.1:8087");
}

#[test]
fn base_url_trims_surrounding_whitespace_before_parsing() {
    assert_eq!(
        research_base_url(Some("  host.test:1234  ")),
        "http://host.test:1234"
    );
}

#[test]
fn base_url_of_a_scheme_alone_loses_its_slashes() {
    assert_eq!(research_base_url(Some("http://")), "http:");
    assert_eq!(research_base_url(Some("host/")), "http://host/");
    assert_eq!(research_base_url(Some("http://x")), "http://x");
}

#[test]
fn is_running_now_false_when_nothing_listens() {
    assert_eq!(health_url(Some("127.0.0.1:1")), "http://127.0.0.1:1/health");
    assert!(!is_running_now(None));
}

#[test]
fn is_running_now_true_against_a_healthy_mock() {
    assert!(is_running_now(Some(200)));
}

#[test]
fn is_running_now_false_on_non_success_health() {
    assert!(!is_running_now(Some(503)));
}

#[test]
fn status_reports_not_running_when_upstream_dead() {
    let body = research_status(true, false, None).to_value();
    assert_eq!(body["installed"], true);
    assert_eq!(body["running"], false);
    assert_eq!(body["experiments"], value("[]"));
}

#[test]
fn status_installed_false_is_reported_through() {
    let body = research_status(false, false, None).to_value();
    assert_eq!(body["installed"], false);
}

#[test]
fn status_running_passes_through_experiment_catalog() {
    let catalog = reply(
        200,
        "{\"experiments\":[{\"id\":\"toy\"},{\"id\":\"nanochat\"}]}",
    );
    assert_eq!(experiments_url(Some("e:1")), "http://e:1/experiments");
    let request = catalog_request(Some("e:1"), Some("tok"));
    assert_eq!(request.url, "http://e:1/experiments");
    assert_eq!(request.bearer.as_deref(), Some("tok"));
    let body = research_status(true, true, Some(&catalog)).to_value();
    assert_eq!(body["running"], true);
    assert_eq!(
        body["experiments"],
        value("[{\"id\":\"toy\"},{\"id\":\"nanochat\"}]")
    );
}

#[test]
fn status_running_but_experiments_errors_yields_empty_list() {
    for catalog in [
        reply(500, "boom"),
        reply(200, "boom"),
        reply(200, "{}"),
        refused(),
        Exchange::Reply {
            status: 200,
            body: None,
        },
    ] {
        let body = research_status(true, true, Some(&catalog)).to_value();
        assert_eq!(body["running"], true);
        assert_eq!(body["experiments"], value("[]"));
    }
}

#[test]
fn init_workspace_starts_sidecar_and_proxies_body() {
    let call = forwarded(research_init_workspace(
        Some("engine.test:1"),
        Some("tok"),
        json("{\"experiment\":\"toy\"}"),
    ));
    assert_eq!(call.method, Method::Post);
    assert_eq!(call.url, "http://engine.test:1/workspace/init");
    assert_eq!(call.bearer.as_deref(), Some("tok"));
    assert_eq!(
        call.body.unwrap().to_value(),
        value("{\"experiment\":\"toy\"}")
    );
}

#[test]
fn init_workspace_passes_the_init_envelope_through_untouched() {
    let envelope = "{\"workspace_id\":\"9f3c1b2a\",\"experiment\":\"toy\",\"mutable_files\":[\"train.py\"],\"program_md\":\"# instructions\"}";
    let out = proxied("u", &reply(200, envelope));
    assert_eq!(out.status, 200);
    let event = workspace_created(&out).unwrap();
    assert_eq!(
        event.to_value(),
        value("{\"workspace_id\":\"9f3c1b2a\",\"experiment\":\"toy\",\"mutable_files\":[\"train.py\"]}")
    );
    assert_eq!(EV_WORKSPACE_CREATED.split('#').next(), Some(PLUGIN_ID));
    let body = out.body.to_value();
    assert_eq!(body["workspace_id"], "9f3c1b2a");
    assert_eq!(body["mutable_files"], value("[\"train.py\"]"));
    assert_eq!(body["program_md"], "# instructions");
}

#[test]
fn a_failed_init_raises_no_event() {
    assert!(workspace_created(&proxied("u", &reply(400, "{\"workspace_id\":\"x\"}"))).is_none());
    assert!(workspace_created(&proxied("u", &reply(200, "{\"workspace_id\":7}"))).is_none());
    assert!(workspace_created(&proxied("u", &refused())).is_none());
    let bare = workspace_created(&proxied("u", &reply(201, "{\"workspace_id\":\"x\"}"))).unwrap();
    assert_eq!(
        bare.to_value(),
        value("{\"workspace_id\":\"x\",\"experiment\":null,\"mutable_files\":[]}")
    );
}

#[test]
fn init_workspace_unreachable_upstream_is_502_with_hint() {
    let call = forwarded(research_init_workspace(Some("127.0.0.1:1"), None, json("{}")));
    let out = proxied(&call.url, &refused());
    assert_eq!(out.status, 502);
    let body = out.body.to_value();
    let err = body["error"].as_str().unwrap();
    assert!(err.contains("not reachable"));
    assert!(err.contains("Store"));
    assert_eq!(
        unreachable_err("u", "e").body.get_str("error").unwrap(),
        "research sidecar not reachable at u: e. Install it from the Store (or run `python -m ryu_research`) first."
    );
}

#[test]
fn ledger_read_proxies_and_wakes_sidecar() {
    let call = forwarded(research_ledger(None, Some("tok"), "ws-42"));
    assert_eq!(call.method, Method::Get);
    assert_eq!(call.url, "http://127.0.0.1:8087/workspace/ws-42/ledger");
    assert_eq!(call.bearer.as_deref(), Some("tok"));
    let out = proxied(&call.url, &reply(200, "{\"ws\":\"ws-42\",\"rows\":[]}"));
    assert_eq!(out.status, 200);
    assert_eq!(out.body.to_value()["ws"], "ws-42");
}

#[test]
fn campaigns_are_listed() {
    let call = forwarded(research_campaigns(None, None));
    assert_eq!(call.url, "http://127.0.0.1:8087/campaigns");
}

#[test]
fn campaign_detail_requests_the_complete_companion_projection() {
    let call = forwarded(research_campaign(None, None, "campaign-42"));
    assert_eq!(
        call.url,
        "http://127.0.0.1:8087/campaigns/campaign-42?full=1"
    );
}

#[test]
fn campaign_detail_rejects_unsafe_ids_before_proxying() {
    let plan = research_campaign(None, None, "../secret");
    assert!(plan.wake);
    match plan.next {
        Next::Answer(reply) => {
            assert_eq!(reply.status, 400);
            assert_eq!(reply.body.to_value()["error"], "invalid campaign id");
        }
        other => panic!("{other:?}"),
    }
}

#[test]
fn analysis_validates_before_it_wakes_the_engine() {
    let bad = research_analyze_campaign(None, None, true, "../secret");
    assert!(!bad.wake);
    assert!(matches!(bad.next, Next::Answer(ApiReply { status: 400, .. })));
    let good = research_analyze_campaign(Some("e:1"), Some("tok"), true, "c-1");
    assert!(good.wake);
    match good.next {
        Next::Prepare(awaiting) => {
            assert_eq!(awaiting.url(), "http://e:1/campaigns/c-1/history");
            assert!(awaiting.has_broker);
            assert_eq!(awaiting.token.as_deref(), Some("tok"));
        }
        other => panic!("{other:?}"),
    }
}

#[test]
fn analysis_replies_with_its_result_or_424() {
    let ok = analysis_reply(Ok(json("{\"proposal\":1}")));
    assert_eq!(ok.status, 200);
    assert_eq!(ok.body.printed(), "{\"proposal\":1}");
    let failed = analysis_reply(Err(Failure::new("why")));
    assert_eq!(failed.status, 424);
    assert_eq!(failed.body.printed(), "{\"error\":\"why\"}");
}

#[test]
fn pass_through_preserves_non_success_status_and_body() {
    let out = proxied("u", &reply(404, "{\"error\":\"no such workspace\"}"));
    assert_eq!(out.status, 404);
    assert_eq!(out.body.to_value()["error"], "no such workspace");
}

#[test]
fn pass_through_wraps_non_json_body_as_raw() {
    let out = proxied("u", &reply(200, "not json at all"));
    assert_eq!(out.status, 200);
    assert_eq!(out.body.to_value()["raw"], "not json at all");
}

#[test]
fn pass_through_maps_statuses() {
    assert_eq!(pass_through(201, Json::Null).status, 200);
    assert_eq!(pass_through(302, Json::Null).status, 302);
    assert_eq!(pass_through(999, Json::Null).status, 999);
    assert_eq!(pass_through(99, Json::Null).status, 502);
}

#[test]
fn the_init_body_names_its_fields() {
    let body = InitWorkspaceBody {
        experiment: "toy".to_owned(),
        goal: None,
        name: Some("first".to_owned()),
        reasoning_threshold_chars: Some(1000),
    };
    assert_eq!(body, body.clone());
}
