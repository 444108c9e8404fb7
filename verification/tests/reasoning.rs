use ryu_research::failure::Failure;
use ryu_research::json::Json;
use ryu_research::reasoning::{
    next_variant, required_nonempty_string, valid_campaign_id, validate_campaign_id, AfterHistory,
    AwaitingAnalysis, AwaitingHistory, AwaitingProposal, CoreCapabilityClient, HistorySnapshot,
    VerifiedRlm, NEXT_VARIANT_QUERY, PLUGIN_ID_HEADER,
};
use ryu_research::reply::Exchange;

fn json(text: &str) -> Json {
    Json::from_bytes(text.as_bytes()).unwrap()
}

fn reply(status: u16, body: &str) -> Exchange {
    Exchange::Reply {
        status,
        body: Some(body.as_bytes().to_vec()),
    }
}

fn valid_rlm() -> Json {
    json(
        "{\"status\":\"ok\",\"answer\":\"Try variant B\",\"context_id\":\"ctx-1\",\"id\":\"run-1\",\"input_digest\":\"digest-1\",\"cites\":[{\"source\":\"campaign:c-1/history.jsonl\",\"chunk\":0}],\"evidence\":{\"successful_recursions\":1}}",
    )
}

fn history(reasoning_required: bool) -> String {
    format!(
        "{{\"document\":\"history\",\"history_digest\":\"digest-1\",\"attempt_count\":3,\"reasoning_required\":{reasoning_required}}}"
    )
}

fn verify_rejected(response: Json, expected: &str) {
    let error = VerifiedRlm::parse(&response, "digest-1", "campaign:c-1/")
        .err()
        .expect("response should be rejected");
    assert!(error.message.contains(expected), "got {}", error.message);
    assert!(VerifiedRlm::parse(&valid_rlm(), "digest-1", "campaign:c-1/").is_ok());
}

fn start(has_broker: bool) -> AwaitingHistory {
    next_variant(Some("engine.test:1"), Some("tok"), has_broker, "c-1").unwrap()
}

fn proposal(after: AfterHistory) -> AwaitingProposal {
    match after {
        AfterHistory::Propose(proposal) => proposal,
        AfterHistory::Analyze(_) => panic!("not to be analyzed"),
    }
}

fn analysis(after: AfterHistory) -> AwaitingAnalysis {
    match after {
        AfterHistory::Analyze(analysis) => analysis,
        AfterHistory::Propose(_) => panic!("to be analyzed first"),
    }
}

#[test]
fn rejects_incomplete_and_forged_rlm_responses() {
    let incomplete = valid_rlm().with("answer", Json::text(""));
    verify_rejected(incomplete, "answer");

    let bad_status = valid_rlm().with("status", Json::text("budget_exhausted"));
    verify_rejected(bad_status, "status");
}

#[test]
fn rejects_digest_mismatch_wrong_source_and_no_recursion() {
    let digest = valid_rlm().with("input_digest", Json::text("forged"));
    verify_rejected(digest, "digest");

    let source = valid_rlm().with(
        "cites",
        json("[{\"source\":\"other:secret/document\",\"chunk\":0}]"),
    );
    verify_rejected(source, "outside");

    let recursion = valid_rlm().with("evidence", json("{\"successful_recursions\":0}"));
    verify_rejected(recursion, "recursive");
}

#[test]
fn rejects_missing_citations_sources_and_evidence() {
    verify_rejected(valid_rlm().with("cites", json("[]")), "no citations");
    verify_rejected(valid_rlm().with("cites", Json::Null), "no citations");
    verify_rejected(valid_rlm().with("cites", json("[{}]")), "missing its source");
    verify_rejected(
        valid_rlm().with(
            "cites",
            json("[{\"source\":\"campaign:c-1/a\"},{\"source\":\"campaign:c-10/a\"}]"),
        ),
        "outside",
    );
    verify_rejected(
        valid_rlm().with("evidence", json("{}")),
        "missing successful recursion evidence",
    );
    verify_rejected(
        valid_rlm().with("evidence", json("{\"successful_recursions\":1.0}")),
        "missing successful recursion evidence",
    );
    verify_rejected(valid_rlm().with("context_id", json("7")), "context_id");
    verify_rejected(valid_rlm().with("id", json("\" \"")), "id");
    verify_rejected(
        valid_rlm().with("input_digest", Json::Null),
        "response is missing non-empty input_digest",
    );
}

#[test]
fn verified_answers_are_trimmed_and_keep_their_citations() {
    let verified = VerifiedRlm::parse(
        &valid_rlm()
            .with("answer", Json::text("  Try variant B\n"))
            .with("input_digest", Json::text(" digest-1 ")),
        "digest-1",
        "campaign:c-1/",
    )
    .unwrap();
    assert_eq!(verified.answer, "Try variant B");
    assert_eq!(verified.context_id, "ctx-1");
    assert_eq!(verified.run_id, "run-1");
    assert_eq!(verified.successful_recursions, 1);
    assert_eq!(
        verified.citations.to_value(),
        valid_rlm().get("cites").unwrap().to_value()
    );
}

#[test]
fn small_history_proposal_is_idempotent_and_never_calls_rlm() {
    let awaiting = start(false);
    assert_eq!(awaiting.url(), "http://engine.test:1/campaigns/c-1/history");
    let asked = awaiting.request();
    assert_eq!(asked.url, awaiting.url());
    assert_eq!(asked.bearer.as_deref(), Some("tok"));
    let first = proposal(awaiting.proceed(&reply(200, &history(false))).unwrap());
    let second = proposal(awaiting.proceed(&reply(200, &history(false))).unwrap());
    assert_eq!(first.url, "http://engine.test:1/campaigns/c-1/proposals");
    assert_eq!(first.url, second.url);
    assert_eq!(first.body.to_value(), second.body.to_value());
    let body = first.body.to_value();
    assert_eq!(body["kind"], "freeform");
    assert_eq!(body["history_digest"], "digest-1");
    assert_eq!(body.as_object().unwrap().len(), 2);
    // A host to ask changes nothing.
    let hosted = proposal(start(true).proceed(&reply(200, &history(false))).unwrap());
    assert_eq!(hosted.body.to_value(), body);
}

#[test]
fn oversized_history_uses_fixed_query_and_posts_verified_evidence() {
    let next = analysis(start(true).proceed(&reply(200, &history(true))).unwrap());
    let request = next.request.to_value();
    assert_eq!(request["query"], NEXT_VARIANT_QUERY);
    assert_eq!(request["evidence_policy"]["minimum_citations"], 1);
    assert_eq!(
        request["evidence_policy"]["allowed_source_prefix"],
        "campaign:c-1/"
    );
    assert_eq!(
        request["documents"],
        serde_json::from_str::<serde_json::Value>(
            "[{\"source\":\"campaign:c-1/history.jsonl\",\"text\":\"history\"}]"
        )
        .unwrap()
    );
    assert_eq!(request["context_name"], "Experiment campaign c-1");
    assert_eq!(request["max_steps"], 12);
    assert_eq!(request["max_model_calls"], 64);
    assert_eq!(request["max_depth"], 2);
    assert_eq!(request["wall_secs"], 180);

    let posted = next.proceed(Ok(valid_rlm())).unwrap();
    assert_eq!(posted.url, "http://engine.test:1/campaigns/c-1/proposals");
    let body = posted.body.to_value();
    assert_eq!(body["kind"], "rlm_verified");
    assert_eq!(body["history_digest"], "digest-1");
    assert_eq!(body["successful_recursions"], 1);
    assert_eq!(body["recommendation"], "Try variant B");
    assert_eq!(body["rlm_context_id"], "ctx-1");
    assert_eq!(body["rlm_run_id"], "run-1");
    assert_eq!(body["citations"][0]["chunk"], 0);

    let sent = posted.request();
    assert_eq!(sent.url, posted.url);
    assert_eq!(sent.body.unwrap().to_value(), body);
    assert_eq!(sent.bearer.as_deref(), Some("tok"));
    let output = posted
        .conclude(&reply(200, "{\"proposal\":{\"id\":7}}"))
        .unwrap();
    assert_eq!(output.to_value()["proposal"]["id"], 7);
}

#[test]
fn oversized_history_without_a_host_is_refused() {
    let error = start(false)
        .proceed(&reply(200, &history(true)))
        .unwrap_err();
    assert_eq!(
        error.message,
        "RLM analysis is unavailable outside a Core-hosted Research process"
    );
}

#[test]
fn a_failed_analysis_posts_nothing() {
    let next = analysis(start(true).decide(&json(&history(true))).unwrap());
    let failed = next.proceed(Err(Failure::new("rlm.query returned 500")));
    assert_eq!(
        failed.unwrap_err().message,
        "calling the bound rlm.query capability"
    );
    let forged = next.proceed(Ok(valid_rlm().with("input_digest", Json::text("other"))));
    assert_eq!(
        forged.unwrap_err().message,
        "RLM input digest does not match the canonical campaign history"
    );
}

#[test]
fn engine_trouble_is_told_apart() {
    let awaiting = start(true);
    let unreachable = awaiting.proceed(&Exchange::Unreachable {
        error: "refused".to_owned(),
    });
    assert_eq!(
        unreachable.unwrap_err().message,
        "reaching the research engine at http://engine.test:1/campaigns/c-1/history"
    );
    let unread = awaiting.proceed(&Exchange::Reply {
        status: 200,
        body: None,
    });
    assert_eq!(unread.unwrap_err().message, "reading engine response");
    let refused = awaiting.proceed(&reply(404, "{\"error\":\"no such campaign\"}"));
    assert_eq!(
        refused.unwrap_err().message,
        "research engine returned 404 Not Found: {\"error\":\"no such campaign\"}"
    );
}

#[test]
fn histories_must_be_complete() {
    let parse = |text: &str| HistorySnapshot::parse(&json(text));
    let message = |text: &str| parse(text).unwrap_err().message;
    assert_eq!(
        message("{\"document\":\" \"}"),
        "research history is missing a canonical document"
    );
    assert_eq!(
        message("{\"document\":\"d\",\"history_digest\":\" \"}"),
        "response is missing non-empty history_digest"
    );
    assert_eq!(
        message("{\"document\":\"d\",\"history_digest\":\"h\"}"),
        "research history is missing reasoning_required"
    );
    assert_eq!(
        message("{\"document\":\"d\",\"history_digest\":\"h\",\"reasoning_required\":true}"),
        "research history is missing attempt_count"
    );
    let both = parse(
        "{\"canonical_document\":\" c \",\"document\":\"d\",\"history_digest\":\" h \",\"reasoning_required\":true,\"attempt_count\":0}",
    )
    .unwrap();
    assert_eq!(both.document, " c ");
    assert_eq!(both.history_digest, "h");
    assert!(both.reasoning_required);
}

#[test]
fn campaign_ids_are_bounded_ascii() {
    assert!(valid_campaign_id("campaign-42_X"));
    assert!(valid_campaign_id(&"a".repeat(128)));
    for id in ["", "../secret", "a/b", "a.b", "é", "a b"] {
        assert!(!valid_campaign_id(id), "{id}");
        assert_eq!(
            validate_campaign_id(id).unwrap_err().message,
            "invalid campaign id"
        );
        assert_eq!(
            next_variant(None, None, true, id).unwrap_err().message,
            "invalid campaign id"
        );
    }
    assert!(!valid_campaign_id(&"a".repeat(129)));
    assert!(validate_campaign_id("c-1").is_ok());
}

#[test]
fn the_host_is_there_only_with_all_its_settings() {
    let client =
        CoreCapabilityClient::from_env(Some(" tok "), Some("@ryu/research"), Some("7980")).unwrap();
    assert_eq!(client.token, "tok");
    assert_eq!(client.base, "http://127.0.0.1:7980");
    assert_eq!(
        client.capability_url("rlm.query"),
        "http://127.0.0.1:7980/api/host/capability/rlm.query"
    );
    let request = client.capability_request("rlm.query", &json("{\"q\":1}"));
    assert_eq!(request.url, client.capability_url("rlm.query"));
    assert_eq!(request.bearer, "tok");
    assert_eq!(request.plugin_id, "@ryu/research");
    assert_eq!(request.body.printed(), "{\"q\":1}");
    assert_eq!(PLUGIN_ID_HEADER, "x-ryu-plugin-id");
    assert!(CoreCapabilityClient::from_env(None, Some("p"), Some("1")).is_none());
    assert!(CoreCapabilityClient::from_env(Some("t"), Some(" "), Some("1")).is_none());
    assert!(CoreCapabilityClient::from_env(Some("t"), Some("p"), Some("70000")).is_none());
    assert!(CoreCapabilityClient::from_env(Some("t"), Some("p"), None).is_none());
}

#[test]
fn the_host_answers_or_fails() {
    let client = CoreCapabilityClient::from_env(Some("t"), Some("p"), Some("1")).unwrap();
    assert_eq!(client.answer(&reply(200, "{}")).unwrap().printed(), "{}");
    assert_eq!(
        client.answer(&reply(502, "down")).unwrap_err().message,
        "rlm.query returned 502 Bad Gateway: {\"raw\":\"down\"}"
    );
    let lost = Exchange::Unreachable {
        error: "x".to_owned(),
    };
    assert_eq!(
        client.answer(&lost).unwrap_err().message,
        "reaching the Ryu capability broker"
    );
    let unread = Exchange::Reply {
        status: 200,
        body: None,
    };
    assert_eq!(
        client.answer(&unread).unwrap_err().message,
        "reading the capability response"
    );
}

#[test]
fn required_texts_are_trimmed() {
    assert_eq!(
        required_nonempty_string(&json("{\"k\":\" v \"}"), "k").unwrap(),
        "v"
    );
    assert_eq!(
        required_nonempty_string(&json("{\"k\":1}"), "k")
            .unwrap_err()
            .message,
        "response is missing non-empty k"
    );
}
