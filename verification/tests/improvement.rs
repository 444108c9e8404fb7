use ryu_research::improvement::{
    allowed_transition, validate_artifact, validate_id, validate_text, ArtifactKind, ArtifactRef,
    ContractError, DecisionAction, EvaluationSummary, EvidenceRef, GuardrailSummary,
    ImprovementDecision, ImprovementProvenance, ImprovementRun, ImprovementRunRef,
    ImprovementStatus, MetricDelta, IMPROVEMENT_PROTOCOL_VERSION, MAX_ID_LEN, MAX_OBJECTIVE_LEN,
};

fn baseline() -> ArtifactRef {
    ArtifactRef {
        kind: ArtifactKind::Skill,
        id: "skill-baseline".to_owned(),
        version: Some("1.0.0".to_owned()),
        digest: Some("sha256-baseline".to_owned()),
    }
}

fn candidate() -> ArtifactRef {
    ArtifactRef {
        kind: ArtifactKind::Skill,
        id: "skill-candidate".to_owned(),
        version: Some("1.1.0".to_owned()),
        digest: Some("sha256-candidate".to_owned()),
    }
}

fn run() -> ImprovementRun {
    ImprovementRun::new(
        "improvement-1",
        "Reduce corrections on app documentation",
        ArtifactKind::Skill,
        baseline(),
        ImprovementProvenance {
            source: "learning".to_owned(),
            ..Default::default()
        },
        "2026-09-11T00:00:00Z",
    )
    .unwrap()
}

fn evaluation() -> EvaluationSummary {
    EvaluationSummary {
        metrics: vec![MetricDelta {
            name: "task_completion".to_owned(),
            baseline: Some(0.5_f64.to_bits()),
            candidate: Some(0.8_f64.to_bits()),
            higher_is_better: true,
        }],
        evidence: vec![EvidenceRef {
            kind: "eval".to_owned(),
            id: "eval-1".to_owned(),
            digest: None,
        }],
        holdout_passed: Some(true),
    }
}

fn guardrails(passed: bool) -> GuardrailSummary {
    GuardrailSummary {
        passed,
        failures: vec![],
    }
}

fn decision(action: DecisionAction, reason: &str) -> ImprovementDecision {
    ImprovementDecision {
        action,
        reason: reason.to_owned(),
        actor_id: Some("owner-1".to_owned()),
        decided_at: "2026-09-11T00:01:00Z".to_owned(),
    }
}

fn verified() -> ImprovementRun {
    let mut run = run();
    run.transition_to(ImprovementStatus::Baseline).unwrap();
    run.set_candidate(candidate()).unwrap();
    run.transition_to(ImprovementStatus::Candidate).unwrap();
    run.set_evaluation(evaluation(), guardrails(true)).unwrap();
    run.transition_to(ImprovementStatus::Verified).unwrap();
    run
}

const ALL: [ImprovementStatus; 9] = [
    ImprovementStatus::Draft,
    ImprovementStatus::Baseline,
    ImprovementStatus::Candidate,
    ImprovementStatus::Verified,
    ImprovementStatus::Approved,
    ImprovementStatus::Canary,
    ImprovementStatus::Promoted,
    ImprovementStatus::Rejected,
    ImprovementStatus::RolledBack,
];

#[test]
fn wire_contract_uses_versioned_camel_case_fields() {
    let reference = ImprovementRunRef::new("improvement-1").unwrap();
    let value = reference.to_json().to_value();
    assert_eq!(value["protocolVersion"], IMPROVEMENT_PROTOCOL_VERSION);
    assert_eq!(value["id"], "improvement-1");
    assert_eq!(value.as_object().unwrap().len(), 2);
    assert_eq!(ImprovementStatus::RolledBack.as_str(), "rolled_back");
}

#[test]
fn lifecycle_requires_evidence_and_rollback() {
    let mut run = run();
    run.transition_to(ImprovementStatus::Baseline).unwrap();
    run.set_candidate(candidate()).unwrap();
    run.transition_to(ImprovementStatus::Candidate).unwrap();
    assert_eq!(
        run.transition_to(ImprovementStatus::Verified),
        Err(ContractError::Missing("evaluation"))
    );
    run.set_evaluation(
        EvaluationSummary {
            metrics: vec![MetricDelta {
                name: "task_completion".to_owned(),
                baseline: Some(0.5_f64.to_bits()),
                candidate: Some(0.8_f64.to_bits()),
                higher_is_better: true,
            }],
            evidence: vec![EvidenceRef {
                kind: "eval".to_owned(),
                id: "eval-1".to_owned(),
                digest: None,
            }],
            holdout_passed: Some(true),
        },
        GuardrailSummary {
            passed: true,
            failures: vec![],
        },
    )
    .unwrap();
    run.transition_to(ImprovementStatus::Verified).unwrap();
    run.set_decision(ImprovementDecision {
        action: DecisionAction::Promote,
        reason: "holdout improved without a guardrail regression".to_owned(),
        actor_id: Some("owner-1".to_owned()),
        decided_at: "2026-09-11T00:01:00Z".to_owned(),
    })
    .unwrap();
    run.transition_to(ImprovementStatus::Approved).unwrap();
    assert_eq!(
        run.transition_to(ImprovementStatus::Promoted),
        Err(ContractError::Transition {
            from: ImprovementStatus::Approved,
            to: ImprovementStatus::Promoted,
        })
    );
    run.set_rollback(baseline()).unwrap();
    run.transition_to(ImprovementStatus::Canary).unwrap();
    run.transition_to(ImprovementStatus::Promoted).unwrap();
    run.set_decision(ImprovementDecision {
        action: DecisionAction::Rollback,
        reason: "holdout regression detected".to_owned(),
        actor_id: Some("owner-1".to_owned()),
        decided_at: "2026-09-11T00:02:00Z".to_owned(),
    })
    .unwrap();
    run.transition_to(ImprovementStatus::RolledBack).unwrap();
    run.validate().unwrap();
}

#[test]
fn invalid_ids_fail_closed() {
    assert!(ImprovementRunRef::new("../escape").is_err());
    assert!(ImprovementRunRef::new("").is_err());
    assert!(ImprovementRunRef::new("a/b").is_err());
}

#[test]
fn ids_are_bounded_ascii() {
    assert!(validate_id("x", &"a".repeat(MAX_ID_LEN)).is_ok());
    assert!(validate_id("x", &"a".repeat(MAX_ID_LEN + 1)).is_err());
    assert!(validate_id("x", "A.z_0-9").is_ok());
    assert_eq!(
        validate_id("artifact", "é"),
        Err(ContractError::InvalidId {
            label: "artifact",
            value: "é".to_owned()
        })
    );
}

#[test]
fn texts_are_bounded_and_not_blank() {
    assert!(validate_text("x", "é", 1).is_ok());
    assert!(validate_text("x", " \t\u{3000}", 10).is_err());
    assert_eq!(
        validate_text("x", "ab", 1),
        Err(ContractError::InvalidText {
            label: "x",
            max_len: 1
        })
    );
}

#[test]
fn a_new_run_is_a_valid_draft() {
    let run = run();
    assert_eq!(run.status, ImprovementStatus::Draft);
    assert_eq!(run.protocol_version, "ryu.improvement.v1");
    assert_eq!(run.created_at, run.updated_at);
    assert_eq!(run.candidate, None);
    assert_eq!(run.provenance.source, "learning");
    assert_eq!(run.validate(), Ok(()));
}

#[test]
fn a_new_run_names_its_first_fault() {
    let make = |id: &str, objective: &str, baseline: ArtifactRef, at: &str| {
        ImprovementRun::new(
            id,
            objective,
            ArtifactKind::App,
            baseline,
            ImprovementProvenance::default(),
            at,
        )
        .unwrap_err()
        .message()
    };
    let bad = ArtifactRef {
        id: "no good".to_owned(),
        ..baseline()
    };
    assert_eq!(
        make("/", "", bad.clone(), ""),
        "invalid improvement run id: /"
    );
    assert_eq!(
        make("a", " ", bad.clone(), ""),
        "invalid objective; must be non-empty and at most 4000 characters"
    );
    assert_eq!(make("a", "b", bad, ""), "invalid artifact id: no good");
    assert_eq!(
        make("a", "b", baseline(), ""),
        "invalid createdAt; must be non-empty and at most 128 characters"
    );
    assert!(validate_artifact(&baseline()).is_ok());
}

#[test]
fn only_eleven_transitions_are_allowed() {
    let mut count = 0;
    for from in ALL {
        let mut out = 0;
        for to in ALL {
            if allowed_transition(from, to) {
                count += 1;
                out += 1;
                assert_ne!(to, ImprovementStatus::Draft);
            }
        }
        assert_eq!(out == 0, from.is_terminal());
    }
    assert_eq!(count, 11);
}

#[test]
fn repeating_a_status_is_idempotent() {
    let mut run = verified();
    let before = run.clone();
    assert_eq!(run.transition_to(ImprovementStatus::Verified), Ok(()));
    assert_eq!(run, before);
}

#[test]
fn refusals_leave_the_run_as_it_was() {
    let mut run = run();
    let before = run.clone();
    assert_eq!(
        run.set_evaluation(evaluation(), guardrails(true)),
        Err(ContractError::InvalidState {
            status: ImprovementStatus::Draft,
            operation: "set_evaluation"
        })
    );
    assert_eq!(
        run.set_rollback(baseline()).unwrap_err().message(),
        "cannot set_rollback while improvement run is Draft"
    );
    assert_eq!(
        run.transition_to(ImprovementStatus::Candidate)
            .unwrap_err()
            .message(),
        "invalid improvement transition Draft -> Candidate"
    );
    assert_eq!(run, before);
}

#[test]
fn verification_needs_measurements_and_passing_guardrails() {
    let mut run = run();
    run.transition_to(ImprovementStatus::Baseline).unwrap();
    assert_eq!(
        run.transition_to(ImprovementStatus::Candidate)
            .unwrap_err()
            .message(),
        "missing improvement field: candidate"
    );
    run.set_candidate(candidate()).unwrap();
    run.transition_to(ImprovementStatus::Candidate).unwrap();
    run.set_evaluation(EvaluationSummary::default(), guardrails(true))
        .unwrap();
    assert_eq!(
        run.transition_to(ImprovementStatus::Verified),
        Err(ContractError::Missing("evaluation evidence"))
    );
    run.set_evaluation(evaluation(), guardrails(false)).unwrap();
    assert_eq!(
        run.transition_to(ImprovementStatus::Verified)
            .unwrap_err()
            .message(),
        "improvement guardrails did not pass"
    );
    run.guardrails = None;
    assert_eq!(
        run.transition_to(ImprovementStatus::Verified),
        Err(ContractError::Missing("guardrails"))
    );
}

#[test]
fn promotion_needs_a_way_back_and_a_decision() {
    let mut run = verified();
    run.transition_to(ImprovementStatus::Approved).unwrap();
    run.transition_to(ImprovementStatus::Canary).unwrap();
    assert_eq!(
        run.transition_to(ImprovementStatus::Promoted),
        Err(ContractError::Missing("rollback"))
    );
    run.set_rollback(baseline()).unwrap();
    assert_eq!(
        run.transition_to(ImprovementStatus::Promoted),
        Err(ContractError::Missing("promote decision"))
    );
    run.set_decision(decision(DecisionAction::Promote, "better"))
        .unwrap();
    run.transition_to(ImprovementStatus::Promoted).unwrap();
    assert_eq!(
        run.transition_to(ImprovementStatus::RolledBack),
        Err(ContractError::Missing("rollback decision"))
    );
    assert_eq!(run.validate(), Ok(()));
}

#[test]
fn a_rejected_run_is_final() {
    let mut run = verified();
    assert_eq!(
        run.transition_to(ImprovementStatus::Rejected),
        Err(ContractError::Missing("reject decision"))
    );
    run.set_decision(decision(DecisionAction::Reject, "worse"))
        .unwrap();
    run.transition_to(ImprovementStatus::Rejected).unwrap();
    for next in ALL {
        let moved = run.transition_to(next).is_ok();
        assert_eq!(moved, next == ImprovementStatus::Rejected);
    }
    assert!(run
        .set_decision(decision(DecisionAction::Promote, "again"))
        .is_err());
    assert!(run.set_candidate(candidate()).is_err());
    assert_eq!(run.validate(), Ok(()));
}

#[test]
fn approval_without_a_decision_is_allowed_but_not_valid() {
    let mut run = verified();
    assert_eq!(run.validate(), Ok(()));
    run.transition_to(ImprovementStatus::Approved).unwrap();
    assert_eq!(
        run.validate(),
        Err(ContractError::Missing("promote decision"))
    );
}

#[test]
fn validation_names_the_first_fault() {
    let mut wrong = run();
    wrong.protocol_version = "ryu.improvement.v0".to_owned();
    assert_eq!(
        wrong.validate().unwrap_err().message(),
        "unsupported improvement protocol version: ryu.improvement.v0"
    );
    let mut long = run();
    long.objective = "x".repeat(MAX_OBJECTIVE_LEN + 1);
    assert_eq!(
        long.validate(),
        Err(ContractError::InvalidText {
            label: "objective",
            max_len: MAX_OBJECTIVE_LEN
        })
    );
    let mut bare = run();
    bare.status = ImprovementStatus::Canary;
    assert_eq!(bare.validate(), Err(ContractError::Missing("candidate")));
    let mut promoted = verified();
    promoted
        .set_decision(decision(DecisionAction::Promote, "better"))
        .unwrap();
    promoted.status = ImprovementStatus::Promoted;
    assert_eq!(
        promoted.validate(),
        Err(ContractError::Missing("promotion rollback/decision"))
    );
}

#[test]
fn spellings_and_names_of_statuses() {
    let spellings: Vec<&str> = ALL.iter().map(|status| status.as_str()).collect();
    assert_eq!(
        spellings,
        [
            "draft",
            "baseline",
            "candidate",
            "verified",
            "approved",
            "canary",
            "promoted",
            "rejected",
            "rolled_back"
        ]
    );
    for from in ALL {
        for to in ALL {
            let error = ContractError::Transition { from, to };
            assert_eq!(
                error.message(),
                format!("invalid improvement transition {from:?} -> {to:?}")
            );
        }
    }
}

#[test]
fn metrics_compare_as_the_numbers_that_they_hold() {
    let metric = |value: Option<f64>| MetricDelta {
        name: "m".to_owned(),
        baseline: value.map(f64::to_bits),
        candidate: None,
        higher_is_better: false,
    };
    let numbers = [
        0.0,
        -0.0,
        0.5,
        -0.5,
        f64::MIN_POSITIVE,
        5e-324,
        f64::MAX,
        f64::INFINITY,
        f64::NEG_INFINITY,
        f64::NAN,
        -f64::NAN,
        f64::from_bits(0x7ff0_0000_0000_0001),
    ];
    for a in numbers {
        for b in numbers {
            assert_eq!(metric(Some(a)) == metric(Some(b)), a == b, "{a} {b}");
        }
        assert!(metric(Some(a)) != metric(None));
    }
    assert!(metric(None) == metric(None));
    let renamed = MetricDelta {
        name: "n".to_owned(),
        ..metric(None)
    };
    assert!(renamed != metric(None));
    let turned = MetricDelta {
        higher_is_better: true,
        ..metric(None)
    };
    assert!(turned != metric(None));
    let measured = MetricDelta {
        candidate: Some(0.0_f64.to_bits()),
        ..metric(None)
    };
    assert!(measured != metric(None));
}

#[test]
fn decisions_need_a_reason() {
    let mut run = run();
    assert_eq!(
        run.set_decision(decision(DecisionAction::Promote, "  ")),
        Err(ContractError::InvalidText {
            label: "decision.reason",
            max_len: MAX_OBJECTIVE_LEN
        })
    );
}
