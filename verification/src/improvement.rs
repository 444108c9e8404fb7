//! Versioned records of improvement runs: what an artifact reference, an evaluation and a
//! decision are, and the lifecycle that a run passes through.
//!
//! The records carry references and digests, never prompts, conversations or credentials.

use vstd::prelude::*;
use crate::json::obj;
use crate::json::Json;
use crate::json::JsonTree;
use crate::text::blank;
use crate::text::chars_of;
use crate::text::decimal;
use crate::text::decimal_text;
use crate::text::is_blank;
use crate::text::same_text;

verus! {

/// The public protocol version for improvement-run projections.
pub const IMPROVEMENT_PROTOCOL_VERSION: &'static str = "ryu.improvement.v1";

/// Maximum length of an opaque run or artifact id.
pub const MAX_ID_LEN: usize = 128;

/// Maximum length of the human-readable improvement objective.
pub const MAX_OBJECTIVE_LEN: usize = 4000;

/// Maximum length of a timestamp.
pub const MAX_TIMESTAMP_LEN: usize = 128;

/// The thing whose behavior or quality is being improved.
#[derive(Debug, Clone, Copy, PartialEq, Eq, Structural)]
pub enum ArtifactKind {
    Skill,
    Prompt,
    MemoryRule,
    Workflow,
    Tool,
    App,
    Sidecar,
    ProviderRoute,
    ModelAdapter,
}

/// Monotonic promotion vocabulary shared by Learning and Research.
#[derive(Debug, Clone, Copy, PartialEq, Eq, Structural)]
pub enum ImprovementStatus {
    Draft,
    Baseline,
    Candidate,
    Verified,
    Approved,
    Canary,
    Promoted,
    Rejected,
    RolledBack,
}

/// An explicit decision recorded separately from the lifecycle state.
#[derive(Debug, Clone, Copy, PartialEq, Eq, Structural)]
pub enum DecisionAction {
    Promote,
    Reject,
    Rollback,
}

/// A stable reference to an artifact version. The artifact body lives with its owner.
#[derive(Debug, Clone, PartialEq, Eq)]
pub struct ArtifactRef {
    pub kind: ArtifactKind,
    pub id: String,
    pub version: Option<String>,
    pub digest: Option<String>,
}

/// References the source that caused a run to exist. It is attribution, not a permission
/// decision.
#[derive(Debug, Clone, PartialEq, Eq)]
pub struct ImprovementProvenance {
    /// `learning`, `research`, `manual`, or another registered source.
    pub source: String,
    pub source_id: Option<String>,
    pub campaign_id: Option<String>,
    pub actor_id: Option<String>,
    pub experience_ids: Vec<String>,
}

/// One bounded comparison dimension. A measured value is held by the bit pattern of its
/// double-precision number, and compares as that number does.
#[derive(Debug, Clone)]
pub struct MetricDelta {
    pub name: String,
    pub baseline: Option<u64>,
    pub candidate: Option<u64>,
    pub higher_is_better: bool,
}

/// A bounded pointer to tests, evals, policy checks, or rendered proof.
#[derive(Debug, Clone, PartialEq, Eq)]
pub struct EvidenceRef {
    pub kind: String,
    pub id: String,
    pub digest: Option<String>,
}

/// Quality and safety checks required before a candidate is verified.
#[derive(Debug, Clone, PartialEq, Eq)]
pub struct GuardrailSummary {
    pub passed: bool,
    pub failures: Vec<String>,
}

/// The measured part of an improvement run. It is absent until the candidate has been
/// evaluated.
#[derive(Debug, Clone, PartialEq)]
pub struct EvaluationSummary {
    pub metrics: Vec<MetricDelta>,
    pub evidence: Vec<EvidenceRef>,
    pub holdout_passed: Option<bool>,
}

/// A human- or policy-owned decision. The proposer must not silently become the promoter by
/// omitting this record.
#[derive(Debug, Clone, PartialEq, Eq)]
pub struct ImprovementDecision {
    pub action: DecisionAction,
    pub reason: String,
    pub actor_id: Option<String>,
    pub decided_at: String,
}

/// The small correlation projection embedded in Learning and Research records.
#[derive(Debug, Clone, PartialEq, Eq)]
pub struct ImprovementRunRef {
    pub protocol_version: String,
    pub id: String,
}

/// Canonical durable record for a single bounded improvement attempt.
#[derive(Debug, Clone, PartialEq)]
pub struct ImprovementRun {
    pub protocol_version: String,
    pub id: String,
    pub objective: String,
    pub artifact_kind: ArtifactKind,
    pub baseline: ArtifactRef,
    pub candidate: Option<ArtifactRef>,
    pub status: ImprovementStatus,
    pub provenance: ImprovementProvenance,
    pub evaluation: Option<EvaluationSummary>,
    pub guardrails: Option<GuardrailSummary>,
    pub decision: Option<ImprovementDecision>,
    pub rollback: Option<ArtifactRef>,
    pub created_at: String,
    pub updated_at: String,
}

/// Contract validation and lifecycle failures.
#[derive(Debug, Clone, PartialEq, Eq)]
pub enum ContractError {
    InvalidId { label: &'static str, value: String },
    InvalidText { label: &'static str, max_len: usize },
    ProtocolVersion(String),
    InvalidState { status: ImprovementStatus, operation: &'static str },
    Transition { from: ImprovementStatus, to: ImprovementStatus },
    Missing(&'static str),
    GuardrailsFailed,
}

/// The bit pattern of a double-precision number without its sign.
pub open spec fn magnitude(bits: u64) -> int {
    bits as int % 0x8000_0000_0000_0000
}

/// Whether a bit pattern is that of no number: its magnitude is above that of infinity.
pub open spec fn not_a_number(bits: u64) -> bool {
    magnitude(bits) > 0x7ff0_0000_0000_0000
}

/// Whether two bit patterns stand for equal numbers. What is no number equals nothing, and the two
/// zeros are equal.
pub open spec fn equal_measures(a: u64, b: u64) -> bool {
    &&& !not_a_number(a)
    &&& !not_a_number(b)
    &&& a == b || (magnitude(a) == 0 && magnitude(b) == 0)
}

/// Whether two measured values, either of which may be absent, are equal.
pub open spec fn equal_values(a: Option<u64>, b: Option<u64>) -> bool {
    match (a, b) {
        (Some(x), Some(y)) => equal_measures(x, y),
        (None, None) => true,
        _ => false,
    }
}

/// Whether two bit patterns stand for equal numbers.
fn same_measure(a: u64, b: u64) -> (r: bool)
    ensures
        r == equal_measures(a, b),
{
    let x: u64 = a % 0x8000_0000_0000_0000;
    let y: u64 = b % 0x8000_0000_0000_0000;
    x <= 0x7ff0_0000_0000_0000 && y <= 0x7ff0_0000_0000_0000 && (a == b || (x == 0 && y == 0))
}

/// Whether two measured values, either of which may be absent, are equal.
fn same_value(a: Option<u64>, b: Option<u64>) -> (r: bool)
    ensures
        r == equal_values(a, b),
{
    match (a, b) {
        (Some(x), Some(y)) => same_measure(x, y),
        (None, None) => true,
        _ => false,
    }
}

impl PartialEq for MetricDelta {
    fn eq(&self, other: &Self) -> (r: bool) {
        same_text(self.name.as_str(), other.name.as_str()) && same_value(
            self.baseline,
            other.baseline,
        ) && same_value(self.candidate, other.candidate) && self.higher_is_better
            == other.higher_is_better
    }
}

impl vstd::std_specs::cmp::PartialEqSpecImpl for MetricDelta {
    open spec fn obeys_eq_spec() -> bool {
        true
    }

    open spec fn eq_spec(&self, other: &Self) -> bool {
        &&& self.name@ == other.name@
        &&& equal_values(self.baseline, other.baseline)
        &&& equal_values(self.candidate, other.candidate)
        &&& self.higher_is_better == other.higher_is_better
    }
}

/// What a contract error says.
pub enum ContractErrorView {
    InvalidId { label: Seq<char>, value: Seq<char> },
    InvalidText { label: Seq<char>, max_len: nat },
    ProtocolVersion(Seq<char>),
    InvalidState { status: ImprovementStatus, operation: Seq<char> },
    Transition { from: ImprovementStatus, to: ImprovementStatus },
    Missing(Seq<char>),
    GuardrailsFailed,
}

impl View for ContractError {
    type V = ContractErrorView;

    open spec fn view(&self) -> ContractErrorView {
        match *self {
            ContractError::InvalidId { label, value } => ContractErrorView::InvalidId {
                label: label@,
                value: value@,
            },
            ContractError::InvalidText { label, max_len } => ContractErrorView::InvalidText {
                label: label@,
                max_len: max_len as nat,
            },
            ContractError::ProtocolVersion(version) => ContractErrorView::ProtocolVersion(version@),
            ContractError::InvalidState { status, operation } => ContractErrorView::InvalidState {
                status: status,
                operation: operation@,
            },
            ContractError::Transition { from, to } => ContractErrorView::Transition {
                from: from,
                to: to,
            },
            ContractError::Missing(field) => ContractErrorView::Missing(field@),
            ContractError::GuardrailsFailed => ContractErrorView::GuardrailsFailed,
        }
    }
}

/// What a result complains of, or nothing where it is a success.
pub open spec fn complaint<T>(r: Result<T, ContractError>) -> Option<ContractErrorView> {
    match r {
        Ok(_) => None,
        Err(e) => Some(e@),
    }
}

/// The first of two complaints, in order.
pub open spec fn or_else(
    first: Option<ContractErrorView>,
    second: Option<ContractErrorView>,
) -> Option<ContractErrorView> {
    if first is Some {
        first
    } else {
        second
    }
}

/// A complaint unless a condition holds.
pub open spec fn unless(holds: bool, complaint: ContractErrorView) -> Option<ContractErrorView> {
    if holds {
        None
    } else {
        Some(complaint)
    }
}

/// The characters of an opaque id: ASCII letters and digits, dot, underscore and hyphen.
pub open spec fn id_char(c: char) -> bool {
    ||| 'a' <= c <= 'z'
    ||| 'A' <= c <= 'Z'
    ||| '0' <= c <= '9'
    ||| c == '.'
    ||| c == '_'
    ||| c == '-'
}

/// An opaque id: from one to `MAX_ID_LEN` id characters.
pub open spec fn valid_id(s: Seq<char>) -> bool {
    &&& 0 < s.len() <= MAX_ID_LEN
    &&& forall|i: int| 0 <= i < s.len() ==> id_char(#[trigger] s[i])
}

/// A text that says something and is not too long.
pub open spec fn valid_text(s: Seq<char>, max_len: nat) -> bool {
    !blank(s) && s.len() <= max_len
}

pub open spec fn id_complaint(label: Seq<char>, value: Seq<char>) -> Option<ContractErrorView> {
    unless(valid_id(value), ContractErrorView::InvalidId { label: label, value: value })
}

pub open spec fn artifact_complaint(artifact: ArtifactRef) -> Option<ContractErrorView> {
    id_complaint("artifact"@, artifact.id@)
}

pub open spec fn text_complaint(
    label: Seq<char>,
    value: Seq<char>,
    max_len: nat,
) -> Option<ContractErrorView> {
    unless(
        valid_text(value, max_len),
        ContractErrorView::InvalidText { label: label, max_len: max_len },
    )
}

/// Whether a run holds a decision of that action.
pub open spec fn decided(run: ImprovementRun, action: DecisionAction) -> bool {
    run.decision matches Some(decision) && decision.action == action
}

/// The transitions of the lifecycle.
pub open spec fn may_follow(from: ImprovementStatus, to: ImprovementStatus) -> bool {
    match to {
        ImprovementStatus::Draft => false,
        ImprovementStatus::Baseline => from is Draft,
        ImprovementStatus::Candidate => from is Baseline,
        ImprovementStatus::Verified => from is Candidate,
        ImprovementStatus::Approved => from is Verified,
        ImprovementStatus::Canary => from is Approved,
        ImprovementStatus::Promoted => from is Canary,
        ImprovementStatus::Rejected => from is Candidate || from is Verified || from is Approved
            || from is Canary,
        ImprovementStatus::RolledBack => from is Promoted,
    }
}

/// What is missing from the measurements of a run before it counts as verified.
pub open spec fn evaluation_complaint(run: ImprovementRun) -> Option<ContractErrorView> {
    if run.evaluation is None {
        Some(ContractErrorView::Missing("evaluation"@))
    } else if run.guardrails is None {
        Some(ContractErrorView::Missing("guardrails"@))
    } else if run.evaluation->0.metrics@.len() == 0 || run.evaluation->0.evidence@.len() == 0 {
        Some(ContractErrorView::Missing("evaluation evidence"@))
    } else if !run.guardrails->0.passed {
        Some(ContractErrorView::GuardrailsFailed)
    } else {
        None
    }
}

/// Why a run may not move to a status, where it may not.
pub open spec fn transition_complaint(
    run: ImprovementRun,
    next: ImprovementStatus,
) -> Option<ContractErrorView> {
    if run.status == next {
        None
    } else if !may_follow(run.status, next) {
        Some(ContractErrorView::Transition { from: run.status, to: next })
    } else {
        match next {
            ImprovementStatus::Draft | ImprovementStatus::Baseline => None,
            ImprovementStatus::Candidate
            | ImprovementStatus::Approved
            | ImprovementStatus::Canary => unless(
                run.candidate is Some,
                ContractErrorView::Missing("candidate"@),
            ),
            ImprovementStatus::Verified => evaluation_complaint(run),
            ImprovementStatus::Promoted => or_else(
                unless(run.rollback is Some, ContractErrorView::Missing("rollback"@)),
                unless(
                    decided(run, DecisionAction::Promote),
                    ContractErrorView::Missing("promote decision"@),
                ),
            ),
            ImprovementStatus::Rejected => unless(
                decided(run, DecisionAction::Reject),
                ContractErrorView::Missing("reject decision"@),
            ),
            ImprovementStatus::RolledBack => unless(
                run.rollback is Some && decided(run, DecisionAction::Rollback),
                ContractErrorView::Missing("rollback decision"@),
            ),
        }
    }
}

/// One operation on a run.
pub enum RunStep {
    Candidate(ArtifactRef),
    Evaluation(EvaluationSummary, GuardrailSummary),
    Decision(ImprovementDecision),
    Rollback(ArtifactRef),
    Transition(ImprovementStatus),
}

/// Why an operation is refused, where it is.
pub open spec fn step_complaint(run: ImprovementRun, step: RunStep) -> Option<ContractErrorView> {
    match step {
        RunStep::Candidate(candidate) => or_else(
            artifact_complaint(candidate),
            unless(
                run.status is Draft || run.status is Baseline || run.status is Candidate,
                ContractErrorView::InvalidState {
                    status: run.status,
                    operation: "set_candidate"@,
                },
            ),
        ),
        RunStep::Evaluation(_, _) => unless(
            run.candidate is Some && run.status is Candidate,
            ContractErrorView::InvalidState { status: run.status, operation: "set_evaluation"@ },
        ),
        RunStep::Decision(decision) => or_else(
            text_complaint("decision.reason"@, decision.reason@, MAX_OBJECTIVE_LEN as nat),
            unless(
                !run.status.terminal(),
                ContractErrorView::InvalidState { status: run.status, operation: "set_decision"@ },
            ),
        ),
        RunStep::Rollback(rollback) => or_else(
            artifact_complaint(rollback),
            unless(
                run.status is Approved || run.status is Canary || run.status is Promoted,
                ContractErrorView::InvalidState { status: run.status, operation: "set_rollback"@ },
            ),
        ),
        RunStep::Transition(next) => transition_complaint(run, next),
    }
}

/// The run after an operation: unchanged where the operation is refused.
pub open spec fn step_result(run: ImprovementRun, step: RunStep) -> ImprovementRun {
    if step_complaint(run, step) is Some {
        run
    } else {
        match step {
            RunStep::Candidate(candidate) => ImprovementRun { candidate: Some(candidate), ..run },
            RunStep::Evaluation(evaluation, guardrails) => ImprovementRun {
                evaluation: Some(evaluation),
                guardrails: Some(guardrails),
                ..run
            },
            RunStep::Decision(decision) => ImprovementRun { decision: Some(decision), ..run },
            RunStep::Rollback(rollback) => ImprovementRun { rollback: Some(rollback), ..run },
            RunStep::Transition(next) => ImprovementRun { status: next, ..run },
        }
    }
}

/// The run after a series of operations.
pub open spec fn steps_result(run: ImprovementRun, steps: Seq<RunStep>) -> ImprovementRun
    decreases steps.len(),
{
    if steps.len() == 0 {
        run
    } else {
        step_result(steps_result(run, steps.drop_last()), steps.last())
    }
}

pub open spec fn optional_artifact_complaint(
    artifact: Option<ArtifactRef>,
) -> Option<ContractErrorView> {
    match artifact {
        Some(a) => artifact_complaint(a),
        None => None,
    }
}

/// Whether a run in that status has a candidate under way or in force.
pub open spec fn needs_candidate(status: ImprovementStatus) -> bool {
    status is Candidate || needs_evaluation(status)
}

/// Whether a run in that status has been verified and not turned down.
pub open spec fn needs_evaluation(status: ImprovementStatus) -> bool {
    status is Verified || needs_promotion(status)
}

/// Whether a run in that status has been approved and not turned down.
pub open spec fn needs_promotion(status: ImprovementStatus) -> bool {
    status is Approved || status is Canary || status is Promoted
}

/// The first thing that is wrong with the texts and ids of a run.
pub open spec fn structure_complaint(run: ImprovementRun) -> Option<ContractErrorView> {
    or_else(
        unless(
            run.protocol_version@ == IMPROVEMENT_PROTOCOL_VERSION@,
            ContractErrorView::ProtocolVersion(run.protocol_version@),
        ),
        or_else(
            id_complaint("improvement run"@, run.id@),
            or_else(
                text_complaint("objective"@, run.objective@, MAX_OBJECTIVE_LEN as nat),
                or_else(
                    artifact_complaint(run.baseline),
                    or_else(
                        optional_artifact_complaint(run.candidate),
                        optional_artifact_complaint(run.rollback),
                    ),
                ),
            ),
        ),
    )
}

/// The first thing that a run lacks for the status it is in.
pub open spec fn status_complaint(run: ImprovementRun) -> Option<ContractErrorView> {
    if needs_candidate(run.status) && run.candidate is None {
        Some(ContractErrorView::Missing("candidate"@))
    } else if needs_evaluation(run.status) && evaluation_complaint(run) is Some {
        evaluation_complaint(run)
    } else if needs_promotion(run.status) && !decided(run, DecisionAction::Promote) {
        Some(ContractErrorView::Missing("promote decision"@))
    } else if run.status is Rejected && !decided(run, DecisionAction::Reject) {
        Some(ContractErrorView::Missing("reject decision"@))
    } else if run.status is Promoted && run.rollback is None {
        Some(ContractErrorView::Missing("promotion rollback/decision"@))
    } else if run.status is RolledBack && !(run.rollback is Some && decided(
        run,
        DecisionAction::Rollback,
    )) {
        Some(ContractErrorView::Missing("rollback decision"@))
    } else {
        None
    }
}

/// The first thing that is wrong with a run.
pub open spec fn run_complaint(run: ImprovementRun) -> Option<ContractErrorView> {
    or_else(structure_complaint(run), status_complaint(run))
}

impl ImprovementStatus {
    /// The stable wire and storage spelling.
    pub open spec fn spelling(self) -> Seq<char> {
        match self {
            ImprovementStatus::Draft => "draft"@,
            ImprovementStatus::Baseline => "baseline"@,
            ImprovementStatus::Candidate => "candidate"@,
            ImprovementStatus::Verified => "verified"@,
            ImprovementStatus::Approved => "approved"@,
            ImprovementStatus::Canary => "canary"@,
            ImprovementStatus::Promoted => "promoted"@,
            ImprovementStatus::Rejected => "rejected"@,
            ImprovementStatus::RolledBack => "rolled_back"@,
        }
    }

    /// The name of the status in messages.
    pub open spec fn label(self) -> Seq<char> {
        match self {
            ImprovementStatus::Draft => "Draft"@,
            ImprovementStatus::Baseline => "Baseline"@,
            ImprovementStatus::Candidate => "Candidate"@,
            ImprovementStatus::Verified => "Verified"@,
            ImprovementStatus::Approved => "Approved"@,
            ImprovementStatus::Canary => "Canary"@,
            ImprovementStatus::Promoted => "Promoted"@,
            ImprovementStatus::Rejected => "Rejected"@,
            ImprovementStatus::RolledBack => "RolledBack"@,
        }
    }

    /// Whether the lifecycle ends there.
    pub open spec fn terminal(self) -> bool {
        self is Rejected || self is RolledBack
    }

    /// Stable wire/storage spelling.
    #[must_use]
    pub fn as_str(self) -> (r: &'static str)
        ensures
            r@ == self.spelling(),
    {
        match self {
            ImprovementStatus::Draft => "draft",
            ImprovementStatus::Baseline => "baseline",
            ImprovementStatus::Candidate => "candidate",
            ImprovementStatus::Verified => "verified",
            ImprovementStatus::Approved => "approved",
            ImprovementStatus::Canary => "canary",
            ImprovementStatus::Promoted => "promoted",
            ImprovementStatus::Rejected => "rejected",
            ImprovementStatus::RolledBack => "rolled_back",
        }
    }

    /// The name of the status in messages.
    fn name(self) -> (r: &'static str)
        ensures
            r@ == self.label(),
    {
        match self {
            ImprovementStatus::Draft => "Draft",
            ImprovementStatus::Baseline => "Baseline",
            ImprovementStatus::Candidate => "Candidate",
            ImprovementStatus::Verified => "Verified",
            ImprovementStatus::Approved => "Approved",
            ImprovementStatus::Canary => "Canary",
            ImprovementStatus::Promoted => "Promoted",
            ImprovementStatus::Rejected => "Rejected",
            ImprovementStatus::RolledBack => "RolledBack",
        }
    }

    /// Whether the status cannot change without creating a new run.
    #[must_use]
    pub fn is_terminal(self) -> (r: bool)
        ensures
            r == self.terminal(),
    {
        matches!(self, ImprovementStatus::Rejected | ImprovementStatus::RolledBack)
    }
}

impl Default for ImprovementProvenance {
    fn default() -> (r: Self)
        ensures
            r.source@.len() == 0,
            r.source_id is None,
            r.campaign_id is None,
            r.actor_id is None,
            r.experience_ids@.len() == 0,
    {
        ImprovementProvenance {
            source: String::new(),
            source_id: None,
            campaign_id: None,
            actor_id: None,
            experience_ids: Vec::new(),
        }
    }
}

impl Default for EvaluationSummary {
    fn default() -> (r: Self)
        ensures
            r.metrics@.len() == 0,
            r.evidence@.len() == 0,
            r.holdout_passed is None,
    {
        EvaluationSummary { metrics: Vec::new(), evidence: Vec::new(), holdout_passed: None }
    }
}

/// Whether a character may stand in an opaque id.
fn is_id_char(c: char) -> (r: bool)
    ensures
        r == id_char(c),
{
    ('a' <= c && c <= 'z') || ('A' <= c && c <= 'Z') || ('0' <= c && c <= '9') || c == '.' || c
        == '_' || c == '-'
}

/// Holds a value to the boundary of opaque ids.
pub fn validate_id(label: &'static str, value: &str) -> (r: Result<(), ContractError>)
    ensures
        complaint(r) == id_complaint(label@, value@),
{
    let chars: Vec<char> = chars_of(value);
    let mut valid: bool = chars.len() > 0 && chars.len() <= MAX_ID_LEN;
    let mut i: usize = 0;
    while valid && i < chars.len()
        invariant
            chars@ == value@,
            i <= chars@.len(),
            valid ==> 0 < chars@.len() <= MAX_ID_LEN,
            valid ==> forall|j: int| 0 <= j < i ==> id_char(#[trigger] value@[j]),
            !valid ==> !valid_id(value@),
        decreases chars@.len() - i,
    {
        if !is_id_char(chars[i]) {
            assert(!id_char(value@[i as int]));
            valid = false;
        }
        i += 1;
    }
    if valid {
        Ok(())
    } else {
        Err(ContractError::InvalidId { label: label, value: value.to_owned() })
    }
}

/// Holds a text to its bounds.
pub fn validate_text(label: &'static str, value: &str, max_len: usize) -> (r: Result<
    (),
    ContractError,
>)
    ensures
        complaint(r) == text_complaint(label@, value@, max_len as nat),
{
    if is_blank(value) || value.unicode_len() > max_len {
        Err(ContractError::InvalidText { label: label, max_len: max_len })
    } else {
        Ok(())
    }
}

/// Holds the id of an artifact to the boundary of opaque ids.
pub fn validate_artifact(artifact: &ArtifactRef) -> (r: Result<(), ContractError>)
    ensures
        complaint(r) == artifact_complaint(*artifact),
{
    validate_id("artifact", artifact.id.as_str())
}

/// Whether the run holds a decision of that action.
fn has_decision(run: &ImprovementRun, action: DecisionAction) -> (r: bool)
    ensures
        r == decided(*run, action),
{
    match &run.decision {
        Some(decision) => decision.action == action,
        None => false,
    }
}

/// Whether the lifecycle leads from one status to the other in one transition.
pub fn allowed_transition(from: ImprovementStatus, to: ImprovementStatus) -> (r: bool)
    ensures
        r == may_follow(from, to),
{
    match (from, to) {
        (ImprovementStatus::Draft, ImprovementStatus::Baseline) => true,
        (ImprovementStatus::Baseline, ImprovementStatus::Candidate) => true,
        (ImprovementStatus::Candidate, ImprovementStatus::Verified) => true,
        (ImprovementStatus::Candidate, ImprovementStatus::Rejected) => true,
        (ImprovementStatus::Verified, ImprovementStatus::Approved) => true,
        (ImprovementStatus::Verified, ImprovementStatus::Rejected) => true,
        (ImprovementStatus::Approved, ImprovementStatus::Canary) => true,
        (ImprovementStatus::Approved, ImprovementStatus::Rejected) => true,
        (ImprovementStatus::Canary, ImprovementStatus::Promoted) => true,
        (ImprovementStatus::Canary, ImprovementStatus::Rejected) => true,
        (ImprovementStatus::Promoted, ImprovementStatus::RolledBack) => true,
        _ => false,
    }
}

/// Looks for what the measurements of a run lack.
fn check_evaluation(run: &ImprovementRun) -> (r: Result<(), ContractError>)
    ensures
        complaint(r) == evaluation_complaint(*run),
{
    let evaluation: &EvaluationSummary = match &run.evaluation {
        Some(evaluation) => evaluation,
        None => {
            return Err(ContractError::Missing("evaluation"));
        },
    };
    let guardrails: &GuardrailSummary = match &run.guardrails {
        Some(guardrails) => guardrails,
        None => {
            return Err(ContractError::Missing("guardrails"));
        },
    };
    if evaluation.metrics.is_empty() || evaluation.evidence.is_empty() {
        return Err(ContractError::Missing("evaluation evidence"));
    }
    if !guardrails.passed {
        return Err(ContractError::GuardrailsFailed);
    }
    Ok(())
}

impl ImprovementRunRef {
    /// Create a reference after applying the shared opaque-id boundary.
    pub fn new(id: &str) -> (r: Result<Self, ContractError>)
        ensures
            complaint(r) == id_complaint("improvement run"@, id@),
            r matches Ok(reference) ==> reference.protocol_version@
                == IMPROVEMENT_PROTOCOL_VERSION@ && reference.id@ == id@,
    {
        validate_id("improvement run", id)?;
        Ok(
            ImprovementRunRef {
                protocol_version: IMPROVEMENT_PROTOCOL_VERSION.to_owned(),
                id: id.to_owned(),
            },
        )
    }

    /// The reference on the wire.
    pub fn to_json(&self) -> (r: Json)
        ensures
            r.tree() == obj().put("protocolVersion"@, JsonTree::Text(self.protocol_version@)).put(
                "id"@,
                JsonTree::Text(self.id@),
            ),
            r.tree() == reference_tree(self.protocol_version@, self.id@),
    {
        Json::object().with("protocolVersion", Json::text(self.protocol_version.as_str())).with(
            "id",
            Json::text(self.id.as_str()),
        )
    }
}

/// The first thing that is wrong with what a run is made of, if anything is.
pub open spec fn creation_complaint(
    id: Seq<char>,
    objective: Seq<char>,
    baseline: ArtifactRef,
    created_at: Seq<char>,
) -> Option<ContractErrorView> {
    or_else(
        id_complaint("improvement run"@, id),
        or_else(
            text_complaint("objective"@, objective, MAX_OBJECTIVE_LEN as nat),
            or_else(
                artifact_complaint(baseline),
                text_complaint("createdAt"@, created_at, MAX_TIMESTAMP_LEN as nat),
            ),
        ),
    )
}

/// A reference to a run, as JSON.
pub open spec fn reference_tree(protocol_version: Seq<char>, id: Seq<char>) -> JsonTree {
    obj().put("protocolVersion"@, JsonTree::Text(protocol_version)).put("id"@, JsonTree::Text(id))
}

/// Whether a run is as it is when it is made: a draft of what was given, with nothing recorded yet.
pub open spec fn freshly_made(
    run: ImprovementRun,
    id: Seq<char>,
    objective: Seq<char>,
    artifact_kind: ArtifactKind,
    baseline: ArtifactRef,
    provenance: ImprovementProvenance,
    created_at: Seq<char>,
) -> bool {
    &&& run.protocol_version@ == IMPROVEMENT_PROTOCOL_VERSION@
    &&& run.id@ == id
    &&& run.objective@ == objective
    &&& run.artifact_kind == artifact_kind
    &&& run.baseline == baseline
    &&& run.candidate is None
    &&& run.status is Draft
    &&& run.provenance == provenance
    &&& run.evaluation is None
    &&& run.guardrails is None
    &&& run.decision is None
    &&& run.rollback is None
    &&& run.created_at@ == created_at
    &&& run.updated_at@ == created_at
}

impl ImprovementRun {
    /// Start a new run at the draft state. No candidate or decision is active.
    pub fn new(
        id: &str,
        objective: &str,
        artifact_kind: ArtifactKind,
        baseline: ArtifactRef,
        provenance: ImprovementProvenance,
        created_at: &str,
    ) -> (r: Result<Self, ContractError>)
        ensures
            complaint(r) == or_else(
                id_complaint("improvement run"@, id@),
                or_else(
                    text_complaint("objective"@, objective@, MAX_OBJECTIVE_LEN as nat),
                    or_else(
                        artifact_complaint(baseline),
                        text_complaint("createdAt"@, created_at@, MAX_TIMESTAMP_LEN as nat),
                    ),
                ),
            ),
            complaint(r) == creation_complaint(id@, objective@, baseline, created_at@),
            r matches Ok(run) ==> {
                &&& run.protocol_version@ == IMPROVEMENT_PROTOCOL_VERSION@
                &&& run.id@ == id@
                &&& run.objective@ == objective@
                &&& run.artifact_kind == artifact_kind
                &&& run.baseline == baseline
                &&& run.candidate is None
                &&& run.status is Draft
                &&& run.provenance == provenance
                &&& run.evaluation is None
                &&& run.guardrails is None
                &&& run.decision is None
                &&& run.rollback is None
                &&& run.created_at@ == created_at@
                &&& run.updated_at@ == created_at@
                &&& run_complaint(run) is None
                &&& freshly_made(
                    run,
                    id@,
                    objective@,
                    artifact_kind,
                    baseline,
                    provenance,
                    created_at@,
                )
            },
    {
        validate_id("improvement run", id)?;
        validate_text("objective", objective, MAX_OBJECTIVE_LEN)?;
        validate_artifact(&baseline)?;
        validate_text("createdAt", created_at, MAX_TIMESTAMP_LEN)?;
        Ok(
            ImprovementRun {
                protocol_version: IMPROVEMENT_PROTOCOL_VERSION.to_owned(),
                id: id.to_owned(),
                objective: objective.to_owned(),
                artifact_kind: artifact_kind,
                baseline: baseline,
                candidate: None,
                status: ImprovementStatus::Draft,
                provenance: provenance,
                evaluation: None,
                guardrails: None,
                decision: None,
                rollback: None,
                created_at: created_at.to_owned(),
                updated_at: created_at.to_owned(),
            },
        )
    }

    /// Attach a candidate artifact before moving to `candidate`.
    pub fn set_candidate(&mut self, candidate: ArtifactRef) -> (r: Result<(), ContractError>)
        ensures
            complaint(r) == step_complaint(*old(self), RunStep::Candidate(candidate)),
            *final(self) == step_result(*old(self), RunStep::Candidate(candidate)),
    {
        validate_artifact(&candidate)?;
        if !matches!(self.status,
            ImprovementStatus::Draft | ImprovementStatus::Baseline | ImprovementStatus::Candidate) {
            return Err(
                ContractError::InvalidState { status: self.status, operation: "set_candidate" },
            );
        }
        self.candidate = Some(candidate);
        Ok(())
    }

    /// Record bounded evaluation evidence before verification.
    pub fn set_evaluation(
        &mut self,
        evaluation: EvaluationSummary,
        guardrails: GuardrailSummary,
    ) -> (r: Result<(), ContractError>)
        ensures
            complaint(r) == step_complaint(
                *old(self),
                RunStep::Evaluation(evaluation, guardrails),
            ),
            *final(self) == step_result(*old(self), RunStep::Evaluation(evaluation, guardrails)),
    {
        if self.candidate.is_none() || self.status != ImprovementStatus::Candidate {
            return Err(
                ContractError::InvalidState { status: self.status, operation: "set_evaluation" },
            );
        }
        self.evaluation = Some(evaluation);
        self.guardrails = Some(guardrails);
        Ok(())
    }

    /// Record a promotion, rejection, or rollback decision.
    pub fn set_decision(&mut self, decision: ImprovementDecision) -> (r: Result<(), ContractError>)
        ensures
            complaint(r) == step_complaint(*old(self), RunStep::Decision(decision)),
            *final(self) == step_result(*old(self), RunStep::Decision(decision)),
    {
        validate_text("decision.reason", decision.reason.as_str(), MAX_OBJECTIVE_LEN)?;
        if self.status.is_terminal() {
            return Err(
                ContractError::InvalidState { status: self.status, operation: "set_decision" },
            );
        }
        self.decision = Some(decision);
        Ok(())
    }

    /// Attach the last known-good artifact used for rollback.
    pub fn set_rollback(&mut self, rollback: ArtifactRef) -> (r: Result<(), ContractError>)
        ensures
            complaint(r) == step_complaint(*old(self), RunStep::Rollback(rollback)),
            *final(self) == step_result(*old(self), RunStep::Rollback(rollback)),
    {
        validate_artifact(&rollback)?;
        if !matches!(self.status,
            ImprovementStatus::Approved | ImprovementStatus::Canary | ImprovementStatus::Promoted) {
            return Err(
                ContractError::InvalidState { status: self.status, operation: "set_rollback" },
            );
        }
        self.rollback = Some(rollback);
        Ok(())
    }

    /// Apply one lifecycle transition. Invalid or skipped transitions fail closed, while
    /// repeating the current state is idempotent.
    pub fn transition_to(&mut self, next: ImprovementStatus) -> (r: Result<(), ContractError>)
        ensures
            complaint(r) == step_complaint(*old(self), RunStep::Transition(next)),
            *final(self) == step_result(*old(self), RunStep::Transition(next)),
    {
        if self.status == next {
            return Ok(());
        }
        if !allowed_transition(self.status, next) {
            return Err(ContractError::Transition { from: self.status, to: next });
        }
        match next {
            ImprovementStatus::Draft | ImprovementStatus::Baseline => {},
            ImprovementStatus::Candidate
            | ImprovementStatus::Approved
            | ImprovementStatus::Canary => {
                if self.candidate.is_none() {
                    return Err(ContractError::Missing("candidate"));
                }
            },
            ImprovementStatus::Verified => {
                check_evaluation(self)?;
            },
            ImprovementStatus::Promoted => {
                if self.rollback.is_none() {
                    return Err(ContractError::Missing("rollback"));
                }
                if !has_decision(self, DecisionAction::Promote) {
                    return Err(ContractError::Missing("promote decision"));
                }
            },
            ImprovementStatus::Rejected => {
                if !has_decision(self, DecisionAction::Reject) {
                    return Err(ContractError::Missing("reject decision"));
                }
            },
            ImprovementStatus::RolledBack => {
                if self.rollback.is_none() || !has_decision(self, DecisionAction::Rollback) {
                    return Err(ContractError::Missing("rollback decision"));
                }
            },
        }
        self.status = next;
        Ok(())
    }

    /// Validate all invariants, including the invariants implied by the current lifecycle
    /// state. Consumers should call this after deserializing an untrusted projection.
    pub fn validate(&self) -> (r: Result<(), ContractError>)
        ensures
            complaint(r) == run_complaint(*self),
    {
        if !same_text(self.protocol_version.as_str(), IMPROVEMENT_PROTOCOL_VERSION) {
            return Err(ContractError::ProtocolVersion(self.protocol_version.clone()));
        }
        validate_id("improvement run", self.id.as_str())?;
        validate_text("objective", self.objective.as_str(), MAX_OBJECTIVE_LEN)?;
        validate_artifact(&self.baseline)?;
        if let Some(candidate) = &self.candidate {
            validate_artifact(candidate)?;
        }
        if let Some(rollback) = &self.rollback {
            validate_artifact(rollback)?;
        }
        if matches!(self.status,
            ImprovementStatus::Candidate | ImprovementStatus::Verified | ImprovementStatus::Approved
            | ImprovementStatus::Canary | ImprovementStatus::Promoted) && self.candidate.is_none() {
            return Err(ContractError::Missing("candidate"));
        }
        if matches!(self.status,
            ImprovementStatus::Verified | ImprovementStatus::Approved | ImprovementStatus::Canary
            | ImprovementStatus::Promoted) {
            check_evaluation(self)?;
        }
        if matches!(self.status,
            ImprovementStatus::Approved | ImprovementStatus::Canary | ImprovementStatus::Promoted)
            && !has_decision(self, DecisionAction::Promote) {
            return Err(ContractError::Missing("promote decision"));
        }
        if self.status == ImprovementStatus::Rejected && !has_decision(
            self,
            DecisionAction::Reject,
        ) {
            return Err(ContractError::Missing("reject decision"));
        }
        if self.status == ImprovementStatus::Promoted && (self.rollback.is_none() || !has_decision(
            self,
            DecisionAction::Promote,
        )) {
            return Err(ContractError::Missing("promotion rollback/decision"));
        }
        if self.status == ImprovementStatus::RolledBack && (self.rollback.is_none()
            || !has_decision(self, DecisionAction::Rollback)) {
            return Err(ContractError::Missing("rollback decision"));
        }
        Ok(())
    }
}

impl ContractErrorView {
    /// The message of an error.
    pub open spec fn message(self) -> Seq<char> {
        match self {
            ContractErrorView::InvalidId { label, value } => "invalid "@ + label + " id: "@ + value,
            ContractErrorView::InvalidText { label, max_len } => "invalid "@ + label
                + "; must be non-empty and at most "@ + decimal(max_len) + " characters"@,
            ContractErrorView::ProtocolVersion(version) => {
                "unsupported improvement protocol version: "@ + version
            },
            ContractErrorView::InvalidState { status, operation } => "cannot "@ + operation
                + " while improvement run is "@ + status.label(),
            ContractErrorView::Transition { from, to } => "invalid improvement transition "@
                + from.label() + " -> "@ + to.label(),
            ContractErrorView::Missing(field) => "missing improvement field: "@ + field,
            ContractErrorView::GuardrailsFailed => "improvement guardrails did not pass"@,
        }
    }
}

impl ContractError {
    /// The message of the error.
    pub fn message(&self) -> (r: String)
        ensures
            r@ == self@.message(),
    {
        match self {
            ContractError::InvalidId { label, value } => {
                let mut m: String = "invalid ".to_owned();
                m.append(label);
                m.append(" id: ");
                m.append(value.as_str());
                m
            },
            ContractError::InvalidText { label, max_len } => {
                let mut m: String = "invalid ".to_owned();
                m.append(label);
                m.append("; must be non-empty and at most ");
                m.append(decimal_text(*max_len as u64).as_str());
                m.append(" characters");
                m
            },
            ContractError::ProtocolVersion(version) => {
                let mut m: String = "unsupported improvement protocol version: ".to_owned();
                m.append(version.as_str());
                m
            },
            ContractError::InvalidState { status, operation } => {
                let mut m: String = "cannot ".to_owned();
                m.append(operation);
                m.append(" while improvement run is ");
                m.append(status.name());
                m
            },
            ContractError::Transition { from, to } => {
                let mut m: String = "invalid improvement transition ".to_owned();
                m.append(from.name());
                m.append(" -> ");
                m.append(to.name());
                m
            },
            ContractError::Missing(field) => {
                let mut m: String = "missing improvement field: ".to_owned();
                m.append(field);
                m
            },
            ContractError::GuardrailsFailed => "improvement guardrails did not pass".to_owned(),
        }
    }
}

/// How far along the lifecycle a status is.
pub open spec fn rank(status: ImprovementStatus) -> int {
    match status {
        ImprovementStatus::Draft => 0,
        ImprovementStatus::Baseline => 1,
        ImprovementStatus::Candidate => 2,
        ImprovementStatus::Verified => 3,
        ImprovementStatus::Approved => 4,
        ImprovementStatus::Canary => 5,
        ImprovementStatus::Promoted => 6,
        ImprovementStatus::Rejected => 7,
        ImprovementStatus::RolledBack => 7,
    }
}

/// What holds of every run that came out of `ImprovementRun::new` and the operations on it:
/// its texts and ids are in order, a candidate stands behind it from `candidate` to
/// `promoted`, complete passing measurements from `verified` to `promoted`, a way back from
/// `promoted` on, and a decision behind each rejection and rollback.
pub open spec fn evidence_holds(run: ImprovementRun) -> bool {
    &&& structure_complaint(run) is None
    &&& needs_candidate(run.status) ==> run.candidate is Some
    &&& needs_evaluation(run.status) ==> evaluation_complaint(run) is None
    &&& run.status is Promoted || run.status is RolledBack ==> run.rollback is Some
    &&& run.status is Rejected ==> decided(run, DecisionAction::Reject)
    &&& run.status is RolledBack ==> decided(run, DecisionAction::Rollback)
}

/// Every operation, refused or not, keeps the evidence behind a run.
pub proof fn law_operations_keep_the_evidence(run: ImprovementRun, step: RunStep)
    requires
        evidence_holds(run),
    ensures
        evidence_holds(step_result(run, step)),
{
}

/// No series of operations leads a run out of reach of its evidence.
pub proof fn law_evidence_holds_throughout(run: ImprovementRun, steps: Seq<RunStep>)
    requires
        evidence_holds(run),
    ensures
        evidence_holds(steps_result(run, steps)),
    decreases steps.len(),
{
    if steps.len() > 0 {
        law_evidence_holds_throughout(run, steps.drop_last());
        law_operations_keep_the_evidence(steps_result(run, steps.drop_last()), steps.last());
    }
}

/// A valid run has its evidence.
pub proof fn law_a_valid_run_has_its_evidence(run: ImprovementRun)
    requires
        run_complaint(run) is None,
    ensures
        evidence_holds(run),
{
}

/// A refused operation leaves the run as it was.
pub proof fn law_refusals_change_nothing(run: ImprovementRun, step: RunStep)
    requires
        step_complaint(run, step) is Some,
    ensures
        step_result(run, step) == run,
{
}

/// Repeating the current status succeeds and changes nothing.
pub proof fn law_repeating_a_status_is_idempotent(run: ImprovementRun)
    ensures
        step_complaint(run, RunStep::Transition(run.status)) is None,
        step_result(run, RunStep::Transition(run.status)) == run,
{
}

/// The lifecycle only moves forward: an operation that changes the status raises its rank, and
/// follows an allowed transition.
pub proof fn law_status_is_monotonic(run: ImprovementRun, step: RunStep)
    ensures
        ({
            let after = step_result(run, step).status;
            after == run.status || (rank(after) > rank(run.status) && may_follow(run.status, after))
        }),
{
}

/// No operation returns a run to a draft.
pub proof fn law_draft_has_no_inbound_transition(run: ImprovementRun, step: RunStep)
    ensures
        step_result(run, step).status is Draft ==> run.status is Draft,
{
}

/// A terminal status cannot change: whatever follows, only another run can go on from there.
pub proof fn law_terminal_status_is_final(run: ImprovementRun, steps: Seq<RunStep>)
    requires
        run.status.terminal(),
    ensures
        steps_result(run, steps).status == run.status,
        steps_result(run, steps) == run,
    decreases steps.len(),
{
    if steps.len() > 0 {
        law_terminal_status_is_final(run, steps.drop_last());
    }
}

/// A status has a way out exactly when it is not terminal.
pub proof fn law_terminal_means_no_way_out(from: ImprovementStatus)
    ensures
        from.terminal() <==> forall|to: ImprovementStatus| !#[trigger] may_follow(from, to),
{
    assert(may_follow(ImprovementStatus::Draft, ImprovementStatus::Baseline));
    assert(may_follow(ImprovementStatus::Baseline, ImprovementStatus::Candidate));
    assert(may_follow(ImprovementStatus::Candidate, ImprovementStatus::Verified));
    assert(may_follow(ImprovementStatus::Verified, ImprovementStatus::Approved));
    assert(may_follow(ImprovementStatus::Approved, ImprovementStatus::Canary));
    assert(may_follow(ImprovementStatus::Canary, ImprovementStatus::Promoted));
    assert(may_follow(ImprovementStatus::Promoted, ImprovementStatus::RolledBack));
}

/// A run becomes promoted only out of its canary, with a recorded promote decision and a
/// known-good artifact to roll back to.
pub proof fn law_promotion_is_decided(run: ImprovementRun, step: RunStep)
    ensures
        step_result(run, step).status is Promoted && !(run.status is Promoted) ==> {
            &&& run.status is Canary
            &&& decided(run, DecisionAction::Promote)
            &&& run.rollback is Some
        },
{
}

/// Every operation keeps a valid run valid, but for two: approving a run without a promote
/// decision, and replacing the promote decision of a run that has been approved.
pub proof fn law_operations_keep_validity(run: ImprovementRun, step: RunStep)
    requires
        run_complaint(run) is None,
        step is Transition && step->Transition_0 is Approved ==> decided(
            run,
            DecisionAction::Promote,
        ),
        step is Decision && needs_promotion(run.status) ==> step->Decision_0.action
            == DecisionAction::Promote,
    ensures
        run_complaint(step_result(run, step)) is None,
{
}

/// No two statuses share a spelling.
pub proof fn law_spellings_differ(a: ImprovementStatus, b: ImprovementStatus)
    requires
        a.spelling() == b.spelling(),
    ensures
        a == b,
{
    reveal_strlit("draft");
    reveal_strlit("baseline");
    reveal_strlit("candidate");
    reveal_strlit("verified");
    reveal_strlit("approved");
    reveal_strlit("canary");
    reveal_strlit("promoted");
    reveal_strlit("rejected");
    reveal_strlit("rolled_back");
    assert("draft"@.len() == 5 && "draft"@[0] == 'd');
    assert("baseline"@.len() == 8 && "baseline"@[0] == 'b');
    assert("candidate"@.len() == 9 && "candidate"@[0] == 'c');
    assert("verified"@.len() == 8 && "verified"@[0] == 'v');
    assert("approved"@.len() == 8 && "approved"@[0] == 'a');
    assert("canary"@.len() == 6 && "canary"@[0] == 'c');
    assert("promoted"@.len() == 8 && "promoted"@[0] == 'p');
    assert("rejected"@.len() == 8 && "rejected"@[0] == 'r');
    assert("rolled_back"@.len() == 11 && "rolled_back"@[0] == 'r');
}

/// A run moves to another status exactly where it may: to `baseline` from `draft`; to `candidate` with
/// a candidate; to `verified` with metrics, evidence and passing guardrails; to `approved` and
/// `canary` with a candidate still; to `promoted` with a way back and a promote decision; to
/// `rejected`, from any status in between, with a reject decision and whatever its measurements; and
/// to `rolled_back` from `promoted` with a way back and a rollback decision.
pub proof fn law_transitions_are_accepted_exactly(run: ImprovementRun, next: ImprovementStatus)
    requires
        run.status != next,
    ensures
        step_complaint(run, RunStep::Transition(next)) is None <==> match next {
            ImprovementStatus::Draft => false,
            ImprovementStatus::Baseline => run.status == ImprovementStatus::Draft,
            ImprovementStatus::Candidate => run.status == ImprovementStatus::Baseline
                && run.candidate is Some,
            ImprovementStatus::Verified => {
                &&& run.status == ImprovementStatus::Candidate
                &&& run.evaluation matches Some(evaluation) && evaluation.metrics@.len() > 0
                    && evaluation.evidence@.len() > 0
                &&& run.guardrails matches Some(guardrails) && guardrails.passed
            },
            ImprovementStatus::Approved => run.status == ImprovementStatus::Verified
                && run.candidate is Some,
            ImprovementStatus::Canary => run.status == ImprovementStatus::Approved
                && run.candidate is Some,
            ImprovementStatus::Promoted => {
                &&& run.status == ImprovementStatus::Canary
                &&& run.rollback is Some
                &&& run.decision matches Some(d) && d.action == DecisionAction::Promote
            },
            ImprovementStatus::Rejected => {
                &&& run.status == ImprovementStatus::Candidate || run.status
                    == ImprovementStatus::Verified || run.status == ImprovementStatus::Approved
                    || run.status == ImprovementStatus::Canary
                &&& run.decision matches Some(d) && d.action == DecisionAction::Reject
            },
            ImprovementStatus::RolledBack => {
                &&& run.status == ImprovementStatus::Promoted
                &&& run.rollback is Some
                &&& run.decision matches Some(d) && d.action == DecisionAction::Rollback
            },
        },
{
}

/// An accepted transition sets the status and nothing else.
pub proof fn law_transitions_change_the_status_alone(run: ImprovementRun, next: ImprovementStatus)
    requires
        step_complaint(run, RunStep::Transition(next)) is None,
    ensures
        step_result(run, RunStep::Transition(next)) == (ImprovementRun { status: next, ..run }),
{
}

/// A run that has been decided against can be rejected, whatever it measured.
pub proof fn law_rejecting_needs_only_the_decision(
    run: ImprovementRun,
    evaluation: Option<EvaluationSummary>,
    guardrails: Option<GuardrailSummary>,
)
    requires
        rank(ImprovementStatus::Candidate) <= rank(run.status) <= rank(ImprovementStatus::Canary),
        run.decision matches Some(d) && d.action == DecisionAction::Reject,
    ensures
        ({
            let measured = ImprovementRun { evaluation: evaluation, guardrails: guardrails, ..run };
            let step = RunStep::Transition(ImprovementStatus::Rejected);
            &&& step_complaint(measured, step) is None
            &&& step_result(measured, step) == (ImprovementRun {
                status: ImprovementStatus::Rejected,
                ..measured
            })
        }),
{
}

/// A transition that the lifecycle does not know is refused with both statuses; one that it knows is
/// refused by naming what the run lacks, in a fixed order.
pub proof fn law_refused_transitions_say_why(run: ImprovementRun, next: ImprovementStatus)
    requires
        run.status != next,
    ensures
        ({
            let said = step_complaint(run, RunStep::Transition(next));
            let evaluation = run.evaluation;
            let guardrails = run.guardrails;
            &&& !may_follow(run.status, next) ==> said == Some(
                ContractErrorView::Transition { from: run.status, to: next },
            )
            &&& may_follow(run.status, next) && (next is Candidate || next is Approved || next is Canary)
                && run.candidate is None ==> said == Some(
                ContractErrorView::Missing("candidate"@),
            )
            &&& may_follow(run.status, next) && next is Verified ==> {
                &&& evaluation is None ==> said == Some(ContractErrorView::Missing("evaluation"@))
                &&& evaluation is Some && guardrails is None ==> said == Some(
                    ContractErrorView::Missing("guardrails"@),
                )
                &&& evaluation is Some && guardrails is Some && (evaluation->0.metrics@.len() == 0
                    || evaluation->0.evidence@.len() == 0) ==> said == Some(
                    ContractErrorView::Missing("evaluation evidence"@),
                )
                &&& evaluation is Some && guardrails is Some && evaluation->0.metrics@.len() > 0
                    && evaluation->0.evidence@.len() > 0 && !guardrails->0.passed ==> said == Some(
                    ContractErrorView::GuardrailsFailed,
                )
            }
            &&& may_follow(run.status, next) && next is Promoted && run.rollback is None ==> said
                == Some(ContractErrorView::Missing("rollback"@))
            &&& may_follow(run.status, next) && next is Promoted && run.rollback is Some && !(
            run.decision matches Some(d) && d.action == DecisionAction::Promote) ==> said == Some(
                ContractErrorView::Missing("promote decision"@),
            )
            &&& may_follow(run.status, next) && next is Rejected && !(run.decision matches Some(d)
                && d.action == DecisionAction::Reject) ==> said == Some(
                ContractErrorView::Missing("reject decision"@),
            )
            &&& may_follow(run.status, next) && next is RolledBack && !(run.rollback is Some && (
            run.decision matches Some(d) && d.action == DecisionAction::Rollback)) ==> said == Some(
                ContractErrorView::Missing("rollback decision"@),
            )
        }),
{
}

/// The lifecycle is one line from `draft` to `rolled_back`, each status following the one before it,
/// with a way to `rejected` from every status between `baseline` and `promoted`.
pub proof fn law_the_lifecycle_is_a_line(from: ImprovementStatus, to: ImprovementStatus)
    ensures
        may_follow(from, to) <==> if to == ImprovementStatus::Rejected {
            rank(ImprovementStatus::Baseline) < rank(from) < rank(ImprovementStatus::Promoted)
        } else {
            rank(to) == rank(from) + 1
        },
{
}

/// An opaque id has from 1 to 128 characters, all of them ASCII letters, digits, dots, underscores or
/// hyphens; anything else is refused under its label, with the value as it was given.
pub proof fn law_ids_are_bounded_ascii(label: Seq<char>, value: Seq<char>)
    ensures
        id_complaint(label, value) is None <==> (1 <= value.len() <= 128 && forall|i: int|
            0 <= i < value.len() ==> {
                let c = #[trigger] value[i];
                ('a' <= c <= 'z') || ('A' <= c <= 'Z') || ('0' <= c <= '9') || c == '.' || c == '_'
                    || c == '-'
            }),
        id_complaint(label, value) is Some ==> id_complaint(label, value) == Some(
            ContractErrorView::InvalidId { label: label, value: value },
        ),
{
    if id_complaint(label, value) is None {
        assert forall|i: int| 0 <= i < value.len() implies {
            let c = #[trigger] value[i];
            ('a' <= c <= 'z') || ('A' <= c <= 'Z') || ('0' <= c <= '9') || c == '.' || c == '_' || c
                == '-'
        } by {
            assert(id_char(value[i]));
        }
    }
}

/// An artifact is held to the boundary of opaque ids by its id, and by nothing else.
pub proof fn law_artifacts_are_held_to_their_ids(artifact: ArtifactRef)
    ensures
        artifact_complaint(artifact) == id_complaint("artifact"@, artifact.id@),
{
}

/// A text passes where it says something and is no longer than its bound, counted in characters.
pub proof fn law_texts_are_bounded(label: Seq<char>, value: Seq<char>, max_len: nat)
    ensures
        text_complaint(label, value, max_len) is None <==> value.len() <= max_len && exists|i: int|
            0 <= i < value.len() && !crate::text::white_space(#[trigger] value[i]),
        text_complaint(label, value, max_len) is Some ==> text_complaint(label, value, max_len)
            == Some(ContractErrorView::InvalidText { label: label, max_len: max_len }),
{
}

/// A candidate can be set until the run is verified, a rollback from its approval on, measurements
/// only while it is a candidate, and a decision as long as the run is not over; a faulty id or reason
/// is refused before that.
pub proof fn law_records_are_accepted_exactly(
    run: ImprovementRun,
    artifact: ArtifactRef,
    evaluation: EvaluationSummary,
    guardrails: GuardrailSummary,
    decision: ImprovementDecision,
)
    ensures
        step_complaint(run, RunStep::Candidate(artifact)) == (if id_complaint(
            "artifact"@,
            artifact.id@,
        ) is Some {
            id_complaint("artifact"@, artifact.id@)
        } else if rank(run.status) <= rank(ImprovementStatus::Candidate) {
            None
        } else {
            Some(
                ContractErrorView::InvalidState {
                    status: run.status,
                    operation: "set_candidate"@,
                },
            )
        }),
        step_complaint(run, RunStep::Evaluation(evaluation, guardrails)) == (if run.status
            == ImprovementStatus::Candidate && run.candidate is Some {
            None
        } else {
            Some(
                ContractErrorView::InvalidState {
                    status: run.status,
                    operation: "set_evaluation"@,
                },
            )
        }),
        step_complaint(run, RunStep::Decision(decision)) == (if text_complaint(
            "decision.reason"@,
            decision.reason@,
            4000,
        ) is Some {
            text_complaint("decision.reason"@, decision.reason@, 4000)
        } else if run.status == ImprovementStatus::Rejected || run.status
            == ImprovementStatus::RolledBack {
            Some(
                ContractErrorView::InvalidState { status: run.status, operation: "set_decision"@ },
            )
        } else {
            None
        }),
        step_complaint(run, RunStep::Rollback(artifact)) == (if id_complaint(
            "artifact"@,
            artifact.id@,
        ) is Some {
            id_complaint("artifact"@, artifact.id@)
        } else if rank(ImprovementStatus::Approved) <= rank(run.status) <= rank(
            ImprovementStatus::Promoted,
        ) {
            None
        } else {
            Some(
                ContractErrorView::InvalidState { status: run.status, operation: "set_rollback"@ },
            )
        }),
{
}

/// What is recorded stands in its place in the run, as it was given, and nothing else changes.
pub proof fn law_records_are_kept_as_given(
    run: ImprovementRun,
    artifact: ArtifactRef,
    evaluation: EvaluationSummary,
    guardrails: GuardrailSummary,
    decision: ImprovementDecision,
)
    ensures
        step_complaint(run, RunStep::Candidate(artifact)) is None ==> step_result(
            run,
            RunStep::Candidate(artifact),
        ) == (ImprovementRun { candidate: Some(artifact), ..run }),
        step_complaint(run, RunStep::Evaluation(evaluation, guardrails)) is None ==> step_result(
            run,
            RunStep::Evaluation(evaluation, guardrails),
        ) == (ImprovementRun {
            evaluation: Some(evaluation),
            guardrails: Some(guardrails),
            ..run
        }),
        step_complaint(run, RunStep::Decision(decision)) is None ==> step_result(
            run,
            RunStep::Decision(decision),
        ) == (ImprovementRun { decision: Some(decision), ..run }),
        step_complaint(run, RunStep::Rollback(artifact)) is None ==> step_result(
            run,
            RunStep::Rollback(artifact),
        ) == (ImprovementRun { rollback: Some(artifact), ..run }),
{
}

/// A run is valid exactly where its version, ids and objective are in order, and it holds all that its
/// status stands for: a candidate from `candidate` to `promoted`, complete passing measurements from
/// `verified` to `promoted`, a promote decision from `approved` to `promoted`, a way back from
/// `promoted` on, and the decision behind a rejection or a rollback.
pub proof fn law_validity_is_exact(run: ImprovementRun)
    ensures
        run_complaint(run) is None <==> {
            let r = rank(run.status);
            &&& run.protocol_version@ == "ryu.improvement.v1"@
            &&& id_complaint("improvement run"@, run.id@) is None
            &&& text_complaint("objective"@, run.objective@, 4000) is None
            &&& id_complaint("artifact"@, run.baseline.id@) is None
            &&& run.candidate matches Some(a) ==> id_complaint("artifact"@, a.id@) is None
            &&& run.rollback matches Some(a) ==> id_complaint("artifact"@, a.id@) is None
            &&& rank(ImprovementStatus::Candidate) <= r <= rank(ImprovementStatus::Promoted)
                ==> run.candidate is Some
            &&& rank(ImprovementStatus::Verified) <= r <= rank(ImprovementStatus::Promoted) ==> {
                &&& run.evaluation matches Some(e) && e.metrics@.len() > 0 && e.evidence@.len() > 0
                &&& run.guardrails matches Some(g) && g.passed
            }
            &&& rank(ImprovementStatus::Approved) <= r <= rank(ImprovementStatus::Promoted) ==> (
            run.decision matches Some(d) && d.action == DecisionAction::Promote)
            &&& run.status == ImprovementStatus::Promoted ==> run.rollback is Some
            &&& run.status == ImprovementStatus::Rejected ==> (run.decision matches Some(d)
                && d.action == DecisionAction::Reject)
            &&& run.status == ImprovementStatus::RolledBack ==> run.rollback is Some && (
            run.decision matches Some(d) && d.action == DecisionAction::Rollback)
        },
{
}

/// What is said against a run that is not valid names the first fault: its version, its ids and its
/// objective before anything that its status asks for.
pub proof fn law_invalid_runs_name_their_fault(run: ImprovementRun)
    ensures
        ({
            let version_ok = run.protocol_version@ == "ryu.improvement.v1"@;
            let id = id_complaint("improvement run"@, run.id@);
            let objective = text_complaint("objective"@, run.objective@, 4000);
            let baseline = id_complaint("artifact"@, run.baseline.id@);
            let candidate = match run.candidate {
                Some(a) => id_complaint("artifact"@, a.id@),
                None => None,
            };
            let rollback = match run.rollback {
                Some(a) => id_complaint("artifact"@, a.id@),
                None => None,
            };
            let texts_ok = version_ok && id is None && objective is None && baseline is None
                && candidate is None && rollback is None;
            let said = run_complaint(run);
            &&& !version_ok ==> said == Some(
                ContractErrorView::ProtocolVersion(run.protocol_version@),
            )
            &&& version_ok && id is Some ==> said == id
            &&& version_ok && id is None && objective is Some ==> said == objective
            &&& version_ok && id is None && objective is None && baseline is Some ==> said == baseline
            &&& version_ok && id is None && objective is None && baseline is None && candidate is Some
                ==> said == candidate
            &&& version_ok && id is None && objective is None && baseline is None && candidate is None
                && rollback is Some ==> said == rollback
            &&& texts_ok && rank(ImprovementStatus::Candidate) <= rank(run.status) <= rank(
                ImprovementStatus::Promoted,
            ) && run.candidate is None ==> said == Some(ContractErrorView::Missing("candidate"@))
            &&& texts_ok && said == Some(ContractErrorView::GuardrailsFailed) ==> run.guardrails
                is Some && !run.guardrails->0.passed
            &&& texts_ok && run.status == ImprovementStatus::Rejected && said is Some ==> said == Some(
                ContractErrorView::Missing("reject decision"@),
            )
            &&& texts_ok && run.status == ImprovementStatus::RolledBack && said is Some ==> said
                == Some(ContractErrorView::Missing("rollback decision"@))
            &&& texts_ok && run.status == ImprovementStatus::Verified && run.candidate is Some
                ==> said == step_complaint(
                ImprovementRun { status: ImprovementStatus::Candidate, ..run },
                RunStep::Transition(ImprovementStatus::Verified),
            )
        }),
{
}

/// The message of an error carries what the error is about, word for word.
pub proof fn law_messages_tell_what_is_wrong(
    label: Seq<char>,
    value: Seq<char>,
    max_len: nat,
    from: ImprovementStatus,
    to: ImprovementStatus,
)
    ensures
        (ContractErrorView::InvalidId { label: label, value: value }).message() == "invalid "@ + label
            + " id: "@ + value,
        (ContractErrorView::InvalidText { label: label, max_len: max_len }).message() == "invalid "@
            + label + "; must be non-empty and at most "@ + decimal(max_len) + " characters"@,
        ContractErrorView::ProtocolVersion(value).message()
            == "unsupported improvement protocol version: "@ + value,
        (ContractErrorView::InvalidState { status: from, operation: label }).message() == "cannot "@
            + label + " while improvement run is "@ + from.label(),
        (ContractErrorView::Transition { from: from, to: to }).message()
            == "invalid improvement transition "@ + from.label() + " -> "@ + to.label(),
        ContractErrorView::Missing(label).message() == "missing improvement field: "@ + label,
        ContractErrorView::GuardrailsFailed.message() == "improvement guardrails did not pass"@,
{
}

/// Measured values compare as numbers: a value equals itself unless it is no number, the order does not
/// matter, and only the two zeros are equal with different patterns.
pub proof fn law_measures_compare_as_numbers(a: u64, b: u64)
    ensures
        equal_measures(a, b) <==> equal_measures(b, a),
        equal_measures(a, a) <==> a as int % 0x8000_0000_0000_0000 <= 0x7ff0_0000_0000_0000,
        equal_measures(a, b) && a != b ==> a as int % 0x8000_0000_0000_0000 == 0 && b as int
            % 0x8000_0000_0000_0000 == 0,
        equal_measures(0, 0x8000_0000_0000_0000),
        equal_values(Some(a), Some(b)) <==> equal_measures(a, b),
        equal_values(None, None),
        !equal_values(Some(a), None) && !equal_values(None, Some(b)),
{
}

/// A run is made exactly where its id and that of its baseline are opaque ids, its objective says
/// something in at most 4000 characters and its time in at most 128; the first fault is the one named.
pub proof fn law_runs_are_made_exactly_where_sound(
    id: Seq<char>,
    objective: Seq<char>,
    baseline: ArtifactRef,
    created_at: Seq<char>,
)
    ensures
        ({
            let said = creation_complaint(id, objective, baseline, created_at);
            let by_id = id_complaint("improvement run"@, id);
            let by_objective = text_complaint("objective"@, objective, 4000);
            let by_baseline = id_complaint("artifact"@, baseline.id@);
            let by_time = text_complaint("createdAt"@, created_at, 128);
            &&& by_id is Some ==> said == by_id
            &&& by_id is None && by_objective is Some ==> said == by_objective
            &&& by_id is None && by_objective is None && by_baseline is Some ==> said == by_baseline
            &&& by_id is None && by_objective is None && by_baseline is None ==> said == by_time
        }),
{
}

/// A reference holds the version of the protocol and the id of the run, and nothing else.
pub proof fn law_references_hold_version_and_id(protocol_version: Seq<char>, id: Seq<char>)
    ensures
        forall|name: Seq<char>| #[trigger]
            reference_tree(protocol_version, id).field(name) == (if name == "protocolVersion"@ {
                Some(JsonTree::Text(protocol_version))
            } else if name == "id"@ {
                Some(JsonTree::Text(id))
            } else {
                None
            }),
        IMPROVEMENT_PROTOCOL_VERSION@ == "ryu.improvement.v1"@,
{
    reveal_strlit("protocolVersion");
    reveal_strlit("id");
    assert("protocolVersion"@.len() == 15 && "id"@.len() == 2);
}

/// Each status has its own spelling in records and its own name in messages; only a rejected run and
/// one that was rolled back are over.
pub proof fn law_statuses_are_spelled_and_named()
    ensures
        ImprovementStatus::Draft.spelling() == "draft"@,
        ImprovementStatus::Draft.label() == "Draft"@,
        ImprovementStatus::Baseline.spelling() == "baseline"@,
        ImprovementStatus::Baseline.label() == "Baseline"@,
        ImprovementStatus::Candidate.spelling() == "candidate"@,
        ImprovementStatus::Candidate.label() == "Candidate"@,
        ImprovementStatus::Verified.spelling() == "verified"@,
        ImprovementStatus::Verified.label() == "Verified"@,
        ImprovementStatus::Approved.spelling() == "approved"@,
        ImprovementStatus::Approved.label() == "Approved"@,
        ImprovementStatus::Canary.spelling() == "canary"@,
        ImprovementStatus::Canary.label() == "Canary"@,
        ImprovementStatus::Promoted.spelling() == "promoted"@,
        ImprovementStatus::Promoted.label() == "Promoted"@,
        ImprovementStatus::Rejected.spelling() == "rejected"@,
        ImprovementStatus::Rejected.label() == "Rejected"@,
        ImprovementStatus::RolledBack.spelling() == "rolled_back"@,
        ImprovementStatus::RolledBack.label() == "RolledBack"@,
        forall|status: ImprovementStatus| #[trigger]
            status.terminal() <==> status == ImprovementStatus::Rejected || status
                == ImprovementStatus::RolledBack,
{
}

/// Two measurements are the same where they are of the same name and direction and their values are
/// equal as numbers, both the baseline's and the candidate's.
pub proof fn law_measurements_are_compared_in_all_their_parts(a: MetricDelta, b: MetricDelta)
    ensures
        vstd::std_specs::cmp::PartialEqSpec::eq_spec(&a, &b) <==> a.name@ == b.name@
            && a.higher_is_better == b.higher_is_better && (
        a.baseline is None <==> b.baseline is None) && (a.candidate is None <==> b.candidate is None)
            && (a.baseline matches Some(x) ==> (b.baseline matches Some(y) ==> equal_measures(x, y)))
            && (a.candidate matches Some(x) ==> (b.candidate matches Some(y) ==> equal_measures(x, y))),
{
}

/// An error is seen whole, and success has none.
pub proof fn law_errors_are_seen_whole<T>(value: T, error: ContractError)
    ensures
        complaint(Ok::<T, ContractError>(value)) is None,
        complaint(Err::<T, ContractError>(error)) == Some(error@),
        match error {
            ContractError::InvalidId { label, value } => error@ == (ContractErrorView::InvalidId {
                label: label@,
                value: value@,
            }),
            ContractError::InvalidText { label, max_len } => error@ == (
            ContractErrorView::InvalidText { label: label@, max_len: max_len as nat }),
            ContractError::ProtocolVersion(version) => error@ == ContractErrorView::ProtocolVersion(
                version@,
            ),
            ContractError::InvalidState { status, operation } => error@ == (
            ContractErrorView::InvalidState { status: status, operation: operation@ }),
            ContractError::Transition { from, to } => error@ == (ContractErrorView::Transition {
                from: from,
                to: to,
            }),
            ContractError::Missing(field) => error@ == ContractErrorView::Missing(field@),
            ContractError::GuardrailsFailed => error@ == ContractErrorView::GuardrailsFailed,
        },
{
}

/// A run begins as a draft of exactly what was given, without a candidate or anything after it; what was
/// made where it could be made is valid, and can do nothing but take its baseline.
pub proof fn law_runs_begin_as_drafts(
    run: ImprovementRun,
    id: Seq<char>,
    objective: Seq<char>,
    artifact_kind: ArtifactKind,
    baseline: ArtifactRef,
    provenance: ImprovementProvenance,
    created_at: Seq<char>,
    next: ImprovementStatus,
)
    requires
        freshly_made(run, id, objective, artifact_kind, baseline, provenance, created_at),
    ensures
        run.id@ == id && run.objective@ == objective && run.artifact_kind == artifact_kind
            && run.baseline == baseline && run.provenance == provenance && run.created_at@ == created_at
            && run.updated_at@ == created_at && run.protocol_version@ == "ryu.improvement.v1"@,
        run.status == ImprovementStatus::Draft,
        run.candidate is None && run.evaluation is None && run.guardrails is None && run.decision
            is None && run.rollback is None,
        creation_complaint(id, objective, baseline, created_at) is None ==> run_complaint(run) is None,
        step_complaint(run, RunStep::Transition(next)) is None <==> next == ImprovementStatus::Draft
            || next == ImprovementStatus::Baseline,
{
}

} // verus!
