//! Decision evidence: what the review screen shows of each stored
//! detection decision, and which diagnostics trace steps are attached to
//! it.
use vstd::prelude::*;

use crate::text::{owned, same_text};

verus! {

/// How many items a request asks for when it names no limit.
pub const DEFAULT_EVIDENCE_LIMIT: usize = 20;

/// The most items a request may ask for.
pub const MAX_EVIDENCE_LIMIT: usize = 50;

/// The most trace steps attached to one item.
pub const MAX_TRACE_SEQUENCE: usize = 8;

pub const STORE_UNAVAILABLE_ERROR: &'static str = "decision evidence store unavailable";

#[derive(Debug, Clone, Copy, PartialEq, Eq, Structural)]
pub enum TraceComponent {
    Detection,
    Parser,
    Provider,
    Schema,
    Threshold,
    Outcome,
    Storage,
    Classifier,
    Router,
    Ood,
    Lifecycle,
    Correction,
    Calendar,
    Replay,
}

/// The name a trace step shows for each component.
pub open spec fn component_name(component: TraceComponent) -> Seq<char> {
    match component {
        TraceComponent::Detection => "detection"@,
        TraceComponent::Parser => "parser"@,
        TraceComponent::Provider => "provider"@,
        TraceComponent::Schema => "schema"@,
        TraceComponent::Threshold => "threshold"@,
        TraceComponent::Outcome => "outcome"@,
        TraceComponent::Storage => "storage"@,
        TraceComponent::Classifier => "classifier"@,
        TraceComponent::Router => "router"@,
        TraceComponent::Ood => "ood"@,
        TraceComponent::Lifecycle => "lifecycle"@,
        TraceComponent::Correction => "correction"@,
        TraceComponent::Calendar => "calendar"@,
        TraceComponent::Replay => "replay"@,
    }
}

pub fn trace_component_name(component: TraceComponent) -> (r: &'static str)
    ensures
        r@ == component_name(component),
{
    match component {
        TraceComponent::Detection => "detection",
        TraceComponent::Parser => "parser",
        TraceComponent::Provider => "provider",
        TraceComponent::Schema => "schema",
        TraceComponent::Threshold => "threshold",
        TraceComponent::Outcome => "outcome",
        TraceComponent::Storage => "storage",
        TraceComponent::Classifier => "classifier",
        TraceComponent::Router => "router",
        TraceComponent::Ood => "ood",
        TraceComponent::Lifecycle => "lifecycle",
        TraceComponent::Correction => "correction",
        TraceComponent::Calendar => "calendar",
        TraceComponent::Replay => "replay",
    }
}

#[derive(Debug, Clone, Copy, PartialEq, Eq, Structural)]
pub enum TraceOperation {
    ParserDecision,
    ProviderRoute,
    ProviderResult,
    SchemaValidation,
    ThresholdDecision,
    OutcomeMaterialized,
    ClassifierScore,
    RouterDecision,
    OodCheck,
    PollEmpty,
    CursorAdvanced,
    UserCorrection,
    CandidateSuperseded,
    CandidateRescheduled,
    CandidateCancelled,
    CalendarDryRun,
    CalendarCommitIdempotency,
    ReplayRun,
}

/// The name a trace step shows for each operation.
pub open spec fn operation_name(operation: TraceOperation) -> Seq<char> {
    match operation {
        TraceOperation::ParserDecision => "parser_decision"@,
        TraceOperation::ProviderRoute => "provider_route"@,
        TraceOperation::ProviderResult => "provider_result"@,
        TraceOperation::SchemaValidation => "schema_validation"@,
        TraceOperation::ThresholdDecision => "threshold_decision"@,
        TraceOperation::OutcomeMaterialized => "outcome_materialized"@,
        TraceOperation::ClassifierScore => "classifier_score"@,
        TraceOperation::RouterDecision => "router_decision"@,
        TraceOperation::OodCheck => "ood_check"@,
        TraceOperation::PollEmpty => "poll_empty"@,
        TraceOperation::CursorAdvanced => "cursor_advanced"@,
        TraceOperation::UserCorrection => "user_correction"@,
        TraceOperation::CandidateSuperseded => "candidate_superseded"@,
        TraceOperation::CandidateRescheduled => "candidate_rescheduled"@,
        TraceOperation::CandidateCancelled => "candidate_cancelled"@,
        TraceOperation::CalendarDryRun => "calendar_dry_run"@,
        TraceOperation::CalendarCommitIdempotency => "calendar_commit_idempotency"@,
        TraceOperation::ReplayRun => "replay_run"@,
    }
}

pub fn trace_operation_name(operation: TraceOperation) -> (r: &'static str)
    ensures
        r@ == operation_name(operation),
{
    match operation {
        TraceOperation::ParserDecision => "parser_decision",
        TraceOperation::ProviderRoute => "provider_route",
        TraceOperation::ProviderResult => "provider_result",
        TraceOperation::SchemaValidation => "schema_validation",
        TraceOperation::ThresholdDecision => "threshold_decision",
        TraceOperation::OutcomeMaterialized => "outcome_materialized",
        TraceOperation::ClassifierScore => "classifier_score",
        TraceOperation::RouterDecision => "router_decision",
        TraceOperation::OodCheck => "ood_check",
        TraceOperation::PollEmpty => "poll_empty",
        TraceOperation::CursorAdvanced => "cursor_advanced",
        TraceOperation::UserCorrection => "user_correction",
        TraceOperation::CandidateSuperseded => "candidate_superseded",
        TraceOperation::CandidateRescheduled => "candidate_rescheduled",
        TraceOperation::CandidateCancelled => "candidate_cancelled",
        TraceOperation::CalendarDryRun => "calendar_dry_run",
        TraceOperation::CalendarCommitIdempotency => "calendar_commit_idempotency",
        TraceOperation::ReplayRun => "replay_run",
    }
}

#[derive(Debug, Clone, Copy, PartialEq, Eq, Structural)]
pub enum TraceDecision {
    Stop,
    Candidate,
    ProviderRoute,
    ProviderUnavailable,
    SchemaRejected,
    ConfidenceAccepted,
    ConfidenceRejected,
    ClassifierAccepted,
    ClassifierRejected,
    RouterAccepted,
    RouterFallback,
    OodAccepted,
    OodRejected,
    UserCorrected,
    LifecycleUpdated,
    ReplayCompared,
}

/// The name a trace step shows for each decision.
pub open spec fn decision_name(decision: TraceDecision) -> Seq<char> {
    match decision {
        TraceDecision::Stop => "stop"@,
        TraceDecision::Candidate => "candidate"@,
        TraceDecision::ProviderRoute => "provider_route"@,
        TraceDecision::ProviderUnavailable => "provider_unavailable"@,
        TraceDecision::SchemaRejected => "schema_rejected"@,
        TraceDecision::ConfidenceAccepted => "confidence_accepted"@,
        TraceDecision::ConfidenceRejected => "confidence_rejected"@,
        TraceDecision::ClassifierAccepted => "classifier_accepted"@,
        TraceDecision::ClassifierRejected => "classifier_rejected"@,
        TraceDecision::RouterAccepted => "router_accepted"@,
        TraceDecision::RouterFallback => "router_fallback"@,
        TraceDecision::OodAccepted => "ood_accepted"@,
        TraceDecision::OodRejected => "ood_rejected"@,
        TraceDecision::UserCorrected => "user_corrected"@,
        TraceDecision::LifecycleUpdated => "lifecycle_updated"@,
        TraceDecision::ReplayCompared => "replay_compared"@,
    }
}

pub fn trace_decision_name(decision: TraceDecision) -> (r: &'static str)
    ensures
        r@ == decision_name(decision),
{
    match decision {
        TraceDecision::Stop => "stop",
        TraceDecision::Candidate => "candidate",
        TraceDecision::ProviderRoute => "provider_route",
        TraceDecision::ProviderUnavailable => "provider_unavailable",
        TraceDecision::SchemaRejected => "schema_rejected",
        TraceDecision::ConfidenceAccepted => "confidence_accepted",
        TraceDecision::ConfidenceRejected => "confidence_rejected",
        TraceDecision::ClassifierAccepted => "classifier_accepted",
        TraceDecision::ClassifierRejected => "classifier_rejected",
        TraceDecision::RouterAccepted => "router_accepted",
        TraceDecision::RouterFallback => "router_fallback",
        TraceDecision::OodAccepted => "ood_accepted",
        TraceDecision::OodRejected => "ood_rejected",
        TraceDecision::UserCorrected => "user_corrected",
        TraceDecision::LifecycleUpdated => "lifecycle_updated",
        TraceDecision::ReplayCompared => "replay_compared",
    }
}

#[derive(Debug, Clone, Copy, PartialEq, Eq, Structural)]
pub enum TraceOutcome {
    CandidateCreated,
    QuietLogged,
    Noop,
    Rejected,
    Superseded,
    Rescheduled,
    Cancelled,
    DryRun,
    CommitIdempotent,
    ReplayRecorded,
}

/// The name a trace step shows for each outcome.
pub open spec fn outcome_name(outcome: TraceOutcome) -> Seq<char> {
    match outcome {
        TraceOutcome::CandidateCreated => "candidate_created"@,
        TraceOutcome::QuietLogged => "quiet_logged"@,
        TraceOutcome::Noop => "noop"@,
        TraceOutcome::Rejected => "rejected"@,
        TraceOutcome::Superseded => "superseded"@,
        TraceOutcome::Rescheduled => "rescheduled"@,
        TraceOutcome::Cancelled => "cancelled"@,
        TraceOutcome::DryRun => "dry_run"@,
        TraceOutcome::CommitIdempotent => "commit_idempotent"@,
        TraceOutcome::ReplayRecorded => "replay_recorded"@,
    }
}

pub fn trace_outcome_name(outcome: TraceOutcome) -> (r: &'static str)
    ensures
        r@ == outcome_name(outcome),
{
    match outcome {
        TraceOutcome::CandidateCreated => "candidate_created",
        TraceOutcome::QuietLogged => "quiet_logged",
        TraceOutcome::Noop => "noop",
        TraceOutcome::Rejected => "rejected",
        TraceOutcome::Superseded => "superseded",
        TraceOutcome::Rescheduled => "rescheduled",
        TraceOutcome::Cancelled => "cancelled",
        TraceOutcome::DryRun => "dry_run",
        TraceOutcome::CommitIdempotent => "commit_idempotent",
        TraceOutcome::ReplayRecorded => "replay_recorded",
    }
}


/// One record of the diagnostics trace: the trace and span it belongs to,
/// and what the span did.
#[derive(Debug)]
pub struct TraceRecord {
    pub trace_id: String,
    pub span_id: String,
    pub component: TraceComponent,
    pub operation: TraceOperation,
    pub decision: Option<TraceDecision>,
    pub outcome: TraceOutcome,
}

#[derive(Debug)]
pub struct DecisionTraceStep {
    pub component: String,
    pub operation: String,
    pub decision: Option<String>,
    pub outcome: String,
}

/// The content of a trace step.
pub struct TraceStepView {
    pub component: Seq<char>,
    pub operation: Seq<char>,
    pub decision: Option<Seq<char>>,
    pub outcome: Seq<char>,
}

impl View for DecisionTraceStep {
    type V = TraceStepView;

    open spec fn view(&self) -> TraceStepView {
        TraceStepView {
            component: self.component@,
            operation: self.operation@,
            decision: match self.decision {
                Some(d) => Some(d@),
                None => None,
            },
            outcome: self.outcome@,
        }
    }
}

/// The step shown for a trace record: the names of what its span did.
pub open spec fn record_step(record: TraceRecord) -> TraceStepView {
    TraceStepView {
        component: component_name(record.component),
        operation: operation_name(record.operation),
        decision: match record.decision {
            Some(d) => Some(decision_name(d)),
            None => None,
        },
        outcome: outcome_name(record.outcome),
    }
}

pub fn trace_step(record: &TraceRecord) -> (r: DecisionTraceStep)
    ensures
        r@ == record_step(*record),
{
    DecisionTraceStep {
        component: owned(trace_component_name(record.component)),
        operation: owned(trace_operation_name(record.operation)),
        decision: match record.decision {
            Some(d) => Some(owned(trace_decision_name(d))),
            None => None,
        },
        outcome: owned(trace_outcome_name(record.outcome)),
    }
}

#[derive(Debug, Clone, Copy, PartialEq, Eq, Structural)]
pub enum DecisionEvidenceTraceRetention {
    Retained,
    NotRetained,
    DiagnosticsMissing,
    TraceMissing,
}

/// The steps of the records of one trace, in record order.
pub open spec fn trace_steps(records: Seq<TraceRecord>, trace_id: Seq<char>) -> Seq<TraceStepView>
    decreases records.len(),
{
    if records.len() == 0 {
        Seq::empty()
    } else if records.last().trace_id@ == trace_id {
        trace_steps(records.drop_last(), trace_id).push(record_step(records.last()))
    } else {
        trace_steps(records.drop_last(), trace_id)
    }
}

/// At most the first `n` elements.
pub open spec fn first_n<A>(s: Seq<A>, n: nat) -> Seq<A> {
    if s.len() <= n {
        s
    } else {
        s.take(n as int)
    }
}

/// Some record belongs to the span.
pub open spec fn span_recorded(records: Seq<TraceRecord>, trace_id: Seq<char>, span_id: Seq<char>) -> bool {
    exists|i: int|
        0 <= i < records.len() && (#[trigger] records[i]).trace_id@ == trace_id
            && records[i].span_id@ == span_id
}

proof fn lemma_trace_steps_from_records(records: Seq<TraceRecord>, trace_id: Seq<char>)
    ensures
        trace_steps(records, trace_id).len() <= records.len(),
        forall|j: int|
            0 <= j < trace_steps(records, trace_id).len() ==> exists|i: int|
                0 <= i < records.len() && (#[trigger] records[i]).trace_id@ == trace_id
                    && record_step(records[i]) == #[trigger] trace_steps(records, trace_id)[j],
    decreases records.len(),
{
    if records.len() > 0 {
        let prev = records.drop_last();
        lemma_trace_steps_from_records(prev, trace_id);
        let steps = trace_steps(records, trace_id);
        let before = trace_steps(prev, trace_id);
        assert forall|j: int| 0 <= j < steps.len() implies exists|i: int|
            0 <= i < records.len() && (#[trigger] records[i]).trace_id@ == trace_id
                && record_step(records[i]) == #[trigger] steps[j] by {
            if j < before.len() {
                assert(steps[j] == before[j]);
                let i = choose|i: int|
                    0 <= i < prev.len() && (#[trigger] prev[i]).trace_id@ == trace_id
                        && record_step(prev[i]) == before[j];
                assert(records[i] == prev[i]);
            } else {
                assert(records[records.len() - 1] == records.last());
            }
        }
    }
}

/// A decision keeps at most eight trace steps, and each one is the step
/// of a record of the decision's own trace.
pub proof fn law_retained_steps_come_from_the_trace(
    records: Seq<TraceRecord>,
    trace_id: Seq<char>,
    span_id: Seq<char>,
)
    ensures
        retained_steps(records, trace_id, span_id).1.len() <= MAX_TRACE_SEQUENCE,
        forall|j: int|
            0 <= j < retained_steps(records, trace_id, span_id).1.len() ==> exists|i: int|
                0 <= i < records.len() && (#[trigger] records[i]).trace_id@ == trace_id
                    && record_step(records[i]) == #[trigger] retained_steps(
                    records,
                    trace_id,
                    span_id,
                ).1[j],
{
    lemma_trace_steps_from_records(records, trace_id);
    let all = trace_steps(records, trace_id);
    let kept = retained_steps(records, trace_id, span_id).1;
    assert forall|j: int| 0 <= j < kept.len() implies exists|i: int|
        0 <= i < records.len() && (#[trigger] records[i]).trace_id@ == trace_id && record_step(
            records[i],
        ) == #[trigger] kept[j] by {
        assert(kept[j] == all[j]);
    }
}

/// The trace steps of a decision whose span is in the trace: the first
/// eight records of its trace; a span that is not in the trace leaves
/// the decision without steps.
pub fn retained_trace_sequence(trace_id: &str, span_id: &str, records: &Vec<TraceRecord>) -> (r: (
    DecisionEvidenceTraceRetention,
    Vec<DecisionTraceStep>,
))
    ensures
        r.0 == retained_steps(records@, trace_id@, span_id@).0,
        r.1@.map_values(|s: DecisionTraceStep| s@) == retained_steps(records@, trace_id@, span_id@).1,
{
    let mut matched = false;
    let n = records.len();
    for i in 0..n
        invariant
            n == records@.len(),
            matched <==> exists|k: int|
                0 <= k < i && (#[trigger] records@[k]).trace_id@ == trace_id@
                    && records@[k].span_id@ == span_id@,
    {
        if same_text(records[i].trace_id.as_str(), trace_id) && same_text(
            records[i].span_id.as_str(),
            span_id,
        ) {
            matched = true;
        }
    }
    if !matched {
        return (DecisionEvidenceTraceRetention::TraceMissing, Vec::new());
    }
    let mut steps: Vec<DecisionTraceStep> = Vec::new();
    assert(records@.take(0) =~= Seq::<TraceRecord>::empty());
    for i in 0..n
        invariant
            n == records@.len(),
            steps@.map_values(|s: DecisionTraceStep| s@) == first_n(
                trace_steps(records@.take(i as int), trace_id@),
                MAX_TRACE_SEQUENCE as nat,
            ),
    {
        let ghost t = records@.take(i + 1);
        assert(t.drop_last() == records@.take(i as int));
        assert(t.last() == records@[i as int]);
        let ghost prev = trace_steps(records@.take(i as int), trace_id@);
        if same_text(records[i].trace_id.as_str(), trace_id) {
            if steps.len() < MAX_TRACE_SEQUENCE {
                let step = trace_step(&records[i]);
                let ghost before = steps@.map_values(|s: DecisionTraceStep| s@);
                steps.push(step);
                assert(steps@.map_values(|s: DecisionTraceStep| s@) =~= before.push(step@));
                assert(first_n(prev.push(step@), MAX_TRACE_SEQUENCE as nat) =~= first_n(
                    prev,
                    MAX_TRACE_SEQUENCE as nat,
                ).push(step@));
            } else {
                assert(first_n(prev.push(record_step(records@[i as int])), MAX_TRACE_SEQUENCE as nat)
                    =~= first_n(prev, MAX_TRACE_SEQUENCE as nat));
            }
        }
    }
    assert(records@.take(n as int) == records@);
    (DecisionEvidenceTraceRetention::Retained, steps)
}

#[derive(Debug, Clone, Copy, PartialEq, Eq, Structural)]
pub enum TraceAvailability {
    Readable,
    Disabled,
    Missing,
}

/// What was read of the diagnostics trace.
#[derive(Debug)]
pub struct TraceReadSummary {
    pub availability: TraceAvailability,
    pub records: Vec<TraceRecord>,
    pub skipped_lines: usize,
}

impl TraceReadSummary {
    /// The summary when the trace directory does not exist: diagnostics
    /// are missing when the app has a data directory, and disabled when it
    /// has none.
    pub fn without_trace_dir(app_data_dir_exists: bool) -> (r: Self)
        ensures
            r.availability == (if app_data_dir_exists {
                TraceAvailability::Missing
            } else {
                TraceAvailability::Disabled
            }),
            r.records@.len() == 0,
            r.skipped_lines == 0,
    {
        let availability = if app_data_dir_exists {
            TraceAvailability::Missing
        } else {
            TraceAvailability::Disabled
        };
        TraceReadSummary { availability, records: Vec::new(), skipped_lines: 0 }
    }

    /// The summary of reading the trace directory: its records and skipped
    /// lines, or missing diagnostics when it could not be read.
    pub fn from_read(read: Option<(Vec<TraceRecord>, usize)>) -> (r: Self)
        ensures
            read is None ==> r.availability == TraceAvailability::Missing && r.records@.len() == 0
                && r.skipped_lines == 0,
            read matches Some((records, skipped)) ==> r.availability
                == TraceAvailability::Readable && r.records@ == records@ && r.skipped_lines
                == skipped,
    {
        match read {
            Some((records, skipped_lines)) => TraceReadSummary {
                availability: TraceAvailability::Readable,
                records,
                skipped_lines,
            },
            None => TraceReadSummary {
                availability: TraceAvailability::Missing,
                records: Vec::new(),
                skipped_lines: 0,
            },
        }
    }
}

/// The steps attached to a decision whose span is recorded.
pub open spec fn retained_steps(
    records: Seq<TraceRecord>,
    trace_id: Seq<char>,
    span_id: Seq<char>,
) -> (DecisionEvidenceTraceRetention, Seq<TraceStepView>) {
    if span_recorded(records, trace_id, span_id) {
        (
            DecisionEvidenceTraceRetention::Retained,
            first_n(trace_steps(records, trace_id), MAX_TRACE_SEQUENCE as nat),
        )
    } else {
        (DecisionEvidenceTraceRetention::TraceMissing, Seq::empty())
    }
}

/// How the trace of a decision is attached: not at all without trace and
/// span ids or with diagnostics disabled; missing when diagnostics could
/// not be read; else the retained steps of its span.
pub open spec fn attachment(
    trace_id: Option<String>,
    span_id: Option<String>,
    traces: TraceReadSummary,
) -> (DecisionEvidenceTraceRetention, Seq<TraceStepView>) {
    match (trace_id, span_id) {
        (Some(t), Some(s)) => match traces.availability {
            TraceAvailability::Disabled => (DecisionEvidenceTraceRetention::NotRetained, Seq::empty()),
            TraceAvailability::Missing => (
                DecisionEvidenceTraceRetention::DiagnosticsMissing,
                Seq::empty(),
            ),
            TraceAvailability::Readable => retained_steps(traces.records@, t@, s@),
        },
        _ => (DecisionEvidenceTraceRetention::NotRetained, Seq::empty()),
    }
}

pub fn trace_attachment(
    trace_id: &Option<String>,
    span_id: &Option<String>,
    traces: &TraceReadSummary,
) -> (r: (DecisionEvidenceTraceRetention, Vec<DecisionTraceStep>))
    ensures
        r.0 == attachment(*trace_id, *span_id, *traces).0,
        r.1@.map_values(|x: DecisionTraceStep| x@) == attachment(*trace_id, *span_id, *traces).1,
{
    match (trace_id, span_id) {
        (Some(t), Some(s)) => match traces.availability {
            TraceAvailability::Disabled => (DecisionEvidenceTraceRetention::NotRetained, Vec::new()),
            TraceAvailability::Missing => (
                DecisionEvidenceTraceRetention::DiagnosticsMissing,
                Vec::new(),
            ),
            TraceAvailability::Readable => retained_trace_sequence(
                t.as_str(),
                s.as_str(),
                &traces.records,
            ),
        },
        _ => (DecisionEvidenceTraceRetention::NotRetained, Vec::new()),
    }
}

#[derive(Debug, Clone, Copy, PartialEq, Eq, Structural)]
pub enum DecisionEvidenceSubjectType {
    Candidate,
    QuietLog,
}

#[derive(Debug, Clone, Copy, PartialEq, Eq, Structural)]
pub enum NativeDecisionEvidenceSubjectType {
    Candidate,
    QuietLog,
}

pub open spec fn native_subject(t: DecisionEvidenceSubjectType) -> NativeDecisionEvidenceSubjectType {
    match t {
        DecisionEvidenceSubjectType::Candidate => NativeDecisionEvidenceSubjectType::Candidate,
        DecisionEvidenceSubjectType::QuietLog => NativeDecisionEvidenceSubjectType::QuietLog,
    }
}

pub fn subject_type(stored: DecisionEvidenceSubjectType) -> (r: NativeDecisionEvidenceSubjectType)
    ensures
        r == native_subject(stored),
        (r is Candidate) == (stored is Candidate),
        (r is QuietLog) == (stored is QuietLog),
{
    match stored {
        DecisionEvidenceSubjectType::Candidate => NativeDecisionEvidenceSubjectType::Candidate,
        DecisionEvidenceSubjectType::QuietLog => NativeDecisionEvidenceSubjectType::QuietLog,
    }
}

/// The native subject type names the stored one: a candidate stays a
/// candidate and a quiet log stays a quiet log, so distinct stored subject
/// types are told apart.
pub proof fn law_subject_type_keeps_its_name(
    a: DecisionEvidenceSubjectType,
    b: DecisionEvidenceSubjectType,
)
    ensures
        (native_subject(a) is Candidate) == (a is Candidate),
        (native_subject(a) is QuietLog) == (a is QuietLog),
        a != b ==> native_subject(a) != native_subject(b),
{
}

/// A stored decision, with its enumerated fields already in their stored
/// text form.
#[derive(Debug)]
pub struct DecisionEvidenceSummary {
    pub subject_type: DecisionEvidenceSubjectType,
    pub candidate_id: Option<String>,
    pub candidate_state: Option<String>,
    pub candidate_kind: Option<String>,
    pub route: Option<String>,
    pub reason_code: Option<String>,
    pub confidence_millis: Option<i64>,
    pub label_type: String,
    pub label_value: String,
    pub source_excerpt_policy: String,
    pub privacy_tier: String,
    pub diagnostics_chat_hash_present: bool,
    pub diagnostics_message_hash_present: bool,
    pub created_at: i64,
    pub diagnostics_trace_id: Option<String>,
    pub diagnostics_span_id: Option<String>,
}

#[derive(Debug)]
pub struct DecisionEvidenceItem {
    pub subject_type: NativeDecisionEvidenceSubjectType,
    pub candidate_id: Option<String>,
    pub candidate_state: Option<String>,
    pub candidate_kind: Option<String>,
    pub route: Option<String>,
    pub reason_code: Option<String>,
    pub confidence_millis: Option<i64>,
    pub label_type: String,
    pub label_value: String,
    pub source_excerpt_policy: String,
    pub privacy_tier: String,
    pub has_diagnostics_hashes: bool,
    pub created_at: i64,
    pub trace_retention: DecisionEvidenceTraceRetention,
    pub trace_sequence: Vec<DecisionTraceStep>,
}

pub open spec fn opt_text(o: Option<String>) -> Option<Seq<char>> {
    match o {
        Some(s) => Some(s@),
        None => None,
    }
}

fn clone_opt(o: &Option<String>) -> (r: Option<String>)
    ensures
        opt_text(r) == opt_text(*o),
{
    match o {
        Some(s) => Some(s.clone()),
        None => None,
    }
}

/// The report item for a stored decision: its fields carried over, its
/// diagnostics flag set when either hash is present, and the trace steps
/// attached to it.
pub open spec fn item_of_summary(
    r: DecisionEvidenceItem,
    summary: DecisionEvidenceSummary,
    traces: TraceReadSummary,
) -> bool {
    &&& r.subject_type == native_subject(summary.subject_type)
    &&& opt_text(r.candidate_id) == opt_text(summary.candidate_id)
    &&& opt_text(r.candidate_state) == opt_text(summary.candidate_state)
    &&& opt_text(r.candidate_kind) == opt_text(summary.candidate_kind)
    &&& opt_text(r.route) == opt_text(summary.route)
    &&& opt_text(r.reason_code) == opt_text(summary.reason_code)
    &&& r.confidence_millis == summary.confidence_millis
    &&& r.label_type@ == summary.label_type@
    &&& r.label_value@ == summary.label_value@
    &&& r.source_excerpt_policy@ == summary.source_excerpt_policy@
    &&& r.privacy_tier@ == summary.privacy_tier@
    &&& r.has_diagnostics_hashes == (summary.diagnostics_chat_hash_present
        || summary.diagnostics_message_hash_present)
    &&& r.created_at == summary.created_at
    &&& r.trace_retention == attachment(
        summary.diagnostics_trace_id,
        summary.diagnostics_span_id,
        traces,
    ).0
    &&& r.trace_sequence@.map_values(|x: DecisionTraceStep| x@) == attachment(
        summary.diagnostics_trace_id,
        summary.diagnostics_span_id,
        traces,
    ).1
}

/// The item shown for a stored decision: its fields as stored, whether
/// any diagnostics hash is kept, and its trace steps.
pub fn item_from_summary(summary: &DecisionEvidenceSummary, traces: &TraceReadSummary) -> (r:
    DecisionEvidenceItem)
    ensures
        item_of_summary(r, *summary, *traces),
        (r.subject_type is Candidate) == (summary.subject_type is Candidate),
        (r.subject_type is QuietLog) == (summary.subject_type is QuietLog),
        opt_text(r.candidate_id) == opt_text(summary.candidate_id),
        r.has_diagnostics_hashes == (summary.diagnostics_chat_hash_present
            || summary.diagnostics_message_hash_present),
        r.created_at == summary.created_at,
{
    let (trace_retention, trace_sequence) = trace_attachment(
        &summary.diagnostics_trace_id,
        &summary.diagnostics_span_id,
        traces,
    );
    DecisionEvidenceItem {
        subject_type: subject_type(summary.subject_type),
        candidate_id: clone_opt(&summary.candidate_id),
        candidate_state: clone_opt(&summary.candidate_state),
        candidate_kind: clone_opt(&summary.candidate_kind),
        route: clone_opt(&summary.route),
        reason_code: clone_opt(&summary.reason_code),
        confidence_millis: summary.confidence_millis,
        label_type: summary.label_type.clone(),
        label_value: summary.label_value.clone(),
        source_excerpt_policy: summary.source_excerpt_policy.clone(),
        privacy_tier: summary.privacy_tier.clone(),
        has_diagnostics_hashes: summary.diagnostics_chat_hash_present
            || summary.diagnostics_message_hash_present,
        created_at: summary.created_at,
        trace_retention,
        trace_sequence,
    }
}

#[derive(Debug)]
pub struct LoadDecisionEvidenceRequest {
    pub limit: usize,
    pub created_candidate_ids: Vec<String>,
}

pub fn default_evidence_limit() -> (r: usize)
    ensures
        r == DEFAULT_EVIDENCE_LIMIT,
{
    DEFAULT_EVIDENCE_LIMIT
}

impl LoadDecisionEvidenceRequest {
    /// How many items the store is asked for: the request's limit, at most
    /// fifty.
    pub fn capped_limit(&self) -> (r: usize)
        ensures
            r == (if self.limit < MAX_EVIDENCE_LIMIT {
                self.limit
            } else {
                MAX_EVIDENCE_LIMIT
            }),
    {
        if self.limit < MAX_EVIDENCE_LIMIT {
            self.limit
        } else {
            MAX_EVIDENCE_LIMIT
        }
    }
}

#[derive(Debug)]
pub struct DecisionEvidenceReport {
    pub items: Vec<DecisionEvidenceItem>,
    pub skipped_trace_line_count: usize,
    pub latest_eval_status: String,
}

/// The report of the stored decisions read for a request.
pub fn decision_evidence_report(
    summaries: &Vec<DecisionEvidenceSummary>,
    traces: &TraceReadSummary,
    latest_eval_status: String,
) -> (r: DecisionEvidenceReport)
    ensures
        r.items@.len() == summaries@.len(),
        forall|i: int|
            0 <= i < r.items@.len() ==> item_of_summary(
                #[trigger] r.items@[i],
                summaries@[i],
                *traces,
            ),
        r.skipped_trace_line_count == traces.skipped_lines,
        r.latest_eval_status@ == latest_eval_status@,
{
    let mut items: Vec<DecisionEvidenceItem> = Vec::new();
    for i in 0..summaries.len()
        invariant
            items@.len() == i,
            forall|k: int|
                0 <= k < i ==> item_of_summary(#[trigger] items@[k], summaries@[k], *traces),
    {
        items.push(item_from_summary(&summaries[i], traces));
    }
    DecisionEvidenceReport {
        items,
        skipped_trace_line_count: traces.skipped_lines,
        latest_eval_status,
    }
}

/// The error every store failure is reported as.
pub fn store_unavailable_error() -> (r: String)
    ensures
        r@ == STORE_UNAVAILABLE_ERROR@,
{
    owned(STORE_UNAVAILABLE_ERROR)
}

} // verus!
