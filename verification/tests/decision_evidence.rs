use morrow::decision_evidence::{
    decision_evidence_report, default_evidence_limit, item_from_summary, retained_trace_sequence,
    store_unavailable_error, trace_attachment, trace_component_name, trace_operation_name,
    DecisionEvidenceSubjectType, DecisionEvidenceSummary, DecisionEvidenceTraceRetention,
    LoadDecisionEvidenceRequest, NativeDecisionEvidenceSubjectType, TraceAvailability,
    TraceComponent, TraceDecision, TraceOperation, TraceOutcome, TraceReadSummary, TraceRecord,
};

fn record(trace: &str, span: &str, outcome: TraceOutcome) -> TraceRecord {
    TraceRecord {
        trace_id: trace.to_owned(),
        span_id: span.to_owned(),
        component: TraceComponent::Provider,
        operation: TraceOperation::ProviderResult,
        decision: Some(TraceDecision::ConfidenceAccepted),
        outcome,
    }
}

fn summary(trace: Option<&str>, span: Option<&str>) -> DecisionEvidenceSummary {
    DecisionEvidenceSummary {
        subject_type: DecisionEvidenceSubjectType::QuietLog,
        candidate_id: None,
        candidate_state: Some("proposed".to_owned()),
        candidate_kind: None,
        route: Some("provider".to_owned()),
        reason_code: None,
        confidence_millis: Some(910),
        label_type: "kind".to_owned(),
        label_value: "calendar_event".to_owned(),
        source_excerpt_policy: "none".to_owned(),
        privacy_tier: "local".to_owned(),
        diagnostics_chat_hash_present: false,
        diagnostics_message_hash_present: true,
        created_at: 1_700_000_000,
        diagnostics_trace_id: trace.map(str::to_owned),
        diagnostics_span_id: span.map(str::to_owned),
    }
}

#[test]
fn trace_names_are_snake_case() {
    assert_eq!(trace_component_name(TraceComponent::Ood), "ood");
    assert_eq!(
        trace_operation_name(TraceOperation::CalendarCommitIdempotency),
        "calendar_commit_idempotency"
    );
}

#[test]
fn retained_sequences_keep_the_first_eight_steps_of_the_trace() {
    let mut records = Vec::new();
    for i in 0..10 {
        records.push(record("t1", &format!("s{i}"), TraceOutcome::Noop));
        records.push(record("t2", "other", TraceOutcome::Rejected));
    }
    let (retention, steps) = retained_trace_sequence("t1", "s3", &records);
    assert_eq!(retention, DecisionEvidenceTraceRetention::Retained);
    assert_eq!(steps.len(), 8);
    assert_eq!(steps[0].component, "provider");
    assert_eq!(steps[0].operation, "provider_result");
    assert_eq!(steps[0].decision.as_deref(), Some("confidence_accepted"));
    assert_eq!(steps[0].outcome, "noop");
    let (missing, none) = retained_trace_sequence("t1", "s99", &records);
    assert_eq!(missing, DecisionEvidenceTraceRetention::TraceMissing);
    assert!(none.is_empty());
}

#[test]
fn attachment_depends_on_ids_and_availability() {
    let readable = TraceReadSummary::from_read(Some((vec![record("t", "s", TraceOutcome::DryRun)], 2)));
    assert_eq!(readable.availability, TraceAvailability::Readable);
    assert_eq!(readable.skipped_lines, 2);
    let (r, steps) = trace_attachment(&Some("t".to_owned()), &Some("s".to_owned()), &readable);
    assert_eq!(r, DecisionEvidenceTraceRetention::Retained);
    assert_eq!(steps.len(), 1);
    let (r, _) = trace_attachment(&None, &Some("s".to_owned()), &readable);
    assert_eq!(r, DecisionEvidenceTraceRetention::NotRetained);
    let disabled = TraceReadSummary::without_trace_dir(false);
    assert_eq!(disabled.availability, TraceAvailability::Disabled);
    let (r, _) = trace_attachment(&Some("t".to_owned()), &Some("s".to_owned()), &disabled);
    assert_eq!(r, DecisionEvidenceTraceRetention::NotRetained);
    let missing = TraceReadSummary::without_trace_dir(true);
    let (r, _) = trace_attachment(&Some("t".to_owned()), &Some("s".to_owned()), &missing);
    assert_eq!(r, DecisionEvidenceTraceRetention::DiagnosticsMissing);
    let unreadable = TraceReadSummary::from_read(None);
    assert_eq!(unreadable.availability, TraceAvailability::Missing);
}

#[test]
fn items_copy_the_summary_and_report_hashes() {
    let traces = TraceReadSummary::without_trace_dir(true);
    let item = item_from_summary(&summary(Some("t"), Some("s")), &traces);
    assert_eq!(item.subject_type, NativeDecisionEvidenceSubjectType::QuietLog);
    assert_eq!(item.candidate_state.as_deref(), Some("proposed"));
    assert_eq!(item.confidence_millis, Some(910));
    assert!(item.has_diagnostics_hashes);
    assert_eq!(item.trace_retention, DecisionEvidenceTraceRetention::DiagnosticsMissing);
    let report = decision_evidence_report(&vec![summary(None, None)], &traces, "fresh".to_owned());
    assert_eq!(report.items.len(), 1);
    assert_eq!(report.items[0].trace_retention, DecisionEvidenceTraceRetention::NotRetained);
    assert_eq!(report.latest_eval_status, "fresh");
}

#[test]
fn request_limits_are_capped() {
    assert_eq!(default_evidence_limit(), 20);
    let request = LoadDecisionEvidenceRequest {
        limit: 500,
        created_candidate_ids: Vec::new(),
    };
    assert_eq!(request.capped_limit(), 50);
    let small = LoadDecisionEvidenceRequest {
        limit: 3,
        created_candidate_ids: Vec::new(),
    };
    assert_eq!(small.capped_limit(), 3);
    assert_eq!(store_unavailable_error(), "decision evidence store unavailable");
}
