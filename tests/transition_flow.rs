use ado_transitions::patch::{PatchOpKind, PatchOperation, PatchRequest, PatchValue};
use ado_transitions::planner::{pick_next_state, TransitionCandidate};
use ado_transitions::store::{PendingStore, PendingTransition};
use ado_transitions::transition::{
    begin_after_probe, classify_probe, complete_direct, complete_finish, decide_after_probe,
    default_reason_for, finish_transition, plan_transition, preview_transition, probe_request,
    Notification, PlannedTransition, ProbeDecision, ProbeOutcome, ServiceStep, TransitionError,
    TransitionStatus, WorkItemSnapshot,
};

const REJECTION: &str = "Field 'Resolution' is required (Microsoft.VSTS.Common.ResolvedReason)";

fn item(id: i32, state: Option<&str>, rev: Option<i32>) -> WorkItemSnapshot {
    WorkItemSnapshot {
        id,
        state: state.map(|s| s.to_string()),
        work_item_type: Some("Bug".to_string()),
        rev,
    }
}

fn advertise(id: i32, state: &str) -> TransitionCandidate {
    TransitionCandidate { id: Some(id), state_on_transition: Some(state.to_string()) }
}

fn plan_42() -> PlannedTransition {
    plan_transition(&item(42, Some("Active"), Some(7)), &vec![advertise(42, "Resolved")]).unwrap()
}

fn text_of(v: &PatchValue) -> &str {
    match v {
        PatchValue::Text(s) => s.as_str(),
        _ => panic!("not a text value"),
    }
}

fn assert_op(op: &PatchOperation, kind: PatchOpKind, path: &str) {
    assert_eq!(op.op, kind);
    assert_eq!(op.path, path);
}

fn commit_of(d: ProbeDecision) -> PatchRequest {
    match d {
        ProbeDecision::Commit(r) => r,
        ProbeDecision::AwaitFields(_) => panic!("expected a commit"),
    }
}

fn parked(store: &mut PendingStore) -> String {
    let outcome = classify_probe(&Err(REJECTION.to_string()));
    let d = decide_after_probe(&plan_42(), outcome, "corr-1".to_string(), store).unwrap();
    match d {
        ProbeDecision::AwaitFields(o) => o.response.payload.unwrap().correlation_id,
        ProbeDecision::Commit(_) => panic!("expected parking"),
    }
}

#[test]
fn next_state_comes_from_the_advertisement() {
    let list = vec![
        advertise(7, "Closed"),
        TransitionCandidate { id: None, state_on_transition: Some("X".to_string()) },
        advertise(42, "Resolved"),
        advertise(42, "Closed"),
    ];
    assert_eq!(pick_next_state(&list, 42, "Active"), Some("Resolved".to_string()));
    assert_eq!(pick_next_state(&list, 7, "Active"), Some("Closed".to_string()));
    assert_eq!(pick_next_state(&list, 99, "Active"), None);
    let silent = vec![TransitionCandidate { id: Some(5), state_on_transition: None }, advertise(5, "Done")];
    assert_eq!(pick_next_state(&silent, 5, "New"), None);
}

#[test]
fn plan_fills_defaults() {
    let snapshot = WorkItemSnapshot { id: 3, state: None, work_item_type: None, rev: None };
    let plan = plan_transition(&snapshot, &vec![advertise(3, "Active")]).unwrap();
    assert_eq!(plan.work_item_id, 3);
    assert_eq!(plan.current_state, "New");
    assert_eq!(plan.work_item_type, "Task");
    assert_eq!(plan.current_rev, 1);
    assert_eq!(plan.target_state, "Active");
    let plan = plan_42();
    assert_eq!(plan.current_state, "Active");
    assert_eq!(plan.work_item_type, "Bug");
    assert_eq!(plan.current_rev, 7);
}

#[test]
fn unlisted_item_has_no_transition_and_parks_nothing() {
    let store = PendingStore::new();
    let r = plan_transition(&item(42, Some("Active"), Some(7)), &vec![advertise(41, "Resolved")]);
    assert!(matches!(r, Err(TransitionError::NoTransitionAvailable)));
    assert_eq!(r.err().unwrap().message(), "No next state available from current state");
    assert_eq!(store.len(), 0);
    let empty = plan_transition(&item(42, Some("Active"), Some(7)), &vec![]);
    assert!(matches!(empty, Err(TransitionError::NoTransitionAvailable)));
}

#[test]
fn preview_reports_without_writing() {
    let p = preview_transition(&item(42, Some("Active"), Some(7)), &vec![advertise(42, "Resolved")]);
    assert_eq!(p.work_item_id, 42);
    assert_eq!(p.current_state, "Active");
    assert_eq!(p.target_state.as_deref(), Some("Resolved"));
    assert!(p.available);
    let none = preview_transition(&item(8, None, None), &vec![advertise(42, "Resolved")]);
    assert_eq!(none.current_state, "New");
    assert_eq!(none.target_state, None);
    assert!(!none.available);
}

#[test]
fn probe_replaces_only_the_state() {
    let r = probe_request(&plan_42());
    assert_eq!(r.work_item_id, 42);
    assert!(r.validate_only);
    assert!(!r.suppress_notifications);
    assert_eq!(r.operations.len(), 1);
    assert_op(&r.operations[0], PatchOpKind::Replace, "/fields/System.State");
    assert_eq!(text_of(&r.operations[0].value), "Resolved");
}

#[test]
fn probe_answers_are_classified() {
    assert!(matches!(classify_probe(&Ok(())), ProbeOutcome::Accepted));
    match classify_probe(&Err(REJECTION.to_string())) {
        ProbeOutcome::RequiredFields(v) => {
            assert_eq!(v, vec!["Microsoft.VSTS.Common.ResolvedReason".to_string(), "Resolution".to_string()])
        }
        _ => panic!("expected required fields"),
    }
    match classify_probe(&Err("TF401289: not allowed".to_string())) {
        ProbeOutcome::Ambiguous(m) => assert_eq!(m, "TF401289: not allowed"),
        _ => panic!("expected an ambiguous rejection"),
    }
}

#[test]
fn accepted_probe_commits_once_and_leaves_store() {
    let mut store = PendingStore::new();
    let r = commit_of(decide_after_probe(&plan_42(), ProbeOutcome::Accepted, "c".to_string(), &mut store).unwrap());
    assert_eq!(store.len(), 0);
    assert_eq!(r.work_item_id, 42);
    assert!(!r.validate_only);
    assert!(r.suppress_notifications);
    assert_eq!(r.operations.len(), 2);
    assert_op(&r.operations[0], PatchOpKind::Test, "/rev");
    assert!(matches!(r.operations[0].value, PatchValue::Int(7)));
    assert_op(&r.operations[1], PatchOpKind::Replace, "/fields/System.State");
    assert_eq!(text_of(&r.operations[1].value), "Resolved");
    let empty = decide_after_probe(&plan_42(), ProbeOutcome::RequiredFields(vec![]), "c".to_string(), &mut store);
    assert_eq!(commit_of(empty.unwrap()).operations.len(), 2);
    assert_eq!(store.len(), 0);
}

#[test]
fn accepted_probe_completes_with_one_notice() {
    let plan = plan_42();
    let mut store = PendingStore::new();
    let _ = commit_of(decide_after_probe(&plan_42(), ProbeOutcome::Accepted, "c".to_string(), &mut store).unwrap());
    let o = complete_direct(&plan, Ok(())).unwrap();
    assert_eq!(o.response.status, TransitionStatus::Completed);
    assert_eq!(o.response.status.as_str(), "completed");
    assert_eq!(o.response.target_state.as_deref(), Some("Resolved"));
    assert_eq!(o.response.work_item_id, 42);
    assert!(o.response.payload.is_none());
    assert_eq!(o.notification, Notification::TransitionComplete);
    assert_eq!(store.len(), 0);
}

#[test]
fn failed_direct_commit_is_a_service_error() {
    let e = complete_direct(&plan_42(), Err("conflict".to_string())).err().unwrap();
    assert!(matches!(e, TransitionError::ServiceError(ServiceStep::UpdateItem, _)));
    assert_eq!(e.message(), "Failed to update work item: conflict");
}

#[test]
fn required_fields_park_the_transition() {
    let mut store = PendingStore::new();
    let outcome = classify_probe(&Err(REJECTION.to_string()));
    let d = decide_after_probe(&plan_42(), outcome, "corr-1".to_string(), &mut store).unwrap();
    let o = match d {
        ProbeDecision::AwaitFields(o) => o,
        ProbeDecision::Commit(_) => panic!("expected parking"),
    };
    assert_eq!(o.notification, Notification::FieldsRequired);
    assert_eq!(o.response.status, TransitionStatus::Pending);
    assert_eq!(o.response.status.as_str(), "pending");
    assert_eq!(o.response.target_state.as_deref(), Some("Resolved"));
    let ev = o.response.payload.unwrap();
    assert_eq!(ev.correlation_id, "corr-1");
    assert_eq!(ev.work_item_id, 42);
    assert_eq!(ev.current_state, "Active");
    assert_eq!(ev.target_state, "Resolved");
    let names: Vec<&str> = ev.prompts.iter().map(|p| p.ref_name.as_str()).collect();
    assert_eq!(names, vec!["Microsoft.VSTS.Common.ResolvedReason", "Resolution"]);
    assert_eq!(store.len(), 1);
    assert!(store.contains("corr-1"));
    assert!(!store.contains("corr-2"));
}

#[test]
fn ambiguous_rejection_fails_and_parks_nothing() {
    let mut store = PendingStore::new();
    let outcome = classify_probe(&Err("TF401289: not allowed".to_string()));
    let e = decide_after_probe(&plan_42(), outcome, "c".to_string(), &mut store).err().unwrap();
    assert_eq!(
        e.message(),
        "Validation failed but no required fields detected. Full error: TF401289: not allowed"
    );
    assert_eq!(store.len(), 0);
}

#[test]
fn taken_correlation_id_is_refused() {
    let mut store = PendingStore::new();
    parked(&mut store);
    let outcome = classify_probe(&Err(REJECTION.to_string()));
    let e = decide_after_probe(&plan_42(), outcome, "corr-1".to_string(), &mut store).err().unwrap();
    assert!(matches!(e, TransitionError::CorrelationIdInUse));
    assert_eq!(e.message(), "Correlation ID already in use");
    assert_eq!(store.len(), 1);
}

#[test]
fn fresh_correlation_ids_are_drawn() {
    let mut store = PendingStore::new();
    let mut ids = Vec::new();
    for _ in 0..2 {
        let outcome = classify_probe(&Err(REJECTION.to_string()));
        match begin_after_probe(&plan_42(), outcome, &mut store).unwrap() {
            ProbeDecision::AwaitFields(o) => ids.push(o.response.payload.unwrap().correlation_id),
            ProbeDecision::Commit(_) => panic!("expected parking"),
        }
    }
    assert_eq!(ids[0].len(), 36);
    assert_ne!(ids[0], ids[1]);
    assert!(store.contains(&ids[0]) && store.contains(&ids[1]));
    assert_eq!(store.len(), 2);
}

#[test]
fn unknown_correlation_id_is_not_found() {
    let mut store = PendingStore::new();
    parked(&mut store);
    let e = finish_transition(&mut store, "nope", vec![]).err().unwrap();
    assert!(matches!(e, TransitionError::NotFound));
    assert_eq!(e.message(), "Correlation ID not found or expired");
    assert_eq!(store.len(), 1);
    assert!(store.contains("corr-1"));
}

#[test]
fn finish_commit_orders_operations() {
    let mut store = PendingStore::new();
    let id = parked(&mut store);
    let values = vec![
        ("Resolution".to_string(), serde_json::Value::from("Fixed")),
        ("Microsoft.VSTS.Common.ResolvedReason".to_string(), serde_json::Value::from(3)),
    ];
    let c = finish_transition(&mut store, &id, values).unwrap();
    assert_eq!(store.len(), 0);
    assert_eq!(c.work_item_id, 42);
    assert_eq!(c.target_state, "Resolved");
    let r = &c.request;
    assert!(!r.validate_only);
    assert!(r.suppress_notifications);
    assert_eq!(r.operations.len(), 5);
    assert_op(&r.operations[0], PatchOpKind::Test, "/rev");
    assert!(matches!(r.operations[0].value, PatchValue::Int(7)));
    assert_op(&r.operations[1], PatchOpKind::Replace, "/fields/System.State");
    assert_eq!(text_of(&r.operations[1].value), "Resolved");
    assert_op(&r.operations[2], PatchOpKind::Replace, "/fields/System.Reason");
    assert_eq!(text_of(&r.operations[2].value), "Moved to Resolved");
    assert_op(&r.operations[3], PatchOpKind::Replace, "/fields/Resolution");
    match &r.operations[3].value {
        PatchValue::Json(v) => assert_eq!(v, &serde_json::Value::from("Fixed")),
        _ => panic!("expected a caller value"),
    }
    assert_op(&r.operations[4], PatchOpKind::Replace, "/fields/Microsoft.VSTS.Common.ResolvedReason");
    match &r.operations[4].value {
        PatchValue::Json(v) => assert_eq!(v, &serde_json::Value::from(3)),
        _ => panic!("expected a caller value"),
    }
    let done = complete_finish(&c, Ok(())).unwrap();
    assert_eq!(done.status, TransitionStatus::Completed);
    assert_eq!(done.work_item_id, 42);
    assert_eq!(done.target_state, "Resolved");
}

#[test]
fn finish_without_reason_skips_it() {
    let mut store = PendingStore::new();
    let p = PendingTransition {
        work_item_id: 9,
        target_state: "Closed".to_string(),
        reason: None,
        current_rev: 2,
        required_fields: vec![],
    };
    assert!(store.insert("x".to_string(), p));
    let c = finish_transition(&mut store, "x", vec![("A.B".to_string(), serde_json::Value::Null)]).unwrap();
    let ops = &c.request.operations;
    assert_eq!(ops.len(), 3);
    assert_op(&ops[0], PatchOpKind::Test, "/rev");
    assert!(matches!(ops[0].value, PatchValue::Int(2)));
    assert_op(&ops[1], PatchOpKind::Replace, "/fields/System.State");
    assert_op(&ops[2], PatchOpKind::Replace, "/fields/A.B");
}

#[test]
fn second_finish_with_same_id_is_not_found() {
    let mut store = PendingStore::new();
    let id = parked(&mut store);
    let values = || vec![("Resolution".to_string(), serde_json::Value::from("Fixed"))];
    assert!(finish_transition(&mut store, &id, values()).is_ok());
    let second = finish_transition(&mut store, &id, values());
    assert!(matches!(second, Err(TransitionError::NotFound)));
    assert_eq!(store.len(), 0);
}

#[test]
fn failed_finish_commit_is_a_service_error() {
    let mut store = PendingStore::new();
    let id = parked(&mut store);
    let c = finish_transition(&mut store, &id, vec![]).unwrap();
    let e = complete_finish(&c, Err("revision mismatch".to_string())).err().unwrap();
    assert_eq!(e.message(), "Failed to update work item: revision mismatch");
    assert!(finish_transition(&mut store, &id, vec![]).is_err());
}

#[test]
fn store_insert_and_consume() {
    let mut store = PendingStore::new();
    let make = |n: i32| PendingTransition {
        work_item_id: n,
        target_state: "S".to_string(),
        reason: None,
        current_rev: n,
        required_fields: vec![],
    };
    assert!(store.insert("a".to_string(), make(1)));
    assert!(store.insert("b".to_string(), make(2)));
    assert!(!store.insert("a".to_string(), make(3)));
    assert_eq!(store.len(), 2);
    assert_eq!(store.consume("a").unwrap().work_item_id, 1);
    assert!(store.consume("a").is_none());
    assert_eq!(store.consume("b").unwrap().current_rev, 2);
    assert_eq!(store.len(), 0);
}

#[test]
fn reason_and_error_texts() {
    assert_eq!(default_reason_for("Bug", "Active", "Resolved"), Some("Moved to Resolved".to_string()));
    assert_eq!(
        TransitionError::ServiceError(ServiceStep::FetchItem, "404".to_string()).message(),
        "Failed to fetch work item: 404"
    );
    assert_eq!(
        TransitionError::ServiceError(ServiceStep::ListTransitions, "x".to_string()).message(),
        "Failed to get transitions: x"
    );
}
