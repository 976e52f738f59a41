//! The two-phase transition protocol.
//!
//! A transition runs through these steps, the caller performing each
//! request and handing back what the service answered:
//!
//! 1. `plan_transition`: from the item and the service's advertisement to
//!    the target state, or `NoTransitionAvailable`.
//! 2. `probe_request`: the provisional (validate-only) write of the target
//!    state; `classify_probe` reads the service's answer.
//! 3. `decide_after_probe`: when the probe is accepted, the real commit to
//!    issue at once (then `complete_direct`); when fields are required, the
//!    transition is parked in the store under a fresh correlation id and the
//!    caller is asked for values; when the rejection names no field, the
//!    transition fails.
//! 4. `finish_transition`: redeems a correlation id, taking the parked
//!    transition out of the store before anything is sent, and yields the
//!    commit (then `complete_finish`).
//!
//! The commit is guarded by the revision read when the transition began.

use vstd::prelude::*;
use crate::parse::{names_in_message, parse_required_fields_from_validation_error, views};
use crate::patch::{
    PatchRequest, commit_ops, is_request, probe_operations, set_state, state_change_ops,
    state_change_operations, append_field_updates,
};
use crate::planner::{TransitionCandidate, advertised_state, pick_next_state};
use crate::prompt::{UiFieldPrompt, is_prompt_for, prompts_for};
use crate::store::{PendingStore, PendingTransition};

verus! {

/// What the service reports of an item, as far as a transition needs it.
pub struct WorkItemSnapshot {
    pub id: i32,
    pub state: Option<String>,
    pub work_item_type: Option<String>,
    pub rev: Option<i32>,
}

/// A transition whose target state is known.
pub struct PlannedTransition {
    pub work_item_id: i32,
    pub current_state: String,
    pub work_item_type: String,
    pub current_rev: i32,
    pub target_state: String,
}

/// The request to the service that failed.
#[derive(PartialEq, Eq, Structural, Clone, Copy, Debug)]
pub enum ServiceStep {
    FetchItem,
    ListTransitions,
    UpdateItem,
}

/// Why a transition failed.
#[derive(Debug)]
pub enum TransitionError {
    /// The correlation id is unknown, or was already redeemed.
    NotFound,
    /// The service advertises no next state for the item.
    NoTransitionAvailable,
    /// The provisional write was rejected and its text names no field; the
    /// service's text is kept.
    AmbiguousValidationError(String),
    /// The freshly drawn correlation id is already in use.
    CorrelationIdInUse,
    /// A request to the service failed; its text is kept.
    ServiceError(ServiceStep, String),
}

/// Whether a transition completed or awaits field values.
#[derive(PartialEq, Eq, Structural, Clone, Copy, Debug)]
pub enum TransitionStatus {
    Completed,
    Pending,
}

/// The notice to push to the caller along with a response.
#[derive(PartialEq, Eq, Structural, Clone, Copy, Debug)]
pub enum Notification {
    /// `fields_required`, carrying the response's payload.
    FieldsRequired,
    /// `transition_complete`, carrying the item id and the target state.
    TransitionComplete,
}

/// The request for field values sent when a transition is parked.
pub struct FieldsRequiredEvent {
    pub correlation_id: String,
    pub work_item_id: i32,
    pub current_state: String,
    pub target_state: String,
    pub prompts: Vec<UiFieldPrompt>,
}

/// The answer to a request to begin a transition.
pub struct TransitionResponse {
    pub status: TransitionStatus,
    pub work_item_id: i32,
    pub target_state: Option<String>,
    pub payload: Option<FieldsRequiredEvent>,
}

/// A begun transition: the response, and the notice to push with it.
pub struct BeginOutcome {
    pub response: TransitionResponse,
    pub notification: Notification,
}

/// What a transition would do, found without writing anything.
pub struct TransitionPreview {
    pub work_item_id: i32,
    pub current_state: String,
    pub target_state: Option<String>,
    pub available: bool,
}

/// What the provisional write revealed.
pub enum ProbeOutcome {
    /// The service validated the change and found nothing missing.
    Accepted,
    /// The service demands these fields.
    RequiredFields(Vec<String>),
    /// The service rejected the change without naming a field.
    Ambiguous(String),
}

/// The step after the probe.
pub enum ProbeDecision {
    /// Issue this commit now.
    Commit(PatchRequest),
    /// The transition is parked; ask the caller for values.
    AwaitFields(BeginOutcome),
}

/// A redeemed transition: the commit to issue, and what it is for.
pub struct FinishCommit {
    pub request: PatchRequest,
    pub work_item_id: i32,
    pub target_state: String,
}

/// The answer to a finished transition.
pub struct FinishResponse {
    pub status: TransitionStatus,
    pub work_item_id: i32,
    pub target_state: String,
}

impl TransitionStatus {
    /// `completed` or `pending`.
    pub fn as_str(&self) -> (r: &'static str)
        ensures
            r@ == (match self {
                TransitionStatus::Completed => "completed"@,
                TransitionStatus::Pending => "pending"@,
            }),
    {
        match self {
            TransitionStatus::Completed => "completed",
            TransitionStatus::Pending => "pending",
        }
    }
}

/// The text of an error.
pub open spec fn error_message(e: TransitionError) -> Seq<char> {
    match e {
        TransitionError::NotFound => "Correlation ID not found or expired"@,
        TransitionError::NoTransitionAvailable => "No next state available from current state"@,
        TransitionError::AmbiguousValidationError(m) => "Validation failed but no required fields detected. Full error: "@
            + m@,
        TransitionError::CorrelationIdInUse => "Correlation ID already in use"@,
        TransitionError::ServiceError(step, m) => match step {
            ServiceStep::FetchItem => "Failed to fetch work item: "@ + m@,
            ServiceStep::ListTransitions => "Failed to get transitions: "@ + m@,
            ServiceStep::UpdateItem => "Failed to update work item: "@ + m@,
        },
    }
}

impl TransitionError {
    /// The text of the error, for the caller.
    pub fn message(&self) -> (r: String)
        ensures
            r@ == error_message(*self),
    {
        match self {
            TransitionError::NotFound => String::from_str("Correlation ID not found or expired"),
            TransitionError::NoTransitionAvailable => String::from_str(
                "No next state available from current state",
            ),
            TransitionError::AmbiguousValidationError(m) => String::from_str(
                "Validation failed but no required fields detected. Full error: ",
            ).concat(m.as_str()),
            TransitionError::CorrelationIdInUse => String::from_str("Correlation ID already in use"),
            TransitionError::ServiceError(step, m) => match step {
                ServiceStep::FetchItem => String::from_str("Failed to fetch work item: ").concat(
                    m.as_str(),
                ),
                ServiceStep::ListTransitions => String::from_str(
                    "Failed to get transitions: ",
                ).concat(m.as_str()),
                ServiceStep::UpdateItem => String::from_str("Failed to update work item: ").concat(
                    m.as_str(),
                ),
            },
        }
    }
}

/// The item's state, `New` when the service reports none.
pub open spec fn current_state_of(item: WorkItemSnapshot) -> Seq<char> {
    match item.state {
        Some(s) => s@,
        None => "New"@,
    }
}

/// The item's type, `Task` when the service reports none.
pub open spec fn work_item_type_of(item: WorkItemSnapshot) -> Seq<char> {
    match item.work_item_type {
        Some(s) => s@,
        None => "Task"@,
    }
}

/// The item's revision, 1 when the service reports none.
pub open spec fn revision_of(item: WorkItemSnapshot) -> i32 {
    match item.rev {
        Some(r) => r,
        None => 1,
    }
}

/// The reason recorded for a move to `to`.
pub open spec fn default_reason(to: Seq<char>) -> Seq<char> {
    "Moved to "@ + to
}

pub open spec fn opt_view(o: Option<String>) -> Option<Seq<char>> {
    match o {
        Some(s) => Some(s@),
        None => None,
    }
}

/// `p` plans the move of `item` to `target`.
pub open spec fn is_plan_for(p: PlannedTransition, item: WorkItemSnapshot, target: Seq<char>) -> bool {
    &&& p.work_item_id == item.id
    &&& p.current_state@ == current_state_of(item)
    &&& p.work_item_type@ == work_item_type_of(item)
    &&& p.current_rev == revision_of(item)
    &&& p.target_state@ == target
}

/// `ps` prompts for `names`, one each, in order.
pub open spec fn prompts_match(ps: Seq<UiFieldPrompt>, names: Seq<Seq<char>>) -> bool {
    &&& ps.len() == names.len()
    &&& forall|i: int| 0 <= i < names.len() ==> is_prompt_for(#[trigger] ps[i], names[i])
}

/// `p` parks `plan`, awaiting values for `names`.
pub open spec fn is_pending_for(p: PendingTransition, plan: PlannedTransition, names: Seq<Seq<char>>) -> bool {
    &&& p.work_item_id == plan.work_item_id
    &&& p.target_state@ == plan.target_state@
    &&& p.reason is Some
    &&& p.reason->0@ == default_reason(plan.target_state@)
    &&& p.current_rev == plan.current_rev
    &&& prompts_match(p.required_fields@, names)
}

/// The field names an outcome demands; none unless fields are required.
pub open spec fn demanded(outcome: ProbeOutcome) -> Seq<Seq<char>> {
    match outcome {
        ProbeOutcome::RequiredFields(v) => views(v@),
        _ => Seq::empty(),
    }
}

/// `o` is what the answer `probe` to the provisional write reveals.
pub open spec fn is_outcome_of(o: ProbeOutcome, probe: Result<(), String>) -> bool {
    match probe {
        Ok(_) => o == ProbeOutcome::Accepted,
        Err(m) => if names_in_message(m@).len() == 0 {
            o is Ambiguous && o->Ambiguous_0@ == m@
        } else {
            o is RequiredFields && views(o->RequiredFields_0@) == names_in_message(m@)
        },
    }
}

/// The commit issued at once after an accepted probe: the revision guard
/// and the new state, nothing else.
pub open spec fn is_direct_commit(r: PatchRequest, plan: PlannedTransition) -> bool {
    is_request(
        r,
        plan.work_item_id,
        state_change_ops(plan.current_rev, plan.target_state@, None),
        false,
        true,
    )
}

/// What `decide_after_probe` does with `plan` and `outcome`, for the
/// correlation id `id`, store contents `before` and `after`, and result `r`.
pub open spec fn probe_decision_spec(
    plan: PlannedTransition,
    outcome: ProbeOutcome,
    id: Seq<char>,
    before: Map<Seq<char>, PendingTransition>,
    after: Map<Seq<char>, PendingTransition>,
    r: Result<ProbeDecision, TransitionError>,
) -> bool {
    match outcome {
        ProbeOutcome::Ambiguous(m) => after == before && r is Err && r->Err_0
            is AmbiguousValidationError && r->Err_0->AmbiguousValidationError_0@ == m@,
        _ => if demanded(outcome).len() == 0 {
            after == before && r is Ok && r->Ok_0 is Commit && is_direct_commit(
                r->Ok_0->Commit_0,
                plan,
            )
        } else if before.contains_key(id) {
            after == before && r == Err::<ProbeDecision, TransitionError>(
                TransitionError::CorrelationIdInUse,
            )
        } else {
            &&& after == before.insert(id, after[id])
            &&& is_pending_for(after[id], plan, demanded(outcome))
            &&& r is Ok
            &&& r->Ok_0 is AwaitFields
            &&& awaits_fields(r->Ok_0->AwaitFields_0, plan, id, demanded(outcome))
        },
    }
}

/// `o` asks the caller for values for `names`, under correlation id `id`.
pub open spec fn awaits_fields(o: BeginOutcome, plan: PlannedTransition, id: Seq<char>, names: Seq<Seq<char>>) -> bool {
    &&& o.notification == Notification::FieldsRequired
    &&& o.response.status == TransitionStatus::Pending
    &&& o.response.work_item_id == plan.work_item_id
    &&& opt_view(o.response.target_state) == Some(plan.target_state@)
    &&& o.response.payload is Some
    &&& o.response.payload->0.correlation_id@ == id
    &&& o.response.payload->0.work_item_id == plan.work_item_id
    &&& o.response.payload->0.current_state@ == plan.current_state@
    &&& o.response.payload->0.target_state@ == plan.target_state@
    &&& prompts_match(o.response.payload->0.prompts@, names)
}

/// The default reason for a move to `to_state`; the item's type and the
/// state it leaves play no part.
pub fn default_reason_for(_work_item_type: &str, _from_state: &str, to_state: &str) -> (r: Option<String>)
    ensures
        r is Some,
        r->0@ == default_reason(to_state@),
{
    Some(String::from_str("Moved to ").concat(to_state))
}

/// Plans the transition of `item` from what the service advertises: the
/// target is the state advertised for the item's id; with none the
/// transition fails with `NoTransitionAvailable`, and nothing is parked.
pub fn plan_transition(item: &WorkItemSnapshot, advertised: &Vec<TransitionCandidate>) -> (r: Result<
    PlannedTransition,
    TransitionError,
>)
    ensures
        match advertised_state(advertised@, item.id) {
            None => r == Err::<PlannedTransition, TransitionError>(
                TransitionError::NoTransitionAvailable,
            ),
            Some(t) => r is Ok && is_plan_for(r->Ok_0, *item, t),
        },
{
    let current_state = match &item.state {
        Some(s) => s.clone(),
        None => String::from_str("New"),
    };
    let work_item_type = match &item.work_item_type {
        Some(s) => s.clone(),
        None => String::from_str("Task"),
    };
    let current_rev: i32 = match item.rev {
        Some(r) => r,
        None => 1,
    };
    match pick_next_state(advertised, item.id, current_state.as_str()) {
        None => Err(TransitionError::NoTransitionAvailable),
        Some(target_state) => Ok(
            PlannedTransition {
                work_item_id: item.id,
                current_state,
                work_item_type,
                current_rev,
                target_state,
            },
        ),
    }
}

/// What a transition of `item` would do, without writing anything: its
/// current state and the advertised target, if any.
pub fn preview_transition(item: &WorkItemSnapshot, advertised: &Vec<TransitionCandidate>) -> (r:
    TransitionPreview)
    ensures
        r.work_item_id == item.id,
        r.current_state@ == current_state_of(*item),
        opt_view(r.target_state) == advertised_state(advertised@, item.id),
        r.available == (advertised_state(advertised@, item.id) is Some),
{
    let current_state = match &item.state {
        Some(s) => s.clone(),
        None => String::from_str("New"),
    };
    let target_state = pick_next_state(advertised, item.id, current_state.as_str());
    let available = target_state.is_some();
    TransitionPreview { work_item_id: item.id, current_state, target_state, available }
}

/// The provisional write that probes `plan`: only the state is replaced,
/// validate-only.
pub fn probe_request(plan: &PlannedTransition) -> (r: PatchRequest)
    ensures
        is_request(r, plan.work_item_id, seq![set_state(plan.target_state@)], true, false),
{
    PatchRequest {
        work_item_id: plan.work_item_id,
        operations: probe_operations(plan.target_state.as_str()),
        validate_only: true,
        suppress_notifications: false,
    }
}

/// Reads the service's answer to the provisional write: acceptance, the
/// fields named in the rejection text, or, when it names none, an
/// ambiguous rejection.
pub fn classify_probe(probe: &Result<(), String>) -> (r: ProbeOutcome)
    ensures
        is_outcome_of(r, *probe),
{
    match probe {
        Ok(_) => ProbeOutcome::Accepted,
        Err(m) => {
            let names = parse_required_fields_from_validation_error(m.as_str());
            if names.len() == 0 {
                ProbeOutcome::Ambiguous(m.clone())
            } else {
                ProbeOutcome::RequiredFields(names)
            }
        },
    }
}

/// Decides the step after the probe of `plan`, parking it under
/// `correlation_id` when fields are required.
pub fn decide_after_probe(
    plan: &PlannedTransition,
    outcome: ProbeOutcome,
    correlation_id: String,
    store: &mut PendingStore,
) -> (r: Result<ProbeDecision, TransitionError>)
    requires
        old(store).well_formed(),
    ensures
        final(store).well_formed(),
        probe_decision_spec(*plan, outcome, correlation_id@, old(store)@, final(store)@, r),
{
    let names = match outcome {
        ProbeOutcome::Ambiguous(m) => {
            return Err(TransitionError::AmbiguousValidationError(m));
        },
        ProbeOutcome::Accepted => Vec::new(),
        ProbeOutcome::RequiredFields(v) => v,
    };
    proof {
        assert(views(names@) == demanded(outcome));
    }
    if names.len() == 0 {
        let operations = state_change_operations(
            plan.current_rev,
            plan.target_state.as_str(),
            None,
        );
        return Ok(
            ProbeDecision::Commit(
                PatchRequest {
                    work_item_id: plan.work_item_id,
                    operations,
                    validate_only: false,
                    suppress_notifications: true,
                },
            ),
        );
    }
    if store.contains(correlation_id.as_str()) {
        return Err(TransitionError::CorrelationIdInUse);
    }
    let reason = default_reason_for(
        plan.work_item_type.as_str(),
        plan.current_state.as_str(),
        plan.target_state.as_str(),
    );
    let pending = PendingTransition {
        work_item_id: plan.work_item_id,
        target_state: plan.target_state.clone(),
        reason,
        current_rev: plan.current_rev,
        required_fields: prompts_for(&names),
    };
    let ghost parked = pending;
    let event = FieldsRequiredEvent {
        correlation_id: correlation_id.clone(),
        work_item_id: plan.work_item_id,
        current_state: plan.current_state.clone(),
        target_state: plan.target_state.clone(),
        prompts: prompts_for(&names),
    };
    let ghost id = correlation_id@;
    let ghost before = store@;
    store.insert(correlation_id, pending);
    proof {
        assert(store@[id] == parked);
        assert(store@ == before.insert(id, store@[id]));
    }
    Ok(
        ProbeDecision::AwaitFields(
            BeginOutcome {
                response: TransitionResponse {
                    status: TransitionStatus::Pending,
                    work_item_id: plan.work_item_id,
                    target_state: Some(plan.target_state.clone()),
                    payload: Some(event),
                },
                notification: Notification::FieldsRequired,
            },
        ),
    )
}

/// Relies on `uuid::Uuid::new_v4` for a random version-4 UUID, written out
/// by its `Display` impl. Nothing is promised of the value.
#[verifier::external_body]
fn new_correlation_id() -> (r: String) {
    uuid::Uuid::new_v4().to_string()
}

/// Decides the step after the probe of `plan` as `decide_after_probe` does,
/// drawing a fresh random correlation id for a parked transition.
pub fn begin_after_probe(plan: &PlannedTransition, outcome: ProbeOutcome, store: &mut PendingStore) -> (r:
    Result<ProbeDecision, TransitionError>)
    requires
        old(store).well_formed(),
    ensures
        final(store).well_formed(),
        exists|id: Seq<char>|
            probe_decision_spec(*plan, outcome, id, old(store)@, final(store)@, r),
{
    let correlation_id = new_correlation_id();
    let ghost id = correlation_id@;
    let r = decide_after_probe(plan, outcome, correlation_id, store);
    proof {
        assert(probe_decision_spec(*plan, outcome, id, old(store)@, store@, r));
    }
    r
}

/// Reads the service's answer to the commit issued after an accepted probe:
/// on success the transition is completed, and only the
/// `transition_complete` notice goes out.
pub fn complete_direct(plan: &PlannedTransition, commit: Result<(), String>) -> (r: Result<
    BeginOutcome,
    TransitionError,
>)
    ensures
        match commit {
            Ok(_) => r is Ok && is_completed(r->Ok_0, *plan),
            Err(m) => r is Err && r->Err_0 is ServiceError && r->Err_0->ServiceError_0
                == ServiceStep::UpdateItem && r->Err_0->ServiceError_1@ == m@,
        },
{
    match commit {
        Ok(_) => Ok(
            BeginOutcome {
                response: TransitionResponse {
                    status: TransitionStatus::Completed,
                    work_item_id: plan.work_item_id,
                    target_state: Some(plan.target_state.clone()),
                    payload: None,
                },
                notification: Notification::TransitionComplete,
            },
        ),
        Err(m) => Err(TransitionError::ServiceError(ServiceStep::UpdateItem, m)),
    }
}

/// `o` reports `plan` as completed, with the `transition_complete` notice
/// alone.
pub open spec fn is_completed(o: BeginOutcome, plan: PlannedTransition) -> bool {
    &&& o.notification == Notification::TransitionComplete
    &&& o.response.status == TransitionStatus::Completed
    &&& o.response.work_item_id == plan.work_item_id
    &&& opt_view(o.response.target_state) == Some(plan.target_state@)
    &&& o.response.payload is None
}

/// Whether `finish_transition` redeems `id` from store contents `store`.
pub open spec fn finish_admits(store: Map<Seq<char>, PendingTransition>, id: Seq<char>) -> bool {
    store.contains_key(id)
}

/// The store contents after `finish_transition` with `id`.
pub open spec fn store_after_finish(store: Map<Seq<char>, PendingTransition>, id: Seq<char>) -> Map<
    Seq<char>,
    PendingTransition,
> {
    store.remove(id)
}

/// The commit that completes the parked transition `p` with the caller's
/// `values`: revision guard, state, reason, then the values in the order
/// supplied, for real and without notifications.
pub open spec fn is_finish_commit(c: FinishCommit, p: PendingTransition, values: Seq<(String, serde_json::Value)>) -> bool {
    &&& c.work_item_id == p.work_item_id
    &&& c.target_state@ == p.target_state@
    &&& is_request(
        c.request,
        p.work_item_id,
        commit_ops(p.current_rev, p.target_state@, opt_view(p.reason), values),
        false,
        true,
    )
}

/// Redeems `correlation_id`: the parked transition is taken out of the
/// store first, and the commit that completes it with `values` is returned.
/// An unknown or already redeemed id fails with `NotFound`, leaves the store
/// as it was, and yields no commit.
pub fn finish_transition(
    store: &mut PendingStore,
    correlation_id: &str,
    values: Vec<(String, serde_json::Value)>,
) -> (r: Result<FinishCommit, TransitionError>)
    requires
        old(store).well_formed(),
    ensures
        final(store).well_formed(),
        final(store)@ == store_after_finish(old(store)@, correlation_id@),
        r is Ok <==> finish_admits(old(store)@, correlation_id@),
        !finish_admits(old(store)@, correlation_id@) ==> r == Err::<FinishCommit, TransitionError>(
            TransitionError::NotFound,
        ),
        r is Ok ==> is_finish_commit(r->Ok_0, old(store)@[correlation_id@], values@),
{
    let ctx = match store.consume(correlation_id) {
        Some(p) => p,
        None => {
            proof {
                assert(store@ =~= old(store)@.remove(correlation_id@));
            }
            return Err(TransitionError::NotFound);
        },
    };
    let reason = match &ctx.reason {
        Some(s) => Some(s.as_str()),
        None => None,
    };
    let mut operations = state_change_operations(ctx.current_rev, ctx.target_state.as_str(), reason);
    append_field_updates(&mut operations, values);
    Ok(
        FinishCommit {
            request: PatchRequest {
                work_item_id: ctx.work_item_id,
                operations,
                validate_only: false,
                suppress_notifications: true,
            },
            work_item_id: ctx.work_item_id,
            target_state: ctx.target_state,
        },
    )
}

/// Reads the service's answer to the commit of a redeemed transition.
pub fn complete_finish(commit: &FinishCommit, result: Result<(), String>) -> (r: Result<
    FinishResponse,
    TransitionError,
>)
    ensures
        match result {
            Ok(_) => r is Ok && r->Ok_0.status == TransitionStatus::Completed
                && r->Ok_0.work_item_id == commit.work_item_id && r->Ok_0.target_state@
                == commit.target_state@,
            Err(m) => r is Err && r->Err_0 is ServiceError && r->Err_0->ServiceError_0
                == ServiceStep::UpdateItem && r->Err_0->ServiceError_1@ == m@,
        },
{
    match result {
        Ok(_) => Ok(
            FinishResponse {
                status: TransitionStatus::Completed,
                work_item_id: commit.work_item_id,
                target_state: commit.target_state.clone(),
            },
        ),
        Err(m) => Err(TransitionError::ServiceError(ServiceStep::UpdateItem, m)),
    }
}

/// An accepted probe issues exactly one commit, the direct one, and leaves
/// the store as it was.
pub proof fn lemma_accepted_probe_commits_at_once(
    plan: PlannedTransition,
    id: Seq<char>,
    before: Map<Seq<char>, PendingTransition>,
    after: Map<Seq<char>, PendingTransition>,
    r: Result<ProbeDecision, TransitionError>,
)
    requires
        probe_decision_spec(plan, ProbeOutcome::Accepted, id, before, after, r),
    ensures
        after == before,
        r is Ok,
        r->Ok_0 is Commit,
        is_direct_commit(r->Ok_0->Commit_0, plan),
{
}

/// A parked transition's prompts name exactly the fields demanded, in the
/// order the rejection text gave them, each once.
pub proof fn lemma_parked_prompts_follow_rejection(
    plan: PlannedTransition,
    probe: Result<(), String>,
    outcome: ProbeOutcome,
    id: Seq<char>,
    before: Map<Seq<char>, PendingTransition>,
    after: Map<Seq<char>, PendingTransition>,
    r: Result<ProbeDecision, TransitionError>,
)
    requires
        is_outcome_of(outcome, probe),
        probe_decision_spec(plan, outcome, id, before, after, r),
        probe is Err,
        names_in_message(probe->Err_0@).len() > 0,
        !before.contains_key(id),
    ensures
        prompts_match(after[id].required_fields@, names_in_message(probe->Err_0@)),
        r is Ok && r->Ok_0 is AwaitFields,
        prompts_match(
            r->Ok_0->AwaitFields_0.response.payload->0.prompts@,
            names_in_message(probe->Err_0@),
        ),
        names_in_message(probe->Err_0@).no_duplicates(),
{
    let m = probe->Err_0@;
    crate::parse::lemma_names_are_deduplicated_union(
        crate::parse::captures_or_none(
            crate::parse::regex_group_one(crate::parse::PAREN_REF_PATTERN@, m),
        ),
        crate::parse::captures_or_none(
            crate::parse::regex_group_one(crate::parse::FIELD_PHRASE_PATTERN@, m),
        ),
    );
}

/// A correlation id is redeemed at most once: after `finish_transition`
/// admits it, a second call with it is refused and changes nothing.
pub proof fn lemma_correlation_id_redeemed_once(store: Map<Seq<char>, PendingTransition>, id: Seq<char>)
    ensures
        !finish_admits(store_after_finish(store, id), id),
        store_after_finish(store_after_finish(store, id), id) == store_after_finish(store, id),
{
    assert(store_after_finish(store_after_finish(store, id), id) =~= store_after_finish(store, id));
}

} // verus!
