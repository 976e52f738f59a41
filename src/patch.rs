//! Patch operations and the requests that carry them.
//!
//! A patch is an ordered batch of operations that the service applies
//! atomically. A commit starts with a revision guard, a `test` of the
//! item's revision, so that the whole batch fails if the item has changed
//! since it was read.

use vstd::prelude::*;

verus! {

/// The operation of one patch entry.
#[derive(PartialEq, Eq, Structural, Clone, Copy, Debug)]
pub enum PatchOpKind {
    Test,
    Replace,
}

/// The value of one patch entry.
pub enum PatchValue {
    Int(i32),
    Text(String),
    Json(serde_json::Value),
}

/// One patch entry: an operation on a path, with a value.
pub struct PatchOperation {
    pub op: PatchOpKind,
    pub path: String,
    pub value: PatchValue,
}

/// One write to the service: the operations for an item, and how to submit
/// them.
pub struct PatchRequest {
    pub work_item_id: i32,
    pub operations: Vec<PatchOperation>,
    pub validate_only: bool,
    pub suppress_notifications: bool,
}

/// The value of a patch entry, with strings as their characters.
pub enum ValueView {
    Int(int),
    Text(Seq<char>),
    Json(serde_json::Value),
}

/// A patch entry, with strings as their characters.
pub struct OpView {
    pub op: PatchOpKind,
    pub path: Seq<char>,
    pub value: ValueView,
}

pub open spec fn value_view(v: PatchValue) -> ValueView {
    match v {
        PatchValue::Int(i) => ValueView::Int(i as int),
        PatchValue::Text(s) => ValueView::Text(s@),
        PatchValue::Json(j) => ValueView::Json(j),
    }
}

pub open spec fn op_view(o: PatchOperation) -> OpView {
    OpView { op: o.op, path: o.path@, value: value_view(o.value) }
}

/// The entries of a patch as views, in order.
pub open spec fn ops_view(ops: Seq<PatchOperation>) -> Seq<OpView> {
    ops.map_values(|o: PatchOperation| op_view(o))
}

/// `r` writes `ops` to item `id`, validate-only or for real, with or
/// without notifications.
pub open spec fn is_request(
    r: PatchRequest,
    id: i32,
    ops: Seq<OpView>,
    validate_only: bool,
    suppress_notifications: bool,
) -> bool {
    &&& r.work_item_id == id
    &&& ops_view(r.operations@) == ops
    &&& r.validate_only == validate_only
    &&& r.suppress_notifications == suppress_notifications
}

/// The path of a field.
pub open spec fn field_path(name: Seq<char>) -> Seq<char> {
    "/fields/"@ + name
}

/// Replace field `name` by `value`.
pub open spec fn replace_field(name: Seq<char>, value: ValueView) -> OpView {
    OpView { op: PatchOpKind::Replace, path: field_path(name), value }
}

/// The revision guard: the write fails unless the item's revision is `rev`.
pub open spec fn revision_guard(rev: i32) -> OpView {
    OpView { op: PatchOpKind::Test, path: "/rev"@, value: ValueView::Int(rev as int) }
}

/// Replace the state by `target`.
pub open spec fn set_state(target: Seq<char>) -> OpView {
    replace_field("System.State"@, ValueView::Text(target))
}

/// Replace the reason by `reason`.
pub open spec fn set_reason(reason: Seq<char>) -> OpView {
    replace_field("System.Reason"@, ValueView::Text(reason))
}

/// One replacement per caller-supplied field, in the order supplied.
pub open spec fn field_updates(fields: Seq<(String, serde_json::Value)>) -> Seq<OpView> {
    fields.map_values(|f: (String, serde_json::Value)| replace_field(f.0@, ValueView::Json(f.1)))
}

/// The operations of a state change: the revision guard, the new state,
/// then the reason when there is one.
pub open spec fn state_change_ops(rev: i32, target: Seq<char>, reason: Option<Seq<char>>) -> Seq<OpView> {
    seq![revision_guard(rev), set_state(target)] + match reason {
        Some(r) => seq![set_reason(r)],
        None => Seq::empty(),
    }
}

/// The operations of a commit: the state change, then every
/// caller-supplied field in the order supplied.
pub open spec fn commit_ops(
    rev: i32,
    target: Seq<char>,
    reason: Option<Seq<char>>,
    fields: Seq<(String, serde_json::Value)>,
) -> Seq<OpView> {
    state_change_ops(rev, target, reason) + field_updates(fields)
}

/// The path of field `name`.
pub fn field_path_of(name: &str) -> (r: String)
    ensures
        r@ == field_path(name@),
{
    String::from_str("/fields/").concat(name)
}

fn replace_op(name: &str, value: PatchValue) -> (r: PatchOperation)
    ensures
        op_view(r) == replace_field(name@, value_view(value)),
{
    PatchOperation { op: PatchOpKind::Replace, path: field_path_of(name), value }
}

/// The single operation of a provisional write: replace the state, nothing
/// else.
pub fn probe_operations(target_state: &str) -> (r: Vec<PatchOperation>)
    ensures
        ops_view(r@) == seq![set_state(target_state@)],
{
    let mut ops: Vec<PatchOperation> = Vec::new();
    ops.push(replace_op("System.State", PatchValue::Text(String::from_str(target_state))));
    proof {
        assert(ops_view(ops@) =~= seq![set_state(target_state@)]);
    }
    ops
}

/// The operations of a state change guarded by revision `rev`, with the
/// reason when one is given.
pub fn state_change_operations(rev: i32, target_state: &str, reason: Option<&str>) -> (r: Vec<
    PatchOperation,
>)
    ensures
        ops_view(r@) == state_change_ops(
            rev,
            target_state@,
            match reason {
                Some(s) => Some(s@),
                None => None,
            },
        ),
{
    let mut ops: Vec<PatchOperation> = Vec::new();
    ops.push(
        PatchOperation {
            op: PatchOpKind::Test,
            path: String::from_str("/rev"),
            value: PatchValue::Int(rev),
        },
    );
    ops.push(replace_op("System.State", PatchValue::Text(String::from_str(target_state))));
    match reason {
        Some(s) => {
            ops.push(replace_op("System.Reason", PatchValue::Text(String::from_str(s))));
        },
        None => {},
    }
    proof {
        assert(ops_view(ops@) =~= state_change_ops(
            rev,
            target_state@,
            match reason {
                Some(s) => Some(s@),
                None => None,
            },
        ));
    }
    ops
}

/// Appends one replacement per field to `ops`, in the order of `fields`.
pub fn append_field_updates(ops: &mut Vec<PatchOperation>, fields: Vec<(String, serde_json::Value)>)
    ensures
        ops_view(final(ops)@) == ops_view(old(ops)@) + field_updates(fields@),
{
    let ghost start = ops_view(ops@);
    let ghost all = fields@;
    assert(all.len() == fields.len());
    let mut rest = fields;
    let mut done: usize = 0;
    proof {
        assert(all.skip(0) =~= all);
    }
    while rest.len() > 0
        invariant
            all.len() <= usize::MAX,
            done + rest@.len() == all.len(),
            rest@ == all.skip(done as int),
            ops_view(ops@) == start + field_updates(all.take(done as int)),
        decreases rest.len(),
    {
        let (name, value) = rest.remove(0);
        proof {
            assert(all[done as int] == (name, value));
            assert(all.take(done + 1) =~= all.take(done as int).push((name, value)));
            assert(all.skip(done + 1) =~= all.skip(done as int).remove(0));
        }
        let ghost before = ops@;
        ops.push(replace_op(name.as_str(), PatchValue::Json(value)));
        proof {
            assert(ops_view(ops@) =~= ops_view(before).push(
                replace_field(name@, ValueView::Json(value)),
            ));
            assert(field_updates(all.take(done + 1)) =~= field_updates(all.take(done as int)).push(
                replace_field(name@, ValueView::Json(value)),
            ));
        }
        done = done + 1;
    }
    proof {
        assert(all.take(done as int) =~= all);
    }
}

} // verus!
