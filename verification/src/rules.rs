//! The validation rules of a family plan, stated over the input table.
//!
//! Every rule is a check that either passes or names the rejection that the
//! planner reports.  Checks run in a fixed order and the first failing check
//! decides the rejection; [`first_error`] states that order.
use vstd::prelude::*;

use crate::family::{
    AsyncKind, CallbackUseSite, ClosePolicy, FamilyPlanInput, FamilyOperationInput, OperationDispatch,
    OperationKind, ReceiverBinding, ResourceKind, ResourceOwnership, StreamDirection,
    StreamSlotIdentity, StreamUseSite, ValuePathSegment, is_stream_slot_kind,
};
use crate::plan_error::{FamilyPlanError, PlanRejection};
use crate::text::path_text;

verus! {

/// The outcome of an ordered list of checks: the first rejection, or
/// acceptance when every check passes.
pub open spec fn first_error<E>(checks: Seq<Result<(), E>>) -> Result<(), E>
    decreases checks.len(),
{
    if checks.len() == 0 {
        Ok(())
    } else if checks[0] is Err {
        checks[0]
    } else {
        first_error(checks.drop_first())
    }
}

/// Whether an executable outcome reports exactly the specified outcome.
pub open spec fn agrees<T>(actual: Result<T, FamilyPlanError>, expected: Result<(), PlanRejection>) -> bool {
    match actual {
        Ok(_) => expected is Ok,
        Err(error) => expected == Err::<(), PlanRejection>(error@),
    }
}

/// Checking one item more keeps the outcome of the earlier items when they
/// all passed.
pub proof fn lemma_first_error_step<E>(checks: Seq<Result<(), E>>, k: int)
    requires
        0 <= k < checks.len(),
        forall|j: int| 0 <= j < k ==> (#[trigger] checks[j]) is Ok,
    ensures
        checks[k] is Err ==> first_error(checks) == checks[k],
        checks[k] is Ok ==> first_error(checks) == first_error(checks.skip(k + 1)),
    decreases k,
{
    if k > 0 {
        let rest = checks.drop_first();
        assert forall|j: int| 0 <= j < k - 1 implies (#[trigger] rest[j]) is Ok by {
            assert(rest[j] == checks[j + 1]);
        }
        lemma_first_error_step(rest, k - 1);
        assert(rest.skip(k) =~= checks.skip(k + 1));
    } else {
        assert(checks.drop_first() =~= checks.skip(1));
    }
}

/// When every check passes, the outcome is acceptance.
pub proof fn lemma_first_error_all_ok<E>(checks: Seq<Result<(), E>>)
    requires
        forall|j: int| 0 <= j < checks.len() ==> (#[trigger] checks[j]) is Ok,
    ensures
        first_error(checks) is Ok,
    decreases checks.len(),
{
    if checks.len() > 0 {
        let rest = checks.drop_first();
        assert forall|j: int| 0 <= j < rest.len() implies (#[trigger] rest[j]) is Ok by {
            assert(rest[j] == checks[j + 1]);
        }
        lemma_first_error_all_ok(rest);
    }
}

/// The outcome is a rejection exactly when some check fails, and then it is
/// the first failing check.
pub proof fn lemma_first_error_is_first<E>(checks: Seq<Result<(), E>>)
    ensures
        first_error(checks) is Err <==> exists|k: int| 0 <= k < checks.len() && (#[trigger] checks[k]) is Err,
        first_error(checks) is Err ==> exists|k: int|
            0 <= k < checks.len() && checks[k] == first_error(checks) && (forall|j: int|
                0 <= j < k ==> (#[trigger] checks[j]) is Ok),
    decreases checks.len(),
{
    if checks.len() > 0 {
        let rest = checks.drop_first();
        lemma_first_error_is_first(rest);
        if checks[0] is Ok {
            if first_error(rest) is Err {
                let k = choose|k: int|
                    0 <= k < rest.len() && rest[k] == first_error(rest) && (forall|j: int|
                        0 <= j < k ==> (#[trigger] rest[j]) is Ok);
                assert(checks[k + 1] == rest[k]);
                assert forall|j: int| 0 <= j < k + 1 implies (#[trigger] checks[j]) is Ok by {
                    if j > 0 {
                        assert(checks[j] == rest[j - 1]);
                    }
                }
            }
            if exists|k: int| 0 <= k < checks.len() && (#[trigger] checks[k]) is Err {
                let k = choose|k: int| 0 <= k < checks.len() && (#[trigger] checks[k]) is Err;
                assert(rest[k - 1] == checks[k]);
            }
        } else {
            assert(forall|j: int| 0 <= j < 0 ==> (#[trigger] checks[j]) is Ok);
        }
    }
}

/// When an ordered list of checks is accepted, every check passes.
pub proof fn lemma_all_pass<E>(checks: Seq<Result<(), E>>)
    requires
        first_error(checks) is Ok,
    ensures
        forall|k: int| 0 <= k < checks.len() ==> (#[trigger] checks[k]) is Ok,
{
    lemma_first_error_is_first(checks);
}

// ---------------------------------------------------------------------------
// Close policy
// ---------------------------------------------------------------------------

/// The largest delay that Node's signed 32-bit timer API accepts.
pub open spec fn timer_limit() -> u32 {
    0x7fff_ffffu32
}

/// The close policy must fit the JavaScript timer range; detach is the only
/// deadline action.
pub open spec fn close_policy_check(policy: ClosePolicy) -> Result<(), PlanRejection> {
    if policy.grace_ms > timer_limit() {
        Err(PlanRejection::ClosePolicyOutOfRange { grace_ms: policy.grace_ms })
    } else {
        Ok(())
    }
}

// ---------------------------------------------------------------------------
// Operation shape
// ---------------------------------------------------------------------------

/// Kinds that act on a receiver.
pub open spec fn requires_receiver(kind: OperationKind) -> bool {
    match kind {
        OperationKind::Method
        | OperationKind::InputStreamPull
        | OperationKind::InputStreamCancel
        | OperationKind::OutputStreamNext
        | OperationKind::OutputStreamCancel => true,
        _ => false,
    }
}

/// Whether a receiver is a resource lease of the given kind.
pub open spec fn is_resource_receiver(receiver: Option<ReceiverBinding>, kind: ResourceKind) -> bool {
    receiver matches Some(ReceiverBinding::Resource(binding)) && binding.kind == kind
}

/// Methods take values or objects; input-stream slots take input streams;
/// output-stream slots that act on a stream take output streams.
pub open spec fn receiver_kind_fits(kind: OperationKind, receiver: Option<ReceiverBinding>) -> bool {
    match kind {
        OperationKind::Method => !is_resource_receiver(receiver, ResourceKind::InputStream)
            && !is_resource_receiver(receiver, ResourceKind::OutputStream),
        OperationKind::InputStreamPull | OperationKind::InputStreamCancel => is_resource_receiver(
            receiver,
            ResourceKind::InputStream,
        ),
        OperationKind::OutputStreamNext | OperationKind::OutputStreamCancel => is_resource_receiver(
            receiver,
            ResourceKind::OutputStream,
        ),
        _ => true,
    }
}

/// Whether a path is the bare return root.
pub open spec fn is_return_root(segments: Seq<ValuePathSegment>) -> bool {
    segments.len() == 1 && segments[0] is Return
}

/// Whether an operation returns an output stream at its return root.
pub open spec fn returns_output_stream(op: FamilyOperationInput) -> bool {
    exists|k: int|
        0 <= k < op.result_resources@.len() && is_return_root(
            (#[trigger] op.result_resources@[k]).path.segments@,
        ) && op.result_resources@[k].binding.kind == ResourceKind::OutputStream
}

/// Callback methods dispatch to the callback host, input-stream slots to the
/// input-stream host, everything else natively.
pub open spec fn dispatch_fits(kind: OperationKind, dispatch: OperationDispatch) -> bool {
    match kind {
        OperationKind::CallbackMethod => dispatch is CallbackHost,
        OperationKind::InputStreamPull => dispatch is InputStreamHostPull,
        OperationKind::InputStreamCancel => dispatch is InputStreamHostCancel,
        _ => dispatch is Native,
    }
}

pub open spec fn is_cancel_kind(kind: OperationKind) -> bool {
    kind is InputStreamCancel || kind is OutputStreamCancel
}

pub open spec fn is_host_stream_dispatch(dispatch: OperationDispatch) -> bool {
    dispatch is InputStreamHostPull || dispatch is InputStreamHostCancel
}

/// The shape rules of one operation, in the order in which they apply.
pub open spec fn shape_check(op: FamilyOperationInput) -> Result<(), PlanRejection> {
    if requires_receiver(op.kind) && op.receiver is None {
        Err(PlanRejection::MissingReceiver { id: op.id })
    } else if !requires_receiver(op.kind) && op.receiver is Some {
        Err(PlanRejection::UnexpectedReceiver { id: op.id })
    } else if !receiver_kind_fits(op.kind, op.receiver) {
        Err(PlanRejection::WrongReceiverKind { id: op.id })
    } else if op.kind == OperationKind::OutputStreamStart && !returns_output_stream(op) {
        Err(PlanRejection::MissingResultResource { id: op.id })
    } else if !dispatch_fits(op.kind, op.dispatch) {
        Err(PlanRejection::WrongDispatch { id: op.id })
    } else if is_cancel_kind(op.kind) && op.result_resources@.len() > 0 {
        Err(PlanRejection::CancelHasResult { id: op.id })
    } else if is_host_stream_dispatch(op.dispatch) && op.async_kind != AsyncKind::Async {
        Err(PlanRejection::HostOperationMustBeAsync { id: op.id })
    } else {
        Ok(())
    }
}

// ---------------------------------------------------------------------------
// Paths
// ---------------------------------------------------------------------------

pub open spec fn is_root_segment(segment: ValuePathSegment) -> bool {
    segment is Argument || segment is Return
}

pub open spec fn is_step_selector(segment: ValuePathSegment) -> bool {
    segment is StreamItem || segment is StreamError
}

/// Whether a root segment appears below the first segment.
pub open spec fn has_nested_root(segments: Seq<ValuePathSegment>) -> bool {
    exists|j: int| 1 <= j < segments.len() && is_root_segment(#[trigger] segments[j])
}

/// A callback or stream path: rooted at an argument in range or at the
/// return value, with no further root and no stream-step selector.
pub open spec fn path_check(
    op: FamilyOperationInput,
    segments: Seq<ValuePathSegment>,
    role: Seq<char>,
) -> Result<(), PlanRejection> {
    if segments.len() == 0 {
        Err(PlanRejection::EmptyPath { id: op.id, role })
    } else if segments[0] is Argument && segments[0]->Argument_0 as int >= op.argument_count as int {
        Err(
            PlanRejection::ArgumentPathOutOfRange {
                id: op.id,
                argument: segments[0]->Argument_0,
                count: op.argument_count,
                role,
            },
        )
    } else if !is_root_segment(segments[0]) {
        Err(PlanRejection::InvalidPathRoot { id: op.id, role })
    } else if has_nested_root(segments) {
        Err(PlanRejection::NestedRootSegment { id: op.id, role })
    } else if exists|j: int| 0 <= j < segments.len() && is_step_selector(#[trigger] segments[j]) {
        Err(PlanRejection::InvalidStreamStepPath { id: op.id, role })
    } else {
        Ok(())
    }
}

/// Where a stream-step selector may stand: directly below the return root
/// of an `OutputStreamNext` operation.
pub open spec fn misplaced_step(op: FamilyOperationInput, segments: Seq<ValuePathSegment>, j: int) -> bool {
    1 <= j < segments.len() && is_step_selector(segments[j]) && (op.kind
        != OperationKind::OutputStreamNext || j != 1)
}

/// A result resource path: rooted at the return value, with no further
/// root, and with at most one step selector, placed as [`misplaced_step`]
/// allows.
pub open spec fn result_path_check(op: FamilyOperationInput, segments: Seq<ValuePathSegment>) -> Result<
    (),
    PlanRejection,
> {
    if segments.len() == 0 {
        Err(PlanRejection::EmptyPath { id: op.id, role: "result resource"@ })
    } else if !(segments[0] is Return) {
        Err(PlanRejection::InvalidPathRoot { id: op.id, role: "result resource"@ })
    } else if has_nested_root(segments) {
        Err(PlanRejection::NestedRootSegment { id: op.id, role: "result resource"@ })
    } else if exists|j: int| #[trigger] misplaced_step(op, segments, j) {
        Err(PlanRejection::InvalidStreamStepPath { id: op.id, role: "result resource"@ })
    } else {
        Ok(())
    }
}

// ---------------------------------------------------------------------------
// Declared stream slot
// ---------------------------------------------------------------------------

/// A declared stream slot names its own operation and kind, and that kind
/// is a stream slot kind.
pub open spec fn declared_slot_check(op: FamilyOperationInput) -> Result<(), PlanRejection> {
    match op.stream_slot {
        None => Ok(()),
        Some(slot) => if slot.operation_id != op.id {
            Err(
                PlanRejection::StreamSlotOperationMismatch {
                    expected: op.id,
                    actual: slot.operation_id,
                },
            )
        } else if slot.kind != op.kind {
            Err(
                PlanRejection::StreamSlotKindMismatch {
                    operation_id: op.id,
                    expected: op.kind,
                    actual: slot.kind,
                },
            )
        } else if !is_stream_slot_kind(slot.kind) {
            Err(PlanRejection::InvalidStreamSlot { id: op.id })
        } else {
            Ok(())
        },
    }
}

// ---------------------------------------------------------------------------
// Callback use sites
// ---------------------------------------------------------------------------

pub open spec fn callback_check(op: FamilyOperationInput, callback: CallbackUseSite) -> Result<
    (),
    PlanRejection,
> {
    if callback.operation_id != op.id {
        Err(
            PlanRejection::UseSiteOperationMismatch {
                expected: op.id,
                actual: callback.operation_id,
                role: "callback"@,
            },
        )
    } else {
        path_check(op, callback.path.segments@, "callback"@)
    }
}

/// The callback use sites of an operation, in order.
pub open spec fn callbacks_check(op: FamilyOperationInput) -> Result<(), PlanRejection> {
    first_error(
        Seq::new(op.callbacks@.len(), |k: int| callback_check(op, op.callbacks@[k])),
    )
}

// ---------------------------------------------------------------------------
// Result resource use sites
// ---------------------------------------------------------------------------

/// The rendered path of the `k`-th result resource.
pub open spec fn result_text(op: FamilyOperationInput, k: int) -> Seq<char> {
    path_text(op.result_resources@[k].path.segments@)
}

/// Whether an earlier result resource renders to the same path text.
pub open spec fn repeats_text(op: FamilyOperationInput, k: int, j: int) -> bool {
    0 <= j < k && result_text(op, j) == result_text(op, k)
}

/// The earliest result resource with the same text as the `k`-th one.
pub open spec fn first_same_text(op: FamilyOperationInput, k: int) -> int {
    choose|j: int|
        #[trigger] repeats_text(op, k, j) && forall|i: int|
            0 <= i < j ==> !#[trigger] repeats_text(op, k, i)
}

/// A result resource belongs to its operation, has a result path, is owned,
/// and has a path text of its own; a repeated text is a duplicate when the
/// binding agrees with the earliest one of that text and a conflict
/// otherwise.
pub open spec fn result_check(op: FamilyOperationInput, k: int) -> Result<(), PlanRejection> {
    let resource = op.result_resources@[k];
    if resource.operation_id != op.id {
        Err(
            PlanRejection::UseSiteOperationMismatch {
                expected: op.id,
                actual: resource.operation_id,
                role: "result resource"@,
            },
        )
    } else if result_path_check(op, resource.path.segments@) is Err {
        result_path_check(op, resource.path.segments@)
    } else if resource.binding.ownership != ResourceOwnership::Owned {
        Err(
            PlanRejection::NonOwnedResultResource {
                id: op.id,
                ownership: resource.binding.ownership,
            },
        )
    } else if exists|j: int| #[trigger] repeats_text(op, k, j) {
        if op.result_resources@[first_same_text(op, k)].binding == resource.binding {
            Err(
                PlanRejection::DuplicateResultResourceUseSite {
                    id: op.id,
                    path: result_text(op, k),
                },
            )
        } else {
            Err(
                PlanRejection::ConflictingResultResourceUseSite {
                    id: op.id,
                    path: result_text(op, k),
                },
            )
        }
    } else {
        Ok(())
    }
}

/// The result resources of an operation, in order.
pub open spec fn results_check(op: FamilyOperationInput) -> Result<(), PlanRejection> {
    first_error(Seq::new(op.result_resources@.len(), |k: int| result_check(op, k)))
}

// ---------------------------------------------------------------------------
// Operation identities
// ---------------------------------------------------------------------------

/// Whether some input operation has this id.
pub open spec fn has_id(ops: Seq<FamilyOperationInput>, id: int) -> bool {
    exists|j: int| 0 <= j < ops.len() && (#[trigger] ops[j]).id == id
}

/// The position of the input operation with this id.
pub open spec fn index_of_id(ops: Seq<FamilyOperationInput>, id: int) -> int {
    choose|j: int| 0 <= j < ops.len() && (#[trigger] ops[j]).id == id
}

/// The input operation with this id.
pub open spec fn op_with_id(ops: Seq<FamilyOperationInput>, id: int) -> FamilyOperationInput {
    ops[index_of_id(ops, id)]
}

/// No two input operations share an id.
pub open spec fn ids_distinct(ops: Seq<FamilyOperationInput>) -> bool {
    forall|j: int, k: int| 0 <= j < ops.len() && 0 <= k < ops.len() && j != k ==> (#[trigger] ops[j]).id
        != (#[trigger] ops[k]).id
}

/// With distinct ids, an operation is the operation of its own id.
pub proof fn lemma_op_with_id(ops: Seq<FamilyOperationInput>, j: int)
    requires
        ids_distinct(ops),
        0 <= j < ops.len(),
    ensures
        has_id(ops, ops[j].id as int),
        index_of_id(ops, ops[j].id as int) == j,
        op_with_id(ops, ops[j].id as int) == ops[j],
{
    assert(has_id(ops, ops[j].id as int));
}

/// An id is repeated when an earlier operation already has it.
pub open spec fn duplicate_check(ops: Seq<FamilyOperationInput>, k: int) -> Result<(), PlanRejection> {
    if exists|j: int| 0 <= j < k && (#[trigger] ops[j]).id == ops[k].id {
        Err(PlanRejection::DuplicateOperationId { id: ops[k].id })
    } else {
        Ok(())
    }
}

/// The operations in input order, each against the ones before it.
pub open spec fn duplicates_check(ops: Seq<FamilyOperationInput>) -> Result<(), PlanRejection> {
    first_error(Seq::new(ops.len(), |k: int| duplicate_check(ops, k)))
}

/// The smallest id above `i` among the input operations.
pub open spec fn next_id_above(ops: Seq<FamilyOperationInput>, i: int) -> u32 {
    choose|x: u32|
        has_id(ops, x as int) && x > i && forall|y: u32| #[trigger]
            has_id(ops, y as int) && y > i ==> x <= y
}

// ---------------------------------------------------------------------------
// Stream use sites
// ---------------------------------------------------------------------------

/// The stream use sites of the operations with ids below `i`, in id order.
pub open spec fn streams_before(ops: Seq<FamilyOperationInput>, i: int) -> Seq<StreamUseSite>
    decreases i,
{
    if i <= 0 {
        Seq::empty()
    } else {
        streams_before(ops, i - 1) + op_with_id(ops, i - 1).streams@
    }
}

/// The use-site ids of a list of stream use sites.
pub open spec fn use_site_ids(streams: Seq<StreamUseSite>) -> Seq<u32> {
    streams.map_values(|stream: StreamUseSite| stream.use_site_id)
}

/// Whether the `t`-th stream use site of an operation repeats the id of a
/// stream use site checked before it: one of an operation with a smaller id,
/// or an earlier one of the same operation.
pub open spec fn use_site_seen(ops: Seq<FamilyOperationInput>, op: FamilyOperationInput, t: int) -> bool {
    use_site_ids(streams_before(ops, op.id as int) + op.streams@.take(t)).contains(
        op.streams@[t].use_site_id,
    )
}

/// The slot kinds that a stream direction needs, one slot each.
pub open spec fn direction_kinds(direction: StreamDirection) -> Seq<OperationKind> {
    match direction {
        StreamDirection::Input => seq![
            OperationKind::InputStreamPull,
            OperationKind::InputStreamCancel,
        ],
        StreamDirection::Output => seq![
            OperationKind::OutputStreamStart,
            OperationKind::OutputStreamNext,
            OperationKind::OutputStreamCancel,
        ],
    }
}

/// Whether exactly one slot has this kind.
pub open spec fn kind_occurs_once(slots: Seq<StreamSlotIdentity>, kind: OperationKind) -> bool {
    exists|a: int|
        0 <= a < slots.len() && (#[trigger] slots[a]).kind == kind && forall|b: int|
            0 <= b < slots.len() && b != a ==> (#[trigger] slots[b]).kind != kind
}

/// A stream has one slot of each kind that its direction needs, and no
/// other slot.
pub open spec fn slots_fit_direction(stream: StreamUseSite) -> bool {
    stream.slots@.len() == direction_kinds(stream.direction).len() && forall|k: int|
        0 <= k < direction_kinds(stream.direction).len() ==> kind_occurs_once(
            stream.slots@,
            #[trigger] direction_kinds(stream.direction)[k],
        )
}

/// Whether a slot kind belongs to a stream direction.
pub open spec fn kind_in_direction(direction: StreamDirection, kind: OperationKind) -> bool {
    match direction {
        StreamDirection::Input => kind is InputStreamPull || kind is InputStreamCancel,
        StreamDirection::Output => kind is OutputStreamStart || kind is OutputStreamNext
            || kind is OutputStreamCancel,
    }
}

/// One slot of a stream use site: it names its use site and an existing
/// operation whose kind and declared slot identity it repeats; only the
/// owning operation may be the start slot of an output stream.
pub open spec fn slot_check(
    ops: Seq<FamilyOperationInput>,
    op: FamilyOperationInput,
    stream: StreamUseSite,
    s: int,
) -> Result<(), PlanRejection> {
    let slot = stream.slots@[s];
    if slot.use_site_id != stream.use_site_id {
        Err(
            PlanRejection::StreamSlotUseSiteMismatch {
                expected: stream.use_site_id,
                actual: slot.use_site_id,
            },
        )
    } else if !has_id(ops, slot.operation_id as int) {
        Err(
            PlanRejection::UnknownStreamSlotOperation {
                use_site_id: stream.use_site_id,
                operation_id: slot.operation_id,
            },
        )
    } else {
        let target = op_with_id(ops, slot.operation_id as int);
        if target.kind != slot.kind {
            Err(
                PlanRejection::StreamSlotKindMismatch {
                    operation_id: slot.operation_id,
                    expected: target.kind,
                    actual: slot.kind,
                },
            )
        } else if target.stream_slot is Some && target.stream_slot->Some_0.kind != slot.kind {
            Err(
                PlanRejection::StreamSlotKindMismatch {
                    operation_id: slot.operation_id,
                    expected: target.kind,
                    actual: target.stream_slot->Some_0.kind,
                },
            )
        } else if target.stream_slot != Some(slot) {
            Err(
                PlanRejection::StreamSlotIdentityMismatch {
                    use_site_id: stream.use_site_id,
                    operation_id: slot.operation_id,
                },
            )
        } else if stream.direction == StreamDirection::Output && slot.kind
            == OperationKind::OutputStreamStart && slot.operation_id != op.id {
            Err(PlanRejection::InvalidStreamSlot { id: op.id })
        } else if !kind_in_direction(stream.direction, slot.kind) {
            Err(PlanRejection::InvalidStreamSlot { id: op.id })
        } else {
            Ok(())
        }
    }
}

/// The slots of one stream, in order.
pub open spec fn slots_check(
    ops: Seq<FamilyOperationInput>,
    op: FamilyOperationInput,
    stream: StreamUseSite,
) -> Result<(), PlanRejection> {
    first_error(Seq::new(stream.slots@.len(), |s: int| slot_check(ops, op, stream, s)))
}

/// One stream use site: it belongs to its operation, has a valid path and
/// a fresh use-site id, and its slots fit its direction.
pub open spec fn stream_check(ops: Seq<FamilyOperationInput>, op: FamilyOperationInput, t: int) -> Result<
    (),
    PlanRejection,
> {
    let stream = op.streams@[t];
    if stream.operation_id != op.id {
        Err(
            PlanRejection::UseSiteOperationMismatch {
                expected: op.id,
                actual: stream.operation_id,
                role: "stream"@,
            },
        )
    } else if path_check(op, stream.path.segments@, "stream"@) is Err {
        path_check(op, stream.path.segments@, "stream"@)
    } else if use_site_seen(ops, op, t) {
        Err(PlanRejection::DuplicateStreamUseSite { use_site_id: stream.use_site_id })
    } else if !slots_fit_direction(stream) {
        Err(PlanRejection::InvalidStreamSlot { id: op.id })
    } else {
        slots_check(ops, op, stream)
    }
}

/// The stream use sites of an operation, in order.
pub open spec fn streams_check(ops: Seq<FamilyOperationInput>, op: FamilyOperationInput) -> Result<
    (),
    PlanRejection,
> {
    first_error(Seq::new(op.streams@.len(), |t: int| stream_check(ops, op, t)))
}

// ---------------------------------------------------------------------------
// Whole table
// ---------------------------------------------------------------------------

/// The rules of one operation, in order: shape, declared slot, callbacks,
/// result resources, streams.
pub open spec fn operation_check(ops: Seq<FamilyOperationInput>, op: FamilyOperationInput) -> Result<
    (),
    PlanRejection,
> {
    if shape_check(op) is Err {
        shape_check(op)
    } else if declared_slot_check(op) is Err {
        declared_slot_check(op)
    } else if callbacks_check(op) is Err {
        callbacks_check(op)
    } else if results_check(op) is Err {
        results_check(op)
    } else {
        streams_check(ops, op)
    }
}

/// Position `i` of the id-ordered table: the operation with id `i` must
/// exist and pass its rules.
pub open spec fn operation_step(ops: Seq<FamilyOperationInput>, i: int) -> Result<(), PlanRejection> {
    if has_id(ops, i) {
        operation_check(ops, op_with_id(ops, i))
    } else {
        Err(
            PlanRejection::NonDenseOperationId {
                expected: i as u32,
                actual: next_id_above(ops, i),
            },
        )
    }
}

/// The operations in id order.
pub open spec fn operations_check(ops: Seq<FamilyOperationInput>) -> Result<(), PlanRejection> {
    first_error(Seq::new(ops.len(), |i: int| operation_step(ops, i)))
}

/// Every stream use site of the table, in id order.
pub open spec fn all_streams(ops: Seq<FamilyOperationInput>) -> Seq<StreamUseSite> {
    streams_before(ops, ops.len() as int)
}

/// Stream use-site ids must be `0..m` for `m` use sites; with distinct ids
/// that fails exactly when some id reaches `m`.
pub open spec fn stream_ids_check(ops: Seq<FamilyOperationInput>) -> Result<(), PlanRejection> {
    let streams = all_streams(ops);
    if exists|x: int| 0 <= x < streams.len() && (#[trigger] streams[x]).use_site_id >= streams.len() {
        Err(PlanRejection::NonDenseStreamUseSiteId)
    } else {
        Ok(())
    }
}

/// The slots that a list of stream use sites lists, in order.
pub open spec fn slots_of(streams: Seq<StreamUseSite>) -> Seq<StreamSlotIdentity>
    decreases streams.len(),
{
    if streams.len() == 0 {
        Seq::empty()
    } else {
        slots_of(streams.drop_last()) + streams.last().slots@
    }
}

/// Whether some stream use site of the table lists this slot.
pub open spec fn slot_referenced(ops: Seq<FamilyOperationInput>, slot: StreamSlotIdentity) -> bool {
    slots_of(all_streams(ops)).contains(slot)
}

/// Whether operation `i` declares a slot that no stream use site lists.
pub open spec fn is_orphan(ops: Seq<FamilyOperationInput>, i: int) -> bool {
    op_with_id(ops, i).stream_slot is Some && !slot_referenced(
        ops,
        op_with_id(ops, i).stream_slot->Some_0,
    )
}

/// The order of declared slots: by use-site id, then by operation id.
pub open spec fn orphan_precedes(ops: Seq<FamilyOperationInput>, a: int, b: int) -> bool {
    let first = op_with_id(ops, a).stream_slot->Some_0;
    let second = op_with_id(ops, b).stream_slot->Some_0;
    first.use_site_id < second.use_site_id || (first.use_site_id == second.use_site_id && a <= b)
}

/// The least unreferenced declared slot.
pub open spec fn first_orphan(ops: Seq<FamilyOperationInput>) -> int {
    choose|i: int|
        0 <= i < ops.len() && #[trigger] is_orphan(ops, i) && forall|j: int|
            0 <= j < ops.len() && #[trigger] is_orphan(ops, j) ==> orphan_precedes(ops, i, j)
}

/// Every declared slot must be listed by some stream use site.
pub open spec fn orphan_check(ops: Seq<FamilyOperationInput>) -> Result<(), PlanRejection> {
    if exists|i: int| 0 <= i < ops.len() && #[trigger] is_orphan(ops, i) {
        let slot = op_with_id(ops, first_orphan(ops)).stream_slot->Some_0;
        Err(
            PlanRejection::OrphanStreamSlot {
                use_site_id: slot.use_site_id,
                operation_id: slot.operation_id,
                kind: slot.kind,
            },
        )
    } else {
        Ok(())
    }
}

/// The rules of a whole plan input, in order.
pub open spec fn plan_check(input: FamilyPlanInput) -> Result<(), PlanRejection> {
    let ops = input.operations@;
    if close_policy_check(input.close_policy) is Err {
        close_policy_check(input.close_policy)
    } else if duplicates_check(ops) is Err {
        duplicates_check(ops)
    } else if operations_check(ops) is Err {
        operations_check(ops)
    } else if stream_ids_check(ops) is Err {
        stream_ids_check(ops)
    } else {
        orphan_check(ops)
    }
}

// ---------------------------------------------------------------------------
// Counting distinct ids
// ---------------------------------------------------------------------------

/// The ids of the input operations, as integers.
pub open spec fn id_seq(ops: Seq<FamilyOperationInput>) -> Seq<int> {
    ops.map_values(|op: FamilyOperationInput| op.id as int)
}

/// Distinct ids are as many as the operations.
proof fn lemma_id_set_len(ops: Seq<FamilyOperationInput>)
    requires
        ids_distinct(ops),
    ensures
        id_seq(ops).to_set().len() == ops.len(),
        id_seq(ops).to_set().finite(),
        forall|x: int| id_seq(ops).to_set().contains(x) <==> has_id(ops, x),
{
    let ids = id_seq(ops);
    assert(ids.no_duplicates()) by {
        assert forall|j: int, k: int| 0 <= j < ids.len() && 0 <= k < ids.len() && j != k implies ids[j]
            != ids[k] by {
            assert(ops[j].id != ops[k].id);
        }
    }
    ids.unique_seq_to_set();
    vstd::seq_lib::seq_to_set_is_finite(ids);
    assert forall|x: int| ids.to_set().contains(x) <==> has_id(ops, x) by {
        if has_id(ops, x) {
            let j = choose|j: int| 0 <= j < ops.len() && (#[trigger] ops[j]).id == x;
            assert(ids[j] == x);
        }
        if ids.to_set().contains(x) {
            let j = choose|j: int| 0 <= j < ids.len() && ids[j] == x;
            assert(ops[j].id == x);
        }
    }
}

/// Operations with distinct ids all below `bound` are at most `bound` many.
pub proof fn lemma_ids_below(ops: Seq<FamilyOperationInput>, bound: int)
    requires
        ids_distinct(ops),
        0 <= bound,
        forall|j: int| 0 <= j < ops.len() ==> (#[trigger] ops[j]).id < bound,
    ensures
        ops.len() <= bound,
{
    lemma_id_set_len(ops);
    let ids = id_seq(ops).to_set();
    let range = vstd::set_lib::set_int_range(0, bound);
    vstd::set_lib::lemma_int_range(0, bound);
    assert(ids.subset_of(range)) by {
        assert forall|x: int| ids.contains(x) implies range.contains(x) by {
            let j = choose|j: int| 0 <= j < ops.len() && (#[trigger] ops[j]).id == x;
        }
    }
    vstd::set_lib::lemma_len_subset(ids, range);
}

/// When `n` operations with distinct ids cover `0..n`, every id is below
/// `n`.
pub proof fn lemma_ids_cover(ops: Seq<FamilyOperationInput>)
    requires
        ids_distinct(ops),
        forall|i: int| 0 <= i < ops.len() ==> #[trigger] has_id(ops, i),
    ensures
        forall|j: int| 0 <= j < ops.len() ==> (#[trigger] ops[j]).id < ops.len(),
{
    lemma_id_set_len(ops);
    let ids = id_seq(ops).to_set();
    let range = vstd::set_lib::set_int_range(0, ops.len() as int);
    vstd::set_lib::lemma_int_range(0, ops.len() as int);
    assert(range.subset_of(ids)) by {
        assert forall|x: int| range.contains(x) implies ids.contains(x) by {
            assert(has_id(ops, x));
        }
    }
    vstd::set_lib::lemma_subset_equality(range, ids);
    assert forall|j: int| 0 <= j < ops.len() implies (#[trigger] ops[j]).id < ops.len() by {
        assert(has_id(ops, ops[j].id as int));
        assert(ids.contains(ops[j].id as int));
    }
}

} // verus!
