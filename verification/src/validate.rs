//! Executable checks of the family plan rules, each proved to report what
//! its rule in [`crate::rules`] says.
use vstd::prelude::*;

use crate::family::{
    AsyncKind, CallbackUseSite, ClosePolicy, DeadlineAction, FamilyOperationInput,
    OperationDispatch, OperationKind, ReceiverBinding, ResourceKind, ResourceOwnership,
    StreamDirection, StreamSlotIdentity, StreamUseSite, ValuePath, ValuePathSegment,
};
use crate::plan_error::FamilyPlanError;
use crate::rules::{
    agrees, callback_check, callbacks_check, close_policy_check, declared_slot_check,
    first_same_text, has_nested_root, is_resource_receiver, is_return_root, is_root_segment,
    is_step_selector, lemma_first_error_all_ok, lemma_first_error_step, misplaced_step, path_check,
    repeats_text, result_check, result_path_check, result_text, results_check,
    returns_output_stream, shape_check, direction_kinds, has_id, ids_distinct, kind_in_direction,
    kind_occurs_once, lemma_op_with_id, slot_check, slots_fit_direction, stream_check,
    streams_before, streams_check, use_site_ids, slots_of,
};

verus! {

/// Checks the close policy against the JavaScript timer range.
pub fn validate_close_policy(policy: ClosePolicy) -> (result: Result<(), FamilyPlanError>)
    ensures
        agrees(result, close_policy_check(policy)),
{
    if policy.grace_ms > 0x7fff_ffffu32 {
        return Err(FamilyPlanError::ClosePolicyOutOfRange { grace_ms: policy.grace_ms });
    }
    match policy.on_deadline {
        DeadlineAction::Detach => Ok(()),
    }
}

/// Whether a receiver is a resource lease of the given kind.
pub(crate) fn receiver_is_resource(receiver: Option<ReceiverBinding>, kind: ResourceKind) -> (result: bool)
    ensures
        result == is_resource_receiver(receiver, kind),
{
    match receiver {
        Some(ReceiverBinding::Resource(binding)) => binding.kind == kind,
        _ => false,
    }
}

/// Whether a path is exactly the return root.
pub(crate) fn path_is_return_root(path: &ValuePath) -> (result: bool)
    ensures
        result == is_return_root(path.segments@),
{
    path.segments.len() == 1 && match &path.segments[0] {
        ValuePathSegment::Return => true,
        _ => false,
    }
}

/// Whether some result resource is an output stream at the return root.
fn has_return_output_stream(op: &FamilyOperationInput) -> (result: bool)
    ensures
        result == returns_output_stream(*op),
{
    let count = op.result_resources.len();
    let mut k: usize = 0;
    while k < count
        invariant
            count == op.result_resources@.len(),
            k <= count,
            forall|j: int|
                0 <= j < k ==> !(is_return_root(
                    (#[trigger] op.result_resources@[j]).path.segments@,
                ) && op.result_resources@[j].binding.kind == ResourceKind::OutputStream),
        decreases count - k,
    {
        let resource = &op.result_resources[k];
        if path_is_return_root(&resource.path) && resource.binding.kind
            == ResourceKind::OutputStream {
            return true;
        }
        k += 1;
    }
    false
}

/// Checks the shape rules of one operation.
pub fn validate_operation_shape(op: &FamilyOperationInput) -> (result: Result<(), FamilyPlanError>)
    ensures
        agrees(result, shape_check(*op)),
{
    let required_receiver = match op.kind {
        OperationKind::Method
        | OperationKind::InputStreamPull
        | OperationKind::InputStreamCancel
        | OperationKind::OutputStreamNext
        | OperationKind::OutputStreamCancel => true,
        _ => false,
    };
    if required_receiver && op.receiver.is_none() {
        return Err(FamilyPlanError::MissingReceiver { id: op.id });
    }
    if !required_receiver && op.receiver.is_some() {
        return Err(FamilyPlanError::UnexpectedReceiver { id: op.id });
    }
    let receiver_fits = match op.kind {
        OperationKind::Method => !receiver_is_resource(op.receiver, ResourceKind::InputStream)
            && !receiver_is_resource(op.receiver, ResourceKind::OutputStream),
        OperationKind::InputStreamPull | OperationKind::InputStreamCancel => receiver_is_resource(
            op.receiver,
            ResourceKind::InputStream,
        ),
        OperationKind::OutputStreamNext | OperationKind::OutputStreamCancel => receiver_is_resource(
            op.receiver,
            ResourceKind::OutputStream,
        ),
        _ => true,
    };
    if !receiver_fits {
        return Err(FamilyPlanError::WrongReceiverKind { id: op.id });
    }
    if op.kind == OperationKind::OutputStreamStart && !has_return_output_stream(op) {
        return Err(FamilyPlanError::MissingResultResource { id: op.id });
    }
    let dispatch_matches_kind = match op.kind {
        OperationKind::CallbackMethod => match op.dispatch {
            OperationDispatch::CallbackHost { .. } => true,
            _ => false,
        },
        OperationKind::InputStreamPull => op.dispatch == OperationDispatch::InputStreamHostPull,
        OperationKind::InputStreamCancel => op.dispatch == OperationDispatch::InputStreamHostCancel,
        _ => op.dispatch == OperationDispatch::Native,
    };
    if !dispatch_matches_kind {
        return Err(FamilyPlanError::WrongDispatch { id: op.id });
    }
    let is_cancel = op.kind == OperationKind::InputStreamCancel || op.kind
        == OperationKind::OutputStreamCancel;
    if is_cancel && op.result_resources.len() > 0 {
        return Err(FamilyPlanError::CancelHasResult { id: op.id });
    }
    let host_stream = op.dispatch == OperationDispatch::InputStreamHostPull || op.dispatch
        == OperationDispatch::InputStreamHostCancel;
    if host_stream && op.async_kind != AsyncKind::Async {
        return Err(FamilyPlanError::HostOperationMustBeAsync { id: op.id });
    }
    Ok(())
}

/// Whether a segment is an argument or return root.
fn segment_is_root(segment: &ValuePathSegment) -> (result: bool)
    ensures
        result == is_root_segment(*segment),
{
    match segment {
        ValuePathSegment::Argument(_) | ValuePathSegment::Return => true,
        _ => false,
    }
}

/// Whether a segment selects a stream step.
fn segment_is_step(segment: &ValuePathSegment) -> (result: bool)
    ensures
        result == is_step_selector(*segment),
{
    match segment {
        ValuePathSegment::StreamItem | ValuePathSegment::StreamError => true,
        _ => false,
    }
}

/// Whether a root segment appears below the first segment.
fn path_has_nested_root(path: &ValuePath) -> (result: bool)
    ensures
        result == has_nested_root(path.segments@),
{
    let count = path.segments.len();
    let mut j: usize = 1;
    while j < count
        invariant
            count == path.segments@.len(),
            1 <= j,
            forall|i: int| 1 <= i < j && i < count ==> !is_root_segment(#[trigger] path.segments@[i]),
        decreases count - j,
    {
        if segment_is_root(&path.segments[j]) {
            return true;
        }
        j += 1;
    }
    false
}

/// Checks a callback or stream path.
#[verifier::loop_isolation(false)]
pub fn validate_path(op: &FamilyOperationInput, path: &ValuePath, role: &'static str) -> (result:
    Result<(), FamilyPlanError>)
    ensures
        agrees(result, path_check(*op, path.segments@, role@)),
{
    let count = path.segments.len();
    if count == 0 {
        return Err(FamilyPlanError::EmptyPath { id: op.id, role });
    }
    match &path.segments[0] {
        ValuePathSegment::Argument(index) => {
            if (*index as usize) >= op.argument_count {
                return Err(
                    FamilyPlanError::ArgumentPathOutOfRange {
                        id: op.id,
                        argument: *index,
                        count: op.argument_count,
                        role,
                    },
                );
            }
        },
        ValuePathSegment::Return => {},
        _ => {
            return Err(FamilyPlanError::InvalidPathRoot { id: op.id, role });
        },
    }
    if path_has_nested_root(path) {
        return Err(FamilyPlanError::NestedRootSegment { id: op.id, role });
    }
    let mut j: usize = 0;
    while j < count
        invariant
            count == path.segments@.len(),
            j <= count,
            forall|i: int| 0 <= i < j ==> !is_step_selector(#[trigger] path.segments@[i]),
        decreases count - j,
    {
        if segment_is_step(&path.segments[j]) {
            assert(is_step_selector(path.segments@[j as int]));
            return Err(FamilyPlanError::InvalidStreamStepPath { id: op.id, role });
        }
        j += 1;
    }
    Ok(())
}

/// Checks a result resource path.
#[verifier::loop_isolation(false)]
pub fn validate_result_resource_path(op: &FamilyOperationInput, path: &ValuePath) -> (result:
    Result<(), FamilyPlanError>)
    ensures
        agrees(result, result_path_check(*op, path.segments@)),
{
    let count = path.segments.len();
    if count == 0 {
        return Err(FamilyPlanError::EmptyPath { id: op.id, role: "result resource" });
    }
    let rooted = match &path.segments[0] {
        ValuePathSegment::Return => true,
        _ => false,
    };
    if !rooted {
        return Err(FamilyPlanError::InvalidPathRoot { id: op.id, role: "result resource" });
    }
    if path_has_nested_root(path) {
        return Err(FamilyPlanError::NestedRootSegment { id: op.id, role: "result resource" });
    }
    let mut j: usize = 1;
    while j < count
        invariant
            count == path.segments@.len(),
            1 <= j,
            forall|i: int| i < j ==> !#[trigger] misplaced_step(*op, path.segments@, i),
        decreases count - j,
    {
        if segment_is_step(&path.segments[j]) && (op.kind != OperationKind::OutputStreamNext || j
            != 1) {
            assert(misplaced_step(*op, path.segments@, j as int));
            return Err(
                FamilyPlanError::InvalidStreamStepPath { id: op.id, role: "result resource" },
            );
        }
        j += 1;
    }
    Ok(())
}

/// Checks the slot that an operation declares for itself.
pub fn validate_declared_slot(op: &FamilyOperationInput) -> (result: Result<(), FamilyPlanError>)
    ensures
        agrees(result, declared_slot_check(*op)),
{
    match op.stream_slot {
        None => Ok(()),
        Some(slot) => {
            if slot.operation_id != op.id {
                return Err(
                    FamilyPlanError::StreamSlotOperationMismatch {
                        expected: op.id,
                        actual: slot.operation_id,
                    },
                );
            }
            if slot.kind != op.kind {
                return Err(
                    FamilyPlanError::StreamSlotKindMismatch {
                        operation_id: op.id,
                        expected: op.kind,
                        actual: slot.kind,
                    },
                );
            }
            let slot_kind = match slot.kind {
                OperationKind::InputStreamPull
                | OperationKind::InputStreamCancel
                | OperationKind::OutputStreamStart
                | OperationKind::OutputStreamNext
                | OperationKind::OutputStreamCancel => true,
                _ => false,
            };
            if !slot_kind {
                return Err(FamilyPlanError::InvalidStreamSlot { id: op.id });
            }
            Ok(())
        },
    }
}

/// Checks one callback use site.
fn validate_callback(op: &FamilyOperationInput, callback: &CallbackUseSite) -> (result: Result<
    (),
    FamilyPlanError,
>)
    ensures
        agrees(result, callback_check(*op, *callback)),
{
    if callback.operation_id != op.id {
        return Err(
            FamilyPlanError::UseSiteOperationMismatch {
                expected: op.id,
                actual: callback.operation_id,
                role: "callback",
            },
        );
    }
    validate_path(op, &callback.path, "callback")
}

/// Checks the callback use sites of an operation, in order.
pub fn validate_callbacks(op: &FamilyOperationInput) -> (result: Result<(), FamilyPlanError>)
    ensures
        agrees(result, callbacks_check(*op)),
{
    let count = op.callbacks.len();
    let ghost checks = Seq::new(op.callbacks@.len(), |k: int| callback_check(*op, op.callbacks@[k]));
    let mut k: usize = 0;
    while k < count
        invariant
            count == op.callbacks@.len(),
            checks == Seq::new(op.callbacks@.len(), |k: int| callback_check(*op, op.callbacks@[k])),
            k <= count,
            forall|j: int| 0 <= j < k ==> (#[trigger] checks[j]) is Ok,
        decreases count - k,
    {
        let result = validate_callback(op, &op.callbacks[k]);
        proof {
            lemma_first_error_step(checks, k as int);
        }
        match result {
            Err(error) => {
                return Err(error);
            },
            Ok(()) => {},
        }
        k += 1;
    }
    proof {
        lemma_first_error_all_ok(checks);
    }
    Ok(())
}

/// Checks the result resources of an operation, in order.
#[verifier::loop_isolation(false)]
pub fn validate_result_resources(op: &FamilyOperationInput) -> (result: Result<(), FamilyPlanError>)
    ensures
        agrees(result, results_check(*op)),
{
    let count = op.result_resources.len();
    let ghost checks = Seq::new(op.result_resources@.len(), |k: int| result_check(*op, k));
    let mut texts: Vec<String> = Vec::new();
    let mut k: usize = 0;
    while k < count
        invariant
            count == op.result_resources@.len(),
            checks == Seq::new(op.result_resources@.len(), |k: int| result_check(*op, k)),
            k <= count,
            forall|j: int| 0 <= j < k ==> (#[trigger] checks[j]) is Ok,
            texts@.len() == k,
            forall|j: int| 0 <= j < k ==> (#[trigger] texts@[j])@ == result_text(*op, j),
        decreases count - k,
    {
        let resource = &op.result_resources[k];
        proof {
            lemma_first_error_step(checks, k as int);
        }
        if resource.operation_id != op.id {
            return Err(
                FamilyPlanError::UseSiteOperationMismatch {
                    expected: op.id,
                    actual: resource.operation_id,
                    role: "result resource",
                },
            );
        }
        match validate_result_resource_path(op, &resource.path) {
            Err(error) => {
                return Err(error);
            },
            Ok(()) => {},
        }
        if resource.binding.ownership != ResourceOwnership::Owned {
            return Err(
                FamilyPlanError::NonOwnedResultResource {
                    id: op.id,
                    ownership: resource.binding.ownership,
                },
            );
        }
        let text = resource.path.to_string();
        let mut j: usize = 0;
        while j < k
            invariant
                k < count,
                count == op.result_resources@.len(),
                texts@.len() == k,
                forall|i: int| 0 <= i < k ==> (#[trigger] texts@[i])@ == result_text(*op, i),
                text@ == result_text(*op, k as int),
                j <= k,
                forall|i: int| 0 <= i < j ==> !#[trigger] repeats_text(*op, k as int, i),
            decreases k - j,
        {
            if texts[j] == text {
                proof {
                    assert(repeats_text(*op, k as int, j as int));
                    let first = first_same_text(*op, k as int);
                    assert(repeats_text(*op, k as int, first) && forall|i: int|
                        0 <= i < first ==> !#[trigger] repeats_text(*op, k as int, i));
                    assert(first == j as int) by {
                        if first < j {
                        } else if first > j {
                            assert(!repeats_text(*op, k as int, j as int));
                        }
                    }
                }
                if op.result_resources[j].binding == resource.binding {
                    return Err(
                        FamilyPlanError::DuplicateResultResourceUseSite { id: op.id, path: text },
                    );
                } else {
                    return Err(
                        FamilyPlanError::ConflictingResultResourceUseSite { id: op.id, path: text },
                    );
                }
            }
            j += 1;
        }
        assert(checks[k as int] is Ok);
        texts.push(text);
        k += 1;
    }
    proof {
        lemma_first_error_all_ok(checks);
    }
    Ok(())
}

/// Finds the position of the operation with this id.
pub fn find_operation(ops: &Vec<FamilyOperationInput>, id: u32) -> (found: Option<usize>)
    ensures
        match found {
            Some(j) => j < ops@.len() && ops@[j as int].id == id,
            None => !has_id(ops@, id as int),
        },
{
    let count = ops.len();
    let mut j: usize = 0;
    while j < count
        invariant
            count == ops@.len(),
            j <= count,
            forall|i: int| 0 <= i < j ==> (#[trigger] ops@[i]).id != id,
        decreases count - j,
    {
        if ops[j].id == id {
            return Some(j);
        }
        j += 1;
    }
    None
}

/// Whether exactly one slot has this kind.
fn occurs_once(slots: &Vec<StreamSlotIdentity>, kind: OperationKind) -> (result: bool)
    ensures
        result == kind_occurs_once(slots@, kind),
{
    let count = slots.len();
    let mut found: Option<usize> = None;
    let mut j: usize = 0;
    while j < count
        invariant
            count == slots@.len(),
            j <= count,
            found is None ==> forall|i: int| 0 <= i < j ==> (#[trigger] slots@[i]).kind != kind,
            found matches Some(a) ==> a < j && slots@[a as int].kind == kind && forall|i: int|
                0 <= i < j && i != a ==> (#[trigger] slots@[i]).kind != kind,
        decreases count - j,
    {
        if slots[j].kind == kind {
            match found {
                Some(a) => {
                    assert(!kind_occurs_once(slots@, kind)) by {
                        if kind_occurs_once(slots@, kind) {
                            let c = choose|c: int|
                                0 <= c < slots@.len() && (#[trigger] slots@[c]).kind == kind
                                    && forall|b: int|
                                    0 <= b < slots@.len() && b != c ==> (#[trigger] slots@[b]).kind
                                        != kind;
                            if c == a as int {
                                assert(slots@[j as int].kind != kind);
                            } else {
                                assert(slots@[a as int].kind != kind);
                            }
                        }
                    }
                    return false;
                },
                None => {
                    found = Some(j);
                },
            }
        }
        j += 1;
    }
    match found {
        Some(a) => {
            assert(kind_occurs_once(slots@, kind)) by {
                assert(slots@[a as int].kind == kind);
            }
            true
        },
        None => false,
    }
}

/// Whether a stream has one slot of each kind that its direction needs.
fn slots_fit(stream: &StreamUseSite) -> (result: bool)
    ensures
        result == slots_fit_direction(*stream),
{
    let ghost kinds = direction_kinds(stream.direction);
    match stream.direction {
        StreamDirection::Input => {
            let fits = stream.slots.len() == 2 && occurs_once(
                &stream.slots,
                OperationKind::InputStreamPull,
            ) && occurs_once(&stream.slots, OperationKind::InputStreamCancel);
            proof {
                assert(kinds[0] == OperationKind::InputStreamPull);
                assert(kinds[1] == OperationKind::InputStreamCancel);
                if fits {
                    assert forall|k: int| 0 <= k < kinds.len() implies kind_occurs_once(
                        stream.slots@,
                        #[trigger] kinds[k],
                    ) by {
                        if k == 0 {
                        } else {
                        }
                    }
                }
            }
            fits
        },
        StreamDirection::Output => {
            let fits = stream.slots.len() == 3 && occurs_once(
                &stream.slots,
                OperationKind::OutputStreamStart,
            ) && occurs_once(&stream.slots, OperationKind::OutputStreamNext) && occurs_once(
                &stream.slots,
                OperationKind::OutputStreamCancel,
            );
            proof {
                assert(kinds[0] == OperationKind::OutputStreamStart);
                assert(kinds[1] == OperationKind::OutputStreamNext);
                assert(kinds[2] == OperationKind::OutputStreamCancel);
                if fits {
                    assert forall|k: int| 0 <= k < kinds.len() implies kind_occurs_once(
                        stream.slots@,
                        #[trigger] kinds[k],
                    ) by {
                        if k == 0 {
                        } else if k == 1 {
                        } else {
                        }
                    }
                }
            }
            fits
        },
    }
}

/// Whether a slot kind belongs to a stream direction.
fn kind_fits_direction(direction: StreamDirection, kind: OperationKind) -> (result: bool)
    ensures
        result == kind_in_direction(direction, kind),
{
    match direction {
        StreamDirection::Input => match kind {
            OperationKind::InputStreamPull | OperationKind::InputStreamCancel => true,
            _ => false,
        },
        StreamDirection::Output => match kind {
            OperationKind::OutputStreamStart
            | OperationKind::OutputStreamNext
            | OperationKind::OutputStreamCancel => true,
            _ => false,
        },
    }
}

/// Checks one slot of a stream use site against the operation it names.
fn validate_slot(
    ops: &Vec<FamilyOperationInput>,
    op: &FamilyOperationInput,
    stream: &StreamUseSite,
    s: usize,
) -> (result: Result<(), FamilyPlanError>)
    requires
        ids_distinct(ops@),
        s < stream.slots@.len(),
    ensures
        agrees(result, slot_check(ops@, *op, *stream, s as int)),
{
    let slot = stream.slots[s];
    if slot.use_site_id != stream.use_site_id {
        return Err(
            FamilyPlanError::StreamSlotUseSiteMismatch {
                expected: stream.use_site_id,
                actual: slot.use_site_id,
            },
        );
    }
    let position = match find_operation(ops, slot.operation_id) {
        Some(position) => position,
        None => {
            return Err(
                FamilyPlanError::UnknownStreamSlotOperation {
                    use_site_id: stream.use_site_id,
                    operation_id: slot.operation_id,
                },
            );
        },
    };
    let target = &ops[position];
    proof {
        lemma_op_with_id(ops@, position as int);
    }
    if target.kind != slot.kind {
        return Err(
            FamilyPlanError::StreamSlotKindMismatch {
                operation_id: slot.operation_id,
                expected: target.kind,
                actual: slot.kind,
            },
        );
    }
    match target.stream_slot {
        Some(declared) => {
            if declared.kind != slot.kind {
                return Err(
                    FamilyPlanError::StreamSlotKindMismatch {
                        operation_id: slot.operation_id,
                        expected: target.kind,
                        actual: declared.kind,
                    },
                );
            }
            if declared != slot {
                return Err(
                    FamilyPlanError::StreamSlotIdentityMismatch {
                        use_site_id: stream.use_site_id,
                        operation_id: slot.operation_id,
                    },
                );
            }
        },
        None => {
            return Err(
                FamilyPlanError::StreamSlotIdentityMismatch {
                    use_site_id: stream.use_site_id,
                    operation_id: slot.operation_id,
                },
            );
        },
    }
    if stream.direction == StreamDirection::Output && slot.kind == OperationKind::OutputStreamStart
        && slot.operation_id != op.id {
        return Err(FamilyPlanError::InvalidStreamSlot { id: op.id });
    }
    if !kind_fits_direction(stream.direction, slot.kind) {
        return Err(FamilyPlanError::InvalidStreamSlot { id: op.id });
    }
    Ok(())
}

/// Whether a list of use-site ids holds this id.
fn holds_id(ids: &Vec<u32>, id: u32) -> (result: bool)
    ensures
        result == ids@.contains(id),
{
    let count = ids.len();
    let mut j: usize = 0;
    while j < count
        invariant
            count == ids@.len(),
            j <= count,
            forall|i: int| 0 <= i < j ==> ids@[i] != id,
        decreases count - j,
    {
        if ids[j] == id {
            assert(ids@[j as int] == id);
            return true;
        }
        j += 1;
    }
    false
}

/// Checks one stream use site of an operation, given the use-site ids
/// checked before it.
#[verifier::loop_isolation(false)]
fn validate_stream(
    ops: &Vec<FamilyOperationInput>,
    op: &FamilyOperationInput,
    t: usize,
    seen: &Vec<u32>,
) -> (result: Result<(), FamilyPlanError>)
    requires
        ids_distinct(ops@),
        t < op.streams@.len(),
        seen@ == use_site_ids(streams_before(ops@, op.id as int) + op.streams@.take(t as int)),
    ensures
        agrees(result, stream_check(ops@, *op, t as int)),
{
    let stream = &op.streams[t];
    if stream.operation_id != op.id {
        return Err(
            FamilyPlanError::UseSiteOperationMismatch {
                expected: op.id,
                actual: stream.operation_id,
                role: "stream",
            },
        );
    }
    match validate_path(op, &stream.path, "stream") {
        Err(error) => {
            return Err(error);
        },
        Ok(()) => {},
    }
    if holds_id(seen, stream.use_site_id) {
        return Err(FamilyPlanError::DuplicateStreamUseSite { use_site_id: stream.use_site_id });
    }
    if !slots_fit(stream) {
        return Err(FamilyPlanError::InvalidStreamSlot { id: op.id });
    }
    let count = stream.slots.len();
    let ghost checks = Seq::new(stream.slots@.len(), |s: int| slot_check(ops@, *op, *stream, s));
    let mut s: usize = 0;
    while s < count
        invariant
            count == stream.slots@.len(),
            s <= count,
            forall|j: int| 0 <= j < s ==> (#[trigger] checks[j]) is Ok,
        decreases count - s,
    {
        let result = validate_slot(ops, op, stream, s);
        proof {
            lemma_first_error_step(checks, s as int);
        }
        match result {
            Err(error) => {
                return Err(error);
            },
            Ok(()) => {},
        }
        s += 1;
    }
    proof {
        lemma_first_error_all_ok(checks);
    }
    Ok(())
}

/// Checks the stream use sites of an operation, in order, and records
/// their use-site ids and the slots that they list.
#[verifier::loop_isolation(false)]
pub(crate) fn validate_streams(
    ops: &Vec<FamilyOperationInput>,
    op: &FamilyOperationInput,
    seen: &mut Vec<u32>,
    referenced: &mut Vec<StreamSlotIdentity>,
) -> (result: Result<(), FamilyPlanError>)
    requires
        ids_distinct(ops@),
        old(seen)@ == use_site_ids(streams_before(ops@, op.id as int)),
        old(referenced)@ == slots_of(streams_before(ops@, op.id as int)),
    ensures
        agrees(result, streams_check(ops@, *op)),
        result is Ok ==> final(seen)@ == use_site_ids(
            streams_before(ops@, op.id as int) + op.streams@,
        ),
        result is Ok ==> final(referenced)@ == slots_of(
            streams_before(ops@, op.id as int) + op.streams@,
        ),
{
    let count = op.streams.len();
    let ghost before = streams_before(ops@, op.id as int);
    let ghost checks = Seq::new(op.streams@.len(), |t: int| stream_check(ops@, *op, t));
    let mut t: usize = 0;
    assert(before + op.streams@.take(0) =~= before);
    assert(op.streams@.take(0) =~= Seq::<StreamUseSite>::empty());
    while t < count
        invariant
            count == op.streams@.len(),
            t <= count,
            forall|j: int| 0 <= j < t ==> (#[trigger] checks[j]) is Ok,
            seen@ == use_site_ids(before + op.streams@.take(t as int)),
            referenced@ == slots_of(before + op.streams@.take(t as int)),
        decreases count - t,
    {
        let result = validate_stream(ops, op, t, seen);
        proof {
            lemma_first_error_step(checks, t as int);
        }
        match result {
            Err(error) => {
                return Err(error);
            },
            Ok(()) => {},
        }
        let ghost previous = seen@;
        seen.push(op.streams[t].use_site_id);
        proof {
            assert(op.streams@.take(t as int + 1) =~= op.streams@.take(t as int).push(
                op.streams@[t as int],
            ));
            assert(before + op.streams@.take(t as int + 1) =~= (before + op.streams@.take(
                t as int,
            )).push(op.streams@[t as int]));
            assert(seen@ =~= use_site_ids(before + op.streams@.take(t as int + 1)));
        }
        let slots = &op.streams[t].slots;
        let slot_count = slots.len();
        let ghost listed = referenced@;
        let mut s: usize = 0;
        while s < slot_count
            invariant
                slot_count == slots@.len(),
                s <= slot_count,
                referenced@ == listed + slots@.take(s as int),
            decreases slot_count - s,
        {
            referenced.push(slots[s]);
            assert(slots@.take(s as int + 1) =~= slots@.take(s as int).push(slots@[s as int]));
            assert(referenced@ =~= listed + slots@.take(s as int + 1));
            s += 1;
        }
        proof {
            let extended = before + op.streams@.take(t as int + 1);
            assert(extended.drop_last() =~= before + op.streams@.take(t as int));
            assert(extended.last() == op.streams@[t as int]);
            assert(slots@.take(slot_count as int) =~= slots@);
            assert(referenced@ =~= slots_of(extended));
        }
        t += 1;
    }
    proof {
        lemma_first_error_all_ok(checks);
        assert(op.streams@.take(count as int) =~= op.streams@);
    }
    Ok(())
}

} // verus!
