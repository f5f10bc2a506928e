//! The runtime entrypoints that a family plan needs.
use vstd::prelude::*;

use crate::family::{
    AsyncKind, CallbackRetention, FamilyOperation, FamilyOperationInput, FamilyOperationTarget,
    ReceiverBinding, ResourceKind, RuntimeEntrypoint, StreamDirection, planned_operation,
};
use crate::rules::is_resource_receiver;

verus! {

/// Whether some result resource of an operation has this kind.
pub open spec fn has_result_kind(op: FamilyOperation, kind: ResourceKind) -> bool {
    exists|k: int|
        0 <= k < op.result_resources@.len() && (#[trigger] op.result_resources@[k]).binding.kind
            == kind
}

/// Whether some stream use site of an operation has this direction.
pub open spec fn has_stream_direction(op: FamilyOperation, direction: StreamDirection) -> bool {
    exists|k: int| 0 <= k < op.streams@.len() && (#[trigger] op.streams@[k]).direction == direction
}

/// Whether some callback use site of an operation is retained.
pub open spec fn retains_callback(op: FamilyOperation) -> bool {
    exists|k: int|
        0 <= k < op.callbacks@.len() && (#[trigger] op.callbacks@[k]).contract.retention
            == CallbackRetention::Retained
}

/// Whether an operation leases, produces or takes a resource of this kind:
/// as receiver, as result resource, or, for streams, as a stream use site.
pub open spec fn touches_resource(op: FamilyOperation, kind: ResourceKind) -> bool {
    is_resource_receiver(op.receiver, kind) || has_result_kind(op, kind) || (kind
        == ResourceKind::InputStream && has_stream_direction(op, StreamDirection::Input)) || (kind
        == ResourceKind::OutputStream && has_stream_direction(op, StreamDirection::Output))
}

/// Whether one operation needs an entrypoint.  No operation needs closing
/// the session: the plan itself does, whatever its operations.
pub open spec fn operation_requires(op: FamilyOperation, entry: RuntimeEntrypoint) -> bool {
    match entry {
        RuntimeEntrypoint::CloseSession => false,
        RuntimeEntrypoint::ReleaseObject => touches_resource(op, ResourceKind::Object),
        RuntimeEntrypoint::RetainCallback | RuntimeEntrypoint::ReleaseCallback => retains_callback(op),
        RuntimeEntrypoint::InvokeCallbackSync => op.target is CallbackHost && op.async_kind
            == AsyncKind::Sync,
        RuntimeEntrypoint::InvokeCallbackAsync => op.target is CallbackHost && op.async_kind
            == AsyncKind::Async,
        RuntimeEntrypoint::PullInputStream
        | RuntimeEntrypoint::CancelInputStream
        | RuntimeEntrypoint::ReleaseInputStream => touches_resource(op, ResourceKind::InputStream),
        RuntimeEntrypoint::NextOutputStream
        | RuntimeEntrypoint::CancelOutputStream
        | RuntimeEntrypoint::ReleaseOutputStream => touches_resource(op, ResourceKind::OutputStream),
    }
}

/// Whether a plan with these operations needs an entrypoint: closing the
/// session always, any other entrypoint when some operation needs it.
pub open spec fn entry_required(ops: Seq<FamilyOperation>, entry: RuntimeEntrypoint) -> bool {
    entry == RuntimeEntrypoint::CloseSession || exists|i: int|
        0 <= i < ops.len() && operation_requires(#[trigger] ops[i], entry)
}

/// The position of an entrypoint in declaration order.
pub open spec fn entry_index(entry: RuntimeEntrypoint) -> int {
    match entry {
        RuntimeEntrypoint::CloseSession => 0,
        RuntimeEntrypoint::ReleaseObject => 1,
        RuntimeEntrypoint::RetainCallback => 2,
        RuntimeEntrypoint::ReleaseCallback => 3,
        RuntimeEntrypoint::InvokeCallbackSync => 4,
        RuntimeEntrypoint::InvokeCallbackAsync => 5,
        RuntimeEntrypoint::PullInputStream => 6,
        RuntimeEntrypoint::CancelInputStream => 7,
        RuntimeEntrypoint::ReleaseInputStream => 8,
        RuntimeEntrypoint::NextOutputStream => 9,
        RuntimeEntrypoint::CancelOutputStream => 10,
        RuntimeEntrypoint::ReleaseOutputStream => 11,
    }
}

/// The entrypoint at a position of declaration order.
pub open spec fn entry_at(index: int) -> RuntimeEntrypoint {
    if index == 0 {
        RuntimeEntrypoint::CloseSession
    } else if index == 1 {
        RuntimeEntrypoint::ReleaseObject
    } else if index == 2 {
        RuntimeEntrypoint::RetainCallback
    } else if index == 3 {
        RuntimeEntrypoint::ReleaseCallback
    } else if index == 4 {
        RuntimeEntrypoint::InvokeCallbackSync
    } else if index == 5 {
        RuntimeEntrypoint::InvokeCallbackAsync
    } else if index == 6 {
        RuntimeEntrypoint::PullInputStream
    } else if index == 7 {
        RuntimeEntrypoint::CancelInputStream
    } else if index == 8 {
        RuntimeEntrypoint::ReleaseInputStream
    } else if index == 9 {
        RuntimeEntrypoint::NextOutputStream
    } else if index == 10 {
        RuntimeEntrypoint::CancelOutputStream
    } else {
        RuntimeEntrypoint::ReleaseOutputStream
    }
}

/// Positions and entrypoints correspond one to one.
pub proof fn lemma_entry_index(entry: RuntimeEntrypoint)
    ensures
        0 <= entry_index(entry) < 12,
        entry_at(entry_index(entry)) == entry,
{
}

/// Whether a list of entrypoints is strictly increasing in declaration
/// order, hence free of repetitions.
pub open spec fn entries_increasing(entries: Seq<RuntimeEntrypoint>) -> bool {
    forall|a: int, b: int|
        0 <= a < b < entries.len() ==> entry_index(#[trigger] entries[a]) < entry_index(
            #[trigger] entries[b],
        )
}

/// The entrypoint at a position, executably.
fn entry_of(index: usize) -> (entry: RuntimeEntrypoint)
    requires
        index < 12,
    ensures
        entry == entry_at(index as int),
        entry_index(entry) == index,
{
    if index == 0 {
        RuntimeEntrypoint::CloseSession
    } else if index == 1 {
        RuntimeEntrypoint::ReleaseObject
    } else if index == 2 {
        RuntimeEntrypoint::RetainCallback
    } else if index == 3 {
        RuntimeEntrypoint::ReleaseCallback
    } else if index == 4 {
        RuntimeEntrypoint::InvokeCallbackSync
    } else if index == 5 {
        RuntimeEntrypoint::InvokeCallbackAsync
    } else if index == 6 {
        RuntimeEntrypoint::PullInputStream
    } else if index == 7 {
        RuntimeEntrypoint::CancelInputStream
    } else if index == 8 {
        RuntimeEntrypoint::ReleaseInputStream
    } else if index == 9 {
        RuntimeEntrypoint::NextOutputStream
    } else if index == 10 {
        RuntimeEntrypoint::CancelOutputStream
    } else {
        RuntimeEntrypoint::ReleaseOutputStream
    }
}

/// Whether some result resource has this kind.
fn results_have_kind(op: &FamilyOperationInput, kind: ResourceKind) -> (result: bool)
    ensures
        result == has_result_kind(planned_operation(*op), kind),
{
    let count = op.result_resources.len();
    let mut k: usize = 0;
    while k < count
        invariant
            count == op.result_resources@.len(),
            k <= count,
            forall|j: int|
                0 <= j < k ==> (#[trigger] op.result_resources@[j]).binding.kind != kind,
        decreases count - k,
    {
        if op.result_resources[k].binding.kind == kind {
            assert(planned_operation(*op).result_resources@[k as int].binding.kind == kind);
            return true;
        }
        k += 1;
    }
    false
}

/// Whether some stream use site has this direction.
fn streams_have_direction(op: &FamilyOperationInput, direction: StreamDirection) -> (result: bool)
    ensures
        result == has_stream_direction(planned_operation(*op), direction),
{
    let count = op.streams.len();
    let mut k: usize = 0;
    while k < count
        invariant
            count == op.streams@.len(),
            k <= count,
            forall|j: int| 0 <= j < k ==> (#[trigger] op.streams@[j]).direction != direction,
        decreases count - k,
    {
        if op.streams[k].direction == direction {
            assert(planned_operation(*op).streams@[k as int].direction == direction);
            return true;
        }
        k += 1;
    }
    false
}

/// Whether some callback use site is retained.
fn callbacks_retained(op: &FamilyOperationInput) -> (result: bool)
    ensures
        result == retains_callback(planned_operation(*op)),
{
    let count = op.callbacks.len();
    let mut k: usize = 0;
    while k < count
        invariant
            count == op.callbacks@.len(),
            k <= count,
            forall|j: int|
                0 <= j < k ==> (#[trigger] op.callbacks@[j]).contract.retention
                    != CallbackRetention::Retained,
        decreases count - k,
    {
        if op.callbacks[k].contract.retention == CallbackRetention::Retained {
            assert(planned_operation(*op).callbacks@[k as int].contract.retention
                == CallbackRetention::Retained);
            return true;
        }
        k += 1;
    }
    false
}

/// Whether the receiver leases a resource of this kind.
fn receiver_leases(receiver: Option<ReceiverBinding>, kind: ResourceKind) -> (result: bool)
    ensures
        result == is_resource_receiver(receiver, kind),
{
    match receiver {
        Some(ReceiverBinding::Resource(binding)) => binding.kind == kind,
        _ => false,
    }
}

/// Whether an operation leases, produces or takes a resource of this kind.
fn operation_touches(op: &FamilyOperationInput, kind: ResourceKind) -> (result: bool)
    ensures
        result == touches_resource(planned_operation(*op), kind),
{
    let by_stream = match kind {
        ResourceKind::Object => false,
        ResourceKind::InputStream => streams_have_direction(op, StreamDirection::Input),
        ResourceKind::OutputStream => streams_have_direction(op, StreamDirection::Output),
    };
    receiver_leases(op.receiver, kind) || results_have_kind(op, kind) || by_stream
}

/// The validated operation that an input operation becomes with this
/// target.
pub open spec fn with_target(op: FamilyOperationInput, target: FamilyOperationTarget) -> FamilyOperation {
    FamilyOperation { target, ..planned_operation(op) }
}

/// Marks the entrypoints that one operation needs when it runs on the
/// given target, and no other: marks are only ever added, and closing the
/// session is never marked here.
pub fn add_runtime_entrypoints(
    operation: &FamilyOperationInput,
    target: FamilyOperationTarget,
    entrypoints: &mut Vec<bool>,
)
    requires
        old(entrypoints)@.len() == 12,
    ensures
        final(entrypoints)@.len() == 12,
        forall|k: int|
            0 <= k < 12 ==> (#[trigger] final(entrypoints)@[k]) == (old(entrypoints)@[k]
                || operation_requires(with_target(*operation, target), entry_at(k))),
        final(entrypoints)@[0] == old(entrypoints)@[0],
        final(entrypoints)@[4] == (old(entrypoints)@[4] || (target is CallbackHost
            && operation.async_kind == AsyncKind::Sync)),
        final(entrypoints)@[5] == (old(entrypoints)@[5] || (target is CallbackHost
            && operation.async_kind == AsyncKind::Async)),
{
    let object = operation_touches(operation, ResourceKind::Object);
    let input = operation_touches(operation, ResourceKind::InputStream);
    let output = operation_touches(operation, ResourceKind::OutputStream);
    let retained = callbacks_retained(operation);
    let host = match target {
        FamilyOperationTarget::CallbackHost { .. } => true,
        _ => false,
    };
    let needed = [
        false,
        object,
        retained,
        retained,
        host && operation.async_kind == AsyncKind::Sync,
        host && operation.async_kind == AsyncKind::Async,
        input,
        input,
        input,
        output,
        output,
        output,
    ];
    let ghost start = entrypoints@;
    let mut k: usize = 0;
    while k < 12
        invariant
            entrypoints@.len() == 12,
            k <= 12,
            forall|j: int|
                0 <= j < 12 ==> (#[trigger] entrypoints@[j]) == if j < k {
                    start[j] || needed@[j]
                } else {
                    start[j]
                },
        decreases 12 - k,
    {
        if needed[k] {
            entrypoints.set(k, true);
        }
        k += 1;
    }
    proof {
        assert forall|j: int| 0 <= j < 12 implies needed@[j] == operation_requires(
            with_target(*operation, target),
            entry_at(j),
        ) by {
            if j == 4 || j == 5 {
                assert(with_target(*operation, target).target == target);
            }
        }
    }
}

/// The marked entrypoints, in declaration order.
pub fn marked_entrypoints(marks: &Vec<bool>) -> (entries: Vec<RuntimeEntrypoint>)
    requires
        marks@.len() == 12,
    ensures
        entries_increasing(entries@),
        forall|entry: RuntimeEntrypoint|
            entries@.contains(entry) <==> marks@[entry_index(entry)],
{
    let mut entries: Vec<RuntimeEntrypoint> = Vec::new();
    let mut k: usize = 0;
    while k < 12
        invariant
            marks@.len() == 12,
            k <= 12,
            entries_increasing(entries@),
            forall|i: int| 0 <= i < entries@.len() ==> entry_index(#[trigger] entries@[i]) < k,
            forall|entry: RuntimeEntrypoint|
                entry_index(entry) < k ==> (entries@.contains(entry) <==> marks@[entry_index(
                    entry,
                )]),
            forall|entry: RuntimeEntrypoint|
                entry_index(entry) >= k ==> !entries@.contains(entry),
        decreases 12 - k,
    {
        if marks[k] {
            let entry = entry_of(k);
            let ghost before = entries@;
            entries.push(entry);
            proof {
                assert forall|e: RuntimeEntrypoint| entry_index(e) < k + 1 implies (
                entries@.contains(e) <==> marks@[entry_index(e)]) by {
                    lemma_entry_index(e);
                    assert(entries@[before.len() as int] == entry);
                    if entries@.contains(e) && e != entry {
                        let i = choose|i: int| 0 <= i < entries@.len() && entries@[i] == e;
                        assert(i < before.len());
                        assert(before[i] == e);
                        assert(before.contains(e));
                    }
                    lemma_entry_index(entry);
                    if e == entry {
                        assert(entries@[before.len() as int] == e);
                    } else if marks@[entry_index(e)] {
                        assert(entry_index(e) < k);
                        assert(before.contains(e));
                        let i = choose|i: int| 0 <= i < before.len() && before[i] == e;
                        assert(entries@[i] == e);
                    }
                }
                assert forall|e: RuntimeEntrypoint| entry_index(e) >= k + 1 implies !entries@.contains(
                    e,
                ) by {
                    if entries@.contains(e) {
                        let i = choose|i: int| 0 <= i < entries@.len() && entries@[i] == e;
                        if i < before.len() {
                            assert(before.contains(e));
                        }
                    }
                }
            }
        } else {
            proof {
                assert forall|e: RuntimeEntrypoint| entry_index(e) < k + 1 implies (
                entries@.contains(e) <==> marks@[entry_index(e)]) by {
                    if entry_index(e) == k {
                        lemma_entry_index(e);
                    }
                }
            }
        }
        k += 1;
    }
    proof {
        assert forall|entry: RuntimeEntrypoint| entries@.contains(entry) <==> marks@[entry_index(
            entry,
        )] by {
            lemma_entry_index(entry);
        }
    }
    entries
}

} // verus!
