//! What acceptance means for each operation's shape and for the runtime
//! entrypoints, stated directly over kinds, receivers, dispatches, targets
//! and async kinds.
use vstd::prelude::*;

use crate::entrypoints::{entry_required, touches_resource};
use crate::family::{
    AsyncKind, FamilyOperation, FamilyOperationInput, FamilyPlanInput, OperationDispatch,
    OperationKind, ReceiverBinding, ResourceKind, ResourceOwnership, RuntimeEntrypoint,
    ValuePathSegment,
};
use crate::laws::lemma_accepted_table;
use crate::rules::{
    callback_check, callbacks_check, close_policy_check, declared_slot_check, is_root_segment, is_step_selector,
    lemma_all_pass, lemma_op_with_id, misplaced_step, op_with_id, path_check, plan_check,
    result_check, result_path_check, results_check, shape_check, stream_check, streams_check,
};

verus! {

/// The shape of one accepted operation, spelled out per kind.
pub open spec fn shape_holds(op: FamilyOperationInput) -> bool {
    // A receiver exactly for methods and the stream slots that act on a stream.
    &&& (op.receiver is Some <==> (op.kind == OperationKind::Method || op.kind
        == OperationKind::InputStreamPull || op.kind == OperationKind::InputStreamCancel || op.kind
        == OperationKind::OutputStreamNext || op.kind == OperationKind::OutputStreamCancel))
    // Methods never lease a stream; stream slots lease a stream of their side.
    &&& (op.kind == OperationKind::Method ==> !(op.receiver matches Some(
        ReceiverBinding::Resource(binding),
    ) && binding.kind != ResourceKind::Object))
    &&& (op.kind == OperationKind::InputStreamPull || op.kind == OperationKind::InputStreamCancel
        ==> (op.receiver matches Some(ReceiverBinding::Resource(binding)) && binding.kind
        == ResourceKind::InputStream))
    &&& (op.kind == OperationKind::OutputStreamNext || op.kind == OperationKind::OutputStreamCancel
        ==> (op.receiver matches Some(ReceiverBinding::Resource(binding)) && binding.kind
        == ResourceKind::OutputStream))
    // Starting an output stream returns one at the bare return root.
    &&& (op.kind == OperationKind::OutputStreamStart ==> exists|k: int|
        0 <= k < op.result_resources@.len() && (#[trigger] op.result_resources@[k]).binding.kind
            == ResourceKind::OutputStream && op.result_resources@[k].path.segments@ =~= seq![
            ValuePathSegment::Return,
        ])
    // Each kind has its dispatch.
    &&& (op.kind == OperationKind::CallbackMethod ==> op.dispatch is CallbackHost)
    &&& (op.kind == OperationKind::InputStreamPull ==> op.dispatch == OperationDispatch::InputStreamHostPull)
    &&& (op.kind == OperationKind::InputStreamCancel ==> op.dispatch
        == OperationDispatch::InputStreamHostCancel)
    &&& (op.kind == OperationKind::Function || op.kind == OperationKind::Constructor || op.kind
        == OperationKind::Method || op.kind == OperationKind::OutputStreamStart || op.kind
        == OperationKind::OutputStreamNext || op.kind == OperationKind::OutputStreamCancel
        ==> op.dispatch == OperationDispatch::Native)
    // Cancelling a stream returns no resource.
    &&& (op.kind == OperationKind::InputStreamCancel || op.kind == OperationKind::OutputStreamCancel
        ==> op.result_resources@.len() == 0)
    // The input-stream host runs its operations asynchronously.
    &&& (op.dispatch == OperationDispatch::InputStreamHostPull || op.dispatch
        == OperationDispatch::InputStreamHostCancel ==> op.async_kind == AsyncKind::Async)
}

/// An operation that passes its shape rule has the shape above.
pub proof fn lemma_shape_rule_meaning(op: FamilyOperationInput)
    requires
        shape_check(op) is Ok,
    ensures
        shape_holds(op),
{
    if op.kind == OperationKind::OutputStreamStart {
        let k = choose|k: int|
            0 <= k < op.result_resources@.len() && crate::rules::is_return_root(
                (#[trigger] op.result_resources@[k]).path.segments@,
            ) && op.result_resources@[k].binding.kind == ResourceKind::OutputStream;
        assert(op.result_resources@[k].path.segments@ =~= seq![ValuePathSegment::Return]);
    }
}

/// Every operation of an accepted table has the shape of its kind: a
/// receiver exactly where its kind acts on one, of the right resource kind;
/// the dispatch of its kind; an output stream returned by every start
/// operation; no result resource on a cancel operation; and asynchronous
/// input-stream host operations.
pub proof fn lemma_accepted_shapes(input: FamilyPlanInput)
    requires
        plan_check(input) is Ok,
    ensures
        forall|j: int|
            0 <= j < input.operations@.len() ==> shape_holds(#[trigger] input.operations@[j]),
{
    let ops = input.operations@;
    lemma_accepted_table(input);
    assert forall|j: int| 0 <= j < ops.len() implies shape_holds(#[trigger] ops[j]) by {
        lemma_op_with_id(ops, j);
        assert(shape_check(op_with_id(ops, ops[j].id as int)) is Ok);
        lemma_shape_rule_meaning(ops[j]);
    }
}

/// A callback or stream path: rooted at an argument in range or at the
/// return value, with no root below the first segment and no stream-step
/// selector.
pub open spec fn use_site_path_fits(segments: Seq<ValuePathSegment>, argument_count: usize) -> bool {
    &&& segments.len() > 0
    &&& (segments[0] is Return || (segments[0] matches ValuePathSegment::Argument(a) && (a as int)
        < argument_count as int))
    &&& forall|j: int|
        1 <= j < segments.len() ==> !((#[trigger] segments[j]) is Argument) && !(
        segments[j] is Return)
    &&& forall|j: int|
        0 <= j < segments.len() ==> !((#[trigger] segments[j]) is StreamItem) && !(
        segments[j] is StreamError)
}

/// A result resource path: rooted at the return value, with no root below
/// it, and a stream-step selector only directly below the root of an
/// output-stream next operation.
pub open spec fn result_path_fits(segments: Seq<ValuePathSegment>, kind: OperationKind) -> bool {
    &&& segments.len() > 0
    &&& segments[0] is Return
    &&& forall|j: int|
        1 <= j < segments.len() ==> !((#[trigger] segments[j]) is Argument) && !(
        segments[j] is Return)
    &&& forall|j: int|
        0 <= j < segments.len() && ((#[trigger] segments[j]) is StreamItem
            || segments[j] is StreamError) ==> j == 1 && kind == OperationKind::OutputStreamNext
}

/// The use sites of one accepted operation: a declared slot names the
/// operation and its kind, a stream slot kind; every callback, result
/// resource and stream use site names the operation and has a path of its
/// role; every result resource is owned.
pub open spec fn use_sites_hold(op: FamilyOperationInput) -> bool {
    &&& (op.stream_slot matches Some(slot) ==> slot.operation_id == op.id && slot.kind == op.kind
        && (op.kind == OperationKind::InputStreamPull || op.kind == OperationKind::InputStreamCancel
        || op.kind == OperationKind::OutputStreamStart || op.kind == OperationKind::OutputStreamNext
        || op.kind == OperationKind::OutputStreamCancel))
    &&& forall|c: int|
        0 <= c < op.callbacks@.len() ==> (#[trigger] op.callbacks@[c]).operation_id == op.id
            && use_site_path_fits(op.callbacks@[c].path.segments@, op.argument_count)
    &&& forall|r: int|
        0 <= r < op.result_resources@.len() ==> (#[trigger] op.result_resources@[r]).operation_id
            == op.id && result_path_fits(op.result_resources@[r].path.segments@, op.kind)
            && op.result_resources@[r].binding.ownership == ResourceOwnership::Owned
    &&& forall|t: int|
        0 <= t < op.streams@.len() ==> (#[trigger] op.streams@[t]).operation_id == op.id
            && use_site_path_fits(op.streams@[t].path.segments@, op.argument_count)
}

/// A use-site path that passes the path rule fits.
proof fn lemma_path_rule_meaning(op: FamilyOperationInput, segments: Seq<ValuePathSegment>, role: Seq<char>)
    requires
        path_check(op, segments, role) is Ok,
    ensures
        use_site_path_fits(segments, op.argument_count),
{
    assert forall|j: int| 1 <= j < segments.len() implies !((#[trigger] segments[j]) is Argument)
        && !(segments[j] is Return) by {
        if segments[j] is Argument || segments[j] is Return {
            assert(is_root_segment(segments[j]));
        }
    }
    assert forall|j: int| 0 <= j < segments.len() implies !((#[trigger] segments[j]) is StreamItem)
        && !(segments[j] is StreamError) by {
        if segments[j] is StreamItem || segments[j] is StreamError {
            assert(is_step_selector(segments[j]));
        }
    }
}

/// A result path that passes the result path rule fits.
proof fn lemma_result_path_rule_meaning(op: FamilyOperationInput, segments: Seq<ValuePathSegment>)
    requires
        result_path_check(op, segments) is Ok,
    ensures
        result_path_fits(segments, op.kind),
{
    assert forall|j: int| 1 <= j < segments.len() implies !((#[trigger] segments[j]) is Argument)
        && !(segments[j] is Return) by {
        if segments[j] is Argument || segments[j] is Return {
            assert(is_root_segment(segments[j]));
        }
    }
    assert forall|j: int|
        0 <= j < segments.len() && ((#[trigger] segments[j]) is StreamItem
            || segments[j] is StreamError) implies j == 1 && op.kind
        == OperationKind::OutputStreamNext by {
        assert(!misplaced_step(op, segments, j));
    }
}

/// Every operation of an accepted table has use sites of its own, with
/// paths of their roles, owned result resources, and a declared slot of
/// its own id and kind.
pub proof fn lemma_accepted_use_sites(input: FamilyPlanInput)
    requires
        plan_check(input) is Ok,
    ensures
        forall|j: int|
            0 <= j < input.operations@.len() ==> use_sites_hold(#[trigger] input.operations@[j]),
{
    let ops = input.operations@;
    lemma_accepted_table(input);
    assert forall|j: int| 0 <= j < ops.len() implies use_sites_hold(#[trigger] ops[j]) by {
        lemma_op_with_id(ops, j);
        let op = ops[j];
        assert(op_with_id(ops, op.id as int) == op);
        assert(declared_slot_check(op) is Ok);
        let callbacks = Seq::new(op.callbacks@.len(), |k: int| callback_check(op, op.callbacks@[k]));
        assert(callbacks_check(op) is Ok);
        lemma_all_pass(callbacks);
        assert forall|c: int| 0 <= c < op.callbacks@.len() implies (#[trigger] op.callbacks@[c]).operation_id
            == op.id && use_site_path_fits(op.callbacks@[c].path.segments@, op.argument_count) by {
            assert(callbacks[c] is Ok);
            lemma_path_rule_meaning(op, op.callbacks@[c].path.segments@, "callback"@);
        }
        let results = Seq::new(op.result_resources@.len(), |k: int| result_check(op, k));
        assert(results_check(op) is Ok);
        lemma_all_pass(results);
        assert forall|r: int| 0 <= r < op.result_resources@.len() implies (
        #[trigger] op.result_resources@[r]).operation_id == op.id && result_path_fits(
            op.result_resources@[r].path.segments@,
            op.kind,
        ) && op.result_resources@[r].binding.ownership == ResourceOwnership::Owned by {
            assert(results[r] is Ok);
            lemma_result_path_rule_meaning(op, op.result_resources@[r].path.segments@);
        }
        let streams = Seq::new(op.streams@.len(), |t: int| stream_check(ops, op, t));
        assert(streams_check(ops, op) is Ok);
        lemma_all_pass(streams);
        assert forall|t: int| 0 <= t < op.streams@.len() implies (#[trigger] op.streams@[t]).operation_id
            == op.id && use_site_path_fits(op.streams@[t].path.segments@, op.argument_count) by {
            assert(streams[t] is Ok);
            lemma_path_rule_meaning(op, op.streams@[t].path.segments@, "stream"@);
        }
    }
}

/// A close policy is refused exactly when its grace period exceeds the
/// largest JavaScript timer delay, 2^31 - 1 milliseconds; so every accepted
/// plan's grace period fits a timer.
pub proof fn lemma_close_policy_range(input: FamilyPlanInput)
    ensures
        close_policy_check(input.close_policy) is Err <==> input.close_policy.grace_ms
            > 2147483647,
        plan_check(input) is Ok ==> input.close_policy.grace_ms <= 2147483647,
{
}

/// Whether some operation leases or produces a resource of this kind, or,
/// for streams, has a stream use site of that side.
pub open spec fn some_operation_touches(ops: Seq<FamilyOperation>, kind: ResourceKind) -> bool {
    exists|i: int|
        0 <= i < ops.len() && {
            let op = #[trigger] ops[i];
            ||| op.receiver matches Some(ReceiverBinding::Resource(binding)) && binding.kind == kind
            ||| exists|k: int|
                0 <= k < op.result_resources@.len() && (#[trigger] op.result_resources@[k]).binding.kind
                    == kind
            ||| (kind == ResourceKind::InputStream && exists|t: int|
                0 <= t < op.streams@.len() && (#[trigger] op.streams@[t]).direction
                    == crate::family::StreamDirection::Input)
            ||| (kind == ResourceKind::OutputStream && exists|t: int|
                0 <= t < op.streams@.len() && (#[trigger] op.streams@[t]).direction
                    == crate::family::StreamDirection::Output)
        }
}

/// Which runtime entrypoints a plan with these operations needs, entry by
/// entry: closing the session always; releasing objects when an operation
/// touches an object; retaining and releasing callbacks when some callback
/// use site is retained; invoking callbacks synchronously when some
/// callback-host operation is synchronous, and asynchronously when some is
/// asynchronous; the input-stream entrypoints when an operation touches an
/// input stream; the output-stream entrypoints when one touches an output
/// stream.
pub proof fn lemma_entrypoints_needed(ops: Seq<FamilyOperation>)
    ensures
        entry_required(ops, RuntimeEntrypoint::CloseSession),
        entry_required(ops, RuntimeEntrypoint::InvokeCallbackSync) <==> exists|i: int|
            0 <= i < ops.len() && (#[trigger] ops[i]).target is CallbackHost && ops[i].async_kind
                == AsyncKind::Sync,
        entry_required(ops, RuntimeEntrypoint::InvokeCallbackAsync) <==> exists|i: int|
            0 <= i < ops.len() && (#[trigger] ops[i]).target is CallbackHost && ops[i].async_kind
                == AsyncKind::Async,
        entry_required(ops, RuntimeEntrypoint::RetainCallback) <==> exists|i: int, k: int|
            0 <= i < ops.len() && 0 <= k < ops[i].callbacks@.len() && (#[trigger] ops[i].callbacks@[k]).contract.retention
                == crate::family::CallbackRetention::Retained,
        entry_required(ops, RuntimeEntrypoint::ReleaseCallback) == entry_required(
            ops,
            RuntimeEntrypoint::RetainCallback,
        ),
        entry_required(ops, RuntimeEntrypoint::ReleaseObject) <==> some_operation_touches(
            ops,
            ResourceKind::Object,
        ),
        entry_required(ops, RuntimeEntrypoint::PullInputStream) <==> some_operation_touches(
            ops,
            ResourceKind::InputStream,
        ),
        entry_required(ops, RuntimeEntrypoint::CancelInputStream) <==> some_operation_touches(
            ops,
            ResourceKind::InputStream,
        ),
        entry_required(ops, RuntimeEntrypoint::ReleaseInputStream) <==> some_operation_touches(
            ops,
            ResourceKind::InputStream,
        ),
        entry_required(ops, RuntimeEntrypoint::NextOutputStream) <==> some_operation_touches(
            ops,
            ResourceKind::OutputStream,
        ),
        entry_required(ops, RuntimeEntrypoint::CancelOutputStream) <==> some_operation_touches(
            ops,
            ResourceKind::OutputStream,
        ),
        entry_required(ops, RuntimeEntrypoint::ReleaseOutputStream) <==> some_operation_touches(
            ops,
            ResourceKind::OutputStream,
        ),
{
    assert(entry_required(ops, RuntimeEntrypoint::CloseSession));
    assert forall|kind: ResourceKind| #![trigger some_operation_touches(ops, kind)]
        some_operation_touches(ops, kind) <==> exists|i: int|
            0 <= i < ops.len() && touches_resource(#[trigger] ops[i], kind) by {
        if some_operation_touches(ops, kind) {
            let i = choose|i: int| 0 <= i < ops.len() && {
                let op = #[trigger] ops[i];
                ||| op.receiver matches Some(ReceiverBinding::Resource(binding)) && binding.kind == kind
                ||| exists|k: int|
                    0 <= k < op.result_resources@.len() && (#[trigger] op.result_resources@[k]).binding.kind
                        == kind
                ||| (kind == ResourceKind::InputStream && exists|t: int|
                    0 <= t < op.streams@.len() && (#[trigger] op.streams@[t]).direction
                        == crate::family::StreamDirection::Input)
                ||| (kind == ResourceKind::OutputStream && exists|t: int|
                    0 <= t < op.streams@.len() && (#[trigger] op.streams@[t]).direction
                        == crate::family::StreamDirection::Output)
            };
            assert(touches_resource(ops[i], kind));
        }
        if exists|i: int| 0 <= i < ops.len() && touches_resource(#[trigger] ops[i], kind) {
            let i = choose|i: int| 0 <= i < ops.len() && touches_resource(#[trigger] ops[i], kind);
            assert(touches_resource(ops[i], kind));
        }
    }
    assert(some_operation_touches(ops, ResourceKind::Object) <==> exists|i: int|
        0 <= i < ops.len() && touches_resource(#[trigger] ops[i], ResourceKind::Object));
    assert(some_operation_touches(ops, ResourceKind::InputStream) <==> exists|i: int|
        0 <= i < ops.len() && touches_resource(#[trigger] ops[i], ResourceKind::InputStream));
    assert(some_operation_touches(ops, ResourceKind::OutputStream) <==> exists|i: int|
        0 <= i < ops.len() && touches_resource(#[trigger] ops[i], ResourceKind::OutputStream));
}

} // verus!
