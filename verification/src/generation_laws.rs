//! When accepted plans can be turned into a module.
use vstd::prelude::*;

use crate::bridge::{RustOperationPlan, RustResourceHooks};
use crate::bridge_laws::{is_argument_path, lemma_accepted_bridge, lemma_argument_use_sites};
use crate::bridge_rules::{
    argument_binding_check, bridge_check, bridge_operation_check, receiver_check, rust_op_with_id,
    structured_check, target_check,
};
use crate::engine::dispatch_of;
use crate::family::{
    FamilyOperation, FamilyPlanInput, ReceiverBinding, ResourceKind, StreamDirection,
    dispatch_target, planned_operation,
};
use crate::generation::{
    argument_lowering_check, argument_rooted, callback_root_check, descriptor_check,
    generation_check, input_root_check, lowering_check, operation_step, output_root_check,
    receiver_lowering_check, return_rooted,
};
use crate::laws::lemma_accepted_table;
use crate::rules::{
    callback_check, callbacks_check, first_error, lemma_all_pass, lemma_first_error_all_ok,
    lemma_first_error_is_first, op_with_id, path_check, plan_check, shape_check,
};

verus! {

/// The planned operations of a table, in id order: what an accepted
/// family plan holds.
pub open spec fn planned_table(input: FamilyPlanInput) -> Seq<FamilyOperation> {
    Seq::new(
        input.operations@.len(),
        |i: int| planned_operation(op_with_id(input.operations@, i)),
    )
}

/// The Rust operations of a call plan for ids `0..n`, in id order: what an
/// accepted bridge plan holds.
pub open spec fn rust_table(ops: Seq<RustOperationPlan>, n: nat) -> Seq<RustOperationPlan> {
    Seq::new(n, |i: int| rust_op_with_id(ops, i))
}

/// Whether every input stream of an operation is rooted at an argument and
/// every output stream at the return value.
pub open spec fn streams_rooted(op: FamilyOperation) -> bool {
    forall|t: int|
        0 <= t < op.streams@.len() ==> ((#[trigger] op.streams@[t]).direction
            == StreamDirection::Input ==> (op.streams@[t].path.segments@.len() > 0
            && op.streams@[t].path.segments@[0] is Argument)) && (op.streams@[t].direction
            == StreamDirection::Output ==> (op.streams@[t].path.segments@.len() > 0
            && op.streams@[t].path.segments@[0] is Return))
}

/// What an accepted table's operation brings to generation: a native
/// operation never takes an input stream as its receiver, its dispatch is
/// one the session runs, and its callbacks are rooted at an argument or at
/// the return value.
proof fn lemma_accepted_operation_fits(input: FamilyPlanInput, i: int)
    requires
        plan_check(input) is Ok,
        0 <= i < input.operations@.len(),
    ensures
        planned_table(input)[i].id == i,
        planned_table(input)[i].target is Native ==> !(planned_table(input)[i].receiver matches Some(
            ReceiverBinding::Resource(binding),
        ) && binding.kind == ResourceKind::InputStream),
        dispatch_of(planned_table(input)[i]) is Ok,
        first_error(
            Seq::new(
                planned_table(input)[i].callbacks@.len(),
                |k: int| callback_root_check(planned_table(input)[i], k),
            ),
        ) is Ok,
{
    lemma_accepted_table(input);
    let op = op_with_id(input.operations@, i);
    let planned = planned_table(input)[i];
    assert(planned == planned_operation(op));
    assert(op.id == i);
    assert(shape_check(op) is Ok);
    assert(planned.target == dispatch_target(op.dispatch));
    assert(callbacks_check(op) is Ok);
    let checks = Seq::new(op.callbacks@.len(), |k: int| callback_check(op, op.callbacks@[k]));
    lemma_all_pass(checks);
    let roots = Seq::new(planned.callbacks@.len(), |k: int| callback_root_check(planned, k));
    assert forall|k: int| 0 <= k < roots.len() implies (#[trigger] roots[k]) is Ok by {
        assert(checks[k] is Ok);
        assert(path_check(op, op.callbacks@[k].path.segments@, "callback"@) is Ok);
    }
    lemma_first_error_all_ok(roots);
}

/// A native operation that its bridge rules accept can be lowered, when
/// its receiver is not an input stream.
proof fn lemma_accepted_operation_lowers(family: FamilyOperation, op: RustOperationPlan)
    requires
        bridge_operation_check(family, op) is Ok,
        family.target is Native,
        !(family.receiver matches Some(ReceiverBinding::Resource(binding)) && binding.kind
            == ResourceKind::InputStream),
    ensures
        lowering_check(family, op) is Ok,
{
    assert(target_check(family, op) is Ok);
    assert(op.target is Native);
    assert(receiver_check(family, op) is Ok);
    assert(receiver_lowering_check(op) is Ok);
    assert(structured_check(family, op) is Ok);
    let bindings = Seq::new(
        op.arguments@.len(),
        |index: int| argument_binding_check(family, op, index),
    );
    lemma_all_pass(bindings);
    let lowerings = Seq::new(
        op.arguments@.len(),
        |index: int| argument_lowering_check(family, op, index),
    );
    assert forall|index: int| 0 <= index < lowerings.len() implies (
    #[trigger] lowerings[index]) is Ok by {
        assert(bindings[index] is Ok);
    }
    lemma_first_error_all_ok(lowerings);
}

/// Whether an ordered list of checks passes: every check passes.
proof fn lemma_first_error_ok_iff<E>(checks: Seq<Result<(), E>>)
    ensures
        first_error(checks) is Ok <==> forall|k: int| 0 <= k < checks.len() ==> (#[trigger] checks[k]) is Ok,
{
    lemma_first_error_is_first(checks);
}

/// The descriptor of an accepted table's operation passes exactly when its
/// streams are rooted as the session carries them.
proof fn lemma_accepted_descriptor(input: FamilyPlanInput, i: int)
    requires
        plan_check(input) is Ok,
        0 <= i < input.operations@.len(),
    ensures
        descriptor_check(planned_table(input)[i]) is Ok <==> streams_rooted(planned_table(input)[i]),
{
    lemma_accepted_operation_fits(input, i);
    let op = planned_table(input)[i];
    let inputs = Seq::new(op.streams@.len(), |t: int| input_root_check(op, t));
    let outputs = Seq::new(op.streams@.len(), |t: int| output_root_check(op, t));
    lemma_first_error_ok_iff(inputs);
    lemma_first_error_ok_iff(outputs);
    assert(streams_rooted(op) <==> (forall|t: int| 0 <= t < inputs.len() ==> (#[trigger] inputs[t]) is Ok)
        && (forall|t: int| 0 <= t < outputs.len() ==> (#[trigger] outputs[t]) is Ok)) by {
        if streams_rooted(op) {
            assert forall|t: int| 0 <= t < inputs.len() implies (#[trigger] inputs[t]) is Ok by {
                assert(op.streams@[t].direction == StreamDirection::Input ==> argument_rooted(
                    op.streams@[t].path.segments@,
                ));
            }
            assert forall|t: int| 0 <= t < outputs.len() implies (#[trigger] outputs[t]) is Ok by {
                assert(op.streams@[t].direction == StreamDirection::Output ==> return_rooted(
                    op.streams@[t].path.segments@,
                ));
            }
        }
        if (forall|t: int| 0 <= t < inputs.len() ==> (#[trigger] inputs[t]) is Ok) && (forall|t: int|
            0 <= t < outputs.len() ==> (#[trigger] outputs[t]) is Ok) {
            assert forall|t: int| 0 <= t < op.streams@.len() implies ((
            #[trigger] op.streams@[t]).direction == StreamDirection::Input ==> argument_rooted(
                op.streams@[t].path.segments@,
            )) && (op.streams@[t].direction == StreamDirection::Output ==> return_rooted(
                op.streams@[t].path.segments@,
            )) by {
                assert(inputs[t] is Ok);
                assert(outputs[t] is Ok);
            }
        }
    }
}

/// An accepted family plan and a Rust call plan accepted against it can be
/// turned into a module exactly when every input stream is rooted at an
/// argument and every output stream at the return value: positions are in
/// step, every native operation can be lowered, and every dispatch and
/// callback is one the session carries.
pub proof fn lemma_accepted_plans_generate(
    input: FamilyPlanInput,
    ops: Seq<RustOperationPlan>,
    hooks: RustResourceHooks,
)
    requires
        plan_check(input) is Ok,
        bridge_check(planned_table(input), ops, hooks) is Ok,
    ensures
        generation_check(planned_table(input), rust_table(ops, input.operations@.len()))
            is Ok <==> forall|i: int|
            0 <= i < input.operations@.len() ==> #[trigger] streams_rooted(planned_table(input)[i]),
{
    let family_ops = planned_table(input);
    let n = input.operations@.len();
    let rust_ops = rust_table(ops, n);
    assert forall|i: int| 0 <= i < family_ops.len() implies (#[trigger] family_ops[i]).id == i by {
        lemma_accepted_operation_fits(input, i);
    }
    lemma_accepted_bridge(family_ops, ops, hooks);
    let steps = Seq::new(family_ops.len(), |i: int| operation_step(family_ops, rust_ops, i));
    assert forall|i: int| 0 <= i < n implies (#[trigger] steps[i]) is Ok by {
        lemma_accepted_operation_fits(input, i);
        assert(rust_ops[i] == rust_op_with_id(ops, i));
        assert(rust_op_with_id(ops, i).operation_id == i);
        if family_ops[i].target is Native {
            assert(bridge_operation_check(family_ops[i], rust_op_with_id(ops, i)) is Ok);
            lemma_accepted_operation_lowers(family_ops[i], rust_ops[i]);
        }
    }
    lemma_first_error_all_ok(steps);
    let descriptors = Seq::new(family_ops.len(), |i: int| descriptor_check(family_ops[i]));
    lemma_first_error_ok_iff(descriptors);
    assert forall|i: int| 0 <= i < n implies ((#[trigger] descriptors[i]) is Ok <==> streams_rooted(
        family_ops[i],
    )) by {
        lemma_accepted_descriptor(input, i);
    }
    assert(rust_ops.len() == n);
    assert(generation_check(family_ops, rust_ops) == first_error(descriptors));
    assert((first_error(descriptors) is Ok) <==> forall|i: int|
        0 <= i < n ==> #[trigger] streams_rooted(family_ops[i])) by {
        if first_error(descriptors) is Ok {
            assert forall|i: int| 0 <= i < n implies #[trigger] streams_rooted(family_ops[i]) by {
                assert(descriptors[i] is Ok);
            }
        }
        if forall|i: int| 0 <= i < n ==> #[trigger] streams_rooted(family_ops[i]) {
            assert forall|i: int| 0 <= i < descriptors.len() implies (#[trigger] descriptors[i]) is Ok by {
                assert(streams_rooted(family_ops[i]));
            }
        }
    }
}


/// What a pair of plans that generation accepts has, stated directly: as
/// many Rust operations as family operations, each with the id of its
/// position; for each native operation a native Rust target, a receiver that
/// is no proxy, and for every callback or input-stream proxy argument a use
/// site that is exactly that argument; every callback rooted at an
/// argument or at the return value, every input stream at an argument and
/// every output stream at the return value; and input-stream host
/// operations that are async.
pub proof fn lemma_generation_accepts(family_ops: Seq<FamilyOperation>, ops: Seq<RustOperationPlan>)
    requires
        generation_check(family_ops, ops) is Ok,
    ensures
        ops.len() == family_ops.len(),
        forall|i: int| 0 <= i < family_ops.len() ==> (#[trigger] family_ops[i]).id == ops[i].operation_id,
        forall|i: int|
            0 <= i < family_ops.len() && (#[trigger] family_ops[i]).target is Native ==> {
                &&& ops[i].target is Native
                &&& !(ops[i].receiver matches Some(receiver) && (receiver.binding is CallbackProxy
                    || receiver.binding is InputStreamProxy))
            },
        forall|i: int, k: int|
            0 <= i < family_ops.len() && family_ops[i].target is Native && 0 <= k
                < ops[i].arguments@.len() ==> {
                let binding = (#[trigger] ops[i].arguments@[k]).binding;
                &&& (binding is CallbackProxy ==> exists|c: int|
                    0 <= c < family_ops[i].callbacks@.len() && is_argument_path(
                        (#[trigger] family_ops[i].callbacks@[c]).path.segments@,
                        k,
                    ))
                &&& (binding is InputStreamProxy ==> exists|t: int|
                    0 <= t < family_ops[i].streams@.len() && (
                    #[trigger] family_ops[i].streams@[t]).direction == StreamDirection::Input
                        && is_argument_path(family_ops[i].streams@[t].path.segments@, k))
            },
        forall|i: int, c: int|
            0 <= i < family_ops.len() && 0 <= c < family_ops[i].callbacks@.len() ==> {
                let segments = (#[trigger] family_ops[i].callbacks@[c]).path.segments@;
                segments.len() > 0 && (segments[0] is Argument || segments[0] is Return)
            },
        forall|i: int| 0 <= i < family_ops.len() ==> #[trigger] streams_rooted(family_ops[i]),
        forall|i: int|
            0 <= i < family_ops.len() && ((#[trigger] family_ops[i]).target is InputStreamHostPull
                || family_ops[i].target is InputStreamHostCancel) ==> family_ops[i].async_kind
                == crate::family::AsyncKind::Async,
{
    let steps = Seq::new(family_ops.len(), |i: int| operation_step(family_ops, ops, i));
    let descriptors = Seq::new(family_ops.len(), |i: int| descriptor_check(family_ops[i]));
    lemma_all_pass(steps);
    lemma_all_pass(descriptors);
    assert forall|i: int| 0 <= i < family_ops.len() implies (#[trigger] family_ops[i]).id
        == ops[i].operation_id by {
        assert(steps[i] is Ok);
    }
    assert forall|i: int|
        0 <= i < family_ops.len() && (#[trigger] family_ops[i]).target is Native implies {
        &&& ops[i].target is Native
        &&& !(ops[i].receiver matches Some(receiver) && (receiver.binding is CallbackProxy
            || receiver.binding is InputStreamProxy))
    } by {
        assert(steps[i] is Ok);
        assert(lowering_check(family_ops[i], ops[i]) is Ok);
    }
    assert forall|i: int, k: int|
        0 <= i < family_ops.len() && family_ops[i].target is Native && 0 <= k
            < ops[i].arguments@.len() implies {
        let binding = (#[trigger] ops[i].arguments@[k]).binding;
        &&& (binding is CallbackProxy ==> exists|c: int|
            0 <= c < family_ops[i].callbacks@.len() && is_argument_path(
                (#[trigger] family_ops[i].callbacks@[c]).path.segments@,
                k,
            ))
        &&& (binding is InputStreamProxy ==> exists|t: int|
            0 <= t < family_ops[i].streams@.len() && (
            #[trigger] family_ops[i].streams@[t]).direction == StreamDirection::Input
                && is_argument_path(family_ops[i].streams@[t].path.segments@, k))
    } by {
        assert(steps[i] is Ok);
        let family = family_ops[i];
        let op = ops[i];
        assert(lowering_check(family, op) is Ok);
        let arguments = Seq::new(
            op.arguments@.len(),
            |index: int| argument_lowering_check(family, op, index),
        );
        lemma_all_pass(arguments);
        assert(arguments[k] is Ok);
        lemma_argument_use_sites(family, k);
    }
    assert forall|i: int, c: int|
        0 <= i < family_ops.len() && 0 <= c < family_ops[i].callbacks@.len() implies {
        let segments = (#[trigger] family_ops[i].callbacks@[c]).path.segments@;
        segments.len() > 0 && (segments[0] is Argument || segments[0] is Return)
    } by {
        let op = family_ops[i];
        assert(descriptors[i] is Ok);
        let callbacks = Seq::new(op.callbacks@.len(), |k: int| callback_root_check(op, k));
        lemma_all_pass(callbacks);
        assert(callbacks[c] is Ok);
    }
    assert forall|i: int| 0 <= i < family_ops.len() implies #[trigger] streams_rooted(family_ops[i]) by {
        let op = family_ops[i];
        assert(descriptors[i] is Ok);
        let inputs = Seq::new(op.streams@.len(), |t: int| input_root_check(op, t));
        let outputs = Seq::new(op.streams@.len(), |t: int| output_root_check(op, t));
        lemma_all_pass(inputs);
        lemma_all_pass(outputs);
        assert forall|t: int| 0 <= t < op.streams@.len() implies ((#[trigger] op.streams@[t]).direction
            == StreamDirection::Input ==> (op.streams@[t].path.segments@.len() > 0
            && op.streams@[t].path.segments@[0] is Argument)) && (op.streams@[t].direction
            == StreamDirection::Output ==> (op.streams@[t].path.segments@.len() > 0
            && op.streams@[t].path.segments@[0] is Return)) by {
            assert(inputs[t] is Ok);
            assert(outputs[t] is Ok);
        }
    }
    assert forall|i: int|
        0 <= i < family_ops.len() && ((#[trigger] family_ops[i]).target is InputStreamHostPull
            || family_ops[i].target is InputStreamHostCancel) implies family_ops[i].async_kind
        == crate::family::AsyncKind::Async by {
        assert(descriptors[i] is Ok);
    }
}

} // verus!
