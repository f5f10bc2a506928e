//! Checking one Rust operation against its family operation.
use vstd::prelude::*;

use crate::bridge::{
    ArgumentBinding, ErrorBinding, ReturnBinding, RustOperationPlan, RustOperationTarget,
};
use crate::bridge_rules::{
    argument_binding_check, argument_callback, argument_stream, bridge_operation_check,
    engine_agrees, error_binding_check, is_value_lowering, lease_fits, name_check, names_before,
    names_check, receiver_check, receiver_names, result_binding_check, returns_callback,
    root_resource, selects_argument, structured_check, target_check,
};
use crate::bridge::RustResourceHooks;
use crate::bridge_rules::{hooks_check, needs_resource};
use crate::engine_error::EngineError;
use crate::entrypoints::{has_result_kind, has_stream_direction, touches_resource};
use crate::plan::FamilyPlan;
use crate::family::{
    FamilyOperation, FamilyOperationTarget, ReceiverBinding, ResourceBinding, ResourceKind,
    ResultResourceUseSite, StreamDirection, ValuePathSegment,
};
use crate::rules::{lemma_first_error_all_ok, lemma_first_error_step};
use crate::validate::{path_is_return_root, receiver_is_resource};

verus! {

/// Checks that the Rust target is of the family target's kind.
pub fn validate_operation_target(family: &FamilyOperation, op: &RustOperationPlan) -> (result:
    Result<(), EngineError>)
    ensures
        engine_agrees(result, target_check(*family, *op)),
{
    let fits = match family.target {
        FamilyOperationTarget::Native => match &op.target {
            RustOperationTarget::Native { .. } => true,
            _ => false,
        },
        FamilyOperationTarget::CallbackHost { .. } => match &op.target {
            RustOperationTarget::CallbackHost => true,
            _ => false,
        },
        FamilyOperationTarget::InputStreamHostPull => match &op.target {
            RustOperationTarget::InputStreamHostPull => true,
            _ => false,
        },
        FamilyOperationTarget::InputStreamHostCancel => match &op.target {
            RustOperationTarget::InputStreamHostCancel => true,
            _ => false,
        },
    };
    if fits {
        Ok(())
    } else {
        Err(EngineError::InvalidOperationTarget { operation_id: op.operation_id, kind: family.kind })
    }
}

/// Whether a binding lowers an ordinary value.
fn lowers_value(binding: &ArgumentBinding) -> (result: bool)
    ensures
        result == is_value_lowering(*binding),
{
    match binding {
        ArgumentBinding::Direct { .. }
        | ArgumentBinding::I64BigInt
        | ArgumentBinding::U64BigInt
        | ArgumentBinding::LowerWith { .. }
        | ArgumentBinding::LowerWithHost { .. } => true,
        _ => false,
    }
}

/// Whether a binding is a lease that fits the expected resource.
fn lease_binding_fits(expected: ResourceBinding, binding: &ArgumentBinding) -> (result: bool)
    ensures
        result == lease_fits(expected, *binding),
{
    match expected.kind {
        ResourceKind::Object => match binding {
            ArgumentBinding::ObjectLease { ownership, .. } => *ownership == expected.ownership,
            _ => false,
        },
        ResourceKind::OutputStream => match binding {
            ArgumentBinding::OutputStreamLease { ownership, .. } => *ownership == expected.ownership,
            _ => false,
        },
        ResourceKind::InputStream => match binding {
            ArgumentBinding::InputStreamProxy { .. } => true,
            _ => false,
        },
    }
}

/// Checks the Rust receiver of a native operation.
pub fn validate_receiver(family: &FamilyOperation, op: &RustOperationPlan) -> (result: Result<
    (),
    EngineError,
>)
    ensures
        engine_agrees(result, receiver_check(*family, *op)),
{
    match family.receiver {
        None => match &op.receiver {
            None => Ok(()),
            Some(_) => Err(EngineError::UnexpectedReceiver { operation_id: op.operation_id }),
        },
        Some(ReceiverBinding::Value) => match &op.receiver {
            None => Err(EngineError::MissingReceiver { operation_id: op.operation_id }),
            Some(actual) => if lowers_value(&actual.binding) {
                Ok(())
            } else {
                Err(EngineError::InvalidValueReceiver { operation_id: op.operation_id })
            },
        },
        Some(ReceiverBinding::Resource(expected)) => match &op.receiver {
            None => Err(EngineError::MissingReceiver { operation_id: op.operation_id }),
            Some(actual) => if lease_binding_fits(expected, &actual.binding) {
                Ok(())
            } else {
                Err(EngineError::InvalidResourceReceiver { operation_id: op.operation_id })
            },
        },
    }
}

/// The binding of the first result resource at the bare return root.
pub fn root_resource_of(resources: &Vec<ResultResourceUseSite>) -> (found: Option<ResourceBinding>)
    ensures
        found == root_resource(resources@),
{
    let count = resources.len();
    let mut j: usize = 0;
    assert(resources@.skip(0) =~= resources@);
    while j < count
        invariant
            count == resources@.len(),
            j <= count,
            root_resource(resources@) == root_resource(resources@.skip(j as int)),
        decreases count - j,
    {
        let ghost rest = resources@.skip(j as int);
        assert(rest[0] == resources@[j as int]);
        if path_is_return_root(&resources[j].path) {
            return Some(resources[j].binding);
        }
        assert(rest.drop_first() =~= resources@.skip(j + 1));
        j += 1;
    }
    assert(resources@.skip(count as int) =~= Seq::<ResultResourceUseSite>::empty());
    None
}

/// Checks the return binding of a native operation against its resource
/// result.
pub fn validate_result_resource(family: &FamilyOperation, op: &RustOperationPlan) -> (result: Result<
    (),
    EngineError,
>)
    ensures
        engine_agrees(result, result_binding_check(*family, *op)),
{
    let object_lease = match &op.return_binding {
        ReturnBinding::ObjectLease { .. } => true,
        _ => false,
    };
    let stream_lease = match &op.return_binding {
        ReturnBinding::OutputStreamLease { .. } => true,
        _ => false,
    };
    let fits = match root_resource_of(&family.result_resources) {
        None => !object_lease && !stream_lease,
        Some(resource) => match resource.kind {
            ResourceKind::Object => object_lease,
            ResourceKind::InputStream => false,
            ResourceKind::OutputStream => stream_lease,
        },
    };
    if fits {
        Ok(())
    } else {
        Err(EngineError::InvalidResourceResult { operation_id: op.operation_id })
    }
}

/// Whether argument `k` repeats a name bound before it.
#[verifier::loop_isolation(false)]
fn name_bound_before(op: &RustOperationPlan, k: usize) -> (bound: bool)
    requires
        k < op.arguments@.len(),
    ensures
        bound == names_before(*op, k as int).contains(op.arguments@[k as int].name@),
{
    let name = &op.arguments[k].name;
    let ghost before = names_before(*op, k as int);
    let ghost target = op.arguments@[k as int].name@;
    let ghost offset = receiver_names(*op).len() as int;
    match &op.receiver {
        Some(receiver) => {
            if receiver.name == *name {
                assert(before[0] == target);
                return true;
            }
        },
        None => {},
    }
    let mut j: usize = 0;
    while j < k
        invariant
            k < op.arguments@.len(),
            name@ == target,
            j <= k,
            forall|i: int| 0 <= i < j ==> (#[trigger] op.arguments@[i]).name@ != target,
        decreases k - j,
    {
        if op.arguments[j].name == *name {
            assert(before[offset + j as int] == op.arguments@[j as int].name@);
            return true;
        }
        j += 1;
    }
    assert forall|x: int| 0 <= x < before.len() implies before[x] != target by {
        if x >= offset {
            assert(before[x] == op.arguments@[x - offset].name@);
        }
    }
    false
}

/// Checks that no argument repeats the receiver's or an earlier argument's
/// name.
pub fn validate_argument_names(op: &RustOperationPlan) -> (result: Result<(), EngineError>)
    ensures
        engine_agrees(result, names_check(*op)),
{
    let count = op.arguments.len();
    let ghost checks = Seq::new(op.arguments@.len(), |k: int| name_check(*op, k));
    let mut k: usize = 0;
    while k < count
        invariant
            count == op.arguments@.len(),
            checks == Seq::new(op.arguments@.len(), |k: int| name_check(*op, k)),
            k <= count,
            forall|j: int| 0 <= j < k ==> (#[trigger] checks[j]) is Ok,
        decreases count - k,
    {
        proof {
            lemma_first_error_step(checks, k as int);
        }
        if name_bound_before(op, k) {
            assert(checks[k as int] == name_check(*op, k as int));
            return Err(
                EngineError::DuplicateRustArgument {
                    operation_id: op.operation_id,
                    name: op.arguments[k].name.clone(),
                },
            );
        }
        assert(checks[k as int] is Ok);
        k += 1;
    }
    proof {
        lemma_first_error_all_ok(checks);
    }
    Ok(())
}

/// Whether a path is rooted at argument `index`.
fn selects_argument_at(segments: &Vec<ValuePathSegment>, index: usize) -> (result: bool)
    ensures
        result == selects_argument(segments@, index as int),
{
    if segments.len() == 0 {
        return false;
    }
    match &segments[0] {
        ValuePathSegment::Argument(argument) => *argument as usize == index,
        _ => false,
    }
}

/// Whether a callback use site is rooted at argument `index`, as the whole
/// argument (`direct`) or below it.
pub(crate) fn has_argument_callback(family: &FamilyOperation, index: usize, direct: bool) -> (found: bool)
    ensures
        found == argument_callback(*family, index as int, direct),
{
    let count = family.callbacks.len();
    let mut k: usize = 0;
    while k < count
        invariant
            count == family.callbacks@.len(),
            k <= count,
            forall|i: int|
                0 <= i < k ==> !(#[trigger] selects_argument(
                    family.callbacks@[i].path.segments@,
                    index as int,
                ) && (family.callbacks@[i].path.segments@.len() == 1) == direct),
        decreases count - k,
    {
        let segments = &family.callbacks[k].path.segments;
        if selects_argument_at(segments, index) && (segments.len() == 1) == direct {
            return true;
        }
        k += 1;
    }
    false
}

/// Whether an input-stream use site is rooted at argument `index`, as the
/// whole argument (`direct`) or below it.
pub(crate) fn has_argument_stream(family: &FamilyOperation, index: usize, direct: bool) -> (found: bool)
    ensures
        found == argument_stream(*family, index as int, direct),
{
    let count = family.streams.len();
    let mut k: usize = 0;
    while k < count
        invariant
            count == family.streams@.len(),
            k <= count,
            forall|i: int|
                0 <= i < k ==> !(family.streams@[i].direction == StreamDirection::Input
                    && #[trigger] selects_argument(family.streams@[i].path.segments@, index as int)
                    && (family.streams@[i].path.segments@.len() == 1) == direct),
        decreases count - k,
    {
        let stream = &family.streams[k];
        let segments = &stream.path.segments;
        if stream.direction == StreamDirection::Input && selects_argument_at(segments, index) && (
        segments.len() == 1) == direct {
            return true;
        }
        k += 1;
    }
    false
}

/// Whether the return value itself is a callback.
fn has_return_callback(family: &FamilyOperation) -> (found: bool)
    ensures
        found == returns_callback(*family),
{
    let count = family.callbacks.len();
    let mut k: usize = 0;
    while k < count
        invariant
            count == family.callbacks@.len(),
            k <= count,
            forall|i: int|
                0 <= i < k ==> !#[trigger] crate::rules::is_return_root(
                    family.callbacks@[i].path.segments@,
                ),
        decreases count - k,
    {
        if path_is_return_root(&family.callbacks[k].path) {
            return true;
        }
        k += 1;
    }
    false
}

/// Checks the structured binding of one argument.
fn validate_argument_binding(family: &FamilyOperation, op: &RustOperationPlan, index: usize) -> (result:
    Result<(), EngineError>)
    requires
        index < op.arguments@.len(),
    ensures
        engine_agrees(result, argument_binding_check(*family, *op, index as int)),
{
    let binding = &op.arguments[index].binding;
    let nested_callback = has_argument_callback(family, index, false);
    let nested_stream = has_argument_stream(family, index, false);
    let callback_proxy = match binding {
        ArgumentBinding::CallbackProxy { .. } => true,
        _ => false,
    };
    let stream_proxy = match binding {
        ArgumentBinding::InputStreamProxy { .. } => true,
        _ => false,
    };
    let lower_with_host = match binding {
        ArgumentBinding::LowerWithHost { .. } => true,
        _ => false,
    };
    if has_argument_callback(family, index, true) != callback_proxy {
        return Err(
            EngineError::InvalidStructuredBinding {
                operation_id: op.operation_id,
                argument: index,
                role: "callback",
            },
        );
    }
    if has_argument_stream(family, index, true) != stream_proxy {
        return Err(
            EngineError::InvalidStructuredBinding {
                operation_id: op.operation_id,
                argument: index,
                role: "input stream",
            },
        );
    }
    if (nested_callback || nested_stream) != lower_with_host {
        let role = if nested_callback {
            "callback"
        } else if nested_stream {
            "input stream"
        } else {
            "callback or input stream"
        };
        return Err(
            EngineError::InvalidStructuredBinding { operation_id: op.operation_id, argument: index, role },
        );
    }
    Ok(())
}

/// Checks the structured bindings of the arguments, in order, then of the
/// return.
pub fn validate_structured_bindings(family: &FamilyOperation, op: &RustOperationPlan) -> (result:
    Result<(), EngineError>)
    ensures
        engine_agrees(result, structured_check(*family, *op)),
{
    let count = op.arguments.len();
    let ghost checks = Seq::new(
        op.arguments@.len(),
        |index: int| argument_binding_check(*family, *op, index),
    );
    let mut index: usize = 0;
    while index < count
        invariant
            count == op.arguments@.len(),
            checks == Seq::new(
                op.arguments@.len(),
                |index: int| argument_binding_check(*family, *op, index),
            ),
            index <= count,
            forall|j: int| 0 <= j < index ==> (#[trigger] checks[j]) is Ok,
        decreases count - index,
    {
        proof {
            lemma_first_error_step(checks, index as int);
        }
        match validate_argument_binding(family, op, index) {
            Err(error) => {
                return Err(error);
            },
            Ok(()) => {},
        }
        index += 1;
    }
    proof {
        lemma_first_error_all_ok(checks);
    }
    let callback_lease = match &op.return_binding {
        ReturnBinding::CallbackLease { .. } => true,
        _ => false,
    };
    if has_return_callback(family) != callback_lease {
        return Err(
            EngineError::InvalidReturnBinding {
                operation_id: op.operation_id,
                expected: "a direct callback lease matching the canonical return use-site",
            },
        );
    }
    Ok(())
}

/// Checks that a fallible operation has an error mapper and an infallible
/// one has none.
pub fn validate_error_binding(family: &FamilyOperation, op: &RustOperationPlan) -> (result: Result<
    (),
    EngineError,
>)
    ensures
        engine_agrees(result, error_binding_check(*family, *op)),
{
    match &op.error_binding {
        ErrorBinding::Infallible => if family.fallible {
            Err(EngineError::MissingErrorDescriptor { operation_id: op.operation_id })
        } else {
            Ok(())
        },
        ErrorBinding::Descriptor { .. } => if family.fallible {
            Ok(())
        } else {
            Err(EngineError::UnexpectedErrorDescriptor { operation_id: op.operation_id })
        },
    }
}

/// Checks one Rust operation against its family operation.
pub fn validate_bridge_operation(family: &FamilyOperation, op: &RustOperationPlan) -> (result: Result<
    (),
    EngineError,
>)
    ensures
        engine_agrees(result, bridge_operation_check(*family, *op)),
{
    match validate_operation_target(family, op) {
        Err(error) => {
            return Err(error);
        },
        Ok(()) => {},
    }
    let native = match &op.target {
        RustOperationTarget::Native { .. } => true,
        _ => false,
    };
    if native {
        if op.arguments.len() != family.argument_count {
            return Err(
                EngineError::ArgumentCount {
                    operation_id: op.operation_id,
                    expected: family.argument_count,
                    actual: op.arguments.len(),
                },
            );
        }
        match validate_receiver(family, op) {
            Err(error) => {
                return Err(error);
            },
            Ok(()) => {},
        }
        match validate_result_resource(family, op) {
            Err(error) => {
                return Err(error);
            },
            Ok(()) => {},
        }
    } else if op.receiver.is_some() || op.arguments.len() > 0 {
        return Err(EngineError::HostOperationHasRustBindings { operation_id: op.operation_id });
    }
    match validate_argument_names(op) {
        Err(error) => {
            return Err(error);
        },
        Ok(()) => {},
    }
    if native {
        match validate_structured_bindings(family, op) {
            Err(error) => {
                return Err(error);
            },
            Ok(()) => {},
        }
        validate_error_binding(family, op)
    } else {
        let unit = match &op.return_binding {
            ReturnBinding::Unit => true,
            _ => false,
        };
        let infallible = match &op.error_binding {
            ErrorBinding::Infallible => true,
            _ => false,
        };
        if !unit || !infallible {
            return Err(EngineError::HostOperationHasRustBindings { operation_id: op.operation_id });
        }
        if family.callbacks.len() > 0 || family.streams.len() > 0 {
            return Err(
                EngineError::HostOperationHasStructuredUseSites { operation_id: op.operation_id },
            );
        }
        Ok(())
    }
}

/// Whether some result resource of an operation has this kind.
fn results_of_kind(op: &FamilyOperation, kind: ResourceKind) -> (found: bool)
    ensures
        found == has_result_kind(*op, kind),
{
    let count = op.result_resources.len();
    let mut k: usize = 0;
    while k < count
        invariant
            count == op.result_resources@.len(),
            k <= count,
            forall|i: int| 0 <= i < k ==> (#[trigger] op.result_resources@[i]).binding.kind != kind,
        decreases count - k,
    {
        if op.result_resources[k].binding.kind == kind {
            return true;
        }
        k += 1;
    }
    false
}

/// Whether some stream use site of an operation has this direction.
fn streams_in_direction(op: &FamilyOperation, direction: StreamDirection) -> (found: bool)
    ensures
        found == has_stream_direction(*op, direction),
{
    let count = op.streams.len();
    let mut k: usize = 0;
    while k < count
        invariant
            count == op.streams@.len(),
            k <= count,
            forall|i: int| 0 <= i < k ==> (#[trigger] op.streams@[i]).direction != direction,
        decreases count - k,
    {
        if op.streams[k].direction == direction {
            return true;
        }
        k += 1;
    }
    false
}

/// Whether an operation leases, produces or takes a resource of this kind.
fn operation_touches_resource(op: &FamilyOperation, kind: ResourceKind) -> (touches: bool)
    ensures
        touches == touches_resource(*op, kind),
{
    receiver_is_resource(op.receiver, kind) || results_of_kind(op, kind) || (kind
        == ResourceKind::InputStream && streams_in_direction(op, StreamDirection::Input)) || (kind
        == ResourceKind::OutputStream && streams_in_direction(op, StreamDirection::Output))
}

/// Whether some operation of a plan leases, produces or takes a resource of
/// this kind.
fn plan_needs_resource(ops: &[FamilyOperation], kind: ResourceKind) -> (needs: bool)
    ensures
        needs == needs_resource(ops@, kind),
{
    let count = ops.len();
    let mut i: usize = 0;
    while i < count
        invariant
            count == ops@.len(),
            i <= count,
            forall|j: int| 0 <= j < i ==> !touches_resource(#[trigger] ops@[j], kind),
        decreases count - i,
    {
        if operation_touches_resource(&ops[i], kind) {
            return true;
        }
        i += 1;
    }
    false
}

/// Checks that the hooks that the plan's resources need are present.
pub fn validate_resource_hooks(family: &FamilyPlan, hooks: &RustResourceHooks) -> (result: Result<
    (),
    EngineError,
>)
    ensures
        engine_agrees(result, hooks_check(family.spec_operations(), *hooks)),
{
    let ops = family.operations();
    let needs_object = plan_needs_resource(ops, ResourceKind::Object);
    let needs_output = plan_needs_resource(ops, ResourceKind::OutputStream);
    if needs_object && hooks.release_object.is_none() {
        return Err(EngineError::MissingResourceHook { role: "object release" });
    }
    if needs_output && hooks.cancel_output_stream.is_none() {
        return Err(EngineError::MissingResourceHook { role: "output-stream cancel" });
    }
    if needs_output && hooks.release_output_stream.is_none() {
        return Err(EngineError::MissingResourceHook { role: "output-stream release" });
    }
    Ok(())
}

} // verus!
