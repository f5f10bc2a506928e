//! The rules that a Rust call plan must meet against a family plan.
//!
//! Like the family rules, each rule passes or names the rejection, and
//! [`first_error`] decides which rejection an ordered list of checks gives.
use vstd::prelude::*;

use crate::bridge::{ArgumentBinding, RustOperationPlan, RustResourceHooks};
use crate::engine_error::{EngineError, EngineRejection};
use crate::entrypoints::touches_resource;
use crate::family::{
    FamilyOperation, FamilyOperationTarget, ReceiverBinding, ResourceBinding, ResourceKind,
    ResultResourceUseSite, StreamDirection, ValuePathSegment,
};
use crate::rules::{first_error, is_return_root};

verus! {

/// Whether an executable outcome reports exactly the specified outcome.
pub open spec fn engine_agrees<T>(actual: Result<T, EngineError>, expected: Result<(), EngineRejection>) -> bool {
    match actual {
        Ok(_) => expected is Ok,
        Err(error) => expected == Err::<(), EngineRejection>(error@),
    }
}

/// Whether a Rust operation calls native Rust code.
pub open spec fn is_native(op: RustOperationPlan) -> bool {
    op.target is Native
}

/// The Rust target must be of the same kind as the family target.
pub open spec fn target_check(family: FamilyOperation, op: RustOperationPlan) -> Result<(), EngineRejection> {
    let fits = match family.target {
        FamilyOperationTarget::Native => op.target is Native,
        FamilyOperationTarget::CallbackHost { .. } => op.target is CallbackHost,
        FamilyOperationTarget::InputStreamHostPull => op.target is InputStreamHostPull,
        FamilyOperationTarget::InputStreamHostCancel => op.target is InputStreamHostCancel,
    };
    if fits {
        Ok(())
    } else {
        Err(EngineRejection::InvalidOperationTarget { operation_id: op.operation_id, kind: family.kind })
    }
}

/// Bindings that lower an ordinary value.
pub open spec fn is_value_lowering(binding: ArgumentBinding) -> bool {
    binding is Direct || binding is I64BigInt || binding is U64BigInt || binding is LowerWith
        || binding is LowerWithHost
}

/// A lease binding of the expected kind and ownership; input streams are
/// passed as proxies.
pub open spec fn lease_fits(expected: ResourceBinding, binding: ArgumentBinding) -> bool {
    match expected.kind {
        ResourceKind::Object => binding matches ArgumentBinding::ObjectLease { ownership, .. }
            && ownership == expected.ownership,
        ResourceKind::OutputStream => binding matches ArgumentBinding::OutputStreamLease {
            ownership,
            ..
        } && ownership == expected.ownership,
        ResourceKind::InputStream => binding is InputStreamProxy,
    }
}

/// A native operation has a Rust receiver exactly when the family
/// operation has one, and it lowers a value receiver as a value and a
/// resource receiver as a lease of the same kind.
pub open spec fn receiver_check(family: FamilyOperation, op: RustOperationPlan) -> Result<(), EngineRejection> {
    match family.receiver {
        None => if op.receiver is None {
            Ok(())
        } else {
            Err(EngineRejection::UnexpectedReceiver { operation_id: op.operation_id })
        },
        Some(ReceiverBinding::Value) => match op.receiver {
            None => Err(EngineRejection::MissingReceiver { operation_id: op.operation_id }),
            Some(actual) => if is_value_lowering(actual.binding) {
                Ok(())
            } else {
                Err(EngineRejection::InvalidValueReceiver { operation_id: op.operation_id })
            },
        },
        Some(ReceiverBinding::Resource(expected)) => match op.receiver {
            None => Err(EngineRejection::MissingReceiver { operation_id: op.operation_id }),
            Some(actual) => if lease_fits(expected, actual.binding) {
                Ok(())
            } else {
                Err(EngineRejection::InvalidResourceReceiver { operation_id: op.operation_id })
            },
        },
    }
}

/// The binding of the first result resource at the bare return root: the
/// resource that the return value itself is.
pub open spec fn root_resource(resources: Seq<ResultResourceUseSite>) -> Option<ResourceBinding>
    decreases resources.len(),
{
    if resources.len() == 0 {
        None
    } else if is_return_root(resources[0].path.segments@) {
        Some(resources[0].binding)
    } else {
        root_resource(resources.drop_first())
    }
}

/// A returned object or output stream is lifted as a lease of that kind,
/// and a lease is returned only for such a resource.
pub open spec fn result_binding_check(family: FamilyOperation, op: RustOperationPlan) -> Result<
    (),
    EngineRejection,
> {
    let fits = match root_resource(family.result_resources@) {
        None => !(op.return_binding is ObjectLease) && !(op.return_binding is OutputStreamLease),
        Some(resource) => match resource.kind {
            ResourceKind::Object => op.return_binding is ObjectLease,
            ResourceKind::InputStream => false,
            ResourceKind::OutputStream => op.return_binding is OutputStreamLease,
        },
    };
    if fits {
        Ok(())
    } else {
        Err(EngineRejection::InvalidResourceResult { operation_id: op.operation_id })
    }
}

/// The receiver's name, when there is a receiver.
pub open spec fn receiver_names(op: RustOperationPlan) -> Seq<Seq<char>> {
    match op.receiver {
        Some(receiver) => seq![receiver.name@],
        None => Seq::empty(),
    }
}

/// The names bound before argument `k`: the receiver's, then those of the
/// earlier arguments.
pub open spec fn names_before(op: RustOperationPlan, k: int) -> Seq<Seq<char>> {
    receiver_names(op) + op.arguments@.take(k).map_values(|argument: crate::bridge::RustArgumentPlan| argument.name@)
}

/// Argument `k` must not repeat a name bound before it.
pub open spec fn name_check(op: RustOperationPlan, k: int) -> Result<(), EngineRejection> {
    if names_before(op, k).contains(op.arguments@[k].name@) {
        Err(
            EngineRejection::DuplicateRustArgument {
                operation_id: op.operation_id,
                name: op.arguments@[k].name@,
            },
        )
    } else {
        Ok(())
    }
}

/// The argument names of an operation, in order.
pub open spec fn names_check(op: RustOperationPlan) -> Result<(), EngineRejection> {
    first_error(Seq::new(op.arguments@.len(), |k: int| name_check(op, k)))
}

/// Whether a path is rooted at argument `index`.
pub open spec fn selects_argument(segments: Seq<ValuePathSegment>, index: int) -> bool {
    &&& segments.len() > 0
    &&& segments[0] matches ValuePathSegment::Argument(argument) && argument as int == index
}

/// Whether a callback use site is rooted at argument `index`, as the whole
/// argument (`direct`) or below it.
pub open spec fn argument_callback(family: FamilyOperation, index: int, direct: bool) -> bool {
    exists|k: int|
        0 <= k < family.callbacks@.len() && #[trigger] selects_argument(
            family.callbacks@[k].path.segments@,
            index,
        ) && (family.callbacks@[k].path.segments@.len() == 1) == direct
}

/// Whether an input-stream use site is rooted at argument `index`, as the
/// whole argument (`direct`) or below it.
pub open spec fn argument_stream(family: FamilyOperation, index: int, direct: bool) -> bool {
    exists|k: int|
        0 <= k < family.streams@.len() && family.streams@[k].direction == StreamDirection::Input
            && #[trigger] selects_argument(family.streams@[k].path.segments@, index) && (
        family.streams@[k].path.segments@.len() == 1) == direct
}

/// Argument `index` is a callback proxy exactly when the argument itself is
/// a callback, an input-stream proxy exactly when it is an input stream,
/// and lowered with the host exactly when a callback or input stream lies
/// below it.
pub open spec fn argument_binding_check(family: FamilyOperation, op: RustOperationPlan, index: int) -> Result<
    (),
    EngineRejection,
> {
    let binding = op.arguments@[index].binding;
    let nested_callback = argument_callback(family, index, false);
    let nested_stream = argument_stream(family, index, false);
    if argument_callback(family, index, true) != (binding is CallbackProxy) {
        Err(
            EngineRejection::InvalidStructuredBinding {
                operation_id: op.operation_id,
                argument: index as usize,
                role: "callback"@,
            },
        )
    } else if argument_stream(family, index, true) != (binding is InputStreamProxy) {
        Err(
            EngineRejection::InvalidStructuredBinding {
                operation_id: op.operation_id,
                argument: index as usize,
                role: "input stream"@,
            },
        )
    } else if (nested_callback || nested_stream) != (binding is LowerWithHost) {
        Err(
            EngineRejection::InvalidStructuredBinding {
                operation_id: op.operation_id,
                argument: index as usize,
                role: if nested_callback {
                    "callback"@
                } else if nested_stream {
                    "input stream"@
                } else {
                    "callback or input stream"@
                },
            },
        )
    } else {
        Ok(())
    }
}

/// Whether the return value itself is a callback.
pub open spec fn returns_callback(family: FamilyOperation) -> bool {
    exists|k: int|
        0 <= k < family.callbacks@.len() && #[trigger] is_return_root(
            family.callbacks@[k].path.segments@,
        )
}

/// The return is lifted as a callback lease exactly when the return value
/// itself is a callback.
pub open spec fn return_binding_check(family: FamilyOperation, op: RustOperationPlan) -> Result<
    (),
    EngineRejection,
> {
    if returns_callback(family) != (op.return_binding is CallbackLease) {
        Err(
            EngineRejection::InvalidReturnBinding {
                operation_id: op.operation_id,
                expected: "a direct callback lease matching the canonical return use-site"@,
            },
        )
    } else {
        Ok(())
    }
}

/// The arguments in order, then the return.
pub open spec fn structured_check(family: FamilyOperation, op: RustOperationPlan) -> Result<
    (),
    EngineRejection,
> {
    let arguments = first_error(
        Seq::new(op.arguments@.len(), |index: int| argument_binding_check(family, op, index)),
    );
    if arguments is Err {
        arguments
    } else {
        return_binding_check(family, op)
    }
}

/// A fallible operation maps its errors with a descriptor mapper, and an
/// infallible one has none.
pub open spec fn error_binding_check(family: FamilyOperation, op: RustOperationPlan) -> Result<
    (),
    EngineRejection,
> {
    if family.fallible && op.error_binding is Infallible {
        Err(EngineRejection::MissingErrorDescriptor { operation_id: op.operation_id })
    } else if !family.fallible && op.error_binding is Descriptor {
        Err(EngineRejection::UnexpectedErrorDescriptor { operation_id: op.operation_id })
    } else {
        Ok(())
    }
}

/// The rules of one Rust operation against its family operation, in the
/// order in which they apply.  Native operations bind their arguments,
/// receiver, result and errors; host operations bind nothing and carry no
/// callback or stream use site.
pub open spec fn bridge_operation_check(family: FamilyOperation, op: RustOperationPlan) -> Result<
    (),
    EngineRejection,
> {
    if target_check(family, op) is Err {
        target_check(family, op)
    } else if is_native(op) && op.arguments@.len() != family.argument_count {
        Err(
            EngineRejection::ArgumentCount {
                operation_id: op.operation_id,
                expected: family.argument_count,
                actual: op.arguments@.len() as usize,
            },
        )
    } else if is_native(op) && receiver_check(family, op) is Err {
        receiver_check(family, op)
    } else if is_native(op) && result_binding_check(family, op) is Err {
        result_binding_check(family, op)
    } else if !is_native(op) && (op.receiver is Some || op.arguments@.len() > 0) {
        Err(EngineRejection::HostOperationHasRustBindings { operation_id: op.operation_id })
    } else if names_check(op) is Err {
        names_check(op)
    } else if is_native(op) {
        if structured_check(family, op) is Err {
            structured_check(family, op)
        } else {
            error_binding_check(family, op)
        }
    } else if !(op.return_binding is Unit) || !(op.error_binding is Infallible) {
        Err(EngineRejection::HostOperationHasRustBindings { operation_id: op.operation_id })
    } else if family.callbacks@.len() > 0 || family.streams@.len() > 0 {
        Err(EngineRejection::HostOperationHasStructuredUseSites { operation_id: op.operation_id })
    } else {
        Ok(())
    }
}

/// Whether some Rust operation has this id.
pub open spec fn has_rust_id(ops: Seq<RustOperationPlan>, id: int) -> bool {
    exists|j: int| 0 <= j < ops.len() && (#[trigger] ops[j]).operation_id == id
}

/// The position of the Rust operation with this id.
pub open spec fn rust_index_of_id(ops: Seq<RustOperationPlan>, id: int) -> int {
    choose|j: int| 0 <= j < ops.len() && (#[trigger] ops[j]).operation_id == id
}

/// The Rust operation with this id.
pub open spec fn rust_op_with_id(ops: Seq<RustOperationPlan>, id: int) -> RustOperationPlan {
    ops[rust_index_of_id(ops, id)]
}

/// No two Rust operations share an id.
pub open spec fn rust_ids_distinct(ops: Seq<RustOperationPlan>) -> bool {
    forall|j: int, k: int|
        0 <= j < ops.len() && 0 <= k < ops.len() && j != k ==> (#[trigger] ops[j]).operation_id
            != (#[trigger] ops[k]).operation_id
}

/// An id is repeated when an earlier Rust operation already has it.
pub open spec fn rust_duplicate_check(ops: Seq<RustOperationPlan>, k: int) -> Result<(), EngineRejection> {
    if exists|j: int| 0 <= j < k && (#[trigger] ops[j]).operation_id == ops[k].operation_id {
        Err(EngineRejection::DuplicateRustOperation { id: ops[k].operation_id })
    } else {
        Ok(())
    }
}

/// The Rust operations in input order, each against the ones before it.
pub open spec fn rust_duplicates_check(ops: Seq<RustOperationPlan>) -> Result<(), EngineRejection> {
    first_error(Seq::new(ops.len(), |k: int| rust_duplicate_check(ops, k)))
}

/// Position `i` of the family plan: its Rust operation must exist and pass
/// its rules.
pub open spec fn bridge_step(
    family_ops: Seq<FamilyOperation>,
    ops: Seq<RustOperationPlan>,
    i: int,
) -> Result<(), EngineRejection> {
    if has_rust_id(ops, family_ops[i].id as int) {
        bridge_operation_check(family_ops[i], rust_op_with_id(ops, family_ops[i].id as int))
    } else {
        Err(EngineRejection::MissingRustOperation { id: family_ops[i].id })
    }
}

/// The family operations in order.
pub open spec fn bridge_operations_check(
    family_ops: Seq<FamilyOperation>,
    ops: Seq<RustOperationPlan>,
) -> Result<(), EngineRejection> {
    first_error(Seq::new(family_ops.len(), |i: int| bridge_step(family_ops, ops, i)))
}

/// Whether some family operation leases, produces or takes a resource of
/// this kind.
pub open spec fn needs_resource(family_ops: Seq<FamilyOperation>, kind: ResourceKind) -> bool {
    exists|i: int| 0 <= i < family_ops.len() && touches_resource(#[trigger] family_ops[i], kind)
}

/// Objects need a release hook; output streams need a cancel hook and a
/// release hook.
pub open spec fn hooks_check(family_ops: Seq<FamilyOperation>, hooks: RustResourceHooks) -> Result<
    (),
    EngineRejection,
> {
    if needs_resource(family_ops, ResourceKind::Object) && hooks.release_object is None {
        Err(EngineRejection::MissingResourceHook { role: "object release"@ })
    } else if needs_resource(family_ops, ResourceKind::OutputStream) && hooks.cancel_output_stream is None {
        Err(EngineRejection::MissingResourceHook { role: "output-stream cancel"@ })
    } else if needs_resource(family_ops, ResourceKind::OutputStream) && hooks.release_output_stream is None {
        Err(EngineRejection::MissingResourceHook { role: "output-stream release"@ })
    } else {
        Ok(())
    }
}

/// The rules of a whole Rust call plan against a family plan, in order.
pub open spec fn bridge_check(
    family_ops: Seq<FamilyOperation>,
    ops: Seq<RustOperationPlan>,
    hooks: RustResourceHooks,
) -> Result<(), EngineRejection> {
    if rust_duplicates_check(ops) is Err {
        rust_duplicates_check(ops)
    } else if ops.len() != family_ops.len() {
        Err(
            EngineRejection::RustOperationCount {
                expected: family_ops.len() as usize,
                actual: ops.len() as usize,
            },
        )
    } else if bridge_operations_check(family_ops, ops) is Err {
        bridge_operations_check(family_ops, ops)
    } else {
        hooks_check(family_ops, hooks)
    }
}

} // verus!
