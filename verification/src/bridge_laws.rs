//! What every accepted Rust call plan has.
//!
//! [`crate::bridge::RustBridgePlan::build_with_resource_hooks`] accepts a
//! Rust call plan exactly when [`bridge_check`] passes; the laws below state
//! what that acceptance means.
use vstd::prelude::*;

use crate::bridge::{ArgumentBinding, RustOperationPlan, RustResourceHooks};
use crate::bridge_rules::{
    argument_binding_check, argument_callback, argument_stream, name_check, names_before,
    names_check, receiver_names, return_binding_check, returns_callback, selects_argument,
    structured_check, hooks_check,
    result_binding_check, root_resource, bridge_check, bridge_operation_check, bridge_step, error_binding_check, has_rust_id,
    is_native, needs_resource, receiver_check, rust_duplicate_check, rust_ids_distinct,
    rust_op_with_id, target_check,
};
use crate::entrypoints::{entry_required, operation_requires, touches_resource};
use crate::shape_laws::some_operation_touches;
use crate::family::{
    FamilyOperation, ReceiverBinding, ResourceKind, ResultResourceUseSite, RuntimeEntrypoint,
    StreamDirection, ValuePathSegment,
};
use crate::rules::is_return_root;
use crate::rules::lemma_all_pass;

verus! {

/// Distinct ids of which each of `0..n` occurs, for `n` ids, all lie below
/// `n`.
proof fn lemma_distinct_ids_cover(ids: Seq<int>)
    requires
        ids.no_duplicates(),
        forall|i: int| 0 <= i < ids.len() ==> #[trigger] ids.contains(i),
    ensures
        forall|j: int| 0 <= j < ids.len() ==> 0 <= #[trigger] ids[j] < ids.len(),
{
    ids.unique_seq_to_set();
    vstd::seq_lib::seq_to_set_is_finite(ids);
    let found = ids.to_set();
    let range = vstd::set_lib::set_int_range(0, ids.len() as int);
    vstd::set_lib::lemma_int_range(0, ids.len() as int);
    assert(range.subset_of(found));
    vstd::set_lib::lemma_subset_equality(range, found);
    assert forall|j: int| 0 <= j < ids.len() implies 0 <= #[trigger] ids[j] < ids.len() by {
        assert(found.contains(ids[j]));
        assert(range.contains(ids[j]));
    }
}

/// A Rust call plan accepted against a family plan whose operation `i` has
/// id `i` holds exactly one Rust operation for each family operation and no
/// other: its ids are distinct and exactly `0..n`.  The Rust operation of
/// each id passes its rules; so a native operation binds as many arguments
/// as the family operation takes, a receiver exactly when the family
/// operation has one, and an error mapper exactly when it is fallible,
/// while a host operation binds no receiver, argument, return or error.
pub proof fn lemma_accepted_bridge(
    family_ops: Seq<FamilyOperation>,
    ops: Seq<RustOperationPlan>,
    hooks: RustResourceHooks,
)
    requires
        bridge_check(family_ops, ops, hooks) is Ok,
        forall|i: int| 0 <= i < family_ops.len() ==> (#[trigger] family_ops[i]).id == i,
    ensures
        rust_ids_distinct(ops),
        ops.len() == family_ops.len(),
        forall|j: int| 0 <= j < ops.len() ==> (#[trigger] ops[j]).operation_id < ops.len(),
        forall|i: int|
            0 <= i < family_ops.len() ==> {
                let op = #[trigger] rust_op_with_id(ops, i);
                let family = family_ops[i];
                &&& has_rust_id(ops, i)
                &&& op.operation_id == i
                &&& bridge_operation_check(family, op) is Ok
                &&& is_native(op) <==> family.target is Native
                &&& is_native(op) ==> {
                    &&& op.arguments@.len() == family.argument_count
                    &&& op.receiver is Some <==> family.receiver is Some
                    &&& op.error_binding is Descriptor <==> family.fallible
                }
                &&& !is_native(op) ==> {
                    &&& op.receiver is None
                    &&& op.arguments@.len() == 0
                    &&& op.return_binding is Unit
                    &&& op.error_binding is Infallible
                }
            },
{
    let duplicates = Seq::new(ops.len(), |k: int| rust_duplicate_check(ops, k));
    lemma_all_pass(duplicates);
    assert forall|j: int, k: int|
        0 <= j < ops.len() && 0 <= k < ops.len() && j != k implies (#[trigger] ops[j]).operation_id
        != (#[trigger] ops[k]).operation_id by {
        if j < k {
            assert(duplicates[k] is Ok);
        } else {
            assert(duplicates[j] is Ok);
        }
    }
    let steps = Seq::new(family_ops.len(), |i: int| bridge_step(family_ops, ops, i));
    lemma_all_pass(steps);
    assert forall|i: int| 0 <= i < family_ops.len() implies {
        let op = #[trigger] rust_op_with_id(ops, i);
        let family = family_ops[i];
        &&& has_rust_id(ops, i)
        &&& op.operation_id == i
        &&& bridge_operation_check(family, op) is Ok
        &&& is_native(op) <==> family.target is Native
        &&& is_native(op) ==> {
            &&& op.arguments@.len() == family.argument_count
            &&& op.receiver is Some <==> family.receiver is Some
            &&& op.error_binding is Descriptor <==> family.fallible
        }
        &&& !is_native(op) ==> {
            &&& op.receiver is None
            &&& op.arguments@.len() == 0
            &&& op.return_binding is Unit
            &&& op.error_binding is Infallible
        }
    } by {
        assert(steps[i] is Ok);
        assert(family_ops[i].id == i);
        let op = rust_op_with_id(ops, i);
        let family = family_ops[i];
        assert(target_check(family, op) is Ok);
        if is_native(op) {
            assert(receiver_check(family, op) is Ok);
            assert(error_binding_check(family, op) is Ok);
        }
    }
    let ids = ops.map_values(|op: RustOperationPlan| op.operation_id as int);
    assert(ids.no_duplicates()) by {
        assert forall|a: int, b: int| 0 <= a < ids.len() && 0 <= b < ids.len() && a != b implies ids[a]
            != ids[b] by {
            assert(ops[a].operation_id != ops[b].operation_id);
        }
    }
    assert forall|i: int| 0 <= i < ids.len() implies #[trigger] ids.contains(i) by {
        assert(steps[i] is Ok);
        assert(has_rust_id(ops, family_ops[i].id as int));
        let j = choose|j: int| 0 <= j < ops.len() && (#[trigger] ops[j]).operation_id == i;
        assert(ids[j] == i);
    }
    lemma_distinct_ids_cover(ids);
    assert forall|j: int| 0 <= j < ops.len() implies (#[trigger] ops[j]).operation_id < ops.len() by {
        assert(ids[j] == ops[j].operation_id);
    }
}

/// An accepted Rust call plan has a hook for every resource entrypoint that
/// its family plan needs: an object release hook when objects must be
/// released, and output-stream cancel and release hooks when output streams
/// must be driven.
pub proof fn lemma_accepted_bridge_hooks(
    family_ops: Seq<FamilyOperation>,
    ops: Seq<RustOperationPlan>,
    hooks: RustResourceHooks,
)
    requires
        bridge_check(family_ops, ops, hooks) is Ok,
    ensures
        entry_required(family_ops, RuntimeEntrypoint::ReleaseObject) ==> hooks.release_object is Some,
        entry_required(family_ops, RuntimeEntrypoint::CancelOutputStream)
            ==> hooks.cancel_output_stream is Some,
        entry_required(family_ops, RuntimeEntrypoint::ReleaseOutputStream)
            ==> hooks.release_output_stream is Some,
{
    if entry_required(family_ops, RuntimeEntrypoint::ReleaseObject) {
        let i = choose|i: int|
            0 <= i < family_ops.len() && operation_requires(
                #[trigger] family_ops[i],
                RuntimeEntrypoint::ReleaseObject,
            );
        assert(needs_resource(family_ops, ResourceKind::Object));
    }
    if entry_required(family_ops, RuntimeEntrypoint::CancelOutputStream) {
        let i = choose|i: int|
            0 <= i < family_ops.len() && operation_requires(
                #[trigger] family_ops[i],
                RuntimeEntrypoint::CancelOutputStream,
            );
        assert(needs_resource(family_ops, ResourceKind::OutputStream));
    }
    if entry_required(family_ops, RuntimeEntrypoint::ReleaseOutputStream) {
        let i = choose|i: int|
            0 <= i < family_ops.len() && operation_requires(
                #[trigger] family_ops[i],
                RuntimeEntrypoint::ReleaseOutputStream,
            );
        assert(needs_resource(family_ops, ResourceKind::OutputStream));
    }
}


/// The first result resource at the bare return root decides the root
/// resource.
proof fn lemma_root_resource_first(resources: Seq<ResultResourceUseSite>, k: int)
    requires
        0 <= k < resources.len(),
        resources[k].path.segments@ =~= seq![ValuePathSegment::Return],
        forall|j: int|
            0 <= j < k ==> !((#[trigger] resources[j]).path.segments@ =~= seq![
                ValuePathSegment::Return,
            ]),
    ensures
        root_resource(resources) == Some(resources[k].binding),
    decreases k,
{
    if k == 0 {
        assert(is_return_root(resources[0].path.segments@));
    } else {
        let rest = resources.drop_first();
        assert(!is_return_root(resources[0].path.segments@)) by {
            if is_return_root(resources[0].path.segments@) {
                assert(resources[0].path.segments@ =~= seq![ValuePathSegment::Return]);
            }
        }
        assert forall|j: int| 0 <= j < k - 1 implies !((#[trigger] rest[j]).path.segments@ =~= seq![
            ValuePathSegment::Return,
        ]) by {
            assert(rest[j] == resources[j + 1]);
        }
        assert(rest[k - 1] == resources[k]);
        lemma_root_resource_first(rest, k - 1);
    }
}

/// Without a result resource at the bare return root there is no root
/// resource.
proof fn lemma_root_resource_none(resources: Seq<ResultResourceUseSite>)
    requires
        forall|j: int|
            0 <= j < resources.len() ==> !((#[trigger] resources[j]).path.segments@ =~= seq![
                ValuePathSegment::Return,
            ]),
    ensures
        root_resource(resources) is None,
    decreases resources.len(),
{
    if resources.len() > 0 {
        let rest = resources.drop_first();
        assert(!is_return_root(resources[0].path.segments@)) by {
            if is_return_root(resources[0].path.segments@) {
                assert(resources[0].path.segments@ =~= seq![ValuePathSegment::Return]);
            }
        }
        assert forall|j: int| 0 <= j < rest.len() implies !((#[trigger] rest[j]).path.segments@ =~= seq![
            ValuePathSegment::Return,
        ]) by {
            assert(rest[j] == resources[j + 1]);
        }
        lemma_root_resource_none(rest);
    }
}

/// In an accepted Rust call plan, a native operation whose family operation
/// returns a resource at its bare return root lifts it as a lease of that
/// resource's kind: an object as an object lease, an output stream as an
/// output-stream lease (an input stream is never returned there).  A native
/// operation that returns no resource there lifts no lease.  The first
/// result resource at the bare return root is the one that counts.
pub proof fn lemma_accepted_bridge_result_leases(
    family_ops: Seq<FamilyOperation>,
    ops: Seq<RustOperationPlan>,
    hooks: RustResourceHooks,
)
    requires
        bridge_check(family_ops, ops, hooks) is Ok,
        forall|i: int| 0 <= i < family_ops.len() ==> (#[trigger] family_ops[i]).id == i,
    ensures
        forall|i: int, k: int|
            0 <= i < family_ops.len() && family_ops[i].target is Native && 0 <= k
                < family_ops[i].result_resources@.len()
                && (#[trigger] family_ops[i].result_resources@[k]).path.segments@ =~= seq![
                ValuePathSegment::Return,
            ] && (forall|j: int|
                0 <= j < k ==> !((#[trigger] family_ops[i].result_resources@[j]).path.segments@
                    =~= seq![ValuePathSegment::Return])) ==> {
                let binding = rust_op_with_id(ops, i).return_binding;
                let kind = family_ops[i].result_resources@[k].binding.kind;
                &&& kind != ResourceKind::InputStream
                &&& (kind == ResourceKind::Object ==> binding is ObjectLease)
                &&& (kind == ResourceKind::OutputStream ==> binding is OutputStreamLease)
            },
        forall|i: int|
            0 <= i < family_ops.len() && (#[trigger] family_ops[i]).target is Native && (forall|k: int|
                0 <= k < family_ops[i].result_resources@.len() ==> !((#[trigger] family_ops[i].result_resources@[k]).path.segments@
                    =~= seq![ValuePathSegment::Return])) ==> {
                let binding = rust_op_with_id(ops, i).return_binding;
                &&& !(binding is ObjectLease)
                &&& !(binding is OutputStreamLease)
            },
{
    lemma_accepted_bridge(family_ops, ops, hooks);
    assert forall|i: int, k: int|
        0 <= i < family_ops.len() && family_ops[i].target is Native && 0 <= k
            < family_ops[i].result_resources@.len()
            && (#[trigger] family_ops[i].result_resources@[k]).path.segments@ =~= seq![
            ValuePathSegment::Return,
        ] && (forall|j: int|
            0 <= j < k ==> !((#[trigger] family_ops[i].result_resources@[j]).path.segments@
                =~= seq![ValuePathSegment::Return])) implies {
        let binding = rust_op_with_id(ops, i).return_binding;
        let kind = family_ops[i].result_resources@[k].binding.kind;
        &&& kind != ResourceKind::InputStream
        &&& (kind == ResourceKind::Object ==> binding is ObjectLease)
        &&& (kind == ResourceKind::OutputStream ==> binding is OutputStreamLease)
    } by {
        let op = rust_op_with_id(ops, i);
        assert(bridge_operation_check(family_ops[i], op) is Ok);
        lemma_root_resource_first(family_ops[i].result_resources@, k);
        assert(result_binding_check(family_ops[i], op) is Ok);
    }
    assert forall|i: int|
        0 <= i < family_ops.len() && (#[trigger] family_ops[i]).target is Native && (forall|k: int|
            0 <= k < family_ops[i].result_resources@.len() ==> !((#[trigger] family_ops[i].result_resources@[k]).path.segments@
                =~= seq![ValuePathSegment::Return])) implies {
        let binding = rust_op_with_id(ops, i).return_binding;
        &&& !(binding is ObjectLease)
        &&& !(binding is OutputStreamLease)
    } by {
        let op = rust_op_with_id(ops, i);
        assert(bridge_operation_check(family_ops[i], op) is Ok);
        lemma_root_resource_none(family_ops[i].result_resources@);
        assert(result_binding_check(family_ops[i], op) is Ok);
    }
}


/// Whether a path is exactly argument `index`.
pub open spec fn is_argument_path(segments: Seq<ValuePathSegment>, index: int) -> bool {
    segments.len() == 1 && (segments[0] matches ValuePathSegment::Argument(a) && a as int == index)
}

/// Whether a path lies strictly below argument `index`.
pub open spec fn is_below_argument(segments: Seq<ValuePathSegment>, index: int) -> bool {
    segments.len() > 1 && (segments[0] matches ValuePathSegment::Argument(a) && a as int == index)
}

/// What an accepted Rust call plan binds, rule by rule, for the Rust
/// operation of each id `i` against family operation `i`:
/// - the Rust target is of the family target's kind;
/// - a value receiver is lowered as a value, an object or output-stream
///   receiver as a lease of that kind and ownership, an input-stream
///   receiver as a proxy;
/// - argument `k` is a callback proxy exactly when a callback use site is
///   the whole argument, an input-stream proxy exactly when an input stream
///   is, and lowered with the host exactly when a callback or input stream
///   lies below it;
/// - the return is a callback lease exactly when a callback use site is the
///   bare return value;
/// - no two bound names (receiver and arguments) are the same;
/// and the hooks: an object release hook when some operation touches an
/// object, output-stream cancel and release hooks when one touches an
/// output stream.
pub proof fn lemma_accepted_bridge_bindings(
    family_ops: Seq<FamilyOperation>,
    ops: Seq<RustOperationPlan>,
    hooks: RustResourceHooks,
)
    requires
        bridge_check(family_ops, ops, hooks) is Ok,
        forall|i: int| 0 <= i < family_ops.len() ==> (#[trigger] family_ops[i]).id == i,
    ensures
        forall|i: int|
            0 <= i < family_ops.len() ==> {
                let op = #[trigger] rust_op_with_id(ops, i);
                let family = family_ops[i];
                &&& (family.target is Native <==> op.target is Native)
                &&& (family.target is CallbackHost <==> op.target is CallbackHost)
                &&& (family.target is InputStreamHostPull <==> op.target is InputStreamHostPull)
                &&& (family.target is InputStreamHostCancel <==> op.target is InputStreamHostCancel)
            },
        forall|i: int|
            0 <= i < family_ops.len() && (#[trigger] family_ops[i]).target is Native ==> {
                let op = rust_op_with_id(ops, i);
                let family = family_ops[i];
                &&& (family.receiver == Some(ReceiverBinding::Value) ==> (op.receiver matches Some(r)
                    && (r.binding is Direct || r.binding is I64BigInt || r.binding is U64BigInt
                    || r.binding is LowerWith || r.binding is LowerWithHost)))
                &&& (family.receiver matches Some(ReceiverBinding::Resource(b)) ==> (op.receiver matches Some(
                    r,
                ) && (b.kind == ResourceKind::Object ==> (r.binding matches ArgumentBinding::ObjectLease {
                    ownership,
                    ..
                } && ownership == b.ownership)) && (b.kind == ResourceKind::OutputStream ==> (
                r.binding matches ArgumentBinding::OutputStreamLease { ownership, .. } && ownership
                    == b.ownership)) && (b.kind == ResourceKind::InputStream
                    ==> r.binding is InputStreamProxy)))
                &&& (op.return_binding is CallbackLease <==> exists|c: int|
                    0 <= c < family.callbacks@.len() && (#[trigger] family.callbacks@[c]).path.segments@
                        =~= seq![ValuePathSegment::Return])
            },
        forall|i: int, k: int|
            0 <= i < family_ops.len() && family_ops[i].target is Native && 0 <= k
                < rust_op_with_id(ops, i).arguments@.len() ==> {
                let binding = (#[trigger] rust_op_with_id(ops, i).arguments@[k]).binding;
                let family = family_ops[i];
                &&& (binding is CallbackProxy <==> exists|c: int|
                    0 <= c < family.callbacks@.len() && is_argument_path(
                        (#[trigger] family.callbacks@[c]).path.segments@,
                        k,
                    ))
                &&& (binding is InputStreamProxy <==> exists|t: int|
                    0 <= t < family.streams@.len() && (#[trigger] family.streams@[t]).direction
                        == StreamDirection::Input && is_argument_path(
                        family.streams@[t].path.segments@,
                        k,
                    ))
                &&& (binding is LowerWithHost <==> (exists|c: int|
                    0 <= c < family.callbacks@.len() && is_below_argument(
                        (#[trigger] family.callbacks@[c]).path.segments@,
                        k,
                    )) || exists|t: int|
                    0 <= t < family.streams@.len() && (#[trigger] family.streams@[t]).direction
                        == StreamDirection::Input && is_below_argument(
                        family.streams@[t].path.segments@,
                        k,
                    ))
            },
        forall|i: int, j: int, k: int|
            0 <= i < family_ops.len() && 0 <= j < k < rust_op_with_id(ops, i).arguments@.len()
                ==> (#[trigger] rust_op_with_id(ops, i).arguments@[j]).name@
                != (#[trigger] rust_op_with_id(ops, i).arguments@[k]).name@,
        forall|i: int, k: int|
            0 <= i < family_ops.len() && 0 <= k < rust_op_with_id(ops, i).arguments@.len()
                && rust_op_with_id(ops, i).receiver is Some ==> (#[trigger] rust_op_with_id(
                ops,
                i,
            ).arguments@[k]).name@ != rust_op_with_id(ops, i).receiver->Some_0.name@,
        some_operation_touches(family_ops, ResourceKind::Object) ==> hooks.release_object is Some,
        some_operation_touches(family_ops, ResourceKind::OutputStream)
            ==> hooks.cancel_output_stream is Some && hooks.release_output_stream is Some,
{
    lemma_accepted_bridge(family_ops, ops, hooks);
    assert forall|i: int|
        0 <= i < family_ops.len() && (#[trigger] family_ops[i]).target is Native implies {
        let op = rust_op_with_id(ops, i);
        let family = family_ops[i];
        &&& (family.receiver == Some(ReceiverBinding::Value) ==> (op.receiver matches Some(r)
            && (r.binding is Direct || r.binding is I64BigInt || r.binding is U64BigInt
            || r.binding is LowerWith || r.binding is LowerWithHost)))
        &&& (family.receiver matches Some(ReceiverBinding::Resource(b)) ==> (op.receiver matches Some(
            r,
        ) && (b.kind == ResourceKind::Object ==> (r.binding matches ArgumentBinding::ObjectLease {
            ownership,
            ..
        } && ownership == b.ownership)) && (b.kind == ResourceKind::OutputStream ==> (
        r.binding matches ArgumentBinding::OutputStreamLease { ownership, .. } && ownership
            == b.ownership)) && (b.kind == ResourceKind::InputStream
            ==> r.binding is InputStreamProxy)))
        &&& (op.return_binding is CallbackLease <==> exists|c: int|
            0 <= c < family.callbacks@.len() && (#[trigger] family.callbacks@[c]).path.segments@
                =~= seq![ValuePathSegment::Return])
    } by {
        let op = rust_op_with_id(ops, i);
        let family = family_ops[i];
        assert(bridge_operation_check(family, op) is Ok);
        assert(receiver_check(family, op) is Ok);
        assert(structured_check(family, op) is Ok);
        assert(return_binding_check(family, op) is Ok);
        if exists|c: int|
            0 <= c < family.callbacks@.len() && (#[trigger] family.callbacks@[c]).path.segments@
                =~= seq![ValuePathSegment::Return] {
            let c = choose|c: int|
                0 <= c < family.callbacks@.len() && (#[trigger] family.callbacks@[c]).path.segments@
                    =~= seq![ValuePathSegment::Return];
            assert(is_return_root(family.callbacks@[c].path.segments@));
        }
        if returns_callback(family) {
            let c = choose|c: int|
                0 <= c < family.callbacks@.len() && #[trigger] is_return_root(
                    family.callbacks@[c].path.segments@,
                );
            assert(family.callbacks@[c].path.segments@ =~= seq![ValuePathSegment::Return]);
        }
    }
    assert forall|i: int, k: int|
        0 <= i < family_ops.len() && family_ops[i].target is Native && 0 <= k
            < rust_op_with_id(ops, i).arguments@.len() implies {
        let binding = (#[trigger] rust_op_with_id(ops, i).arguments@[k]).binding;
        let family = family_ops[i];
        &&& (binding is CallbackProxy <==> exists|c: int|
            0 <= c < family.callbacks@.len() && is_argument_path(
                (#[trigger] family.callbacks@[c]).path.segments@,
                k,
            ))
        &&& (binding is InputStreamProxy <==> exists|t: int|
            0 <= t < family.streams@.len() && (#[trigger] family.streams@[t]).direction
                == StreamDirection::Input && is_argument_path(family.streams@[t].path.segments@, k))
        &&& (binding is LowerWithHost <==> (exists|c: int|
            0 <= c < family.callbacks@.len() && is_below_argument(
                (#[trigger] family.callbacks@[c]).path.segments@,
                k,
            )) || exists|t: int|
            0 <= t < family.streams@.len() && (#[trigger] family.streams@[t]).direction
                == StreamDirection::Input && is_below_argument(family.streams@[t].path.segments@, k))
    } by {
        let op = rust_op_with_id(ops, i);
        let family = family_ops[i];
        assert(bridge_operation_check(family, op) is Ok);
        assert(structured_check(family, op) is Ok);
        let checks = Seq::new(
            op.arguments@.len(),
            |index: int| argument_binding_check(family, op, index),
        );
        lemma_all_pass(checks);
        assert(checks[k] is Ok);
        lemma_argument_use_sites(family, k);
    }
    assert forall|i: int, j: int, k: int|
        0 <= i < family_ops.len() && 0 <= j < k < rust_op_with_id(ops, i).arguments@.len()
            implies (#[trigger] rust_op_with_id(ops, i).arguments@[j]).name@
        != (#[trigger] rust_op_with_id(ops, i).arguments@[k]).name@ by {
        let op = rust_op_with_id(ops, i);
        lemma_names_distinct(family_ops[i], op, k);
        assert(names_before(op, k).contains(op.arguments@[j].name@)) by {
            let index = receiver_names(op).len() + j;
            assert(names_before(op, k)[index] == op.arguments@[j].name@);
        }
    }
    assert forall|i: int, k: int|
        0 <= i < family_ops.len() && 0 <= k < rust_op_with_id(ops, i).arguments@.len()
            && rust_op_with_id(ops, i).receiver is Some implies (#[trigger] rust_op_with_id(
        ops,
        i,
    ).arguments@[k]).name@ != rust_op_with_id(ops, i).receiver->Some_0.name@ by {
        let op = rust_op_with_id(ops, i);
        lemma_names_distinct(family_ops[i], op, k);
        assert(names_before(op, k)[0] == op.receiver->Some_0.name@);
    }
    assert(hooks_check(family_ops, hooks) is Ok);
    if some_operation_touches(family_ops, ResourceKind::Object) {
        lemma_touches_needs(family_ops, ResourceKind::Object);
    }
    if some_operation_touches(family_ops, ResourceKind::OutputStream) {
        lemma_touches_needs(family_ops, ResourceKind::OutputStream);
    }
}

/// The use sites behind argument `k`, named without the rule's helpers.
pub proof fn lemma_argument_use_sites(family: FamilyOperation, k: int)
    ensures
        argument_callback(family, k, true) <==> exists|c: int|
            0 <= c < family.callbacks@.len() && is_argument_path(
                (#[trigger] family.callbacks@[c]).path.segments@,
                k,
            ),
        argument_callback(family, k, false) <==> exists|c: int|
            0 <= c < family.callbacks@.len() && is_below_argument(
                (#[trigger] family.callbacks@[c]).path.segments@,
                k,
            ),
        argument_stream(family, k, true) <==> exists|t: int|
            0 <= t < family.streams@.len() && (#[trigger] family.streams@[t]).direction
                == StreamDirection::Input && is_argument_path(family.streams@[t].path.segments@, k),
        argument_stream(family, k, false) <==> exists|t: int|
            0 <= t < family.streams@.len() && (#[trigger] family.streams@[t]).direction
                == StreamDirection::Input && is_below_argument(family.streams@[t].path.segments@, k),
{
    if argument_callback(family, k, true) {
        let c = choose|c: int|
            0 <= c < family.callbacks@.len() && #[trigger] selects_argument(
                family.callbacks@[c].path.segments@,
                k,
            ) && (family.callbacks@[c].path.segments@.len() == 1) == true;
        assert(is_argument_path(family.callbacks@[c].path.segments@, k));
    }
    if exists|c: int|
        0 <= c < family.callbacks@.len() && is_argument_path(
            (#[trigger] family.callbacks@[c]).path.segments@,
            k,
        ) {
        let c = choose|c: int|
            0 <= c < family.callbacks@.len() && is_argument_path(
                (#[trigger] family.callbacks@[c]).path.segments@,
                k,
            );
        assert(selects_argument(family.callbacks@[c].path.segments@, k));
    }
    if argument_callback(family, k, false) {
        let c = choose|c: int|
            0 <= c < family.callbacks@.len() && #[trigger] selects_argument(
                family.callbacks@[c].path.segments@,
                k,
            ) && (family.callbacks@[c].path.segments@.len() == 1) == false;
        assert(is_below_argument(family.callbacks@[c].path.segments@, k));
    }
    if exists|c: int|
        0 <= c < family.callbacks@.len() && is_below_argument(
            (#[trigger] family.callbacks@[c]).path.segments@,
            k,
        ) {
        let c = choose|c: int|
            0 <= c < family.callbacks@.len() && is_below_argument(
                (#[trigger] family.callbacks@[c]).path.segments@,
                k,
            );
        assert(selects_argument(family.callbacks@[c].path.segments@, k));
    }
    if argument_stream(family, k, true) {
        let t = choose|t: int|
            0 <= t < family.streams@.len() && family.streams@[t].direction == StreamDirection::Input
                && #[trigger] selects_argument(family.streams@[t].path.segments@, k) && (
            family.streams@[t].path.segments@.len() == 1) == true;
        assert(is_argument_path(family.streams@[t].path.segments@, k));
    }
    if exists|t: int|
        0 <= t < family.streams@.len() && (#[trigger] family.streams@[t]).direction
            == StreamDirection::Input && is_argument_path(family.streams@[t].path.segments@, k) {
        let t = choose|t: int|
            0 <= t < family.streams@.len() && (#[trigger] family.streams@[t]).direction
                == StreamDirection::Input && is_argument_path(family.streams@[t].path.segments@, k);
        assert(selects_argument(family.streams@[t].path.segments@, k));
    }
    if argument_stream(family, k, false) {
        let t = choose|t: int|
            0 <= t < family.streams@.len() && family.streams@[t].direction == StreamDirection::Input
                && #[trigger] selects_argument(family.streams@[t].path.segments@, k) && (
            family.streams@[t].path.segments@.len() == 1) == false;
        assert(is_below_argument(family.streams@[t].path.segments@, k));
    }
    if exists|t: int|
        0 <= t < family.streams@.len() && (#[trigger] family.streams@[t]).direction
            == StreamDirection::Input && is_below_argument(family.streams@[t].path.segments@, k) {
        let t = choose|t: int|
            0 <= t < family.streams@.len() && (#[trigger] family.streams@[t]).direction
                == StreamDirection::Input && is_below_argument(family.streams@[t].path.segments@, k);
        assert(selects_argument(family.streams@[t].path.segments@, k));
    }
}

/// An accepted native operation repeats no bound name at argument `k`.
proof fn lemma_names_distinct(family: FamilyOperation, op: RustOperationPlan, k: int)
    requires
        bridge_operation_check(family, op) is Ok,
        0 <= k < op.arguments@.len(),
    ensures
        !names_before(op, k).contains(op.arguments@[k].name@),
{
    assert(names_check(op) is Ok);
    let checks = Seq::new(op.arguments@.len(), |j: int| name_check(op, j));
    lemma_all_pass(checks);
    assert(checks[k] is Ok);
}

/// An operation that touches a resource kind, named without the rule's
/// helpers, makes the plan need it.
proof fn lemma_touches_needs(family_ops: Seq<FamilyOperation>, kind: ResourceKind)
    requires
        some_operation_touches(family_ops, kind),
    ensures
        needs_resource(family_ops, kind),
{
    let i = choose|i: int|
        0 <= i < family_ops.len() && {
            let op = #[trigger] family_ops[i];
            ||| op.receiver matches Some(ReceiverBinding::Resource(binding)) && binding.kind == kind
            ||| exists|k: int|
                0 <= k < op.result_resources@.len() && (#[trigger] op.result_resources@[k]).binding.kind
                    == kind
            ||| (kind == ResourceKind::InputStream && exists|t: int|
                0 <= t < op.streams@.len() && (#[trigger] op.streams@[t]).direction
                    == StreamDirection::Input)
            ||| (kind == ResourceKind::OutputStream && exists|t: int|
                0 <= t < op.streams@.len() && (#[trigger] op.streams@[t]).direction
                    == StreamDirection::Output)
        };
    assert(touches_resource(family_ops[i], kind));
}

} // verus!
