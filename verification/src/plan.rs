//! Building a validated family plan.
use vstd::prelude::*;
use vstd::pervasive::VecAdditionalExecFns;

use crate::entrypoints::{
    add_runtime_entrypoints, entries_increasing, entry_at, entry_index, entry_required,
    lemma_entry_index, marked_entrypoints, operation_requires, with_target,
};
use crate::family::{
    AsyncKind, ResourceKind, ClosePolicy, FamilyOperation, FamilyOperationInput, FamilyPlanInput, HostFlavor, HostHooks,
    RuntimeEntrypoint, StreamSlotIdentity, flavor_hooks, planned_operation, target_of,
};
use crate::laws::{lemma_planned_stream_structure, plan_stream_structure};
use crate::shape_laws::{
    lemma_accepted_shapes, lemma_accepted_use_sites, lemma_entrypoints_needed, shape_holds,
    some_operation_touches, use_sites_hold,
};
use crate::plan_error::{FamilyPlanError, PlanRejection};
use crate::rules::{
    agrees, all_streams, duplicate_check, duplicates_check, first_orphan, has_id, ids_distinct,
    index_of_id, is_orphan, lemma_first_error_all_ok, lemma_first_error_step, lemma_ids_below,
    lemma_ids_cover, lemma_op_with_id, next_id_above, op_with_id, operation_check, operation_step,
    operations_check, orphan_check, orphan_precedes, plan_check, slots_of, stream_ids_check,
    streams_before, use_site_ids,
};
use crate::validate::{
    find_operation, validate_callbacks, validate_close_policy, validate_declared_slot,
    validate_operation_shape, validate_result_resources, validate_streams,
};

verus! {

/// A validated family plan: operations ordered by their dense ids, the
/// hooks of the host flavor, the close policy, and the runtime entrypoints
/// that the operations need.
#[derive(Debug, PartialEq, Eq)]
pub struct FamilyPlan {
    flavor: HostFlavor,
    hooks: HostHooks,
    close_policy: ClosePolicy,
    operations: Vec<FamilyOperation>,
    runtime_entrypoints: Vec<RuntimeEntrypoint>,
}

impl FamilyPlan {
    /// Every plan keeps these facts: the hooks are those of its flavor,
    /// operation `i` has id `i`, and the entrypoints are, in declaration
    /// order, exactly those that the operations need.
    #[verifier::type_invariant]
    spec fn well_formed(self) -> bool {
        &&& self.hooks == flavor_hooks(self.flavor)
        &&& forall|i: int| 0 <= i < self.operations@.len() ==> (#[trigger] self.operations@[i]).id == i
        &&& entries_increasing(self.runtime_entrypoints@)
        &&& forall|entry: RuntimeEntrypoint|
            self.runtime_entrypoints@.contains(entry) <==> entry_required(self.operations@, entry)
    }

    pub closed spec fn spec_flavor(&self) -> HostFlavor {
        self.flavor
    }

    pub closed spec fn spec_close_policy(&self) -> ClosePolicy {
        self.close_policy
    }

    pub closed spec fn spec_operations(&self) -> Seq<FamilyOperation> {
        self.operations@
    }

    pub closed spec fn spec_entrypoints(&self) -> Seq<RuntimeEntrypoint> {
        self.runtime_entrypoints@
    }

    pub fn flavor(&self) -> (flavor: HostFlavor)
        ensures
            flavor == self.spec_flavor(),
    {
        self.flavor
    }

    /// The hooks of the plan's flavor.
    pub fn hooks(&self) -> (hooks: HostHooks)
        ensures
            hooks == flavor_hooks(self.spec_flavor()),
    {
        proof {
            use_type_invariant(self);
        }
        self.hooks
    }

    pub fn close_policy(&self) -> (policy: ClosePolicy)
        ensures
            policy == self.spec_close_policy(),
    {
        self.close_policy
    }

    /// The operations, ordered by id; operation `i` has id `i`.
    pub fn operations(&self) -> (operations: &[FamilyOperation])
        ensures
            operations@ == self.spec_operations(),
            forall|i: int| 0 <= i < operations@.len() ==> (#[trigger] operations@[i]).id == i,
    {
        proof {
            use_type_invariant(self);
        }
        self.operations.as_slice()
    }

    /// The runtime entrypoints, in declaration order: closing the session
    /// always, and every other entrypoint exactly when an operation needs
    /// it.
    pub fn runtime_entrypoints(&self) -> (entries: &[RuntimeEntrypoint])
        ensures
            entries@ == self.spec_entrypoints(),
            entries@.contains(RuntimeEntrypoint::CloseSession),
            entries_increasing(entries@),
            forall|entry: RuntimeEntrypoint|
                entries@.contains(entry) <==> entry_required(self.spec_operations(), entry),
            entries@.contains(RuntimeEntrypoint::InvokeCallbackSync) <==> exists|i: int|
                0 <= i < self.spec_operations().len() && (#[trigger] self.spec_operations()[i]).target is CallbackHost
                    && self.spec_operations()[i].async_kind == AsyncKind::Sync,
            entries@.contains(RuntimeEntrypoint::InvokeCallbackAsync) <==> exists|i: int|
                0 <= i < self.spec_operations().len() && (#[trigger] self.spec_operations()[i]).target is CallbackHost
                    && self.spec_operations()[i].async_kind == AsyncKind::Async,
            entries@.contains(RuntimeEntrypoint::ReleaseObject) <==> some_operation_touches(
                self.spec_operations(),
                ResourceKind::Object,
            ),
            entries@.contains(RuntimeEntrypoint::PullInputStream) <==> some_operation_touches(
                self.spec_operations(),
                ResourceKind::InputStream,
            ),
            entries@.contains(RuntimeEntrypoint::NextOutputStream) <==> some_operation_touches(
                self.spec_operations(),
                ResourceKind::OutputStream,
            ),
    {
        proof {
            use_type_invariant(self);
            lemma_entrypoints_needed(self.operations@);
        }
        self.runtime_entrypoints.as_slice()
    }
}

/// Whether an operation before position `k` has the id of operation `k`.
fn repeats_earlier_id(ops: &Vec<FamilyOperationInput>, k: usize) -> (repeated: bool)
    requires
        k < ops@.len(),
    ensures
        repeated == exists|j: int| 0 <= j < k && (#[trigger] ops@[j]).id == ops@[k as int].id,
{
    let id = ops[k].id;
    let mut j: usize = 0;
    while j < k
        invariant
            k < ops@.len(),
            id == ops@[k as int].id,
            j <= k,
            forall|i: int| 0 <= i < j ==> (#[trigger] ops@[i]).id != id,
        decreases k - j,
    {
        if ops[j].id == id {
            assert(ops@[j as int].id == ops@[k as int].id);
            return true;
        }
        j += 1;
    }
    false
}

/// Reports the first operation whose id repeats an earlier one.
fn check_duplicate_ids(ops: &Vec<FamilyOperationInput>) -> (result: Result<(), FamilyPlanError>)
    ensures
        agrees(result, duplicates_check(ops@)),
        result is Ok ==> ids_distinct(ops@),
{
    let count = ops.len();
    let ghost checks = Seq::new(ops@.len(), |k: int| duplicate_check(ops@, k));
    let mut k: usize = 0;
    while k < count
        invariant
            count == ops@.len(),
            checks == Seq::new(ops@.len(), |k: int| duplicate_check(ops@, k)),
            k <= count,
            forall|j: int| 0 <= j < k ==> (#[trigger] checks[j]) is Ok,
            forall|a: int, b: int|
                0 <= a < k && 0 <= b < k && a != b ==> (#[trigger] ops@[a]).id != (#[trigger] ops@[b]).id,
        decreases count - k,
    {
        proof {
            lemma_first_error_step(checks, k as int);
        }
        if repeats_earlier_id(ops, k) {
            assert(checks[k as int] == duplicate_check(ops@, k as int));
            return Err(FamilyPlanError::DuplicateOperationId { id: ops[k].id });
        }
        assert(checks[k as int] is Ok);
        k += 1;
    }
    proof {
        lemma_first_error_all_ok(checks);
    }
    Ok(())
}

/// The smallest id above `expected`, when the operations with ids below
/// `expected` exist and `expected` itself is missing.
fn next_id(ops: &Vec<FamilyOperationInput>, expected: u32) -> (actual: u32)
    requires
        ids_distinct(ops@),
        expected < ops@.len(),
        !has_id(ops@, expected as int),
        forall|i: int| 0 <= i < expected ==> #[trigger] has_id(ops@, i),
    ensures
        actual == next_id_above(ops@, expected as int),
{
    let count = ops.len();
    let mut best: Option<u32> = None;
    let mut j: usize = 0;
    while j < count
        invariant
            count == ops@.len(),
            j <= count,
            best is None ==> forall|i: int| 0 <= i < j ==> (#[trigger] ops@[i]).id <= expected,
            best matches Some(x) ==> x > expected && has_id(ops@, x as int) && forall|i: int|
                0 <= i < j && (#[trigger] ops@[i]).id > expected ==> x <= ops@[i].id,
        decreases count - j,
    {
        let id = ops[j].id;
        if id > expected {
            match best {
                Some(x) => {
                    if id < x {
                        best = Some(id);
                    }
                },
                None => {
                    best = Some(id);
                },
            }
        }
        j += 1;
    }
    proof {
        if best is None {
            assert forall|i: int| 0 <= i < ops@.len() implies (#[trigger] ops@[i]).id < expected by {
                if ops@[i].id == expected {
                    assert(has_id(ops@, expected as int));
                }
            }
            lemma_ids_below(ops@, expected as int);
        }
    }
    let actual = best.unwrap();
    proof {
        let chosen = next_id_above(ops@, expected as int);
        assert(has_id(ops@, actual as int) && actual > expected && forall|y: u32| #[trigger]
            has_id(ops@, y as int) && y > expected ==> actual <= y) by {
            assert forall|y: u32| #[trigger] has_id(ops@, y as int) && y > expected implies actual
                <= y by {
                let i = choose|i: int| 0 <= i < ops@.len() && (#[trigger] ops@[i]).id == y;
            }
        }
        assert(has_id(ops@, chosen as int) && chosen > expected);
        assert(actual <= chosen);
        assert(chosen <= actual);
    }
    actual
}

/// Checks the rules of one operation and records its stream use sites.
fn validate_operation(
    ops: &Vec<FamilyOperationInput>,
    op: &FamilyOperationInput,
    seen: &mut Vec<u32>,
    referenced: &mut Vec<StreamSlotIdentity>,
) -> (result: Result<(), FamilyPlanError>)
    requires
        ids_distinct(ops@),
        old(seen)@ == use_site_ids(streams_before(ops@, op.id as int)),
        old(referenced)@ == slots_of(streams_before(ops@, op.id as int)),
    ensures
        agrees(result, operation_check(ops@, *op)),
        result is Ok ==> final(seen)@ == use_site_ids(
            streams_before(ops@, op.id as int) + op.streams@,
        ),
        result is Ok ==> final(referenced)@ == slots_of(
            streams_before(ops@, op.id as int) + op.streams@,
        ),
{
    match validate_operation_shape(op) {
        Err(error) => {
            return Err(error);
        },
        Ok(()) => {},
    }
    match validate_declared_slot(op) {
        Err(error) => {
            return Err(error);
        },
        Ok(()) => {},
    }
    match validate_callbacks(op) {
        Err(error) => {
            return Err(error);
        },
        Ok(()) => {},
    }
    match validate_result_resources(op) {
        Err(error) => {
            return Err(error);
        },
        Ok(()) => {},
    }
    validate_streams(ops, op, seen, referenced)
}

/// Reports a stream use-site id that reaches the number of use sites.
fn check_stream_ids(seen: &Vec<u32>) -> (dense: bool)
    ensures
        dense == forall|x: int| 0 <= x < seen@.len() ==> (#[trigger] seen@[x]) < seen@.len(),
{
    let count = seen.len();
    let mut x: usize = 0;
    while x < count
        invariant
            count == seen@.len(),
            x <= count,
            forall|i: int| 0 <= i < x ==> (#[trigger] seen@[i]) < count,
        decreases count - x,
    {
        if seen[x] as usize >= count {
            return false;
        }
        x += 1;
    }
    true
}

/// Whether a slot is listed.
fn lists_slot(slots: &Vec<StreamSlotIdentity>, slot: StreamSlotIdentity) -> (found: bool)
    ensures
        found == slots@.contains(slot),
{
    let count = slots.len();
    let mut j: usize = 0;
    while j < count
        invariant
            count == slots@.len(),
            j <= count,
            forall|i: int| 0 <= i < j ==> slots@[i] != slot,
        decreases count - j,
    {
        if slots[j] == slot {
            assert(slots@[j as int] == slot);
            return true;
        }
        j += 1;
    }
    false
}

/// Position `i` of the id-ordered table: finds the operation with id `i`,
/// checks its rules and records its stream use sites.
fn check_position(
    ops: &Vec<FamilyOperationInput>,
    i: usize,
    seen: &mut Vec<u32>,
    referenced: &mut Vec<StreamSlotIdentity>,
) -> (result: Result<(), FamilyPlanError>)
    requires
        ids_distinct(ops@),
        i < ops@.len(),
        ops@.len() <= 0x1_0000_0000,
        forall|j: int| 0 <= j < i ==> #[trigger] has_id(ops@, j),
        old(seen)@ == use_site_ids(streams_before(ops@, i as int)),
        old(referenced)@ == slots_of(streams_before(ops@, i as int)),
    ensures
        agrees(result, operation_step(ops@, i as int)),
        result is Ok ==> has_id(ops@, i as int),
        result is Ok ==> final(seen)@ == use_site_ids(streams_before(ops@, i + 1)),
        result is Ok ==> final(referenced)@ == slots_of(streams_before(ops@, i + 1)),
{
    let id = i as u32;
    let position = match find_operation(ops, id) {
        Some(position) => position,
        None => {
            let actual = next_id(ops, id);
            return Err(FamilyPlanError::NonDenseOperationId { expected: id, actual });
        },
    };
    proof {
        lemma_op_with_id(ops@, position as int);
    }
    validate_operation(ops, &ops[position], seen, referenced)
}

/// Checks every position of the id-ordered table, in order, and returns
/// the use-site ids and listed slots of all stream use sites.
fn check_operations(ops: &Vec<FamilyOperationInput>) -> (result: Result<
    (Vec<u32>, Vec<StreamSlotIdentity>),
    FamilyPlanError,
>)
    requires
        ids_distinct(ops@),
        ops@.len() <= 0x1_0000_0000,
    ensures
        agrees(result, operations_check(ops@)),
        result matches Ok((seen, referenced)) ==> {
            &&& forall|j: int| 0 <= j < ops@.len() ==> #[trigger] has_id(ops@, j)
            &&& seen@ == use_site_ids(all_streams(ops@))
            &&& referenced@ == slots_of(all_streams(ops@))
        },
{
    let count = ops.len();
    let ghost checks = Seq::new(ops@.len(), |i: int| operation_step(ops@, i));
    let mut seen: Vec<u32> = Vec::new();
    let mut referenced: Vec<StreamSlotIdentity> = Vec::new();
    let mut i: usize = 0;
    while i < count
        invariant
            count == ops@.len(),
            count <= 0x1_0000_0000,
            ids_distinct(ops@),
            checks == Seq::new(ops@.len(), |i: int| operation_step(ops@, i)),
            i <= count,
            forall|j: int| 0 <= j < i ==> (#[trigger] checks[j]) is Ok,
            forall|j: int| 0 <= j < i ==> #[trigger] has_id(ops@, j),
            seen@ == use_site_ids(streams_before(ops@, i as int)),
            referenced@ == slots_of(streams_before(ops@, i as int)),
        decreases count - i,
    {
        proof {
            lemma_first_error_step(checks, i as int);
        }
        match check_position(ops, i, &mut seen, &mut referenced) {
            Err(error) => {
                return Err(error);
            },
            Ok(()) => {},
        }
        i += 1;
    }
    proof {
        lemma_first_error_all_ok(checks);
    }
    Ok((seen, referenced))
}

/// The recorded use-site ids stay below their count exactly when the
/// stream use-site rule passes.
proof fn lemma_stream_ids(ops: Seq<FamilyOperationInput>, seen: Seq<u32>)
    requires
        seen == use_site_ids(all_streams(ops)),
    ensures
        (forall|x: int| 0 <= x < seen.len() ==> (#[trigger] seen[x]) < seen.len()) <==> stream_ids_check(
            ops,
        ) is Ok,
{
    let streams = all_streams(ops);
    assert(seen.len() == streams.len());
    assert forall|x: int| 0 <= x < seen.len() implies seen[x] == (#[trigger] streams[x]).use_site_id by {}
    if exists|x: int| 0 <= x < streams.len() && (#[trigger] streams[x]).use_site_id >= streams.len() {
        let x = choose|x: int| 0 <= x < streams.len() && (#[trigger] streams[x]).use_site_id >= streams.len();
        assert(seen[x] >= seen.len());
    }
}

impl FamilyPlan {
    /// Validates an operation table and builds its plan.
    ///
    /// The rules of [`plan_check`] run in order and the first one that fails
    /// is reported.  On success, operation `i` of the plan is the input
    /// operation with id `i`, with its dispatch turned into a target, and the
    /// plan's stream use sites have the structure of `plan_stream_structure`.
    #[verifier::rlimit(60)]
    pub fn build(input: FamilyPlanInput) -> (result: Result<FamilyPlan, FamilyPlanError>)
        ensures
            agrees(result, plan_check(input)),
            result matches Ok(plan) ==> {
                &&& plan.spec_flavor() == input.flavor
                &&& plan.spec_close_policy() == input.close_policy
                &&& plan.spec_operations().len() == input.operations@.len()
                &&& forall|i: int|
                    0 <= i < input.operations@.len() ==> (#[trigger] plan.spec_operations()[i])
                        == planned_operation(op_with_id(input.operations@, i))
                &&& plan_stream_structure(plan.spec_operations())
                &&& forall|j: int|
                    0 <= j < input.operations@.len() ==> shape_holds(
                        #[trigger] input.operations@[j],
                    ) && use_sites_hold(input.operations@[j])
            },
    {
        match validate_close_policy(input.close_policy) {
            Err(error) => {
                return Err(error);
            },
            Ok(()) => {},
        }
        let FamilyPlanInput { flavor, close_policy, operations } = input;
        let ghost ops = operations@;
        match check_duplicate_ids(&operations) {
            Err(error) => {
                return Err(error);
            },
            Ok(()) => {},
        }
        proof {
            lemma_ids_below(ops, 0x1_0000_0000int);
        }
        let (seen, referenced) = match check_operations(&operations) {
            Err(error) => {
                return Err(error);
            },
            Ok(recorded) => recorded,
        };
        if !check_stream_ids(&seen) {
            proof {
                lemma_stream_ids(ops, seen@);
            }
            return Err(FamilyPlanError::NonDenseStreamUseSiteId);
        }
        proof {
            lemma_stream_ids(ops, seen@);
        }
        match find_orphan(&operations, &referenced) {
            Some(slot) => {
                return Err(
                    FamilyPlanError::OrphanStreamSlot {
                        use_site_id: slot.use_site_id,
                        operation_id: slot.operation_id,
                        kind: slot.kind,
                    },
                );
            },
            None => {},
        }
        assert(plan_check(input) is Ok);
        let (planned, marks) = plan_operations(operations);
        let plan = assemble(flavor, close_policy, planned, marks);
        proof {
            lemma_planned_stream_structure(input, plan.spec_operations());
            lemma_accepted_shapes(input);
            lemma_accepted_use_sites(input);
        }
        Ok(plan)
    }
}

/// The least declared slot that no stream use site lists, if any.
fn find_orphan(ops: &Vec<FamilyOperationInput>, referenced: &Vec<StreamSlotIdentity>) -> (orphan:
    Option<StreamSlotIdentity>)
    requires
        ids_distinct(ops@),
        ops@.len() <= 0x1_0000_0000,
        forall|i: int| 0 <= i < ops@.len() ==> #[trigger] has_id(ops@, i),
        referenced@ == slots_of(all_streams(ops@)),
    ensures
        orphan is None ==> orphan_check(ops@) is Ok,
        orphan matches Some(slot) ==> orphan_check(ops@) == Err::<(), PlanRejection>(
            PlanRejection::OrphanStreamSlot {
                use_site_id: slot.use_site_id,
                operation_id: slot.operation_id,
                kind: slot.kind,
            },
        ),
{
    let count = ops.len();
    let mut best: Option<(usize, StreamSlotIdentity)> = None;
    let mut i: usize = 0;
    while i < count
        invariant
            count == ops@.len(),
            count <= 0x1_0000_0000,
            ids_distinct(ops@),
            forall|i: int| 0 <= i < ops@.len() ==> #[trigger] has_id(ops@, i),
            referenced@ == slots_of(all_streams(ops@)),
            i <= count,
            best is None ==> forall|j: int| 0 <= j < i ==> !#[trigger] is_orphan(ops@, j),
            best matches Some((b, slot)) ==> {
                &&& b < i
                &&& is_orphan(ops@, b as int)
                &&& op_with_id(ops@, b as int).stream_slot == Some(slot)
                &&& forall|j: int|
                    0 <= j < i && #[trigger] is_orphan(ops@, j) ==> orphan_precedes(
                        ops@,
                        b as int,
                        j,
                    )
            },
        decreases count - i,
    {
        assert(has_id(ops@, i as int));
        let position = find_operation(ops, i as u32).unwrap();
        proof {
            lemma_op_with_id(ops@, position as int);
        }
        match ops[position].stream_slot {
            Some(slot) => {
                if !lists_slot(referenced, slot) {
                    assert(is_orphan(ops@, i as int));
                    match best {
                        Some((_, current)) => {
                            if slot.use_site_id < current.use_site_id {
                                best = Some((i, slot));
                            }
                        },
                        None => {
                            best = Some((i, slot));
                        },
                    }
                }
            },
            None => {},
        }
        i += 1;
    }
    match best {
        Some((b, slot)) => {
            proof {
                let chosen = first_orphan(ops@);
                assert(0 <= b < ops@.len() && is_orphan(ops@, b as int) && forall|j: int|
                    0 <= j < ops@.len() && #[trigger] is_orphan(ops@, j) ==> orphan_precedes(
                        ops@,
                        b as int,
                        j,
                    ));
                assert(orphan_precedes(ops@, chosen, b as int));
                assert(orphan_precedes(ops@, b as int, chosen));
                assert(chosen == b as int);
            }
            Some(slot)
        },
        None => None,
    }
}

/// Moves the operations into id order, turns each into a planned operation
/// and marks the entrypoints that it needs.
fn plan_operations(operations: Vec<FamilyOperationInput>) -> (planned: (
    Vec<FamilyOperation>,
    Vec<bool>,
))
    requires
        ids_distinct(operations@),
        forall|i: int| 0 <= i < operations@.len() ==> #[trigger] has_id(operations@, i),
    ensures
        planned.0@.len() == operations@.len(),
        forall|i: int|
            0 <= i < operations@.len() ==> (#[trigger] planned.0@[i]) == planned_operation(
                op_with_id(operations@, i),
            ),
        forall|i: int| 0 <= i < planned.0@.len() ==> (#[trigger] planned.0@[i]).id == i,
        planned.1@.len() == 12,
        forall|k: int|
            0 <= k < 12 ==> (#[trigger] planned.1@[k]) == (k == 0 || exists|j: int|
                0 <= j < planned.0@.len() && operation_requires(
                    #[trigger] planned.0@[j],
                    entry_at(k),
                )),
{
    let ghost ops = operations@;
    let count = operations.len();
    proof {
        lemma_ids_cover(ops);
    }
    let mut slots: Vec<Option<FamilyOperationInput>> = Vec::new();
    let mut k: usize = 0;
    while k < count
        invariant
            k <= count,
            slots@.len() == k,
        decreases count - k,
    {
        slots.push(None);
        k += 1;
    }
    let mut remaining = operations;
    while remaining.len() > 0
        invariant
            ids_distinct(ops),
            count == ops.len(),
            forall|j: int| 0 <= j < ops.len() ==> (#[trigger] ops[j]).id < ops.len(),
            remaining.len() <= count,
            remaining@ == ops.take(remaining.len() as int),
            slots@.len() == count,
            forall|j: int|
                remaining.len() <= j < count ==> slots@[(#[trigger] ops[j]).id as int] == Some(
                    ops[j],
                ),
        decreases remaining.len(),
    {
        let ghost last = remaining.len() - 1;
        let op = remaining.pop().unwrap();
        assert(op == ops[last]);
        let id = op.id as usize;
        slots.set(id, Some(op));
        proof {
            assert(remaining@ =~= ops.take(remaining.len() as int));
            assert forall|j: int| remaining.len() <= j < count implies slots@[(
            #[trigger] ops[j]).id as int] == Some(ops[j]) by {
                if j != last {
                    assert(ops[j].id != ops[last].id);
                }
            }
        }
    }
    proof {
        assert forall|i: int| 0 <= i < count implies slots@[i] == Some(op_with_id(ops, i))
            && (#[trigger] op_with_id(ops, i)).id == i by {
            assert(has_id(ops, i));
            let j = index_of_id(ops, i);
            lemma_op_with_id(ops, j);
        }
    }
    let mut marks: Vec<bool> = Vec::new();
    marks.push(true);
    let mut m: usize = 1;
    while m < 12
        invariant
            1 <= m <= 12,
            marks@.len() == m,
            marks@[0],
            forall|j: int| 1 <= j < m ==> !(#[trigger] marks@[j]),
        decreases 12 - m,
    {
        marks.push(false);
        m += 1;
    }
    let mut planned: Vec<FamilyOperation> = Vec::new();
    let mut i: usize = 0;
    while i < count
        invariant
            count == ops.len(),
            i <= count,
            slots@.len() == count,
            forall|j: int| i <= j < count ==> slots@[j] == Some(op_with_id(ops, j)),
            forall|j: int| 0 <= j < count ==> (#[trigger] op_with_id(ops, j)).id == j,
            planned@.len() == i,
            forall|j: int| 0 <= j < i ==> (#[trigger] planned@[j]).id == j,
            forall|j: int|
                0 <= j < i ==> (#[trigger] planned@[j]) == planned_operation(op_with_id(ops, j)),
            marks@.len() == 12,
            forall|k: int|
                0 <= k < 12 ==> (#[trigger] marks@[k]) == (k == 0 || exists|j: int|
                    0 <= j < planned@.len() && operation_requires(
                        #[trigger] planned@[j],
                        entry_at(k),
                    )),
        decreases count - i,
    {
        let mut taken: Option<FamilyOperationInput> = None;
        slots.set_and_swap(i, &mut taken);
        let op = taken.unwrap();
        let target = target_of(op.dispatch);
        let ghost before = marks@;
        let ghost previous = planned@;
        add_runtime_entrypoints(&op, target, &mut marks);
        assert(with_target(op, target) == planned_operation(op));
        let FamilyOperationInput {
            id,
            kind,
            async_kind,
            fallible,
            argument_count,
            dispatch: _,
            receiver,
            result_resources,
            callbacks,
            streams,
            stream_slot,
        } = op;
        planned.push(
            FamilyOperation {
                id,
                kind,
                async_kind,
                fallible,
                argument_count,
                receiver,
                result_resources,
                callbacks,
                streams,
                stream_slot,
                target,
            },
        );
        proof {
            assert(planned@[i as int] == planned_operation(op));
            assert forall|k: int| 0 <= k < 12 implies (#[trigger] marks@[k]) == (k == 0
                || exists|j: int|
                0 <= j < planned@.len() && operation_requires(
                    #[trigger] planned@[j],
                    entry_at(k),
                )) by {
                if exists|j: int|
                    0 <= j < previous.len() && operation_requires(
                        #[trigger] previous[j],
                        entry_at(k),
                    ) {
                    let j = choose|j: int|
                        0 <= j < previous.len() && operation_requires(
                            #[trigger] previous[j],
                            entry_at(k),
                        );
                    assert(planned@[j] == previous[j]);
                }
                if exists|j: int|
                    0 <= j < planned@.len() && operation_requires(
                        #[trigger] planned@[j],
                        entry_at(k),
                    ) {
                    let j = choose|j: int|
                        0 <= j < planned@.len() && operation_requires(
                            #[trigger] planned@[j],
                            entry_at(k),
                        );
                    if j < previous.len() {
                        assert(previous[j] == planned@[j]);
                    }
                }
            }
        }
        i += 1;
    }
    (planned, marks)
}

/// Puts a plan together from its id-ordered operations and their marks.
fn assemble(
    flavor: HostFlavor,
    close_policy: ClosePolicy,
    operations: Vec<FamilyOperation>,
    marks: Vec<bool>,
) -> (plan: FamilyPlan)
    requires
        forall|i: int| 0 <= i < operations@.len() ==> (#[trigger] operations@[i]).id == i,
        marks@.len() == 12,
        forall|k: int|
            0 <= k < 12 ==> (#[trigger] marks@[k]) == (k == 0 || exists|j: int|
                0 <= j < operations@.len() && operation_requires(
                    #[trigger] operations@[j],
                    entry_at(k),
                )),
    ensures
        plan.spec_flavor() == flavor,
        plan.spec_close_policy() == close_policy,
        plan.spec_operations() == operations@,
{
    let entries = marked_entrypoints(&marks);
    proof {
        assert forall|entry: RuntimeEntrypoint|
            entries@.contains(entry) <==> entry_required(operations@, entry) by {
            lemma_entry_index(entry);
            let k = entry_index(entry);
            assert(marks@[k] == (k == 0 || exists|j: int|
                0 <= j < operations@.len() && operation_requires(
                    #[trigger] operations@[j],
                    entry_at(k),
                )));
        }
    }
    FamilyPlan {
        flavor,
        hooks: flavor.hooks(),
        close_policy,
        operations,
        runtime_entrypoints: entries,
    }
}

} // verus!
