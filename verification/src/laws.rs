//! What every accepted plan input has, whatever its size.
//!
//! [`crate::plan::FamilyPlan::build`] accepts an input exactly when
//! [`plan_check`] passes; the laws below state what that acceptance means
//! for the table as a whole.
use vstd::prelude::*;

use crate::family::{
    FamilyOperation, FamilyOperationInput, FamilyPlanInput, OperationKind, StreamDirection,
    StreamSlotIdentity, StreamUseSite, planned_operation,
};
use crate::rules::{
    all_streams, callbacks_check, declared_slot_check, duplicate_check, has_id, ids_distinct,
    direction_kinds, is_orphan, kind_occurs_once, lemma_all_pass, lemma_ids_cover, lemma_op_with_id, op_with_id, operation_check,
    operation_step, orphan_check, plan_check, repeats_text, result_check, result_text,
    results_check, shape_check, slot_check, slot_referenced, slots_check, slots_fit_direction, slots_of, stream_check,
    streams_before, streams_check, use_site_ids, use_site_seen,
};

verus! {

/// The ids of an accepted table are distinct and exactly `0..n`.
pub proof fn lemma_accepted_ids(input: FamilyPlanInput)
    requires
        plan_check(input) is Ok,
    ensures
        ids_distinct(input.operations@),
        forall|j: int|
            0 <= j < input.operations@.len() ==> (#[trigger] input.operations@[j]).id
                < input.operations@.len(),
        forall|i: int| 0 <= i < input.operations@.len() ==> #[trigger] has_id(input.operations@, i),
{
    let ops = input.operations@;
    let duplicates = Seq::new(ops.len(), |k: int| duplicate_check(ops, k));
    lemma_all_pass(duplicates);
    assert forall|j: int, k: int|
        0 <= j < ops.len() && 0 <= k < ops.len() && j != k implies (#[trigger] ops[j]).id
        != (#[trigger] ops[k]).id by {
        if j < k {
            assert(duplicates[k] is Ok);
        } else {
            assert(duplicates[j] is Ok);
        }
    }
    let steps = Seq::new(ops.len(), |i: int| operation_step(ops, i));
    lemma_all_pass(steps);
    assert forall|i: int| 0 <= i < ops.len() implies #[trigger] has_id(ops, i) by {
        assert(steps[i] is Ok);
    }
    lemma_ids_cover(ops);
}

/// An accepted table has distinct ids that are exactly `0..n`, and the
/// operation of every id passes each of its rules: its shape (receivers,
/// dispatch, async host operations), its declared slot, its callback use
/// sites, its result resources and its stream use sites.
pub proof fn lemma_accepted_table(input: FamilyPlanInput)
    requires
        plan_check(input) is Ok,
    ensures
        ids_distinct(input.operations@),
        forall|j: int|
            0 <= j < input.operations@.len() ==> (#[trigger] input.operations@[j]).id
                < input.operations@.len(),
        forall|i: int| 0 <= i < input.operations@.len() ==> #[trigger] has_id(input.operations@, i),
        forall|i: int|
            0 <= i < input.operations@.len() ==> {
                let op = #[trigger] op_with_id(input.operations@, i);
                &&& op.id == i
                &&& operation_check(input.operations@, op) is Ok
                &&& shape_check(op) is Ok
                &&& declared_slot_check(op) is Ok
                &&& callbacks_check(op) is Ok
                &&& results_check(op) is Ok
                &&& streams_check(input.operations@, op) is Ok
            },
{
    let ops = input.operations@;
    lemma_accepted_ids(input);
    let steps = Seq::new(ops.len(), |i: int| operation_step(ops, i));
    lemma_all_pass(steps);
    assert forall|i: int| 0 <= i < ops.len() implies {
        let op = #[trigger] op_with_id(ops, i);
        &&& op.id == i
        &&& operation_check(ops, op) is Ok
        &&& shape_check(op) is Ok
        &&& declared_slot_check(op) is Ok
        &&& callbacks_check(op) is Ok
        &&& results_check(op) is Ok
        &&& streams_check(ops, op) is Ok
    } by {
        assert(steps[i] is Ok);
        assert(has_id(ops, i));
    }
}

/// The result resources of an operation of an accepted table have pairwise
/// distinct path texts.
pub proof fn lemma_accepted_result_paths_distinct(input: FamilyPlanInput, i: int)
    requires
        plan_check(input) is Ok,
        0 <= i < input.operations@.len(),
    ensures
        forall|j: int, k: int|
            0 <= j < k < op_with_id(input.operations@, i).result_resources@.len() ==> result_text(
                op_with_id(input.operations@, i),
                j,
            ) != result_text(op_with_id(input.operations@, i), k),
{
    lemma_accepted_table(input);
    let op = op_with_id(input.operations@, i);
    let checks = Seq::new(op.result_resources@.len(), |k: int| result_check(op, k));
    assert(results_check(op) is Ok);
    lemma_all_pass(checks);
    assert forall|j: int, k: int|
        0 <= j < k < op.result_resources@.len() implies result_text(op, j) != result_text(op, k) by {
        assert(checks[k] is Ok);
        if result_text(op, j) == result_text(op, k) {
            assert(repeats_text(op, k, j));
        }
    }
}

/// Every stream use site of every operation of an accepted table passes
/// its rule.
proof fn lemma_accepted_streams(input: FamilyPlanInput)
    requires
        plan_check(input) is Ok,
    ensures
        forall|i: int, t: int|
            0 <= i < input.operations@.len() && 0 <= t < op_with_id(
                input.operations@,
                i,
            ).streams@.len() ==> (#[trigger] stream_check(
                input.operations@,
                op_with_id(input.operations@, i),
                t,
            )) is Ok,
{
    lemma_accepted_table(input);
    let ops = input.operations@;
    assert forall|i: int, t: int|
        0 <= i < ops.len() && 0 <= t < op_with_id(ops, i).streams@.len() implies (
        #[trigger] stream_check(ops, op_with_id(ops, i), t)) is Ok by {
        let op = op_with_id(ops, i);
        assert(streams_check(ops, op) is Ok);
        let checks = Seq::new(op.streams@.len(), |t: int| stream_check(ops, op, t));
        lemma_all_pass(checks);
        assert(checks[t] is Ok);
    }
}

/// Appending use sites whose ids are each fresh keeps the ids distinct.
proof fn lemma_append_fresh(before: Seq<StreamUseSite>, extra: Seq<StreamUseSite>, t: int)
    requires
        use_site_ids(before).no_duplicates(),
        0 <= t <= extra.len(),
        forall|u: int|
            0 <= u < extra.len() ==> !use_site_ids(before + extra.take(u)).contains(
                (#[trigger] extra[u]).use_site_id,
            ),
    ensures
        use_site_ids(before + extra.take(t)).no_duplicates(),
    decreases t,
{
    if t == 0 {
        assert(before + extra.take(0) =~= before);
    } else {
        lemma_append_fresh(before, extra, t - 1);
        let previous = use_site_ids(before + extra.take(t - 1));
        let fresh = extra[t - 1].use_site_id;
        assert(!previous.contains(fresh));
        assert(use_site_ids(before + extra.take(t)) =~= previous.push(fresh)) by {
            assert(before + extra.take(t) =~= (before + extra.take(t - 1)).push(extra[t - 1]));
        }
        let ids = previous.push(fresh);
        assert forall|a: int, b: int| 0 <= a < ids.len() && 0 <= b < ids.len() && a != b implies ids[a]
            != ids[b] by {
            if a == ids.len() - 1 {
                assert(previous[b] == ids[b]);
            } else if b == ids.len() - 1 {
                assert(previous[a] == ids[a]);
            }
        }
    }
}

/// The use-site ids of the operations below `k` of an accepted table are
/// distinct.
proof fn lemma_prefix_ids_distinct(input: FamilyPlanInput, k: int)
    requires
        plan_check(input) is Ok,
        0 <= k <= input.operations@.len(),
    ensures
        use_site_ids(streams_before(input.operations@, k)).no_duplicates(),
    decreases k,
{
    let ops = input.operations@;
    if k == 0 {
        assert(use_site_ids(streams_before(ops, 0)) =~= Seq::<u32>::empty());
    } else {
        lemma_prefix_ids_distinct(input, k - 1);
        lemma_accepted_table(input);
        lemma_accepted_streams(input);
        let op = op_with_id(ops, k - 1);
        assert(op.id == k - 1);
        let before = streams_before(ops, k - 1);
        assert forall|u: int| 0 <= u < op.streams@.len() implies !use_site_ids(
            before + op.streams@.take(u),
        ).contains((#[trigger] op.streams@[u]).use_site_id) by {
            assert(stream_check(ops, op, u) is Ok);
            assert(!use_site_seen(ops, op, u));
        }
        lemma_append_fresh(before, op.streams@, op.streams@.len() as int);
        assert(op.streams@.take(op.streams@.len() as int) =~= op.streams@);
    }
}

/// Distinct ids that all lie below their count are exactly `0..count`.
proof fn lemma_distinct_below_covers(ids: Seq<u32>)
    requires
        ids.no_duplicates(),
        forall|x: int| 0 <= x < ids.len() ==> (#[trigger] ids[x]) < ids.len(),
    ensures
        forall|v: int| 0 <= v < ids.len() ==> #[trigger] ids.contains(v as u32),
{
    let values = ids.map_values(|id: u32| id as int);
    assert(values.no_duplicates()) by {
        assert forall|a: int, b: int|
            0 <= a < values.len() && 0 <= b < values.len() && a != b implies values[a]
            != values[b] by {
            assert(ids[a] != ids[b]);
        }
    }
    values.unique_seq_to_set();
    let found = values.to_set();
    let range = vstd::set_lib::set_int_range(0, ids.len() as int);
    vstd::set_lib::lemma_int_range(0, ids.len() as int);
    assert(found.subset_of(range)) by {
        assert forall|v: int| found.contains(v) implies range.contains(v) by {
            let x = choose|x: int| 0 <= x < values.len() && values[x] == v;
            assert(ids[x] < ids.len());
        }
    }
    vstd::seq_lib::seq_to_set_is_finite(values);
    vstd::set_lib::lemma_subset_equality(found, range);
    assert forall|v: int| 0 <= v < ids.len() implies #[trigger] ids.contains(v as u32) by {
        assert(range.contains(v));
        assert(found.contains(v));
        let x = choose|x: int| 0 <= x < values.len() && values[x] == v;
        assert(ids[x] == v as u32);
    }
}

/// The stream use-site ids of an accepted table, in id order.
pub open spec fn table_use_site_ids(input: FamilyPlanInput) -> Seq<u32> {
    use_site_ids(all_streams(input.operations@))
}

/// The `m` stream use sites of an accepted table carry the ids `0..m`, each
/// once.
pub proof fn lemma_accepted_use_site_ids_dense(input: FamilyPlanInput)
    requires
        plan_check(input) is Ok,
    ensures
        table_use_site_ids(input).no_duplicates(),
        forall|x: int|
            0 <= x < table_use_site_ids(input).len() ==> (#[trigger] table_use_site_ids(input)[x])
                < table_use_site_ids(input).len(),
        forall|v: int|
            0 <= v < table_use_site_ids(input).len() ==> #[trigger] table_use_site_ids(
                input,
            ).contains(v as u32),
{
    let ops = input.operations@;
    lemma_prefix_ids_distinct(input, ops.len() as int);
    let streams = all_streams(ops);
    let ids = table_use_site_ids(input);
    assert forall|x: int| 0 <= x < ids.len() implies (#[trigger] ids[x]) < ids.len() by {
        assert(ids[x] == streams[x].use_site_id);
    }
    lemma_distinct_below_covers(ids);
}

/// A listed slot names an existing operation of its kind whose declared
/// slot it is.
pub open spec fn slot_sound(ops: Seq<FamilyOperationInput>, slot: StreamSlotIdentity) -> bool {
    &&& has_id(ops, slot.operation_id as int)
    &&& op_with_id(ops, slot.operation_id as int).kind == slot.kind
    &&& op_with_id(ops, slot.operation_id as int).stream_slot == Some(slot)
}

/// Every slot of every stream use site of the operations below `k` is
/// sound.
proof fn lemma_prefix_slots_sound(input: FamilyPlanInput, k: int)
    requires
        plan_check(input) is Ok,
        0 <= k <= input.operations@.len(),
    ensures
        forall|q: int, r: int|
            0 <= q < streams_before(input.operations@, k).len() && 0 <= r < streams_before(
                input.operations@,
                k,
            )[q].slots@.len() ==> slot_sound(
                input.operations@,
                #[trigger] streams_before(input.operations@, k)[q].slots@[r],
            ),
    decreases k,
{
    let ops = input.operations@;
    if k > 0 {
        lemma_prefix_slots_sound(input, k - 1);
        lemma_accepted_table(input);
        lemma_accepted_streams(input);
        let op = op_with_id(ops, k - 1);
        let before = streams_before(ops, k - 1);
        let streams = streams_before(ops, k);
        assert(streams == before + op.streams@);
        assert forall|q: int, r: int|
            0 <= q < streams.len() && 0 <= r < streams[q].slots@.len() implies slot_sound(
            ops,
            #[trigger] streams[q].slots@[r],
        ) by {
            if q < before.len() {
                assert(streams[q] == before[q]);
            } else {
                let t = q - before.len();
                let stream = op.streams@[t];
                assert(streams[q] == stream);
                assert(stream_check(ops, op, t) is Ok);
                assert(slots_check(ops, op, stream) is Ok);
                let checks = Seq::new(stream.slots@.len(), |s: int| slot_check(ops, op, stream, s));
                lemma_all_pass(checks);
                assert(checks[r] is Ok);
            }
        }
    }
}

/// Every slot that a list of sound stream use sites lists is sound.
proof fn lemma_slots_of_sound(ops: Seq<FamilyOperationInput>, streams: Seq<StreamUseSite>)
    requires
        forall|q: int, r: int|
            0 <= q < streams.len() && 0 <= r < streams[q].slots@.len() ==> slot_sound(
                ops,
                #[trigger] streams[q].slots@[r],
            ),
    ensures
        forall|x: int| 0 <= x < slots_of(streams).len() ==> slot_sound(ops, #[trigger] slots_of(streams)[x]),
    decreases streams.len(),
{
    if streams.len() > 0 {
        let rest = streams.drop_last();
        assert forall|q: int, r: int|
            0 <= q < rest.len() && 0 <= r < rest[q].slots@.len() implies slot_sound(
            ops,
            #[trigger] rest[q].slots@[r],
        ) by {
            assert(rest[q] == streams[q]);
        }
        lemma_slots_of_sound(ops, rest);
        let last = streams.last();
        assert(last == streams[streams.len() - 1]);
        let listed = slots_of(streams);
        assert forall|x: int| 0 <= x < listed.len() implies slot_sound(ops, #[trigger] listed[x]) by {
            if x >= slots_of(rest).len() {
                let r = x - slots_of(rest).len();
                assert(listed[x] == streams[streams.len() - 1].slots@[r]);
            } else {
                assert(listed[x] == slots_of(rest)[x]);
            }
        }
    }
}

/// In an accepted table, declared slots and listed slots agree both ways:
/// every slot that an operation declares is listed by some stream use site,
/// and every slot that a stream use site lists is the declared slot of an
/// existing operation of that kind.
pub proof fn lemma_accepted_slots_agree(input: FamilyPlanInput)
    requires
        plan_check(input) is Ok,
    ensures
        forall|i: int|
            0 <= i < input.operations@.len() && (#[trigger] op_with_id(
                input.operations@,
                i,
            )).stream_slot is Some ==> slot_referenced(
                input.operations@,
                op_with_id(input.operations@, i).stream_slot->Some_0,
            ),
        forall|slot: StreamSlotIdentity|
            #[trigger] slot_referenced(input.operations@, slot) ==> slot_sound(
                input.operations@,
                slot,
            ),
{
    let ops = input.operations@;
    assert(orphan_check(ops) is Ok);
    assert forall|i: int|
        0 <= i < ops.len() && (#[trigger] op_with_id(ops, i)).stream_slot is Some implies slot_referenced(
        ops,
        op_with_id(ops, i).stream_slot->Some_0,
    ) by {
        if !slot_referenced(ops, op_with_id(ops, i).stream_slot->Some_0) {
            assert(is_orphan(ops, i));
        }
    }
    lemma_prefix_slots_sound(input, ops.len() as int);
    lemma_slots_of_sound(ops, all_streams(ops));
    assert forall|slot: StreamSlotIdentity| #[trigger] slot_referenced(ops, slot) implies slot_sound(
        ops,
        slot,
    ) by {
        let listed = slots_of(all_streams(ops));
        let x = choose|x: int| 0 <= x < listed.len() && listed[x] == slot;
        assert(slot_sound(ops, listed[x]));
    }
}

/// The slot kinds of a stream use site, spelled out: an input stream has
/// two slots, one pull and one cancel; an output stream has three, one
/// start, one next and one cancel.
pub open spec fn slot_kinds_fit(stream: StreamUseSite) -> bool {
    let slots = stream.slots@;
    if stream.direction == StreamDirection::Input {
        &&& slots.len() == 2
        &&& exists|a: int| 0 <= a < 2 && (#[trigger] slots[a]).kind == OperationKind::InputStreamPull
        &&& exists|a: int| 0 <= a < 2 && (#[trigger] slots[a]).kind == OperationKind::InputStreamCancel
        &&& forall|r: int|
            0 <= r < 2 ==> (#[trigger] slots[r]).kind == OperationKind::InputStreamPull
                || slots[r].kind == OperationKind::InputStreamCancel
    } else {
        &&& slots.len() == 3
        &&& exists|a: int| 0 <= a < 3 && (#[trigger] slots[a]).kind == OperationKind::OutputStreamStart
        &&& exists|a: int| 0 <= a < 3 && (#[trigger] slots[a]).kind == OperationKind::OutputStreamNext
        &&& exists|a: int| 0 <= a < 3 && (#[trigger] slots[a]).kind == OperationKind::OutputStreamCancel
        &&& forall|r: int|
            0 <= r < 3 ==> (#[trigger] slots[r]).kind == OperationKind::OutputStreamStart
                || slots[r].kind == OperationKind::OutputStreamNext || slots[r].kind
                == OperationKind::OutputStreamCancel
    }
}

/// A kind that occurs once stands at some position.
proof fn lemma_kind_at(slots: Seq<StreamSlotIdentity>, kind: OperationKind) -> (a: int)
    requires
        kind_occurs_once(slots, kind),
    ensures
        0 <= a < slots.len(),
        slots[a].kind == kind,
{
    choose|a: int|
        0 <= a < slots.len() && (#[trigger] slots[a]).kind == kind && forall|b: int|
            0 <= b < slots.len() && b != a ==> (#[trigger] slots[b]).kind != kind
}

/// Slots that fit their direction have the kinds spelled out above.
proof fn lemma_slot_kinds_fit(stream: StreamUseSite)
    requires
        slots_fit_direction(stream),
    ensures
        slot_kinds_fit(stream),
{
    let slots = stream.slots@;
    let kinds = direction_kinds(stream.direction);
    if stream.direction == StreamDirection::Input {
        assert(kinds =~= seq![OperationKind::InputStreamPull, OperationKind::InputStreamCancel]);
        assert(kind_occurs_once(slots, kinds[0]));
        assert(kind_occurs_once(slots, kinds[1]));
        let a = lemma_kind_at(slots, OperationKind::InputStreamPull);
        let c = lemma_kind_at(slots, OperationKind::InputStreamCancel);
        assert(slots.len() == 2);
        assert forall|r: int| 0 <= r < 2 implies (#[trigger] slots[r]).kind
            == OperationKind::InputStreamPull || slots[r].kind == OperationKind::InputStreamCancel by {
            assert(a != c);
            assert(r == a || r == c);
        }
    } else {
        assert(kinds =~= seq![
            OperationKind::OutputStreamStart,
            OperationKind::OutputStreamNext,
            OperationKind::OutputStreamCancel,
        ]);
        assert(kind_occurs_once(slots, kinds[0]));
        assert(kind_occurs_once(slots, kinds[1]));
        assert(kind_occurs_once(slots, kinds[2]));
        let a = lemma_kind_at(slots, OperationKind::OutputStreamStart);
        let c = lemma_kind_at(slots, OperationKind::OutputStreamNext);
        let d = lemma_kind_at(slots, OperationKind::OutputStreamCancel);
        assert(slots.len() == 3);
        assert forall|r: int| 0 <= r < 3 implies (#[trigger] slots[r]).kind
            == OperationKind::OutputStreamStart || slots[r].kind == OperationKind::OutputStreamNext
            || slots[r].kind == OperationKind::OutputStreamCancel by {
            assert(a != c && a != d && c != d);
            assert(r == a || r == c || r == d);
        }
    }
}

/// What each stream use site of an accepted table has: one slot of each
/// kind that its direction needs and no other; every slot names this use
/// site and is sound; and the start slot of an output stream is its own
/// operation.
pub open spec fn stream_sound(ops: Seq<FamilyOperationInput>, stream: StreamUseSite) -> bool {
    &&& slot_kinds_fit(stream)
    &&& forall|r: int|
        0 <= r < stream.slots@.len() ==> {
            let slot = #[trigger] stream.slots@[r];
            &&& slot.use_site_id == stream.use_site_id
            &&& slot_sound(ops, slot)
            &&& (stream.direction == StreamDirection::Output && slot.kind
                == OperationKind::OutputStreamStart ==> slot.operation_id == stream.operation_id)
        }
}

/// Every stream use site of the operations below `k` is sound.
proof fn lemma_prefix_streams_sound(input: FamilyPlanInput, k: int)
    requires
        plan_check(input) is Ok,
        0 <= k <= input.operations@.len(),
    ensures
        forall|q: int|
            0 <= q < streams_before(input.operations@, k).len() ==> stream_sound(
                input.operations@,
                #[trigger] streams_before(input.operations@, k)[q],
            ),
    decreases k,
{
    let ops = input.operations@;
    if k > 0 {
        lemma_prefix_streams_sound(input, k - 1);
        lemma_accepted_streams(input);
        let op = op_with_id(ops, k - 1);
        let before = streams_before(ops, k - 1);
        let streams = streams_before(ops, k);
        assert(streams == before + op.streams@);
        assert forall|q: int| 0 <= q < streams.len() implies stream_sound(
            ops,
            #[trigger] streams[q],
        ) by {
            if q < before.len() {
                assert(streams[q] == before[q]);
            } else {
                let t = q - before.len();
                let stream = op.streams@[t];
                assert(streams[q] == stream);
                assert(stream_check(ops, op, t) is Ok);
                assert(slots_check(ops, op, stream) is Ok);
                let checks = Seq::new(stream.slots@.len(), |s: int| slot_check(ops, op, stream, s));
                lemma_all_pass(checks);
                lemma_slot_kinds_fit(stream);
                assert forall|r: int| 0 <= r < stream.slots@.len() implies {
                    let slot = #[trigger] stream.slots@[r];
                    &&& slot.use_site_id == stream.use_site_id
                    &&& slot_sound(ops, slot)
                    &&& (stream.direction == StreamDirection::Output && slot.kind
                        == OperationKind::OutputStreamStart ==> slot.operation_id
                        == stream.operation_id)
                } by {
                    assert(checks[r] is Ok);
                }
            }
        }
    }
}

/// The stream structure of an accepted table.  Its `m` stream use sites
/// carry the ids `0..m`, each once.  Each use site has one slot of each
/// kind that its direction needs (pull and cancel for an input stream;
/// start, next and cancel for an output stream) and no other; every slot
/// names its use site and an existing operation of its kind whose declared
/// slot it is; the start slot of an output stream is the use site's own
/// operation.  And every slot that an operation declares is listed by some
/// use site.
pub proof fn lemma_accepted_stream_structure(input: FamilyPlanInput)
    requires
        plan_check(input) is Ok,
    ensures
        table_use_site_ids(input).no_duplicates(),
        forall|v: int|
            0 <= v < all_streams(input.operations@).len() ==> #[trigger] table_use_site_ids(
                input,
            ).contains(v as u32),
        forall|x: int|
            0 <= x < all_streams(input.operations@).len() ==> (#[trigger] all_streams(
                input.operations@,
            )[x]).use_site_id < all_streams(input.operations@).len(),
        forall|q: int|
            0 <= q < all_streams(input.operations@).len() ==> stream_sound(
                input.operations@,
                #[trigger] all_streams(input.operations@)[q],
            ),
        forall|i: int|
            0 <= i < input.operations@.len() && (#[trigger] op_with_id(
                input.operations@,
                i,
            )).stream_slot is Some ==> slot_referenced(
                input.operations@,
                op_with_id(input.operations@, i).stream_slot->Some_0,
            ),
{
    let ops = input.operations@;
    lemma_accepted_use_site_ids_dense(input);
    lemma_accepted_slots_agree(input);
    lemma_prefix_streams_sound(input, ops.len() as int);
    let streams = all_streams(ops);
    let ids = table_use_site_ids(input);
    assert(ids.len() == streams.len());
    assert forall|x: int| 0 <= x < streams.len() implies (#[trigger] streams[x]).use_site_id
        < streams.len() by {
        assert(ids[x] == streams[x].use_site_id);
    }
}

/// The stream use sites of a plan's operations, in operation order.
pub open spec fn plan_streams(ops: Seq<FamilyOperation>) -> Seq<StreamUseSite>
    decreases ops.len(),
{
    if ops.len() == 0 {
        Seq::empty()
    } else {
        plan_streams(ops.drop_last()) + ops.last().streams@
    }
}

/// A slot names an operation of the plan, of the slot's kind, whose
/// declared slot it is.
pub open spec fn planned_slot_sound(ops: Seq<FamilyOperation>, slot: StreamSlotIdentity) -> bool {
    &&& slot.operation_id < ops.len()
    &&& ops[slot.operation_id as int].kind == slot.kind
    &&& ops[slot.operation_id as int].stream_slot == Some(slot)
}

/// A stream use site of a plan has one slot of each kind that its
/// direction needs and no other; every slot names this use site and is
/// sound; the start slot of an output stream is its own operation.
pub open spec fn planned_stream_sound(ops: Seq<FamilyOperation>, stream: StreamUseSite) -> bool {
    &&& slot_kinds_fit(stream)
    &&& forall|r: int|
        0 <= r < stream.slots@.len() ==> {
            let slot = #[trigger] stream.slots@[r];
            &&& slot.use_site_id == stream.use_site_id
            &&& planned_slot_sound(ops, slot)
            &&& (stream.direction == StreamDirection::Output && slot.kind
                == OperationKind::OutputStreamStart ==> slot.operation_id == stream.operation_id)
        }
}

/// The stream structure of a plan's operations: its `m` stream use sites
/// carry the ids `0..m`, each once; each is sound; and every slot that an
/// operation declares is listed by some use site.
pub open spec fn plan_stream_structure(ops: Seq<FamilyOperation>) -> bool {
    let streams = plan_streams(ops);
    &&& use_site_ids(streams).no_duplicates()
    &&& forall|x: int|
        0 <= x < streams.len() ==> (#[trigger] streams[x]).use_site_id < streams.len()
    &&& forall|v: int| 0 <= v < streams.len() ==> #[trigger] use_site_ids(streams).contains(v as u32)
    &&& forall|q: int| 0 <= q < streams.len() ==> planned_stream_sound(ops, #[trigger] streams[q])
    &&& forall|i: int|
        0 <= i < ops.len() && (#[trigger] ops[i]).stream_slot is Some ==> slots_of(streams).contains(
            ops[i].stream_slot->Some_0,
        )
}

/// The operations planned from an accepted table, taken in id order, list
/// the same stream use sites as the table.
proof fn lemma_plan_streams_prefix(input: FamilyPlanInput, ops: Seq<FamilyOperation>, k: int)
    requires
        ops.len() == input.operations@.len(),
        forall|i: int|
            0 <= i < input.operations@.len() ==> (#[trigger] ops[i]) == planned_operation(
                op_with_id(input.operations@, i),
            ),
        0 <= k <= ops.len(),
    ensures
        plan_streams(ops.take(k)) == streams_before(input.operations@, k),
    decreases k,
{
    if k > 0 {
        lemma_plan_streams_prefix(input, ops, k - 1);
        assert(ops.take(k).drop_last() =~= ops.take(k - 1));
        assert(ops.take(k).last() == ops[k - 1]);
    }
}

/// The stream structure law, stated over the operations of the plan that
/// an accepted table builds: operation `i` is the table's operation with id
/// `i`.
pub proof fn lemma_planned_stream_structure(input: FamilyPlanInput, ops: Seq<FamilyOperation>)
    requires
        plan_check(input) is Ok,
        ops.len() == input.operations@.len(),
        forall|i: int|
            0 <= i < input.operations@.len() ==> (#[trigger] ops[i]) == planned_operation(
                op_with_id(input.operations@, i),
            ),
    ensures
        plan_stream_structure(ops),
{
    let table = input.operations@;
    lemma_plan_streams_prefix(input, ops, ops.len() as int);
    assert(ops.take(ops.len() as int) =~= ops);
    let streams = plan_streams(ops);
    assert(streams == all_streams(table));
    lemma_accepted_stream_structure(input);
    lemma_accepted_ids(input);
    assert forall|q: int| 0 <= q < streams.len() implies planned_stream_sound(
        ops,
        #[trigger] streams[q],
    ) by {
        let stream = streams[q];
        assert(stream_sound(table, stream));
        assert forall|r: int| 0 <= r < stream.slots@.len() implies {
            let slot = #[trigger] stream.slots@[r];
            &&& slot.use_site_id == stream.use_site_id
            &&& planned_slot_sound(ops, slot)
            &&& (stream.direction == StreamDirection::Output && slot.kind
                == OperationKind::OutputStreamStart ==> slot.operation_id == stream.operation_id)
        } by {
            let slot = stream.slots@[r];
            assert(slot_sound(table, slot));
            let j = choose|j: int| 0 <= j < table.len() && (#[trigger] table[j]).id
                == slot.operation_id as int;
            assert(table[j].id < table.len());
            assert(ops[slot.operation_id as int] == planned_operation(
                op_with_id(table, slot.operation_id as int),
            ));
        }
    }
    assert forall|i: int|
        0 <= i < ops.len() && (#[trigger] ops[i]).stream_slot is Some implies slots_of(
        streams,
    ).contains(ops[i].stream_slot->Some_0) by {
        assert(ops[i] == planned_operation(op_with_id(table, i)));
        assert(op_with_id(table, i).stream_slot is Some);
        assert(slot_referenced(table, op_with_id(table, i).stream_slot->Some_0));
    }
}

/// Two accepted tables that hold the same operations, in whatever order,
/// have the same operation for every id; so they build the same planned
/// operations.
pub proof fn lemma_accepted_order_irrelevant(first: FamilyPlanInput, second: FamilyPlanInput)
    requires
        plan_check(first) is Ok,
        plan_check(second) is Ok,
        forall|op: FamilyOperationInput|
            first.operations@.contains(op) <==> second.operations@.contains(op),
    ensures
        first.operations@.len() == second.operations@.len(),
        forall|i: int|
            0 <= i < first.operations@.len() ==> #[trigger] op_with_id(first.operations@, i)
                == op_with_id(second.operations@, i),
{
    let a = first.operations@;
    let b = second.operations@;
    lemma_accepted_ids(first);
    lemma_accepted_ids(second);
    assert forall|i: int| 0 <= i < a.len() implies #[trigger] op_with_id(a, i) == op_with_id(b, i)
        && has_id(b, i) by {
        assert(has_id(a, i));
        let p = choose|p: int| 0 <= p < a.len() && (#[trigger] a[p]).id == i;
        lemma_op_with_id(a, p);
        assert(a.contains(a[p]));
        let q = choose|q: int| 0 <= q < b.len() && b[q] == a[p];
        lemma_op_with_id(b, q);
    }
    assert forall|i: int| 0 <= i < b.len() implies #[trigger] has_id(a, i) by {
        assert(has_id(b, i));
        let q = choose|q: int| 0 <= q < b.len() && (#[trigger] b[q]).id == i;
        assert(b.contains(b[q]));
        let p = choose|p: int| 0 <= p < a.len() && a[p] == b[q];
        assert(a[p].id == i);
    }
    if a.len() < b.len() {
        let i = a.len() as int;
        assert(has_id(a, i));
        let p = choose|p: int| 0 <= p < a.len() && (#[trigger] a[p]).id == i;
    }
    if b.len() < a.len() {
        let i = b.len() as int;
        assert(has_id(b, i));
        let q = choose|q: int| 0 <= q < b.len() && (#[trigger] b[q]).id == i;
    }
}

} // verus!
