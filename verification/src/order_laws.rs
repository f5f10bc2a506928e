//! The planner reads a table by ids, not by positions.
use vstd::prelude::*;

use crate::family::{FamilyOperationInput, FamilyPlanInput};
use crate::rules::{
    all_streams, duplicate_check, duplicates_check, first_error, first_orphan, has_id,
    ids_distinct, index_of_id, is_orphan, lemma_first_error_all_ok, lemma_ids_below,
    lemma_op_with_id, next_id_above, op_with_id, operation_check, operation_step,
    operations_check, orphan_check, orphan_precedes, plan_check, slot_check, slots_check,
    stream_check, stream_ids_check, streams_before, streams_check, use_site_seen,
};

verus! {

/// Whether two tables hold the same operations, in whatever order.
pub open spec fn same_operations(a: Seq<FamilyOperationInput>, b: Seq<FamilyOperationInput>) -> bool {
    forall|op: FamilyOperationInput| a.contains(op) <==> b.contains(op)
}

/// Whether two tables have the same ids and the same operation for each.
pub open spec fn same_by_id(a: Seq<FamilyOperationInput>, b: Seq<FamilyOperationInput>) -> bool {
    &&& forall|x: int| #[trigger] has_id(a, x) == has_id(b, x)
    &&& forall|x: int| #[trigger] has_id(a, x) ==> op_with_id(a, x) == op_with_id(b, x)
}

/// Tables with distinct ids that hold the same operations have the same
/// length, the same ids, and the same operation for each id.
proof fn lemma_same_by_id(a: Seq<FamilyOperationInput>, b: Seq<FamilyOperationInput>)
    requires
        ids_distinct(a),
        ids_distinct(b),
        same_operations(a, b),
    ensures
        same_by_id(a, b),
        a.len() == b.len(),
{
    assert forall|x: int| #[trigger] has_id(a, x) == has_id(b, x) by {
        if has_id(a, x) {
            let p = choose|p: int| 0 <= p < a.len() && (#[trigger] a[p]).id == x;
            assert(a.contains(a[p]));
            let q = choose|q: int| 0 <= q < b.len() && b[q] == a[p];
            assert(b[q].id == x);
        }
        if has_id(b, x) {
            let q = choose|q: int| 0 <= q < b.len() && (#[trigger] b[q]).id == x;
            assert(b.contains(b[q]));
            let p = choose|p: int| 0 <= p < a.len() && a[p] == b[q];
            assert(a[p].id == x);
        }
    }
    assert forall|x: int| #[trigger] has_id(a, x) implies op_with_id(a, x) == op_with_id(b, x) by {
        let p = choose|p: int| 0 <= p < a.len() && (#[trigger] a[p]).id == x;
        lemma_op_with_id(a, p);
        assert(a.contains(a[p]));
        let q = choose|q: int| 0 <= q < b.len() && b[q] == a[p];
        lemma_op_with_id(b, q);
    }
    assert(a.no_duplicates()) by {
        assert forall|j: int, k: int| 0 <= j < a.len() && 0 <= k < a.len() && j != k implies a[j]
            != a[k] by {
            assert(a[j].id != a[k].id);
        }
    }
    assert(b.no_duplicates()) by {
        assert forall|j: int, k: int| 0 <= j < b.len() && 0 <= k < b.len() && j != k implies b[j]
            != b[k] by {
            assert(b[j].id != b[k].id);
        }
    }
    a.unique_seq_to_set();
    b.unique_seq_to_set();
    assert(a.to_set() =~= b.to_set());
}

/// Two ordered lists of checks that agree wherever every earlier check
/// passed have the same outcome.
proof fn lemma_first_error_agree<E>(s: Seq<Result<(), E>>, t: Seq<Result<(), E>>)
    requires
        s.len() == t.len(),
        forall|k: int|
            0 <= k < s.len() && (forall|j: int| 0 <= j < k ==> (#[trigger] s[j]) is Ok) ==> s[k]
                == t[k],
    ensures
        first_error(s) == first_error(t),
    decreases s.len(),
{
    if s.len() > 0 {
        assert(forall|j: int| 0 <= j < 0 ==> (#[trigger] s[j]) is Ok);
        assert(s[0] == t[0]);
        if s[0] is Ok {
            let s1 = s.drop_first();
            let t1 = t.drop_first();
            assert forall|k: int|
                0 <= k < s1.len() && (forall|j: int| 0 <= j < k ==> (#[trigger] s1[j]) is Ok) implies s1[k]
                == t1[k] by {
                assert forall|j: int| 0 <= j < k + 1 implies (#[trigger] s[j]) is Ok by {
                    if j > 0 {
                        assert(s[j] == s1[j - 1]);
                    }
                }
                assert(s[k + 1] == t[k + 1]);
            }
            lemma_first_error_agree(s1, t1);
        }
    }
}

/// The use sites of the operations below `k` agree when every id below `k`
/// exists.
proof fn lemma_streams_before_agree(a: Seq<FamilyOperationInput>, b: Seq<FamilyOperationInput>, k: int)
    requires
        same_by_id(a, b),
        forall|j: int| 0 <= j < k ==> #[trigger] has_id(a, j),
    ensures
        streams_before(a, k) == streams_before(b, k),
    decreases k,
{
    if k > 0 {
        lemma_streams_before_agree(a, b, k - 1);
        assert(has_id(a, k - 1));
    }
}

/// The rules of one operation agree when every id below its own exists.
proof fn lemma_operation_check_agree(
    a: Seq<FamilyOperationInput>,
    b: Seq<FamilyOperationInput>,
    op: FamilyOperationInput,
)
    requires
        same_by_id(a, b),
        forall|j: int| 0 <= j < op.id ==> #[trigger] has_id(a, j),
    ensures
        operation_check(a, op) == operation_check(b, op),
{
    lemma_streams_before_agree(a, b, op.id as int);
    let sa = Seq::new(op.streams@.len(), |t: int| stream_check(a, op, t));
    let sb = Seq::new(op.streams@.len(), |t: int| stream_check(b, op, t));
    assert forall|t: int| 0 <= t < op.streams@.len() implies sa[t] == sb[t] by {
        let stream = op.streams@[t];
        assert(use_site_seen(a, op, t) == use_site_seen(b, op, t));
        let la = Seq::new(stream.slots@.len(), |s: int| slot_check(a, op, stream, s));
        let lb = Seq::new(stream.slots@.len(), |s: int| slot_check(b, op, stream, s));
        assert forall|s: int| 0 <= s < stream.slots@.len() implies la[s] == lb[s] by {
            let slot = stream.slots@[s];
            assert(has_id(a, slot.operation_id as int) == has_id(b, slot.operation_id as int));
        }
        assert(la =~= lb);
        assert(slots_check(a, op, stream) == slots_check(b, op, stream));
    }
    assert(sa =~= sb);
    assert(streams_check(a, op) == streams_check(b, op));
}

/// Among the ids above `i`, a smallest one exists when some id lies above
/// `i`.
proof fn lemma_smallest_id_above(ops: Seq<FamilyOperationInput>, i: int, x: u32)
    requires
        has_id(ops, x as int),
        x > i,
    ensures
        exists|m: u32|
            has_id(ops, m as int) && m > i && forall|y: u32| #[trigger]
                has_id(ops, y as int) && y > i ==> m <= y,
    decreases x,
{
    if exists|y: u32| #[trigger] has_id(ops, y as int) && y > i && y < x {
        let y = choose|y: u32| #[trigger] has_id(ops, y as int) && y > i && y < x;
        lemma_smallest_id_above(ops, i, y);
    } else {
        assert(has_id(ops, x as int) && x > i && forall|y: u32| #[trigger]
            has_id(ops, y as int) && y > i ==> x <= y);
    }
}

/// The id that a gap reports agrees between tables with the same ids.
proof fn lemma_next_id_agree(a: Seq<FamilyOperationInput>, b: Seq<FamilyOperationInput>, i: int)
    requires
        same_by_id(a, b),
        ids_distinct(a),
        0 <= i < a.len(),
        !has_id(a, i),
    ensures
        next_id_above(a, i) == next_id_above(b, i),
{
    if forall|j: int| 0 <= j < a.len() ==> (#[trigger] a[j]).id < i {
        lemma_ids_below(a, i);
    }
    let j = choose|j: int| 0 <= j < a.len() && !((#[trigger] a[j]).id < i);
    assert(has_id(a, a[j].id as int));
    assert(a[j].id > i);
    lemma_smallest_id_above(a, i, a[j].id);
    let x = next_id_above(a, i);
    let y = next_id_above(b, i);
    assert(has_id(a, x as int) && x > i && forall|z: u32| #[trigger] has_id(a, z as int) && z > i
        ==> x <= z);
    assert(exists|m: u32|
        has_id(b, m as int) && m > i && forall|z: u32| #[trigger] has_id(b, z as int) && z > i ==> m
            <= z) by {
        assert(has_id(b, x as int));
        assert forall|z: u32| #[trigger] has_id(b, z as int) && z > i implies x <= z by {
            assert(has_id(a, z as int));
        }
    }
    assert(has_id(b, y as int) && y > i && forall|z: u32| #[trigger] has_id(b, z as int) && z > i
        ==> y <= z);
    assert(has_id(a, y as int));
    assert(has_id(b, x as int));
}

/// The id-ordered rules agree between tables with distinct ids and the same
/// operations.
proof fn lemma_operations_check_agree(a: Seq<FamilyOperationInput>, b: Seq<FamilyOperationInput>)
    requires
        same_by_id(a, b),
        ids_distinct(a),
        a.len() == b.len(),
    ensures
        operations_check(a) == operations_check(b),
{
    let s = Seq::new(a.len(), |i: int| operation_step(a, i));
    let t = Seq::new(b.len(), |i: int| operation_step(b, i));
    assert forall|k: int|
        0 <= k < s.len() && (forall|j: int| 0 <= j < k ==> (#[trigger] s[j]) is Ok) implies s[k]
        == t[k] by {
        assert forall|j: int| 0 <= j < k implies #[trigger] has_id(a, j) by {
            assert(s[j] is Ok);
        }
        if has_id(a, k) {
            let op = op_with_id(a, k);
            let p = index_of_id(a, k);
            lemma_op_with_id(a, p);
            assert(op.id == k);
            lemma_operation_check_agree(a, b, op);
        } else {
            lemma_next_id_agree(a, b, k);
        }
    }
    lemma_first_error_agree(s, t);
}

/// Among the orphans below `n`, a first one exists when some orphan lies
/// below `n`.
proof fn lemma_first_orphan_exists(ops: Seq<FamilyOperationInput>, n: int)
    requires
        0 <= n <= ops.len(),
        exists|i: int| 0 <= i < n && #[trigger] is_orphan(ops, i),
    ensures
        exists|m: int|
            0 <= m < n && #[trigger] is_orphan(ops, m) && forall|j: int|
                0 <= j < n && #[trigger] is_orphan(ops, j) ==> orphan_precedes(ops, m, j),
    decreases n,
{
    if exists|i: int| 0 <= i < n - 1 && #[trigger] is_orphan(ops, i) {
        lemma_first_orphan_exists(ops, n - 1);
        let m = choose|m: int|
            0 <= m < n - 1 && #[trigger] is_orphan(ops, m) && forall|j: int|
                0 <= j < n - 1 && #[trigger] is_orphan(ops, j) ==> orphan_precedes(ops, m, j);
        if is_orphan(ops, n - 1) && !orphan_precedes(ops, m, n - 1) {
            assert forall|j: int| 0 <= j < n && #[trigger] is_orphan(ops, j) implies orphan_precedes(
                ops,
                n - 1,
                j,
            ) by {
                if j < n - 1 {
                    assert(orphan_precedes(ops, m, j));
                }
            }
        } else {
            assert forall|j: int| 0 <= j < n && #[trigger] is_orphan(ops, j) implies orphan_precedes(
                ops,
                m,
                j,
            ) by {
                if j < n - 1 {
                    assert(orphan_precedes(ops, m, j));
                }
            }
        }
    } else {
        assert forall|j: int| 0 <= j < n && #[trigger] is_orphan(ops, j) implies orphan_precedes(
            ops,
            n - 1,
            j,
        ) by {
            assert(j == n - 1);
        }
    }
}

/// The orphan rule agrees between tables with distinct ids, the same
/// operations, and every id below their length.
proof fn lemma_orphan_check_agree(a: Seq<FamilyOperationInput>, b: Seq<FamilyOperationInput>)
    requires
        same_by_id(a, b),
        a.len() == b.len(),
        forall|j: int| 0 <= j < a.len() ==> #[trigger] has_id(a, j),
    ensures
        orphan_check(a) == orphan_check(b),
{
    lemma_streams_before_agree(a, b, a.len() as int);
    assert(all_streams(a) == all_streams(b));
    assert forall|i: int| 0 <= i < a.len() implies #[trigger] is_orphan(a, i) == is_orphan(b, i) by {
        assert(has_id(a, i));
    }
    if exists|i: int| 0 <= i < a.len() && #[trigger] is_orphan(a, i) {
        let w = choose|i: int| 0 <= i < a.len() && #[trigger] is_orphan(a, i);
        assert(is_orphan(b, w));
        lemma_first_orphan_exists(a, a.len() as int);
        lemma_first_orphan_exists(b, b.len() as int);
        let fa = first_orphan(a);
        let fb = first_orphan(b);
        assert(is_orphan(a, fb));
        assert(is_orphan(b, fa));
        assert(orphan_precedes(a, fa, fb));
        assert(orphan_precedes(b, fb, fa));
        assert(has_id(a, fa) && has_id(a, fb));
        assert(fa == fb);
    } else {
        assert forall|i: int| 0 <= i < b.len() implies !#[trigger] is_orphan(b, i) by {
            assert(!is_orphan(a, i));
        }
    }
}

/// Two plan inputs with the same close policy whose tables have distinct
/// ids and hold the same operations, in whatever order, get the same
/// verdict from the planner: both are accepted, or both are rejected for
/// the same reason.
pub proof fn lemma_verdict_ignores_order(first: FamilyPlanInput, second: FamilyPlanInput)
    requires
        first.close_policy == second.close_policy,
        ids_distinct(first.operations@),
        ids_distinct(second.operations@),
        same_operations(first.operations@, second.operations@),
    ensures
        plan_check(first) == plan_check(second),
{
    let a = first.operations@;
    let b = second.operations@;
    lemma_same_by_id(a, b);
    let da = Seq::new(a.len(), |k: int| duplicate_check(a, k));
    let db = Seq::new(b.len(), |k: int| duplicate_check(b, k));
    assert forall|k: int| 0 <= k < da.len() implies (#[trigger] da[k]) is Ok by {
        if exists|j: int| 0 <= j < k && (#[trigger] a[j]).id == a[k].id {
            let j = choose|j: int| 0 <= j < k && (#[trigger] a[j]).id == a[k].id;
            assert(a[j].id != a[k].id);
        }
    }
    assert forall|k: int| 0 <= k < db.len() implies (#[trigger] db[k]) is Ok by {
        if exists|j: int| 0 <= j < k && (#[trigger] b[j]).id == b[k].id {
            let j = choose|j: int| 0 <= j < k && (#[trigger] b[j]).id == b[k].id;
            assert(b[j].id != b[k].id);
        }
    }
    lemma_first_error_all_ok(da);
    lemma_first_error_all_ok(db);
    assert(duplicates_check(a) is Ok);
    assert(duplicates_check(b) is Ok);
    lemma_operations_check_agree(a, b);
    if operations_check(a) is Ok {
        let steps = Seq::new(a.len(), |i: int| operation_step(a, i));
        crate::rules::lemma_all_pass(steps);
        assert forall|j: int| 0 <= j < a.len() implies #[trigger] has_id(a, j) by {
            assert(steps[j] is Ok);
        }
        lemma_streams_before_agree(a, b, a.len() as int);
        assert(all_streams(a) == all_streams(b));
        assert(stream_ids_check(a) == stream_ids_check(b));
        lemma_orphan_check_agree(a, b);
    }
}

} // verus!
