//! Checking a structured Rust call plan against a validated family plan.
use vstd::prelude::*;

use vstd::pervasive::VecAdditionalExecFns;

use crate::bridge_rules::{
    bridge_check, bridge_operations_check, bridge_step, engine_agrees, has_rust_id,
    rust_duplicate_check, rust_duplicates_check, rust_ids_distinct, rust_index_of_id,
    rust_op_with_id,
};
use crate::bridge_validate::{validate_bridge_operation, validate_resource_hooks};
use crate::engine_error::EngineError;
use crate::bridge_laws::lemma_accepted_bridge_result_leases;
use crate::family::{FamilyOperation, ResourceKind, ResourceOwnership, ValuePathSegment};
use crate::plan::FamilyPlan;
use crate::rules::{lemma_first_error_all_ok, lemma_first_error_step};

verus! {

/// A Rust type, as `syn` parses it; the bridge carries it through unread.
#[verifier::external_type_specification]
#[verifier::external_body]
pub struct ExternalType(syn::Type);

/// A Rust path, as `syn` parses it; the bridge carries it through unread.
#[verifier::external_type_specification]
#[verifier::external_body]
pub struct ExternalPath(syn::Path);

/// `syn` derives `Clone` for `Type`: the copy is the same syntax tree.
pub assume_specification[ <syn::Type as Clone>::clone ](value: &syn::Type) -> (copy: syn::Type)
    ensures
        copy == *value,
;

/// `syn` derives `Clone` for `Path`: the copy is the same path.
pub assume_specification[ <syn::Path as Clone>::clone ](value: &syn::Path) -> (copy: syn::Path)
    ensures
        copy == *value,
;

/// Structured lowering for one Rust argument.
#[derive(Clone, Debug, Eq, PartialEq)]
pub enum ArgumentBinding {
    Direct { carrier_type: syn::Type },
    I64BigInt,
    U64BigInt,
    LowerWith { carrier_type: syn::Type, lower: syn::Path },
    /// A structured lowerer that needs the session host to construct nested
    /// callback and stream proxies.
    LowerWithHost { carrier_type: syn::Type, lower: syn::Path },
    ObjectLease { carrier_type: syn::Type, lower: syn::Path, ownership: ResourceOwnership },
    OutputStreamLease { carrier_type: syn::Type, lower: syn::Path, ownership: ResourceOwnership },
    CallbackProxy { rust_type: syn::Type, build: syn::Path },
    InputStreamProxy { rust_type: syn::Type, build: syn::Path },
}

/// One named Rust argument and its lowering.
#[derive(Clone, Debug, Eq, PartialEq)]
pub struct RustArgumentPlan {
    pub name: String,
    pub binding: ArgumentBinding,
}

/// Structured lifting for one Rust return value.
#[derive(Clone, Debug, Eq, PartialEq)]
pub enum ReturnBinding {
    Unit,
    Direct { carrier_type: syn::Type },
    I64BigInt,
    U64BigInt,
    LiftWith { carrier_type: syn::Type, lift: syn::Path },
    ObjectLease { carrier_type: syn::Type, lift: syn::Path },
    CallbackLease { carrier_type: syn::Type, lift: syn::Path },
    OutputStreamLease { carrier_type: syn::Type, lift: syn::Path },
}

/// How a Rust error reaches JavaScript.
#[derive(Clone, Debug, Eq, PartialEq)]
pub enum ErrorBinding {
    Infallible,
    Descriptor { map: syn::Path },
}

/// What a Rust operation calls.
#[derive(Clone, Debug, Eq, PartialEq)]
pub enum RustOperationTarget {
    Native { call: syn::Path },
    CallbackHost,
    InputStreamHostPull,
    InputStreamHostCancel,
}

/// The named receiver of a Rust method and its lowering.
#[derive(Clone, Debug, Eq, PartialEq)]
pub struct RustReceiverPlan {
    pub name: String,
    pub binding: ArgumentBinding,
}

/// The Rust side of one operation.
#[derive(Clone, Debug, Eq, PartialEq)]
pub struct RustOperationPlan {
    pub operation_id: u32,
    pub target: RustOperationTarget,
    pub receiver: Option<RustReceiverPlan>,
    pub arguments: Vec<RustArgumentPlan>,
    pub return_binding: ReturnBinding,
    pub error_binding: ErrorBinding,
}

/// A Rust function that releases or cancels one kind of resource.
#[derive(Clone, Debug, Eq, PartialEq)]
pub struct RustResourceHook {
    pub call: syn::Path,
    pub carrier_type: syn::Type,
}

/// The resource hooks of a bridge plan.
#[derive(Clone, Debug, Eq, PartialEq)]
pub struct RustResourceHooks {
    pub release_object: Option<RustResourceHook>,
    pub cancel_output_stream: Option<RustResourceHook>,
    pub release_output_stream: Option<RustResourceHook>,
}

impl Default for RustResourceHooks {
    /// No hooks at all.
    fn default() -> (hooks: Self)
        ensures
            hooks.release_object is None,
            hooks.cancel_output_stream is None,
            hooks.release_output_stream is None,
    {
        RustResourceHooks {
            release_object: None,
            cancel_output_stream: None,
            release_output_stream: None,
        }
    }
}

/// The hooks of a plan without resource hooks.
pub open spec fn no_hooks() -> RustResourceHooks {
    RustResourceHooks { release_object: None, cancel_output_stream: None, release_output_stream: None }
}

/// A Rust call plan that matches a family plan: Rust operation `i` is the
/// one for family operation `i`.
#[derive(Debug, Eq, PartialEq)]
pub struct RustBridgePlan {
    operations: Vec<RustOperationPlan>,
    resource_hooks: RustResourceHooks,
}

impl RustBridgePlan {
    /// Rust operation `i` has id `i`.
    #[verifier::type_invariant]
    spec fn well_formed(self) -> bool {
        forall|i: int|
            0 <= i < self.operations@.len() ==> (#[trigger] self.operations@[i]).operation_id == i
    }

    pub closed spec fn spec_operations(&self) -> Seq<RustOperationPlan> {
        self.operations@
    }

    pub closed spec fn spec_resource_hooks(&self) -> RustResourceHooks {
        self.resource_hooks
    }

    /// Checks a Rust call plan without resource hooks against a family
    /// plan.
    pub fn build(family: &FamilyPlan, operations: Vec<RustOperationPlan>) -> (result: Result<
        Self,
        EngineError,
    >)
        ensures
            engine_agrees(result, bridge_check(family.spec_operations(), operations@, no_hooks())),
            result matches Ok(plan) ==> {
                &&& plan.spec_operations().len() == family.spec_operations().len()
                &&& forall|i: int|
                    0 <= i < family.spec_operations().len() ==> (#[trigger] plan.spec_operations()[i])
                        == rust_op_with_id(operations@, i)
                &&& plan.spec_resource_hooks() == no_hooks()
            },
    {
        Self::build_with_resource_hooks(family, operations, RustResourceHooks::default())
    }

    /// Checks a Rust call plan and its resource hooks against a family plan.
    ///
    /// The rules of [`bridge_check`] run in order and the first one that
    /// fails is reported.  On success, operation `i` of the bridge plan is
    /// the Rust operation with id `i`.
    pub fn build_with_resource_hooks(
        family: &FamilyPlan,
        operations: Vec<RustOperationPlan>,
        resource_hooks: RustResourceHooks,
    ) -> (result: Result<Self, EngineError>)
        ensures
            engine_agrees(result, bridge_check(family.spec_operations(), operations@, resource_hooks)),
            result matches Ok(plan) ==> {
                &&& plan.spec_operations().len() == family.spec_operations().len()
                &&& forall|i: int|
                    0 <= i < family.spec_operations().len() ==> (#[trigger] plan.spec_operations()[i])
                        == rust_op_with_id(operations@, i)
                &&& plan.spec_resource_hooks() == resource_hooks
                &&& forall|i: int, k: int|
                    0 <= i < family.spec_operations().len() && family.spec_operations()[i].target is Native
                        && 0 <= k < family.spec_operations()[i].result_resources@.len()
                        && (#[trigger] family.spec_operations()[i].result_resources@[k]).path.segments@
                        =~= seq![ValuePathSegment::Return] && (forall|j: int|
                        0 <= j < k ==> !((#[trigger] family.spec_operations()[i].result_resources@[j]).path.segments@
                            =~= seq![ValuePathSegment::Return])) ==> {
                        let binding = plan.spec_operations()[i].return_binding;
                        let kind = family.spec_operations()[i].result_resources@[k].binding.kind;
                        &&& kind != ResourceKind::InputStream
                        &&& (kind == ResourceKind::Object ==> binding is ObjectLease)
                        &&& (kind == ResourceKind::OutputStream ==> binding is OutputStreamLease)
                    }
            },
    {
        let ghost ops = operations@;
        match check_rust_duplicate_ids(&operations) {
            Err(error) => {
                return Err(error);
            },
            Ok(()) => {},
        }
        let family_operations = family.operations();
        if operations.len() != family_operations.len() {
            return Err(
                EngineError::RustOperationCount {
                    expected: family_operations.len(),
                    actual: operations.len(),
                },
            );
        }
        let slots = place_by_id(operations, family_operations.len());
        let validated = match validate_in_order(family_operations, slots, Ghost(ops)) {
            Err(error) => {
                return Err(error);
            },
            Ok(validated) => validated,
        };
        match validate_resource_hooks(family, &resource_hooks) {
            Err(error) => {
                return Err(error);
            },
            Ok(()) => {},
        }
        proof {
            lemma_accepted_bridge_result_leases(family_operations@, ops, resource_hooks);
        }
        Ok(RustBridgePlan { operations: validated, resource_hooks })
    }

    /// The Rust operations, in family order; operation `i` has id `i`.
    pub fn operations(&self) -> (operations: &[RustOperationPlan])
        ensures
            operations@ == self.spec_operations(),
            forall|i: int| 0 <= i < operations@.len() ==> (#[trigger] operations@[i]).operation_id == i,
    {
        proof {
            use_type_invariant(self);
        }
        self.operations.as_slice()
    }

    pub fn resource_hooks(&self) -> (hooks: &RustResourceHooks)
        ensures
            *hooks == self.spec_resource_hooks(),
    {
        &self.resource_hooks
    }
}

/// With distinct ids, a Rust operation is the operation of its own id.
pub proof fn lemma_rust_op_with_id(ops: Seq<RustOperationPlan>, j: int)
    requires
        rust_ids_distinct(ops),
        0 <= j < ops.len(),
    ensures
        has_rust_id(ops, ops[j].operation_id as int),
        rust_index_of_id(ops, ops[j].operation_id as int) == j,
        rust_op_with_id(ops, ops[j].operation_id as int) == ops[j],
{
    assert(has_rust_id(ops, ops[j].operation_id as int));
}

/// Whether a Rust operation before position `k` has the id of operation
/// `k`.
fn repeats_earlier_rust_id(ops: &Vec<RustOperationPlan>, k: usize) -> (repeated: bool)
    requires
        k < ops@.len(),
    ensures
        repeated == exists|j: int| 0 <= j < k && (#[trigger] ops@[j]).operation_id
            == ops@[k as int].operation_id,
{
    let id = ops[k].operation_id;
    let mut j: usize = 0;
    while j < k
        invariant
            k < ops@.len(),
            id == ops@[k as int].operation_id,
            j <= k,
            forall|i: int| 0 <= i < j ==> (#[trigger] ops@[i]).operation_id != id,
        decreases k - j,
    {
        if ops[j].operation_id == id {
            assert(ops@[j as int].operation_id == ops@[k as int].operation_id);
            return true;
        }
        j += 1;
    }
    false
}

/// Reports the first Rust operation whose id repeats an earlier one.
fn check_rust_duplicate_ids(ops: &Vec<RustOperationPlan>) -> (result: Result<(), EngineError>)
    ensures
        engine_agrees(result, rust_duplicates_check(ops@)),
        result is Ok ==> rust_ids_distinct(ops@),
{
    let count = ops.len();
    let ghost checks = Seq::new(ops@.len(), |k: int| rust_duplicate_check(ops@, k));
    let mut k: usize = 0;
    while k < count
        invariant
            count == ops@.len(),
            checks == Seq::new(ops@.len(), |k: int| rust_duplicate_check(ops@, k)),
            k <= count,
            forall|j: int| 0 <= j < k ==> (#[trigger] checks[j]) is Ok,
            forall|a: int, b: int|
                0 <= a < k && 0 <= b < k && a != b ==> (#[trigger] ops@[a]).operation_id != (
                #[trigger] ops@[b]).operation_id,
        decreases count - k,
    {
        proof {
            lemma_first_error_step(checks, k as int);
        }
        if repeats_earlier_rust_id(ops, k) {
            assert(checks[k as int] == rust_duplicate_check(ops@, k as int));
            return Err(EngineError::DuplicateRustOperation { id: ops[k].operation_id });
        }
        assert(checks[k as int] is Ok);
        k += 1;
    }
    proof {
        lemma_first_error_all_ok(checks);
    }
    Ok(())
}

/// Moves each Rust operation with an id below `count` into the slot of its
/// id.
fn place_by_id(operations: Vec<RustOperationPlan>, count: usize) -> (slots: Vec<
    Option<RustOperationPlan>,
>)
    requires
        rust_ids_distinct(operations@),
    ensures
        slots@.len() == count,
        forall|x: int| 0 <= x < count ==> ((#[trigger] slots@[x]) is Some <==> has_rust_id(operations@, x)),
        forall|x: int|
            0 <= x < count && (#[trigger] slots@[x]) is Some ==> slots@[x]->Some_0 == rust_op_with_id(
                operations@,
                x,
            ),
{
    let ghost ops = operations@;
    let mut slots: Vec<Option<RustOperationPlan>> = Vec::new();
    let mut k: usize = 0;
    while k < count
        invariant
            k <= count,
            slots@.len() == k,
            forall|x: int| 0 <= x < k ==> (#[trigger] slots@[x]) is None,
        decreases count - k,
    {
        slots.push(None);
        k += 1;
    }
    let mut remaining = operations;
    while remaining.len() > 0
        invariant
            rust_ids_distinct(ops),
            remaining.len() <= ops.len(),
            remaining@ == ops.take(remaining.len() as int),
            slots@.len() == count,
            forall|x: int|
                0 <= x < count ==> ((#[trigger] slots@[x]) is Some <==> exists|j: int|
                    remaining.len() <= j < ops.len() && (#[trigger] ops[j]).operation_id == x),
            forall|x: int|
                0 <= x < count && (#[trigger] slots@[x]) is Some ==> slots@[x]->Some_0
                    == rust_op_with_id(ops, x),
        decreases remaining.len(),
    {
        let ghost last = remaining.len() - 1;
        let ghost before = slots@;
        let op = remaining.pop().unwrap();
        assert(op == ops[last]);
        proof {
            lemma_rust_op_with_id(ops, last);
            assert(remaining@ =~= ops.take(remaining.len() as int));
        }
        let id = op.operation_id as usize;
        if id < count {
            slots.set(id, Some(op));
        }
        proof {
            assert forall|x: int| 0 <= x < count implies ((#[trigger] slots@[x]) is Some
                <==> exists|j: int| remaining.len() <= j < ops.len() && (#[trigger] ops[j]).operation_id
                == x) by {
                if x != ops[last].operation_id {
                    assert(slots@[x] == before[x]);
                    if exists|j: int|
                        remaining.len() <= j < ops.len() && (#[trigger] ops[j]).operation_id == x {
                        let j = choose|j: int|
                            remaining.len() <= j < ops.len() && (#[trigger] ops[j]).operation_id == x;
                        assert(j != last);
                    }
                } else {
                    assert(ops[last as int].operation_id == x);
                }
            }
        }
    }
    proof {
        assert forall|x: int| 0 <= x < count implies ((#[trigger] slots@[x]) is Some <==> has_rust_id(
            ops,
            x,
        )) by {
            if has_rust_id(ops, x) {
                let j = choose|j: int| 0 <= j < ops.len() && (#[trigger] ops[j]).operation_id == x;
                assert(0 <= j < ops.len() && ops[j].operation_id == x);
            }
        }
    }
    slots
}

/// Checks the Rust operation of every family operation, in family order,
/// and returns them in that order.
fn validate_in_order(
    family_operations: &[FamilyOperation],
    slots: Vec<Option<RustOperationPlan>>,
    Ghost(ops): Ghost<Seq<RustOperationPlan>>,
) -> (result: Result<Vec<RustOperationPlan>, EngineError>)
    requires
        slots@.len() == family_operations@.len(),
        forall|i: int|
            0 <= i < family_operations@.len() ==> (#[trigger] family_operations@[i]).id == i,
        forall|x: int|
            0 <= x < slots@.len() ==> ((#[trigger] slots@[x]) is Some <==> has_rust_id(ops, x)),
        forall|x: int|
            0 <= x < slots@.len() && (#[trigger] slots@[x]) is Some ==> slots@[x]->Some_0
                == rust_op_with_id(ops, x),
    ensures
        engine_agrees(result, bridge_operations_check(family_operations@, ops)),
        result matches Ok(validated) ==> {
            &&& validated@.len() == family_operations@.len()
            &&& forall|i: int|
                0 <= i < family_operations@.len() ==> (#[trigger] validated@[i]) == rust_op_with_id(
                    ops,
                    i,
                ) && validated@[i].operation_id == i
        },
{
    let count = family_operations.len();
    let ghost fops = family_operations@;
    let ghost checks = Seq::new(fops.len(), |i: int| bridge_step(fops, ops, i));
    let mut slots = slots;
    let mut validated: Vec<RustOperationPlan> = Vec::new();
    let mut i: usize = 0;
    while i < count
        invariant
            count == fops.len(),
            fops == family_operations@,
            forall|j: int| 0 <= j < fops.len() ==> (#[trigger] fops[j]).id == j,
            checks == Seq::new(fops.len(), |i: int| bridge_step(fops, ops, i)),
            slots@.len() == count,
            i <= count,
            forall|x: int| i <= x < count ==> ((#[trigger] slots@[x]) is Some <==> has_rust_id(ops, x)),
            forall|x: int|
                i <= x < count && (#[trigger] slots@[x]) is Some ==> slots@[x]->Some_0
                    == rust_op_with_id(ops, x),
            forall|j: int| 0 <= j < i ==> (#[trigger] checks[j]) is Ok,
            validated@.len() == i,
            forall|j: int|
                0 <= j < i ==> (#[trigger] validated@[j]) == rust_op_with_id(ops, j)
                    && validated@[j].operation_id == j,
        decreases count - i,
    {
        proof {
            lemma_first_error_step(checks, i as int);
        }
        assert(fops[i as int].id == i);
        let mut taken: Option<RustOperationPlan> = None;
        slots.set_and_swap(i, &mut taken);
        match taken {
            None => {
                assert(checks[i as int] == bridge_step(fops, ops, i as int));
                return Err(EngineError::MissingRustOperation { id: family_operations[i].id });
            },
            Some(op) => {
                assert(has_rust_id(ops, i as int));
                assert(op.operation_id == i);
                match validate_bridge_operation(&family_operations[i], &op) {
                    Err(error) => {
                        return Err(error);
                    },
                    Ok(()) => {},
                }
                validated.push(op);
            },
        }
        i += 1;
    }
    proof {
        lemma_first_error_all_ok(checks);
    }
    Ok(validated)
}

} // verus!
