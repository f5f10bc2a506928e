//! What a generated N-API module is made of, and when a family plan and a
//! Rust call plan cannot be turned into one.
//!
//! A module has one private N-API function per native operation and one
//! session descriptor per operation.  Generation refuses a pair of plans
//! whose operations are out of step, whose native operations cannot be
//! lowered, or whose use sites the session cannot carry; the rules below
//! state those refusals, in the order in which generation meets them.
use vstd::prelude::*;
use vstd::string::StringExecFns;

use crate::bridge::{ArgumentBinding, RustBridgePlan, RustOperationPlan, RustOperationTarget};
use crate::bridge_rules::{argument_callback, argument_stream, engine_agrees};
use crate::engine::{dispatch_of, session_dispatch};
use crate::engine_error::{EngineError, EngineRejection};
use crate::family::{FamilyOperation, FamilyOperationTarget, StreamDirection, ValuePathSegment};
use crate::plan::FamilyPlan;
use crate::rules::{first_error, lemma_first_error_all_ok, lemma_first_error_step};
use crate::text::{decimal_text, path_text, push_decimal};

verus! {

/// The name of the private N-API function of a native operation.
pub open spec fn raw_operation_name(id: u32) -> Seq<char> {
    "__uniffi_raw_operation_"@ + decimal_text(id as nat)
}

/// The private function names of the native operations, in order.
pub open spec fn native_operation_names(ops: Seq<FamilyOperation>) -> Seq<Seq<char>>
    decreases ops.len(),
{
    if ops.len() == 0 {
        Seq::empty()
    } else if ops.last().target is Native {
        native_operation_names(ops.drop_last()).push(raw_operation_name(ops.last().id))
    } else {
        native_operation_names(ops.drop_last())
    }
}

/// The private function names of a plan's native operations, in order.
pub fn raw_operation_names(family: &FamilyPlan) -> (names: Vec<String>)
    ensures
        names@.map_values(|name: String| name@) == native_operation_names(family.spec_operations()),
{
    let ops = family.operations();
    let count = ops.len();
    let mut names: Vec<String> = Vec::new();
    let mut i: usize = 0;
    while i < count
        invariant
            count == ops@.len(),
            ops@ == family.spec_operations(),
            i <= count,
            names@.map_values(|name: String| name@) == native_operation_names(ops@.take(i as int)),
        decreases count - i,
    {
        proof {
            assert(ops@.take(i + 1).drop_last() =~= ops@.take(i as int));
            assert(ops@.take(i + 1).last() == ops@[i as int]);
        }
        match ops[i].target {
            FamilyOperationTarget::Native => {
                let mut name = String::new();
                name.append("__uniffi_raw_operation_");
                push_decimal(&mut name, ops[i].id as u64);
                let ghost before = names@;
                names.push(name);
                proof {
                    assert(names@.map_values(|name: String| name@) =~= before.map_values(
                        |name: String| name@,
                    ).push(raw_operation_name(ops@[i as int].id)));
                }
            },
            _ => {},
        }
        i += 1;
    }
    proof {
        assert(ops@.take(count as int) =~= ops@);
    }
    names
}

/// A receiver is lowered from a value or a lease, never built as a proxy.
pub open spec fn receiver_lowering_check(op: RustOperationPlan) -> Result<(), EngineRejection> {
    if op.receiver matches Some(receiver) && (receiver.binding is CallbackProxy
        || receiver.binding is InputStreamProxy) {
        Err(EngineRejection::InvalidResourceReceiver { operation_id: op.operation_id })
    } else {
        Ok(())
    }
}

/// A proxy argument needs the use site that its proxy stands for: a
/// callback or an input stream that is the whole argument.
pub open spec fn argument_lowering_check(family: FamilyOperation, op: RustOperationPlan, index: int) -> Result<
    (),
    EngineRejection,
> {
    let binding = op.arguments@[index].binding;
    if binding is CallbackProxy && !argument_callback(family, index, true) {
        Err(
            EngineRejection::MissingStructuredUseSite {
                operation_id: op.operation_id,
                argument: index as usize,
                role: "callback"@,
            },
        )
    } else if binding is InputStreamProxy && !argument_stream(family, index, true) {
        Err(
            EngineRejection::MissingStructuredUseSite {
                operation_id: op.operation_id,
                argument: index as usize,
                role: "input stream"@,
            },
        )
    } else {
        Ok(())
    }
}

/// The lowering rules of one native operation: its receiver, its arguments
/// in order, then its target, which must be native.
pub open spec fn lowering_check(family: FamilyOperation, op: RustOperationPlan) -> Result<
    (),
    EngineRejection,
> {
    let arguments = first_error(
        Seq::new(op.arguments@.len(), |index: int| argument_lowering_check(family, op, index)),
    );
    if receiver_lowering_check(op) is Err {
        receiver_lowering_check(op)
    } else if arguments is Err {
        arguments
    } else if !(op.target is Native) {
        Err(EngineRejection::UnexpectedHostOperationCodegen { operation_id: op.operation_id })
    } else {
        Ok(())
    }
}

/// Position `i`: the Rust operation is the family operation's, and a native
/// operation can be lowered.
pub open spec fn operation_step(
    family_ops: Seq<FamilyOperation>,
    ops: Seq<RustOperationPlan>,
    i: int,
) -> Result<(), EngineRejection> {
    if family_ops[i].id != ops[i].operation_id {
        Err(
            EngineRejection::OperationOrder {
                expected: family_ops[i].id,
                actual: ops[i].operation_id,
            },
        )
    } else if family_ops[i].target is Native {
        lowering_check(family_ops[i], ops[i])
    } else {
        Ok(())
    }
}

/// Whether a path is rooted at an argument.
pub open spec fn argument_rooted(segments: Seq<ValuePathSegment>) -> bool {
    segments.len() > 0 && segments[0] is Argument
}

/// Whether a path is rooted at the return value.
pub open spec fn return_rooted(segments: Seq<ValuePathSegment>) -> bool {
    segments.len() > 0 && segments[0] is Return
}

/// The session carries callbacks rooted at an argument or at the return.
pub open spec fn callback_root_check(op: FamilyOperation, k: int) -> Result<(), EngineRejection> {
    let segments = op.callbacks@[k].path.segments@;
    if argument_rooted(segments) || return_rooted(segments) {
        Ok(())
    } else {
        Err(
            EngineRejection::UnsupportedUseSite {
                operation_id: op.id,
                role: "callback"@,
                path: path_text(segments),
            },
        )
    }
}

/// The session carries input streams rooted at an argument.
pub open spec fn input_root_check(op: FamilyOperation, t: int) -> Result<(), EngineRejection> {
    let segments = op.streams@[t].path.segments@;
    if op.streams@[t].direction == StreamDirection::Input && !argument_rooted(segments) {
        Err(
            EngineRejection::UnsupportedUseSite {
                operation_id: op.id,
                role: "input stream"@,
                path: path_text(segments),
            },
        )
    } else {
        Ok(())
    }
}

/// The session carries output streams rooted at the return.
pub open spec fn output_root_check(op: FamilyOperation, t: int) -> Result<(), EngineRejection> {
    let segments = op.streams@[t].path.segments@;
    if op.streams@[t].direction == StreamDirection::Output && !return_rooted(segments) {
        Err(
            EngineRejection::UnsupportedUseSite {
                operation_id: op.id,
                role: "output stream"@,
                path: path_text(segments),
            },
        )
    } else {
        Ok(())
    }
}

/// The rules of one session descriptor: its dispatch, its callbacks in
/// order, its input streams in order, then its output streams in order.
pub open spec fn descriptor_check(op: FamilyOperation) -> Result<(), EngineRejection> {
    let callbacks = first_error(Seq::new(op.callbacks@.len(), |k: int| callback_root_check(op, k)));
    let inputs = first_error(Seq::new(op.streams@.len(), |t: int| input_root_check(op, t)));
    let outputs = first_error(Seq::new(op.streams@.len(), |t: int| output_root_check(op, t)));
    if dispatch_of(op) is Err {
        Err(dispatch_of(op)->Err_0)
    } else if callbacks is Err {
        callbacks
    } else if inputs is Err {
        inputs
    } else {
        outputs
    }
}

/// The rules of module generation, in order: as many Rust operations as
/// family operations, each position in step and lowerable, then one
/// session descriptor per operation.
pub open spec fn generation_check(family_ops: Seq<FamilyOperation>, ops: Seq<RustOperationPlan>) -> Result<
    (),
    EngineRejection,
> {
    let steps = first_error(Seq::new(family_ops.len(), |i: int| operation_step(family_ops, ops, i)));
    let descriptors = first_error(Seq::new(family_ops.len(), |i: int| descriptor_check(family_ops[i])));
    if family_ops.len() != ops.len() {
        Err(
            EngineRejection::RustOperationCount {
                expected: family_ops.len() as usize,
                actual: ops.len() as usize,
            },
        )
    } else if steps is Err {
        steps
    } else {
        descriptors
    }
}

/// Checks the lowering of one argument.
fn check_argument_lowering(family: &FamilyOperation, op: &RustOperationPlan, index: usize) -> (result:
    Result<(), EngineError>)
    requires
        index < op.arguments@.len(),
    ensures
        engine_agrees(result, argument_lowering_check(*family, *op, index as int)),
{
    match &op.arguments[index].binding {
        ArgumentBinding::CallbackProxy { .. } => {
            if !crate::bridge_validate::has_argument_callback(family, index, true) {
                return Err(
                    EngineError::MissingStructuredUseSite {
                        operation_id: op.operation_id,
                        argument: index,
                        role: "callback",
                    },
                );
            }
        },
        ArgumentBinding::InputStreamProxy { .. } => {
            if !crate::bridge_validate::has_argument_stream(family, index, true) {
                return Err(
                    EngineError::MissingStructuredUseSite {
                        operation_id: op.operation_id,
                        argument: index,
                        role: "input stream",
                    },
                );
            }
        },
        _ => {},
    }
    Ok(())
}

/// Checks that a native operation can be lowered.
pub fn check_lowering(family: &FamilyOperation, op: &RustOperationPlan) -> (result: Result<
    (),
    EngineError,
>)
    ensures
        engine_agrees(result, lowering_check(*family, *op)),
{
    match &op.receiver {
        Some(receiver) => match &receiver.binding {
            ArgumentBinding::CallbackProxy { .. } | ArgumentBinding::InputStreamProxy { .. } => {
                return Err(EngineError::InvalidResourceReceiver { operation_id: op.operation_id });
            },
            _ => {},
        },
        None => {},
    }
    let count = op.arguments.len();
    let ghost checks = Seq::new(
        op.arguments@.len(),
        |index: int| argument_lowering_check(*family, *op, index),
    );
    let mut index: usize = 0;
    while index < count
        invariant
            count == op.arguments@.len(),
            checks == Seq::new(
                op.arguments@.len(),
                |index: int| argument_lowering_check(*family, *op, index),
            ),
            receiver_lowering_check(*op) is Ok,
            index <= count,
            forall|j: int| 0 <= j < index ==> (#[trigger] checks[j]) is Ok,
        decreases count - index,
    {
        proof {
            lemma_first_error_step(checks, index as int);
        }
        match check_argument_lowering(family, op, index) {
            Err(error) => {
                return Err(error);
            },
            Ok(()) => {},
        }
        index += 1;
    }
    proof {
        lemma_first_error_all_ok(checks);
    }
    match &op.target {
        RustOperationTarget::Native { .. } => Ok(()),
        _ => Err(EngineError::UnexpectedHostOperationCodegen { operation_id: op.operation_id }),
    }
}

/// Whether a path is rooted at an argument.
fn rooted_at_argument(segments: &Vec<ValuePathSegment>) -> (result: bool)
    ensures
        result == argument_rooted(segments@),
{
    segments.len() > 0 && match &segments[0] {
        ValuePathSegment::Argument(_) => true,
        _ => false,
    }
}

/// Whether a path is rooted at the return value.
fn rooted_at_return(segments: &Vec<ValuePathSegment>) -> (result: bool)
    ensures
        result == return_rooted(segments@),
{
    segments.len() > 0 && match &segments[0] {
        ValuePathSegment::Return => true,
        _ => false,
    }
}

/// Checks that the session can carry every callback use site.
fn check_callback_roots(op: &FamilyOperation) -> (result: Result<(), EngineError>)
    ensures
        engine_agrees(
            result,
            first_error(Seq::new(op.callbacks@.len(), |k: int| callback_root_check(*op, k))),
        ),
{
    let count = op.callbacks.len();
    let ghost checks = Seq::new(op.callbacks@.len(), |k: int| callback_root_check(*op, k));
    let mut k: usize = 0;
    while k < count
        invariant
            count == op.callbacks@.len(),
            checks == Seq::new(op.callbacks@.len(), |k: int| callback_root_check(*op, k)),
            k <= count,
            forall|j: int| 0 <= j < k ==> (#[trigger] checks[j]) is Ok,
        decreases count - k,
    {
        proof {
            lemma_first_error_step(checks, k as int);
        }
        let path = &op.callbacks[k].path;
        if !rooted_at_argument(&path.segments) && !rooted_at_return(&path.segments) {
            return Err(
                EngineError::UnsupportedUseSite {
                    operation_id: op.id,
                    role: "callback",
                    path: path.to_string(),
                },
            );
        }
        k += 1;
    }
    proof {
        lemma_first_error_all_ok(checks);
    }
    Ok(())
}

/// Checks that the session can carry every stream use site of one
/// direction: input streams rooted at an argument, output streams rooted at
/// the return.
fn check_stream_roots(op: &FamilyOperation, direction: StreamDirection) -> (result: Result<
    (),
    EngineError,
>)
    ensures
        direction == StreamDirection::Input ==> engine_agrees(
            result,
            first_error(Seq::new(op.streams@.len(), |t: int| input_root_check(*op, t))),
        ),
        direction == StreamDirection::Output ==> engine_agrees(
            result,
            first_error(Seq::new(op.streams@.len(), |t: int| output_root_check(*op, t))),
        ),
{
    let count = op.streams.len();
    let ghost checks = if direction == StreamDirection::Input {
        Seq::new(op.streams@.len(), |t: int| input_root_check(*op, t))
    } else {
        Seq::new(op.streams@.len(), |t: int| output_root_check(*op, t))
    };
    let mut t: usize = 0;
    while t < count
        invariant
            count == op.streams@.len(),
            checks == if direction == StreamDirection::Input {
                Seq::new(op.streams@.len(), |t: int| input_root_check(*op, t))
            } else {
                Seq::new(op.streams@.len(), |t: int| output_root_check(*op, t))
            },
            t <= count,
            forall|j: int| 0 <= j < t ==> (#[trigger] checks[j]) is Ok,
        decreases count - t,
    {
        proof {
            lemma_first_error_step(checks, t as int);
        }
        let stream = &op.streams[t];
        if stream.direction == direction {
            match direction {
                StreamDirection::Input => {
                    if !rooted_at_argument(&stream.path.segments) {
                        return Err(
                            EngineError::UnsupportedUseSite {
                                operation_id: op.id,
                                role: "input stream",
                                path: stream.path.to_string(),
                            },
                        );
                    }
                },
                StreamDirection::Output => {
                    if !rooted_at_return(&stream.path.segments) {
                        return Err(
                            EngineError::UnsupportedUseSite {
                                operation_id: op.id,
                                role: "output stream",
                                path: stream.path.to_string(),
                            },
                        );
                    }
                },
            }
        }
        t += 1;
    }
    proof {
        lemma_first_error_all_ok(checks);
    }
    Ok(())
}

/// Checks that the session can take one operation's descriptor.
pub fn check_descriptor(op: &FamilyOperation) -> (result: Result<(), EngineError>)
    ensures
        engine_agrees(result, descriptor_check(*op)),
{
    match session_dispatch(op) {
        Err(error) => {
            return Err(error);
        },
        Ok(_) => {},
    }
    match check_callback_roots(op) {
        Err(error) => {
            return Err(error);
        },
        Ok(()) => {},
    }
    match check_stream_roots(op, StreamDirection::Input) {
        Err(error) => {
            return Err(error);
        },
        Ok(()) => {},
    }
    check_stream_roots(op, StreamDirection::Output)
}

/// Checks that a module can be generated from a family plan and a Rust call
/// plan: every refusal of generation but those of the backend's own code
/// generator.
pub fn check_generation(family: &FamilyPlan, rust: &RustBridgePlan) -> (result: Result<
    (),
    EngineError,
>)
    ensures
        engine_agrees(result, generation_check(family.spec_operations(), rust.spec_operations())),
{
    let family_ops = family.operations();
    let rust_ops = rust.operations();
    if family_ops.len() != rust_ops.len() {
        return Err(
            EngineError::RustOperationCount { expected: family_ops.len(), actual: rust_ops.len() },
        );
    }
    let count = family_ops.len();
    let ghost steps = Seq::new(family_ops@.len(), |i: int| operation_step(family_ops@, rust_ops@, i));
    let mut i: usize = 0;
    while i < count
        invariant
            count == family_ops@.len(),
            count == rust_ops@.len(),
            family_ops@ == family.spec_operations(),
            rust_ops@ == rust.spec_operations(),
            steps == Seq::new(family_ops@.len(), |i: int| operation_step(family_ops@, rust_ops@, i)),
            i <= count,
            forall|j: int| 0 <= j < i ==> (#[trigger] steps[j]) is Ok,
        decreases count - i,
    {
        proof {
            lemma_first_error_step(steps, i as int);
        }
        if family_ops[i].id != rust_ops[i].operation_id {
            return Err(
                EngineError::OperationOrder {
                    expected: family_ops[i].id,
                    actual: rust_ops[i].operation_id,
                },
            );
        }
        match family_ops[i].target {
            FamilyOperationTarget::Native => {
                match check_lowering(&family_ops[i], &rust_ops[i]) {
                    Err(error) => {
                        return Err(error);
                    },
                    Ok(()) => {},
                }
            },
            _ => {},
        }
        i += 1;
    }
    proof {
        lemma_first_error_all_ok(steps);
    }
    let ghost descriptors = Seq::new(family_ops@.len(), |i: int| descriptor_check(family_ops@[i]));
    let mut d: usize = 0;
    while d < count
        invariant
            count == family_ops@.len(),
            count == rust_ops@.len(),
            family_ops@ == family.spec_operations(),
            rust_ops@ == rust.spec_operations(),
            steps == Seq::new(family_ops@.len(), |i: int| operation_step(family_ops@, rust_ops@, i)),
            first_error(steps) is Ok,
            descriptors == Seq::new(family_ops@.len(), |i: int| descriptor_check(family_ops@[i])),
            d <= count,
            forall|j: int| 0 <= j < d ==> (#[trigger] descriptors[j]) is Ok,
        decreases count - d,
    {
        proof {
            lemma_first_error_step(descriptors, d as int);
        }
        match check_descriptor(&family_ops[d]) {
            Err(error) => {
                return Err(error);
            },
            Ok(()) => {},
        }
        d += 1;
    }
    proof {
        lemma_first_error_all_ok(descriptors);
    }
    Ok(())
}

} // verus!
