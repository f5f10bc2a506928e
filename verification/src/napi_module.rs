//! The plan of a generated N-API module.
//!
//! A module registers one backend factory and, behind it, a dense table of
//! private functions: one per native operation, in id order, and nothing for
//! operations that the host performs.  The factory hands the session one
//! descriptor per operation.  This module decides every part of that shape
//! as plain values; emitting it as Rust source is left to the code generator.
use vstd::prelude::*;
use vstd::string::StringExecFns;

use crate::bridge::{ArgumentBinding, ErrorBinding, ReturnBinding, RustOperationPlan};
use crate::bridge_rules::{root_resource, selects_argument};
use crate::bridge_validate::root_resource_of;
use crate::engine::{
    has_argument_callbacks, lowers_receiver_synchronously, operation_requires_host, requires_host,
    session_dispatch, value_receiver_requires_sync_lower, dispatch_of,
};
use crate::engine_error::{EngineError, EngineRejection};
use crate::family::{
    AsyncKind, CallbackContract, CallbackUseSite, FamilyOperation, FamilyOperationTarget, ReceiverBinding,
    ResourceKind, StreamDirection, StreamUseSite, ValuePath, ValuePathSegment,
};
use crate::bridge::RustBridgePlan;
use crate::bridge_rules::engine_agrees;
use crate::engine::BACKEND_FACTORY_EXPORT;
use crate::family::{ClosePolicy, HostFlavor};
use crate::generation::{
    argument_lowering_check, check_descriptor, check_generation, descriptor_check,
    generation_check, lowering_check, native_operation_names, operation_step, raw_operation_name,
    raw_operation_names,
};
use crate::plan::FamilyPlan;
use crate::rules::lemma_all_pass;
use crate::session::{SessionNativeCall, SessionOperationDispatch};
use crate::text::{decimal_text, push_decimal};

verus! {

/// Copies one path segment.
fn copy_segment(segment: &ValuePathSegment) -> (copy: ValuePathSegment)
    ensures
        copy == *segment,
{
    match segment {
        ValuePathSegment::Argument(index) => ValuePathSegment::Argument(*index),
        ValuePathSegment::Return => ValuePathSegment::Return,
        ValuePathSegment::StreamItem => ValuePathSegment::StreamItem,
        ValuePathSegment::StreamError => ValuePathSegment::StreamError,
        ValuePathSegment::Field(name) => ValuePathSegment::Field(name.clone()),
        ValuePathSegment::Variant(name) => ValuePathSegment::Variant(name.clone()),
        ValuePathSegment::Optional => ValuePathSegment::Optional,
        ValuePathSegment::SequenceElement => ValuePathSegment::SequenceElement,
        ValuePathSegment::MapKey => ValuePathSegment::MapKey,
        ValuePathSegment::MapValue => ValuePathSegment::MapValue,
        ValuePathSegment::SetElement => ValuePathSegment::SetElement,
    }
}

/// Copies a path, segment by segment.
fn copy_path(path: &ValuePath) -> (copy: ValuePath)
    ensures
        copy.segments@ == path.segments@,
{
    let count = path.segments.len();
    let mut segments: Vec<ValuePathSegment> = Vec::new();
    let mut k: usize = 0;
    while k < count
        invariant
            count == path.segments@.len(),
            k <= count,
            segments@ == path.segments@.take(k as int),
        decreases count - k,
    {
        let segment = copy_segment(&path.segments[k]);
        segments.push(segment);
        proof {
            assert(segments@ =~= path.segments@.take(k + 1));
        }
        k += 1;
    }
    proof {
        assert(path.segments@.take(count as int) =~= path.segments@);
    }
    ValuePath { segments }
}

/// The receiver of an operation, as the session sees it.
#[derive(Clone, Copy, Debug, Eq, PartialEq, Structural)]
pub enum DescriptorReceiver {
    Value,
    Resource(ResourceKind),
}

/// A callback use site that the session lowers or tracks.
#[derive(Clone, Debug, Eq, PartialEq)]
pub struct SessionCallbackDescriptor {
    pub path: ValuePath,
    pub callback_type_id: u32,
    pub contract: CallbackContract,
}

/// An input stream that crosses into Rust through an argument.
#[derive(Clone, Debug, Eq, PartialEq)]
pub struct SessionStreamDescriptor {
    pub path: ValuePath,
    pub use_site_id: u32,
}

/// What the generated factory declares to the session for one operation.
#[derive(Clone, Debug, Eq, PartialEq)]
pub struct SessionOperationDescriptor {
    pub dispatch: SessionOperationDispatch,
    /// Whether the operation has a registered native function.
    pub callback: bool,
    pub native_call: SessionNativeCall,
    pub receiver: Option<DescriptorReceiver>,
    /// The kind of the resource that the return value itself is.
    pub result: Option<ResourceKind>,
    /// Whether argument callbacks are handed over through a transfer table.
    pub callback_transfer: bool,
    pub callback_arguments: Vec<SessionCallbackDescriptor>,
    pub stream_arguments: Vec<SessionStreamDescriptor>,
}

/// A native operation has a registered function, and no other does.
pub open spec fn callback_check(op: FamilyOperation, has_callback: bool) -> Result<(), EngineRejection> {
    if op.target is Native && !has_callback {
        Err(EngineRejection::MissingNativeCallback { operation_id: op.id })
    } else if !(op.target is Native) && has_callback {
        Err(EngineRejection::UnexpectedNativeCallback { operation_id: op.id })
    } else {
        Ok(())
    }
}

/// The refusals of one session descriptor, in order: its dispatch, its
/// registered function, then the roots of its callbacks, input streams and
/// output streams.
pub open spec fn session_descriptor_check(op: FamilyOperation, has_callback: bool) -> Result<
    (),
    EngineRejection,
> {
    if dispatch_of(op) is Err {
        Err(dispatch_of(op)->Err_0)
    } else if callback_check(op, has_callback) is Err {
        callback_check(op, has_callback)
    } else {
        descriptor_check(op)
    }
}

/// The session's view of a receiver.
pub open spec fn receiver_descriptor(receiver: Option<ReceiverBinding>) -> Option<DescriptorReceiver> {
    match receiver {
        None => None,
        Some(ReceiverBinding::Value) => Some(DescriptorReceiver::Value),
        Some(ReceiverBinding::Resource(binding)) => Some(DescriptorReceiver::Resource(binding.kind)),
    }
}

/// The kind of the resource that an operation's return value is.
pub open spec fn result_descriptor(op: FamilyOperation) -> Option<ResourceKind> {
    match root_resource(op.result_resources@) {
        None => None,
        Some(binding) => Some(binding.kind),
    }
}

/// How the session calls a native operation.
pub open spec fn native_call_of(rust_op: RustOperationPlan, op: FamilyOperation) -> SessionNativeCall {
    if requires_host(rust_op, op) {
        SessionNativeCall::HostAndArguments
    } else {
        SessionNativeCall::ArgumentsOnly
    }
}

/// The input streams of a use-site list, in order, by path and use-site id.
pub open spec fn input_stream_keys(streams: Seq<StreamUseSite>) -> Seq<(Seq<ValuePathSegment>, u32)>
    decreases streams.len(),
{
    if streams.len() == 0 {
        Seq::empty()
    } else if streams.last().direction == StreamDirection::Input {
        input_stream_keys(streams.drop_last()).push(
            (streams.last().path.segments@, streams.last().use_site_id),
        )
    } else {
        input_stream_keys(streams.drop_last())
    }
}

/// The input-stream keys of a use-site list are the input streams and
/// nothing else: every key is an input stream's path and use-site id, and
/// every input stream has its key.
pub proof fn lemma_input_stream_keys(streams: Seq<StreamUseSite>)
    ensures
        forall|k: int|
            0 <= k < input_stream_keys(streams).len() ==> exists|t: int|
                0 <= t < streams.len() && (#[trigger] streams[t]).direction == StreamDirection::Input
                    && #[trigger] input_stream_keys(streams)[k] == (
                    streams[t].path.segments@,
                    streams[t].use_site_id,
                ),
        forall|t: int|
            0 <= t < streams.len() && (#[trigger] streams[t]).direction == StreamDirection::Input
                ==> input_stream_keys(streams).contains(
                (streams[t].path.segments@, streams[t].use_site_id),
            ),
    decreases streams.len(),
{
    if streams.len() > 0 {
        let rest = streams.drop_last();
        lemma_input_stream_keys(rest);
        let keys = input_stream_keys(streams);
        let before = input_stream_keys(rest);
        assert forall|k: int| 0 <= k < keys.len() implies exists|t: int|
            0 <= t < streams.len() && (#[trigger] streams[t]).direction == StreamDirection::Input
                && #[trigger] keys[k] == (streams[t].path.segments@, streams[t].use_site_id) by {
            if k < before.len() {
                assert(keys[k] == before[k]);
                let t = choose|t: int|
                    0 <= t < rest.len() && (#[trigger] rest[t]).direction == StreamDirection::Input
                        && before[k] == (rest[t].path.segments@, rest[t].use_site_id);
                assert(streams[t] == rest[t]);
            } else {
                assert(streams[streams.len() - 1] == streams.last());
            }
        }
        assert forall|t: int|
            0 <= t < streams.len() && (#[trigger] streams[t]).direction == StreamDirection::Input
                implies keys.contains((streams[t].path.segments@, streams[t].use_site_id)) by {
            if t < rest.len() {
                assert(rest[t] == streams[t]);
                let k = choose|k: int| 0 <= k < before.len() && before[k] == (
                    rest[t].path.segments@,
                    rest[t].use_site_id,
                );
                assert(keys[k] == before[k]);
            } else {
                assert(keys[before.len() as int] == (streams[t].path.segments@, streams[t].use_site_id));
            }
        }
    }
}

/// The stream descriptors, by path and use-site id.
pub open spec fn stream_descriptor_keys(streams: Seq<SessionStreamDescriptor>) -> Seq<
    (Seq<ValuePathSegment>, u32),
> {
    streams.map_values(|s: SessionStreamDescriptor| (s.path.segments@, s.use_site_id))
}

/// The descriptor of an operation is exactly this.
pub open spec fn descriptor_fits(
    descriptor: SessionOperationDescriptor,
    op: FamilyOperation,
    rust_op: RustOperationPlan,
    has_callback: bool,
) -> bool {
    &&& dispatch_of(op) == Ok::<SessionOperationDispatch, EngineRejection>(descriptor.dispatch)
    &&& descriptor.callback == has_callback
    &&& descriptor.native_call == native_call_of(rust_op, op)
    &&& descriptor.receiver == receiver_descriptor(op.receiver)
    &&& descriptor.result == result_descriptor(op)
    &&& descriptor.callback_transfer == (op.target is Native && has_argument_callbacks(op))
    &&& descriptor.callback_arguments@.len() == op.callbacks@.len()
    &&& forall|k: int|
        0 <= k < op.callbacks@.len() ==> {
            &&& (#[trigger] descriptor.callback_arguments@[k]).path.segments@
                == op.callbacks@[k].path.segments@
            &&& descriptor.callback_arguments@[k].callback_type_id == op.callbacks@[k].callback_type_id
            &&& descriptor.callback_arguments@[k].contract == op.callbacks@[k].contract
        }
    &&& stream_descriptor_keys(descriptor.stream_arguments@) == input_stream_keys(op.streams@)
}

/// Decides whether some callback is rooted at an argument.
fn argument_callbacks_present(op: &FamilyOperation) -> (present: bool)
    ensures
        present == has_argument_callbacks(*op),
{
    let count = op.callbacks.len();
    let mut k: usize = 0;
    while k < count
        invariant
            count == op.callbacks@.len(),
            k <= count,
            forall|i: int|
                0 <= i < k ==> !((#[trigger] op.callbacks@[i]).path.segments@.len() > 0
                    && op.callbacks@[i].path.segments@[0] is Argument),
        decreases count - k,
    {
        let segments = &op.callbacks[k].path.segments;
        if segments.len() > 0 {
            match &segments[0] {
                ValuePathSegment::Argument(_) => {
                    return true;
                },
                _ => {},
            }
        }
        k += 1;
    }
    false
}

/// The session's view of a receiver, executably.
fn describe_receiver(receiver: Option<ReceiverBinding>) -> (described: Option<DescriptorReceiver>)
    ensures
        described == receiver_descriptor(receiver),
{
    match receiver {
        None => None,
        Some(ReceiverBinding::Value) => Some(DescriptorReceiver::Value),
        Some(ReceiverBinding::Resource(binding)) => Some(DescriptorReceiver::Resource(binding.kind)),
    }
}

/// The callback descriptors of an operation, in order.
fn describe_callbacks(op: &FamilyOperation) -> (described: Vec<SessionCallbackDescriptor>)
    ensures
        described@.len() == op.callbacks@.len(),
        forall|k: int|
            0 <= k < op.callbacks@.len() ==> {
                &&& (#[trigger] described@[k]).path.segments@ == op.callbacks@[k].path.segments@
                &&& described@[k].callback_type_id == op.callbacks@[k].callback_type_id
                &&& described@[k].contract == op.callbacks@[k].contract
            },
{
    let count = op.callbacks.len();
    let mut described: Vec<SessionCallbackDescriptor> = Vec::new();
    let mut k: usize = 0;
    while k < count
        invariant
            count == op.callbacks@.len(),
            k <= count,
            described@.len() == k,
            forall|j: int|
                0 <= j < k ==> {
                    &&& (#[trigger] described@[j]).path.segments@ == op.callbacks@[j].path.segments@
                    &&& described@[j].callback_type_id == op.callbacks@[j].callback_type_id
                    &&& described@[j].contract == op.callbacks@[j].contract
                },
        decreases count - k,
    {
        let use_site = &op.callbacks[k];
        let path = copy_path(&use_site.path);
        described.push(
            SessionCallbackDescriptor {
                path,
                callback_type_id: use_site.callback_type_id,
                contract: use_site.contract,
            },
        );
        k += 1;
    }
    described
}

/// The input-stream descriptors of an operation, in order.
fn describe_input_streams(op: &FamilyOperation) -> (described: Vec<SessionStreamDescriptor>)
    ensures
        stream_descriptor_keys(described@) == input_stream_keys(op.streams@),
{
    let count = op.streams.len();
    let mut described: Vec<SessionStreamDescriptor> = Vec::new();
    let mut k: usize = 0;
    while k < count
        invariant
            count == op.streams@.len(),
            k <= count,
            stream_descriptor_keys(described@) == input_stream_keys(op.streams@.take(k as int)),
        decreases count - k,
    {
        proof {
            assert(op.streams@.take(k + 1).drop_last() =~= op.streams@.take(k as int));
            assert(op.streams@.take(k + 1).last() == op.streams@[k as int]);
        }
        if op.streams[k].direction == StreamDirection::Input {
            let path = copy_path(&op.streams[k].path);
            let ghost before = described@;
            described.push(SessionStreamDescriptor { path, use_site_id: op.streams[k].use_site_id });
            proof {
                assert(stream_descriptor_keys(described@) =~= stream_descriptor_keys(before).push(
                    (op.streams@[k as int].path.segments@, op.streams@[k as int].use_site_id),
                ));
            }
        }
        k += 1;
    }
    proof {
        assert(op.streams@.take(count as int) =~= op.streams@);
    }
    described
}

/// Builds the session descriptor of one operation, whose native function is
/// registered when `has_callback` holds.
pub fn session_operation_descriptor(
    op: &FamilyOperation,
    rust_op: &RustOperationPlan,
    has_callback: bool,
) -> (result: Result<SessionOperationDescriptor, EngineError>)
    ensures
        match result {
            Ok(descriptor) => session_descriptor_check(*op, has_callback) is Ok && descriptor_fits(
                descriptor,
                *op,
                *rust_op,
                has_callback,
            ),
            Err(error) => session_descriptor_check(*op, has_callback) == Err::<(), EngineRejection>(
                error@,
            ),
        },
{
    let dispatch = match session_dispatch(op) {
        Err(error) => {
            return Err(error);
        },
        Ok(dispatch) => dispatch,
    };
    let native = match op.target {
        FamilyOperationTarget::Native => true,
        _ => false,
    };
    if native && !has_callback {
        return Err(EngineError::MissingNativeCallback { operation_id: op.id });
    }
    if !native && has_callback {
        return Err(EngineError::UnexpectedNativeCallback { operation_id: op.id });
    }
    match check_descriptor(op) {
        Err(error) => {
            return Err(error);
        },
        Ok(()) => {},
    }
    let native_call = if operation_requires_host(rust_op, op) {
        SessionNativeCall::HostAndArguments
    } else {
        SessionNativeCall::ArgumentsOnly
    };
    let result = match root_resource_of(&op.result_resources) {
        None => None,
        Some(binding) => Some(binding.kind),
    };
    let callback_transfer = native && argument_callbacks_present(op);
    Ok(
        SessionOperationDescriptor {
            dispatch,
            callback: has_callback,
            native_call,
            receiver: describe_receiver(op.receiver),
            result,
            callback_transfer,
            callback_arguments: describe_callbacks(op),
            stream_arguments: describe_input_streams(op),
        },
    )
}

/// How a native function prepares one argument, or its receiver, before
/// the call.
#[derive(Clone, Copy, Debug, Eq, PartialEq, Structural)]
pub enum ArgumentLowering {
    Direct,
    I64BigInt,
    U64BigInt,
    LowerWith,
    LowerWithHost,
    ObjectLease,
    OutputStreamLease,
    /// Builds a callback proxy from the callback use site at this index of
    /// the operation's callbacks.
    CallbackProxy { callback_index: usize, callback_type_id: u32 },
    InputStreamProxy,
}

/// How a native function turns the Rust return value into its carrier.
#[derive(Clone, Copy, Debug, Eq, PartialEq, Structural)]
pub enum ReturnLift {
    /// The value is its own carrier.
    Value,
    /// The value becomes BigInt words.
    BigInt,
    /// A lifter, which may fail, makes the carrier.
    LiftWith,
}

/// Whether a path is exactly argument `index`.
pub open spec fn direct_callback_at(segments: Seq<ValuePathSegment>, index: int) -> bool {
    &&& segments.len() == 1
    &&& segments[0] matches ValuePathSegment::Argument(argument) && argument as int == index
}

/// Whether `k` is the first callback use site that is exactly argument
/// `index`.
pub open spec fn first_direct_callback(callbacks: Seq<CallbackUseSite>, index: int, k: int) -> bool {
    &&& 0 <= k < callbacks.len()
    &&& direct_callback_at(callbacks[k].path.segments@, index)
    &&& forall|j: int|
        0 <= j < k ==> !direct_callback_at(#[trigger] callbacks[j].path.segments@, index)
}

/// The lowering of a binding that builds no callback proxy.
pub open spec fn plain_lowering(binding: ArgumentBinding) -> ArgumentLowering {
    match binding {
        ArgumentBinding::Direct { .. } => ArgumentLowering::Direct,
        ArgumentBinding::I64BigInt => ArgumentLowering::I64BigInt,
        ArgumentBinding::U64BigInt => ArgumentLowering::U64BigInt,
        ArgumentBinding::LowerWith { .. } => ArgumentLowering::LowerWith,
        ArgumentBinding::LowerWithHost { .. } => ArgumentLowering::LowerWithHost,
        ArgumentBinding::ObjectLease { .. } => ArgumentLowering::ObjectLease,
        ArgumentBinding::OutputStreamLease { .. } => ArgumentLowering::OutputStreamLease,
        ArgumentBinding::CallbackProxy { .. } => ArgumentLowering::LowerWithHost,
        ArgumentBinding::InputStreamProxy { .. } => ArgumentLowering::InputStreamProxy,
    }
}

/// The lowering of argument `index`: a callback proxy is built from the
/// first callback use site that is exactly this argument; every other
/// binding keeps its kind.
pub open spec fn argument_lowering_fits(
    family: FamilyOperation,
    binding: ArgumentBinding,
    index: int,
    lowering: ArgumentLowering,
) -> bool {
    if binding is CallbackProxy {
        &&& lowering matches ArgumentLowering::CallbackProxy { callback_index, callback_type_id }
            && first_direct_callback(family.callbacks@, index, callback_index as int)
            && callback_type_id == family.callbacks@[callback_index as int].callback_type_id
    } else {
        lowering == plain_lowering(binding)
    }
}

/// The lift of a return binding.
pub open spec fn return_lift(binding: ReturnBinding) -> ReturnLift {
    match binding {
        ReturnBinding::Unit | ReturnBinding::Direct { .. } => ReturnLift::Value,
        ReturnBinding::I64BigInt | ReturnBinding::U64BigInt => ReturnLift::BigInt,
        _ => ReturnLift::LiftWith,
    }
}

/// The private N-API function of one native operation.
#[derive(Clone, Debug, Eq, PartialEq)]
pub struct NativeOperationPlan {
    pub operation_id: u32,
    pub raw_name: String,
    pub asynchronous: bool,
    /// Whether the function takes the session host first.
    pub requires_host: bool,
    /// Whether an async function is entered synchronously, lowering its
    /// arguments before the future starts.
    pub manual_async_entry: bool,
    /// Whether argument callbacks come through a transfer table.
    pub callback_transfer: bool,
    pub receiver: Option<ArgumentLowering>,
    pub arguments: Vec<ArgumentLowering>,
    pub return_lift: ReturnLift,
    /// Whether a Rust error is mapped to an error descriptor.
    pub maps_error: bool,
    /// Whether the function checks its JavaScript arguments strictly.
    pub strict: bool,
    /// Whether the function is left out of the TypeScript declarations.
    pub skip_typescript: bool,
    /// Whether the function is a public export of the module.
    pub exported: bool,
    /// The name under which the function registers itself.
    pub register_name: String,
    /// The name of the function that hands the registered callback to the
    /// backend factory.
    pub callback_factory: String,
}

/// The name under which the private function of an operation registers.
pub open spec fn raw_register_name(id: u32) -> Seq<char> {
    "__napi_register_uniffi_raw_operation_"@ + decimal_text(id as nat)
}

/// The name of the callback factory of an operation's private function.
pub open spec fn raw_callback_factory(id: u32) -> Seq<char> {
    "_napi_rs_internal_register___uniffi_raw_operation_"@ + decimal_text(id as nat)
}

/// The function of a native operation is exactly this.
pub open spec fn native_plan_fits(
    plan: NativeOperationPlan,
    family: FamilyOperation,
    op: RustOperationPlan,
) -> bool {
    let asynchronous = family.async_kind == AsyncKind::Async;
    &&& plan.operation_id == op.operation_id
    &&& plan.raw_name@ == raw_operation_name(op.operation_id)
    &&& plan.asynchronous == asynchronous
    &&& plan.requires_host == requires_host(op, family)
    &&& plan.manual_async_entry == (asynchronous && (requires_host(op, family)
        || lowers_receiver_synchronously(op, family)))
    &&& plan.callback_transfer == has_argument_callbacks(family)
    &&& plan.receiver == match op.receiver {
        None => None,
        Some(receiver) => Some(plain_lowering(receiver.binding)),
    }
    &&& plan.arguments@.len() == op.arguments@.len()
    &&& forall|k: int|
        0 <= k < op.arguments@.len() ==> argument_lowering_fits(
            family,
            op.arguments@[k].binding,
            k,
            #[trigger] plan.arguments@[k],
        )
    &&& plan.return_lift == return_lift(op.return_binding)
    &&& plan.maps_error == (op.error_binding is Descriptor)
    &&& plan.strict
    &&& plan.skip_typescript
    &&& !plan.exported
    &&& plan.register_name@ == raw_register_name(op.operation_id)
    &&& plan.callback_factory@ == raw_callback_factory(op.operation_id)
}

/// What a native function does with its return value and arguments, binding
/// kind by binding kind: BigInt words for 64-bit integers, the value itself
/// for unit and direct returns, the lifter otherwise; each argument or
/// receiver binding keeps its kind, a callback proxy naming the first
/// callback use site that is exactly its argument.
pub proof fn lemma_native_plan_lowerings(
    plan: NativeOperationPlan,
    family: FamilyOperation,
    op: RustOperationPlan,
)
    requires
        native_plan_fits(plan, family, op),
    ensures
        plan.return_lift == ReturnLift::BigInt <==> (op.return_binding is I64BigInt
            || op.return_binding is U64BigInt),
        plan.return_lift == ReturnLift::Value <==> (op.return_binding is Unit
            || op.return_binding is Direct),
        plan.return_lift == ReturnLift::LiftWith <==> (op.return_binding is LiftWith
            || op.return_binding is ObjectLease || op.return_binding is CallbackLease
            || op.return_binding is OutputStreamLease),
        forall|k: int|
            0 <= k < op.arguments@.len() ==> {
                let binding = (#[trigger] op.arguments@[k]).binding;
                let lowering = plan.arguments@[k];
                &&& binding is Direct ==> lowering == ArgumentLowering::Direct
                &&& binding is I64BigInt ==> lowering == ArgumentLowering::I64BigInt
                &&& binding is U64BigInt ==> lowering == ArgumentLowering::U64BigInt
                &&& binding is LowerWith ==> lowering == ArgumentLowering::LowerWith
                &&& binding is LowerWithHost ==> lowering == ArgumentLowering::LowerWithHost
                &&& binding is ObjectLease ==> lowering == ArgumentLowering::ObjectLease
                &&& binding is OutputStreamLease ==> lowering == ArgumentLowering::OutputStreamLease
                &&& binding is InputStreamProxy ==> lowering == ArgumentLowering::InputStreamProxy
                &&& binding is CallbackProxy ==> (lowering matches ArgumentLowering::CallbackProxy {
                    callback_index,
                    callback_type_id,
                } && callback_index < family.callbacks@.len() && family.callbacks@[callback_index as int].path.segments@
                    =~= seq![ValuePathSegment::Argument(k as u32)] && callback_type_id
                    == family.callbacks@[callback_index as int].callback_type_id)
            },
        op.receiver matches Some(receiver) ==> {
            let binding = receiver.binding;
            &&& binding is Direct ==> plan.receiver == Some(ArgumentLowering::Direct)
            &&& binding is I64BigInt ==> plan.receiver == Some(ArgumentLowering::I64BigInt)
            &&& binding is U64BigInt ==> plan.receiver == Some(ArgumentLowering::U64BigInt)
            &&& binding is LowerWith ==> plan.receiver == Some(ArgumentLowering::LowerWith)
            &&& binding is LowerWithHost ==> plan.receiver == Some(ArgumentLowering::LowerWithHost)
            &&& binding is ObjectLease ==> plan.receiver == Some(ArgumentLowering::ObjectLease)
            &&& binding is OutputStreamLease ==> plan.receiver == Some(
                ArgumentLowering::OutputStreamLease,
            )
        },
        op.receiver is None ==> plan.receiver is None,
{
    assert forall|k: int| 0 <= k < op.arguments@.len() implies {
        let binding = (#[trigger] op.arguments@[k]).binding;
        let lowering = plan.arguments@[k];
        binding is CallbackProxy ==> (lowering matches ArgumentLowering::CallbackProxy {
            callback_index,
            callback_type_id,
        } && callback_index < family.callbacks@.len() && family.callbacks@[callback_index as int].path.segments@
            =~= seq![ValuePathSegment::Argument(k as u32)] && callback_type_id
            == family.callbacks@[callback_index as int].callback_type_id)
    } by {
        assert(argument_lowering_fits(family, op.arguments@[k].binding, k, plan.arguments@[k]));
        if op.arguments@[k].binding is CallbackProxy {
            let lowering = plan.arguments@[k];
            if let ArgumentLowering::CallbackProxy { callback_index, callback_type_id } = lowering {
                let segments = family.callbacks@[callback_index as int].path.segments@;
                assert(direct_callback_at(segments, k));
                assert(segments =~= seq![ValuePathSegment::Argument(k as u32)]);
            }
        }
    }
}

/// The lowering of a binding that builds no callback proxy, executably.
fn lower_plainly(binding: &ArgumentBinding) -> (lowering: ArgumentLowering)
    ensures
        lowering == plain_lowering(*binding),
{
    match binding {
        ArgumentBinding::Direct { .. } => ArgumentLowering::Direct,
        ArgumentBinding::I64BigInt => ArgumentLowering::I64BigInt,
        ArgumentBinding::U64BigInt => ArgumentLowering::U64BigInt,
        ArgumentBinding::LowerWith { .. } => ArgumentLowering::LowerWith,
        ArgumentBinding::LowerWithHost { .. } => ArgumentLowering::LowerWithHost,
        ArgumentBinding::ObjectLease { .. } => ArgumentLowering::ObjectLease,
        ArgumentBinding::OutputStreamLease { .. } => ArgumentLowering::OutputStreamLease,
        ArgumentBinding::CallbackProxy { .. } => ArgumentLowering::LowerWithHost,
        ArgumentBinding::InputStreamProxy { .. } => ArgumentLowering::InputStreamProxy,
    }
}

/// Whether a path is exactly argument `index`, executably.
fn is_direct_callback(segments: &Vec<ValuePathSegment>, index: usize) -> (direct: bool)
    ensures
        direct == direct_callback_at(segments@, index as int),
{
    if segments.len() != 1 {
        return false;
    }
    match &segments[0] {
        ValuePathSegment::Argument(argument) => *argument as usize == index,
        _ => false,
    }
}

/// The lowering of one argument of a lowerable operation.
fn lower_argument(family: &FamilyOperation, op: &RustOperationPlan, index: usize) -> (lowering:
    ArgumentLowering)
    requires
        index < op.arguments@.len(),
        argument_lowering_check(*family, *op, index as int) is Ok,
    ensures
        argument_lowering_fits(*family, op.arguments@[index as int].binding, index as int, lowering),
{
    match &op.arguments[index].binding {
        ArgumentBinding::CallbackProxy { .. } => {},
        other => {
            return lower_plainly(other);
        },
    }
    let count = family.callbacks.len();
    let ghost witness = choose|k: int|
        0 <= k < family.callbacks@.len() && #[trigger] selects_argument(
            family.callbacks@[k].path.segments@,
            index as int,
        ) && (family.callbacks@[k].path.segments@.len() == 1) == true;
    let mut k: usize = 0;
    while k < count
        invariant
            count == family.callbacks@.len(),
            index < op.arguments@.len(),
            op.arguments@[index as int].binding is CallbackProxy,
            k <= count,
            0 <= witness < count,
            direct_callback_at(family.callbacks@[witness].path.segments@, index as int),
            forall|j: int|
                0 <= j < k ==> !direct_callback_at(
                    #[trigger] family.callbacks@[j].path.segments@,
                    index as int,
                ),
        decreases count - k,
    {
        if is_direct_callback(&family.callbacks[k].path.segments, index) {
            return ArgumentLowering::CallbackProxy {
                callback_index: k,
                callback_type_id: family.callbacks[k].callback_type_id,
            };
        }
        k += 1;
    }
    proof {
        assert(!direct_callback_at(family.callbacks@[witness].path.segments@, index as int));
    }
    ArgumentLowering::Direct
}

/// The lift of a return binding, executably.
fn lift_of(binding: &ReturnBinding) -> (lift: ReturnLift)
    ensures
        lift == return_lift(*binding),
{
    match binding {
        ReturnBinding::Unit | ReturnBinding::Direct { .. } => ReturnLift::Value,
        ReturnBinding::I64BigInt | ReturnBinding::U64BigInt => ReturnLift::BigInt,
        _ => ReturnLift::LiftWith,
    }
}

/// The name of the private function of an operation, executably.
fn raw_name_of(id: u32) -> (name: String)
    ensures
        name@ == raw_operation_name(id),
{
    let mut name = String::new();
    name.append("__uniffi_raw_operation_");
    push_decimal(&mut name, id as u64);
    name
}

/// The register name of an operation's private function, executably.
fn register_name_of(id: u32) -> (name: String)
    ensures
        name@ == raw_register_name(id),
{
    let mut name = String::new();
    name.append("__napi_register_uniffi_raw_operation_");
    push_decimal(&mut name, id as u64);
    name
}

/// The callback factory name of an operation's private function,
/// executably.
fn callback_factory_of(id: u32) -> (name: String)
    ensures
        name@ == raw_callback_factory(id),
{
    let mut name = String::new();
    name.append("_napi_rs_internal_register___uniffi_raw_operation_");
    push_decimal(&mut name, id as u64);
    name
}

/// Plans the private function of a native operation that can be lowered.
pub fn plan_native_operation(family: &FamilyOperation, op: &RustOperationPlan) -> (plan:
    NativeOperationPlan)
    requires
        lowering_check(*family, *op) is Ok,
    ensures
        native_plan_fits(plan, *family, *op),
        plan.return_lift == ReturnLift::BigInt <==> (op.return_binding is I64BigInt
            || op.return_binding is U64BigInt),
        plan.return_lift == ReturnLift::Value <==> (op.return_binding is Unit
            || op.return_binding is Direct),
{
    let ghost checks = Seq::new(
        op.arguments@.len(),
        |index: int| argument_lowering_check(*family, *op, index),
    );
    proof {
        lemma_all_pass(checks);
    }
    let count = op.arguments.len();
    let mut arguments: Vec<ArgumentLowering> = Vec::new();
    let mut index: usize = 0;
    while index < count
        invariant
            count == op.arguments@.len(),
            checks == Seq::new(
                op.arguments@.len(),
                |index: int| argument_lowering_check(*family, *op, index),
            ),
            forall|j: int| 0 <= j < count ==> (#[trigger] checks[j]) is Ok,
            index <= count,
            arguments@.len() == index,
            forall|j: int|
                0 <= j < index ==> argument_lowering_fits(
                    *family,
                    op.arguments@[j].binding,
                    j,
                    #[trigger] arguments@[j],
                ),
        decreases count - index,
    {
        assert(checks[index as int] is Ok);
        let lowering = lower_argument(family, op, index);
        arguments.push(lowering);
        index += 1;
    }
    let receiver = match &op.receiver {
        None => None,
        Some(receiver) => Some(lower_plainly(&receiver.binding)),
    };
    let asynchronous = match family.async_kind {
        AsyncKind::Async => true,
        AsyncKind::Sync => false,
    };
    let requires_host = operation_requires_host(op, family);
    let manual_async_entry = asynchronous && (requires_host || value_receiver_requires_sync_lower(
        op,
        family,
    ));
    let maps_error = match &op.error_binding {
        ErrorBinding::Descriptor { .. } => true,
        ErrorBinding::Infallible => false,
    };
    let plan = NativeOperationPlan {
        operation_id: op.operation_id,
        raw_name: raw_name_of(op.operation_id),
        asynchronous,
        requires_host,
        manual_async_entry,
        callback_transfer: argument_callbacks_present(family),
        receiver,
        arguments,
        return_lift: lift_of(&op.return_binding),
        maps_error,
        strict: true,
        skip_typescript: true,
        exported: false,
        register_name: register_name_of(op.operation_id),
        callback_factory: callback_factory_of(op.operation_id),
    };
    proof {
        lemma_native_plan_lowerings(plan, *family, *op);
    }
    plan
}

/// Which resource callbacks the factory registers.
#[derive(Clone, Copy, Debug, Eq, PartialEq, Structural)]
pub struct ResourceCallbackPlan {
    pub release_object: bool,
    pub cancel_output_stream: bool,
    pub release_output_stream: bool,
}

/// The plan of a generated module: its function table in id order, the
/// session descriptor of every operation, the resource callbacks, and its
/// one export, the backend factory.
#[derive(Clone, Debug, Eq, PartialEq)]
pub struct NapiModulePlan<'a> {
    /// The family plan that the module is made from.
    pub family: &'a FamilyPlan,
    pub flavor: HostFlavor,
    pub close_policy: ClosePolicy,
    /// One entry per operation, in id order: the private function of a
    /// native operation, nothing for an operation of the host.
    pub functions: Vec<Option<NativeOperationPlan>>,
    pub descriptors: Vec<SessionOperationDescriptor>,
    pub resource_callbacks: ResourceCallbackPlan,
    /// The names of the private functions, in order.
    pub raw_operation_names: Vec<String>,
    /// The module's public exports.
    pub exports: Vec<String>,
    /// The name under which the backend factory registers.
    pub factory_register_name: String,
}

impl<'a> NapiModulePlan<'a> {
    /// The family plan that the module is made from.
    pub fn family(&self) -> (family: &'a FamilyPlan)
        ensures
            family == self.family,
    {
        self.family
    }
}

/// The name under which the backend factory registers.
pub open spec fn factory_register_name() -> Seq<char> {
    "__napi_register_uniffi_backend_factory"@
}

/// The plan of the module of a family plan and a Rust call plan is exactly
/// this.
pub open spec fn module_plan_fits(plan: NapiModulePlan, family: &FamilyPlan, rust: RustBridgePlan) -> bool {
    let family_ops = family.spec_operations();
    let rust_ops = rust.spec_operations();
    let hooks = rust.spec_resource_hooks();
    &&& plan.family == family
    &&& plan.flavor == family.spec_flavor()
    &&& plan.close_policy == family.spec_close_policy()
    &&& plan.functions@.len() == family_ops.len()
    &&& forall|k: int|
        0 <= k < family_ops.len() ==> ((#[trigger] plan.functions@[k]) is Some
            <==> family_ops[k].target is Native)
    &&& forall|k: int|
        0 <= k < family_ops.len() && (#[trigger] plan.functions@[k]) is Some ==> native_plan_fits(
            plan.functions@[k]->Some_0,
            family_ops[k],
            rust_ops[k],
        )
    &&& plan.descriptors@.len() == family_ops.len()
    &&& forall|k: int|
        0 <= k < family_ops.len() ==> descriptor_fits(
            #[trigger] plan.descriptors@[k],
            family_ops[k],
            rust_ops[k],
            family_ops[k].target is Native,
        )
    &&& plan.resource_callbacks == ResourceCallbackPlan {
        release_object: hooks.release_object is Some,
        cancel_output_stream: hooks.cancel_output_stream is Some,
        release_output_stream: hooks.release_output_stream is Some,
    }
    &&& plan.raw_operation_names@.map_values(|name: String| name@) == native_operation_names(
        family_ops,
    )
    &&& plan.exports@.len() == 1
    &&& plan.exports@[0]@ == BACKEND_FACTORY_EXPORT@
    &&& plan.factory_register_name@ == factory_register_name()
}

/// Plans the N-API module of a family plan and a Rust call plan accepted
/// against it: refused exactly as generation refuses the pair, and
/// otherwise exactly the module that `module_plan_fits` describes.
pub fn plan_napi_module<'a>(family: &'a FamilyPlan, rust: &RustBridgePlan) -> (result: Result<
    NapiModulePlan<'a>,
    EngineError,
>)
    ensures
        engine_agrees(result, generation_check(family.spec_operations(), rust.spec_operations())),
        result matches Ok(plan) ==> module_plan_fits(plan, family, *rust),
        result matches Ok(plan) ==> forall|k: int|
            0 <= k < plan.functions@.len() && (#[trigger] plan.functions@[k]) is Some ==> {
                let lift = plan.functions@[k]->Some_0.return_lift;
                let binding = rust.spec_operations()[k].return_binding;
                &&& lift == ReturnLift::BigInt <==> (binding is I64BigInt || binding is U64BigInt)
                &&& lift == ReturnLift::Value <==> (binding is Unit || binding is Direct)
                &&& lift == ReturnLift::LiftWith <==> (binding is LiftWith || binding is ObjectLease
                    || binding is CallbackLease || binding is OutputStreamLease)
            },
{
    match check_generation(family, rust) {
        Err(error) => {
            return Err(error);
        },
        Ok(()) => {},
    }
    let family_ops = family.operations();
    let rust_ops = rust.operations();
    let count = family_ops.len();
    proof {
        let steps = Seq::new(
            family_ops@.len(),
            |i: int| operation_step(family_ops@, rust_ops@, i),
        );
        let descriptors = Seq::new(family_ops@.len(), |i: int| descriptor_check(family_ops@[i]));
        lemma_all_pass(steps);
        lemma_all_pass(descriptors);
        assert forall|i: int| 0 <= i < count implies operation_step(family_ops@, rust_ops@, i) is Ok
            && descriptor_check(#[trigger] family_ops@[i]) is Ok by {
            assert(steps[i] is Ok);
            assert(descriptors[i] is Ok);
        }
    }
    let mut functions: Vec<Option<NativeOperationPlan>> = Vec::new();
    let mut descriptors: Vec<SessionOperationDescriptor> = Vec::new();
    let mut i: usize = 0;
    while i < count
        invariant
            count == family_ops@.len(),
            count == rust_ops@.len(),
            family_ops@ == family.spec_operations(),
            rust_ops@ == rust.spec_operations(),
            forall|j: int|
                0 <= j < count ==> operation_step(family_ops@, rust_ops@, j) is Ok
                    && descriptor_check(#[trigger] family_ops@[j]) is Ok,
            i <= count,
            functions@.len() == i,
            descriptors@.len() == i,
            forall|k: int|
                0 <= k < i ==> ((#[trigger] functions@[k]) is Some <==> family_ops@[k].target is Native),
            forall|k: int|
                0 <= k < i && (#[trigger] functions@[k]) is Some ==> native_plan_fits(
                    functions@[k]->Some_0,
                    family_ops@[k],
                    rust_ops@[k],
                ),
            forall|k: int|
                0 <= k < i ==> descriptor_fits(
                    #[trigger] descriptors@[k],
                    family_ops@[k],
                    rust_ops@[k],
                    family_ops@[k].target is Native,
                ),
        decreases count - i,
    {
        let op = &family_ops[i];
        let rust_op = &rust_ops[i];
        assert(descriptor_check(family_ops@[i as int]) is Ok);
        assert(operation_step(family_ops@, rust_ops@, i as int) is Ok);
        let native = match op.target {
            FamilyOperationTarget::Native => true,
            _ => false,
        };
        if native {
            let planned = plan_native_operation(op, rust_op);
            functions.push(Some(planned));
        } else {
            functions.push(None);
        }
        match session_operation_descriptor(op, rust_op, native) {
            Ok(descriptor) => {
                descriptors.push(descriptor);
            },
            Err(error) => {
                proof {
                    assert(session_descriptor_check(*op, native) is Ok);
                }
                return Err(error);
            },
        }
        i += 1;
    }
    let hooks = rust.resource_hooks();
    let resource_callbacks = ResourceCallbackPlan {
        release_object: hooks.release_object.is_some(),
        cancel_output_stream: hooks.cancel_output_stream.is_some(),
        release_output_stream: hooks.release_output_stream.is_some(),
    };
    let mut export = String::new();
    export.append(BACKEND_FACTORY_EXPORT);
    let mut exports: Vec<String> = Vec::new();
    exports.push(export);
    proof {
        assert forall|k: int|
            0 <= k < functions@.len() && (#[trigger] functions@[k]) is Some implies {
            let lift = functions@[k]->Some_0.return_lift;
            let binding = rust.spec_operations()[k].return_binding;
            &&& lift == ReturnLift::BigInt <==> (binding is I64BigInt || binding is U64BigInt)
            &&& lift == ReturnLift::Value <==> (binding is Unit || binding is Direct)
            &&& lift == ReturnLift::LiftWith <==> (binding is LiftWith || binding is ObjectLease
                || binding is CallbackLease || binding is OutputStreamLease)
        } by {
            lemma_native_plan_lowerings(functions@[k]->Some_0, family_ops@[k], rust_ops@[k]);
        }
    }
    let mut factory_register = String::new();
    factory_register.append("__napi_register_uniffi_backend_factory");
    Ok(
        NapiModulePlan {
            family,
            flavor: family.flavor(),
            close_policy: family.close_policy(),
            functions,
            descriptors,
            resource_callbacks,
            raw_operation_names: raw_operation_names(family),
            exports,
            factory_register_name: factory_register,
        },
    )
}

} // verus!
