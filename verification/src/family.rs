//! The mechanical operation model shared by the N-API family backends.
//!
//! The family planner carries no UniFFI type graph: it sees dispatch slots,
//! value paths and resource lifecycle relationships only.
use vstd::prelude::*;

verus! {

/// The two hosts that share the N-API family lowering.
#[derive(Clone, Copy, Debug, PartialEq, Eq, PartialOrd, Ord, Hash, Structural)]
pub enum HostFlavor {
    Node,
    Ohos,
}

/// Action to take when a session close grace period expires.
#[derive(Clone, Copy, Debug, PartialEq, Eq, Structural)]
pub enum DeadlineAction {
    Detach,
}

/// Immutable close policy projected by the frontend.
#[derive(Clone, Copy, Debug, PartialEq, Eq, Structural)]
pub struct ClosePolicy {
    pub grace_ms: u32,
    pub on_deadline: DeadlineAction,
}

#[derive(Clone, Copy, Debug, PartialEq, Eq, Structural)]
pub enum ModuleRegistration {
    Node,
    Ark,
}

#[derive(Clone, Copy, Debug, PartialEq, Eq, Structural)]
pub enum AsyncScheduler {
    NodeEventLoop,
    ArkEventLoop,
}

#[derive(Clone, Copy, Debug, PartialEq, Eq, Structural)]
pub enum CallbackDispatch {
    ThreadsafeFunction,
    ArkPriorityThreadsafeFunction,
}

#[derive(Clone, Copy, Debug, PartialEq, Eq, Structural)]
pub enum CleanupQueue {
    EnvironmentHook,
    ArkRuntime,
}

/// The host-specific hooks of one flavor.
#[derive(Clone, Copy, Debug, PartialEq, Eq, Structural)]
pub struct HostHooks {
    pub module_registration: ModuleRegistration,
    pub async_scheduler: AsyncScheduler,
    pub callback_dispatch: CallbackDispatch,
    pub cleanup_queue: CleanupQueue,
}

/// The hooks that each host flavor selects.
pub open spec fn flavor_hooks(flavor: HostFlavor) -> HostHooks {
    match flavor {
        HostFlavor::Node => HostHooks {
            module_registration: ModuleRegistration::Node,
            async_scheduler: AsyncScheduler::NodeEventLoop,
            callback_dispatch: CallbackDispatch::ThreadsafeFunction,
            cleanup_queue: CleanupQueue::EnvironmentHook,
        },
        HostFlavor::Ohos => HostHooks {
            module_registration: ModuleRegistration::Ark,
            async_scheduler: AsyncScheduler::ArkEventLoop,
            callback_dispatch: CallbackDispatch::ArkPriorityThreadsafeFunction,
            cleanup_queue: CleanupQueue::ArkRuntime,
        },
    }
}

impl HostFlavor {
    /// The hooks of this flavor: Node registers through the Node module
    /// table, Ohos through Ark.
    pub fn hooks(self) -> (hooks: HostHooks)
        ensures
            hooks == flavor_hooks(self),
    {
        match self {
            HostFlavor::Node => HostHooks {
                module_registration: ModuleRegistration::Node,
                async_scheduler: AsyncScheduler::NodeEventLoop,
                callback_dispatch: CallbackDispatch::ThreadsafeFunction,
                cleanup_queue: CleanupQueue::EnvironmentHook,
            },
            HostFlavor::Ohos => HostHooks {
                module_registration: ModuleRegistration::Ark,
                async_scheduler: AsyncScheduler::ArkEventLoop,
                callback_dispatch: CallbackDispatch::ArkPriorityThreadsafeFunction,
                cleanup_queue: CleanupQueue::ArkRuntime,
            },
        }
    }
}

/// The two flavors differ in every hook.
pub proof fn lemma_flavors_select_distinct_hooks()
    ensures
        flavor_hooks(HostFlavor::Node).module_registration != flavor_hooks(
            HostFlavor::Ohos,
        ).module_registration,
        flavor_hooks(HostFlavor::Node).async_scheduler != flavor_hooks(
            HostFlavor::Ohos,
        ).async_scheduler,
        flavor_hooks(HostFlavor::Node).callback_dispatch != flavor_hooks(
            HostFlavor::Ohos,
        ).callback_dispatch,
        flavor_hooks(HostFlavor::Node).cleanup_queue != flavor_hooks(
            HostFlavor::Ohos,
        ).cleanup_queue,
{
}

/// Whether an operation is synchronous or asynchronous.
#[derive(Clone, Copy, Debug, PartialEq, Eq, Structural)]
pub enum AsyncKind {
    Sync,
    Async,
}

/// Mechanical operation shape.
#[derive(Clone, Copy, Debug, PartialEq, Eq, PartialOrd, Ord, Hash, Structural)]
pub enum OperationKind {
    Function,
    Constructor,
    Method,
    CallbackMethod,
    InputStreamPull,
    InputStreamCancel,
    OutputStreamStart,
    OutputStreamNext,
    OutputStreamCancel,
}

/// Whether a kind is one of the five synthetic stream slots.
pub open spec fn is_stream_slot_kind(kind: OperationKind) -> bool {
    match kind {
        OperationKind::InputStreamPull
        | OperationKind::InputStreamCancel
        | OperationKind::OutputStreamStart
        | OperationKind::OutputStreamNext
        | OperationKind::OutputStreamCancel => true,
        _ => false,
    }
}

/// Ownership of a resource lease.
#[derive(Clone, Copy, Debug, PartialEq, Eq, Structural)]
pub enum ResourceOwnership {
    Owned,
    Borrowed,
    ByArc,
}

#[derive(Clone, Copy, Debug, PartialEq, Eq, Structural)]
pub enum ResourceKind {
    Object,
    InputStream,
    OutputStream,
}

#[derive(Clone, Copy, Debug, PartialEq, Eq, Structural)]
pub struct ResourceBinding {
    pub kind: ResourceKind,
    pub ownership: ResourceOwnership,
}

/// A method receiver is either an ordinary value or a resource lease.
#[derive(Clone, Copy, Debug, PartialEq, Eq, Structural)]
pub enum ReceiverBinding {
    Value,
    Resource(ResourceBinding),
}

/// Dispatch target as supplied by the frontend.
#[derive(Clone, Copy, Debug, PartialEq, Eq, Structural)]
pub enum OperationDispatch {
    Native,
    CallbackHost { callback_type_id: u32, method_id: u32 },
    InputStreamHostPull,
    InputStreamHostCancel,
}

/// Mechanical path segments used by callback, stream and resource use sites.
#[derive(Clone, Debug, PartialEq, Eq, PartialOrd, Ord)]
pub enum ValuePathSegment {
    Argument(u32),
    Return,
    /// The payload of an output-stream `item` step; valid only directly
    /// below a `Return` root of an `OutputStreamNext` operation.
    StreamItem,
    /// The payload of an output-stream `error` step; placed like
    /// `StreamItem`.
    StreamError,
    Field(String),
    Variant(String),
    Optional,
    SequenceElement,
    MapKey,
    MapValue,
    SetElement,
}

/// Local ABI carrier class of a stream value.
#[derive(Clone, Copy, Debug, PartialEq, Eq, Structural)]
pub enum CarrierKind {
    Primitive,
    BigInt,
    Bytes,
    Timestamp,
    Duration,
    LocalAdapter,
    OpaqueHandle,
    CallbackProxy,
    InputStream,
    OutputStream,
    StreamStep,
}

#[derive(Debug, PartialEq, Eq)]
pub enum ConversionRecipe {
    Identity,
    Optional(Box<ConversionRecipe>),
    Sequence(Box<ConversionRecipe>),
    MapOf(Box<ConversionRecipe>, Box<ConversionRecipe>),
    SetOf(Box<ConversionRecipe>),
    Record(u32),
    Enum(u32),
    Error(u32),
    Object(u32),
    Custom(u32, Box<ConversionRecipe>),
    Callback(u32),
    InputStream(Box<ConversionRecipe>),
    OutputStream(Box<ConversionRecipe>),
    StreamStep { item: Box<ConversionRecipe>, error: Box<ConversionRecipe> },
}

impl Clone for ConversionRecipe {
    fn clone(&self) -> (copy: Self)
        ensures
            copy == *self,
        decreases self,
    {
        match self {
            ConversionRecipe::Identity => ConversionRecipe::Identity,
            ConversionRecipe::Optional(inner) => ConversionRecipe::Optional(
                Box::new((**inner).clone()),
            ),
            ConversionRecipe::Sequence(inner) => ConversionRecipe::Sequence(
                Box::new((**inner).clone()),
            ),
            ConversionRecipe::MapOf(key, value) => ConversionRecipe::MapOf(
                Box::new((**key).clone()),
                Box::new((**value).clone()),
            ),
            ConversionRecipe::SetOf(inner) => ConversionRecipe::SetOf(Box::new((**inner).clone())),
            ConversionRecipe::Record(id) => ConversionRecipe::Record(*id),
            ConversionRecipe::Enum(id) => ConversionRecipe::Enum(*id),
            ConversionRecipe::Error(id) => ConversionRecipe::Error(*id),
            ConversionRecipe::Object(id) => ConversionRecipe::Object(*id),
            ConversionRecipe::Custom(id, inner) => ConversionRecipe::Custom(
                *id,
                Box::new((**inner).clone()),
            ),
            ConversionRecipe::Callback(id) => ConversionRecipe::Callback(*id),
            ConversionRecipe::InputStream(inner) => ConversionRecipe::InputStream(
                Box::new((**inner).clone()),
            ),
            ConversionRecipe::OutputStream(inner) => ConversionRecipe::OutputStream(
                Box::new((**inner).clone()),
            ),
            ConversionRecipe::StreamStep { item, error } => ConversionRecipe::StreamStep {
                item: Box::new((**item).clone()),
                error: Box::new((**error).clone()),
            },
        }
    }
}

#[derive(Clone, Debug, PartialEq, Eq)]
pub struct StreamValueBinding {
    pub carrier: CarrierKind,
    pub conversion: ConversionRecipe,
}

/// A rooted path into an operation's arguments or return value.
#[derive(Clone, Debug, PartialEq, Eq, PartialOrd, Ord)]
pub struct ValuePath {
    pub segments: Vec<ValuePathSegment>,
}

impl ValuePath {
    pub fn new(segments: Vec<ValuePathSegment>) -> (path: Self)
        ensures
            path.segments@ == segments@,
    {
        ValuePath { segments }
    }

    /// The path that selects one argument.
    pub fn argument(index: u32) -> (path: Self)
        ensures
            path.segments@ == seq![ValuePathSegment::Argument(index)],
    {
        let mut segments: Vec<ValuePathSegment> = Vec::new();
        segments.push(ValuePathSegment::Argument(index));
        ValuePath { segments }
    }

    /// The path that selects the return value.
    pub fn return_value() -> (path: Self)
        ensures
            path.segments@ == seq![ValuePathSegment::Return],
    {
        let mut segments: Vec<ValuePathSegment> = Vec::new();
        segments.push(ValuePathSegment::Return);
        ValuePath { segments }
    }

    pub fn segments(&self) -> (segments: &[ValuePathSegment])
        ensures
            segments@ == self.segments@,
    {
        self.segments.as_slice()
    }
}

#[derive(Clone, Copy, Debug, PartialEq, Eq, Structural)]
pub enum CallbackRetention {
    Scoped,
    Retained,
}

#[derive(Clone, Copy, Debug, PartialEq, Eq, Structural)]
pub enum CallbackThreading {
    CallingThread,
    MayCrossThread,
}

#[derive(Clone, Copy, Debug, PartialEq, Eq, Structural)]
pub enum CallbackReentrancy {
    Allowed,
    Forbidden,
}

#[derive(Clone, Copy, Debug, PartialEq, Eq, Structural)]
pub struct CallbackContract {
    pub retention: CallbackRetention,
    pub threading: CallbackThreading,
    pub reentrancy: CallbackReentrancy,
}

#[derive(Clone, Debug, PartialEq, Eq)]
pub struct CallbackUseSite {
    pub operation_id: u32,
    pub callback_type_id: u32,
    pub path: ValuePath,
    pub contract: CallbackContract,
}

#[derive(Clone, Copy, Debug, PartialEq, Eq, Structural)]
pub enum StreamDirection {
    Input,
    Output,
}

/// The canonical identity of one synthetic stream slot operation.
#[derive(Clone, Copy, Debug, PartialEq, Eq, Structural)]
pub struct StreamSlotIdentity {
    pub use_site_id: u32,
    pub operation_id: u32,
    pub kind: OperationKind,
}

#[derive(Clone, Debug, PartialEq, Eq)]
pub struct StreamUseSite {
    pub operation_id: u32,
    pub use_site_id: u32,
    pub path: ValuePath,
    pub direction: StreamDirection,
    pub item: StreamValueBinding,
    pub error: StreamValueBinding,
    pub is_send: bool,
    pub slots: Vec<StreamSlotIdentity>,
}

/// A resource produced at a concrete use site of an operation's return
/// value.
#[derive(Clone, Debug, PartialEq, Eq)]
pub struct ResultResourceUseSite {
    pub operation_id: u32,
    pub path: ValuePath,
    pub binding: ResourceBinding,
}

/// One operation of the table that the frontend projects.
#[derive(Clone, Debug, PartialEq, Eq)]
pub struct FamilyOperationInput {
    pub id: u32,
    pub kind: OperationKind,
    pub async_kind: AsyncKind,
    pub fallible: bool,
    pub argument_count: usize,
    pub dispatch: OperationDispatch,
    pub receiver: Option<ReceiverBinding>,
    pub result_resources: Vec<ResultResourceUseSite>,
    pub callbacks: Vec<CallbackUseSite>,
    pub streams: Vec<StreamUseSite>,
    /// Synthetic stream slots carry their canonical use-site identity.
    pub stream_slot: Option<StreamSlotIdentity>,
}

#[derive(Clone, Debug, PartialEq, Eq)]
pub struct FamilyPlanInput {
    pub flavor: HostFlavor,
    pub close_policy: ClosePolicy,
    pub operations: Vec<FamilyOperationInput>,
}

/// Runtime entrypoints required by a family plan.
#[derive(Clone, Copy, Debug, PartialEq, Eq, PartialOrd, Ord, Hash, Structural)]
pub enum RuntimeEntrypoint {
    CloseSession,
    ReleaseObject,
    RetainCallback,
    ReleaseCallback,
    InvokeCallbackSync,
    InvokeCallbackAsync,
    PullInputStream,
    CancelInputStream,
    ReleaseInputStream,
    NextOutputStream,
    CancelOutputStream,
    ReleaseOutputStream,
}

#[derive(Clone, Copy, Debug, PartialEq, Eq, Structural)]
pub enum FamilyOperationTarget {
    Native,
    CallbackHost { callback_type_id: u32, method_id: u32 },
    InputStreamHostPull,
    InputStreamHostCancel,
}

/// The target that a dispatch selects.
pub open spec fn dispatch_target(dispatch: OperationDispatch) -> FamilyOperationTarget {
    match dispatch {
        OperationDispatch::Native => FamilyOperationTarget::Native,
        OperationDispatch::CallbackHost { callback_type_id, method_id } =>
            FamilyOperationTarget::CallbackHost { callback_type_id, method_id },
        OperationDispatch::InputStreamHostPull => FamilyOperationTarget::InputStreamHostPull,
        OperationDispatch::InputStreamHostCancel => FamilyOperationTarget::InputStreamHostCancel,
    }
}

/// Maps a dispatch to its target.
pub fn target_of(dispatch: OperationDispatch) -> (target: FamilyOperationTarget)
    ensures
        target == dispatch_target(dispatch),
{
    match dispatch {
        OperationDispatch::Native => FamilyOperationTarget::Native,
        OperationDispatch::CallbackHost { callback_type_id, method_id } =>
            FamilyOperationTarget::CallbackHost { callback_type_id, method_id },
        OperationDispatch::InputStreamHostPull => FamilyOperationTarget::InputStreamHostPull,
        OperationDispatch::InputStreamHostCancel => FamilyOperationTarget::InputStreamHostCancel,
    }
}

/// One validated operation of a family plan.
#[derive(Clone, Debug, PartialEq, Eq)]
pub struct FamilyOperation {
    pub id: u32,
    pub kind: OperationKind,
    pub async_kind: AsyncKind,
    pub fallible: bool,
    pub argument_count: usize,
    pub receiver: Option<ReceiverBinding>,
    pub result_resources: Vec<ResultResourceUseSite>,
    pub callbacks: Vec<CallbackUseSite>,
    pub streams: Vec<StreamUseSite>,
    pub stream_slot: Option<StreamSlotIdentity>,
    pub target: FamilyOperationTarget,
}

/// The validated operation that an input operation becomes.
pub open spec fn planned_operation(op: FamilyOperationInput) -> FamilyOperation {
    FamilyOperation {
        id: op.id,
        kind: op.kind,
        async_kind: op.async_kind,
        fallible: op.fallible,
        argument_count: op.argument_count,
        receiver: op.receiver,
        result_resources: op.result_resources,
        callbacks: op.callbacks,
        streams: op.streams,
        stream_slot: op.stream_slot,
        target: dispatch_target(op.dispatch),
    }
}

} // verus!
