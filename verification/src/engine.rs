//! Decisions that the generated N-API module takes for each operation.
use vstd::prelude::*;

use crate::bridge::{ArgumentBinding, RustOperationPlan};
use crate::engine_error::{EngineError, EngineRejection};
use crate::family::{
    AsyncKind, FamilyOperation, FamilyOperationTarget, ReceiverBinding, StreamDirection,
    ValuePathSegment,
};
use crate::session::{SessionNativeCall, SessionOperationDispatch};

verus! {

/// The one export of a generated module: the backend factory.
pub const BACKEND_FACTORY_EXPORT: &'static str = "__uniffi_backend_factory";

/// Where an error that reaches JavaScript comes from.
#[derive(Clone, Copy, Debug, Eq, PartialEq, Structural)]
pub enum ErrorDomain {
    Declared,
    Validation,
    Backend,
    Panic,
}

/// The name of an error domain on the JavaScript side.
pub open spec fn domain_text(domain: ErrorDomain) -> Seq<char> {
    match domain {
        ErrorDomain::Declared => "declared"@,
        ErrorDomain::Validation => "validation"@,
        ErrorDomain::Backend => "backend"@,
        ErrorDomain::Panic => "panic"@,
    }
}

impl ErrorDomain {
    /// The name of this domain on the JavaScript side.
    pub fn as_str(self) -> (text: &'static str)
        ensures
            text@ == domain_text(self),
    {
        match self {
            ErrorDomain::Declared => "declared",
            ErrorDomain::Validation => "validation",
            ErrorDomain::Backend => "backend",
            ErrorDomain::Panic => "panic",
        }
    }
}

/// Whether some callback use site is rooted at an argument.
pub open spec fn has_argument_callbacks(family: FamilyOperation) -> bool {
    exists|k: int|
        0 <= k < family.callbacks@.len() && (#[trigger] family.callbacks@[k]).path.segments@.len()
            > 0 && family.callbacks@[k].path.segments@[0] is Argument
}

/// Whether some stream use site is an input stream.
pub open spec fn has_input_streams(family: FamilyOperation) -> bool {
    exists|k: int|
        0 <= k < family.streams@.len() && (#[trigger] family.streams@[k]).direction
            == StreamDirection::Input
}

/// Bindings that build proxies or lower with the session host.
pub open spec fn binding_uses_host(binding: ArgumentBinding) -> bool {
    binding is CallbackProxy || binding is InputStreamProxy || binding is LowerWithHost
}

/// A native operation needs the session host when callbacks or input
/// streams enter through its arguments, or when a binding builds proxies or
/// lowers with the host.
pub open spec fn requires_host(op: RustOperationPlan, family: FamilyOperation) -> bool {
    ||| has_argument_callbacks(family)
    ||| has_input_streams(family)
    ||| exists|k: int|
        0 <= k < op.arguments@.len() && binding_uses_host((#[trigger] op.arguments@[k]).binding)
    ||| op.receiver matches Some(receiver) && receiver.binding is LowerWithHost
}

/// Decides whether a native operation is called with the session host
/// before its arguments.
pub fn operation_requires_host(operation: &RustOperationPlan, family: &FamilyOperation) -> (result:
    bool)
    ensures
        result == requires_host(*operation, *family),
{
    let callback_count = family.callbacks.len();
    let mut k: usize = 0;
    while k < callback_count
        invariant
            callback_count == family.callbacks@.len(),
            k <= callback_count,
            forall|i: int|
                0 <= i < k ==> !((#[trigger] family.callbacks@[i]).path.segments@.len() > 0
                    && family.callbacks@[i].path.segments@[0] is Argument),
        decreases callback_count - k,
    {
        let segments = &family.callbacks[k].path.segments;
        if segments.len() > 0 {
            match &segments[0] {
                ValuePathSegment::Argument(_) => {
                    return true;
                },
                _ => {},
            }
        }
        k += 1;
    }
    let stream_count = family.streams.len();
    let mut t: usize = 0;
    while t < stream_count
        invariant
            stream_count == family.streams@.len(),
            t <= stream_count,
            forall|i: int|
                0 <= i < t ==> (#[trigger] family.streams@[i]).direction != StreamDirection::Input,
        decreases stream_count - t,
    {
        if family.streams[t].direction == StreamDirection::Input {
            return true;
        }
        t += 1;
    }
    let argument_count = operation.arguments.len();
    let mut a: usize = 0;
    while a < argument_count
        invariant
            argument_count == operation.arguments@.len(),
            a <= argument_count,
            forall|i: int|
                0 <= i < a ==> !binding_uses_host((#[trigger] operation.arguments@[i]).binding),
        decreases argument_count - a,
    {
        match &operation.arguments[a].binding {
            ArgumentBinding::CallbackProxy { .. }
            | ArgumentBinding::InputStreamProxy { .. }
            | ArgumentBinding::LowerWithHost { .. } => {
                return true;
            },
            _ => {},
        }
        a += 1;
    }
    match &operation.receiver {
        Some(receiver) => match &receiver.binding {
            ArgumentBinding::LowerWithHost { .. } => true,
            _ => false,
        },
        None => false,
    }
}

/// How a native operation is called: with the session host before its
/// arguments exactly when it needs the host.
pub fn session_native_call(operation: &RustOperationPlan, family: &FamilyOperation) -> (call:
    SessionNativeCall)
    ensures
        call == (if requires_host(*operation, *family) {
            SessionNativeCall::HostAndArguments
        } else {
            SessionNativeCall::ArgumentsOnly
        }),
{
    if operation_requires_host(operation, family) {
        SessionNativeCall::HostAndArguments
    } else {
        SessionNativeCall::ArgumentsOnly
    }
}

/// Whether a value receiver is lowered synchronously, before the
/// operation's future starts: a receiver lowered from a JavaScript value.
pub open spec fn lowers_receiver_synchronously(op: RustOperationPlan, family: FamilyOperation) -> bool {
    &&& family.receiver == Some(ReceiverBinding::Value)
    &&& op.receiver matches Some(receiver) && (receiver.binding is I64BigInt
        || receiver.binding is U64BigInt || receiver.binding is LowerWith
        || receiver.binding is LowerWithHost)
}

/// Decides whether a value receiver must be lowered on the calling thread.
pub fn value_receiver_requires_sync_lower(operation: &RustOperationPlan, family: &FamilyOperation) -> (result:
    bool)
    ensures
        result == lowers_receiver_synchronously(*operation, *family),
{
    match family.receiver {
        Some(ReceiverBinding::Value) => {},
        _ => {
            return false;
        },
    }
    match &operation.receiver {
        Some(receiver) => match &receiver.binding {
            ArgumentBinding::I64BigInt
            | ArgumentBinding::U64BigInt
            | ArgumentBinding::LowerWith { .. }
            | ArgumentBinding::LowerWithHost { .. } => true,
            _ => false,
        },
        None => false,
    }
}

/// The session dispatch of an operation: native or callback-host calls keep
/// their sync or async kind; input-stream host operations must be async.
pub open spec fn dispatch_of(op: FamilyOperation) -> Result<SessionOperationDispatch, EngineRejection> {
    match op.target {
        FamilyOperationTarget::Native => if op.async_kind == AsyncKind::Sync {
            Ok(SessionOperationDispatch::NativeSync)
        } else {
            Ok(SessionOperationDispatch::NativeAsync)
        },
        FamilyOperationTarget::CallbackHost { callback_type_id, method_id } => if op.async_kind
            == AsyncKind::Sync {
            Ok(SessionOperationDispatch::CallbackHostSync { callback_type_id, method_id })
        } else {
            Ok(SessionOperationDispatch::CallbackHostAsync { callback_type_id, method_id })
        },
        FamilyOperationTarget::InputStreamHostPull => if op.async_kind == AsyncKind::Async {
            Ok(SessionOperationDispatch::InputStreamHostPull)
        } else {
            Err(
                EngineRejection::InvalidHostOperationSignature {
                    operation_id: op.id,
                    reason: "input-stream pull must be async"@,
                },
            )
        },
        FamilyOperationTarget::InputStreamHostCancel => if op.async_kind == AsyncKind::Async {
            Ok(SessionOperationDispatch::InputStreamHostCancel)
        } else {
            Err(
                EngineRejection::InvalidHostOperationSignature {
                    operation_id: op.id,
                    reason: "input-stream cancel must be async"@,
                },
            )
        },
    }
}

/// Chooses the session dispatch of an operation.
pub fn session_dispatch(operation: &FamilyOperation) -> (result: Result<
    SessionOperationDispatch,
    EngineError,
>)
    ensures
        match result {
            Ok(dispatch) => dispatch_of(*operation) == Ok::<
                SessionOperationDispatch,
                EngineRejection,
            >(dispatch),
            Err(error) => dispatch_of(*operation) == Err::<
                SessionOperationDispatch,
                EngineRejection,
            >(error@),
        },
{
    match operation.target {
        FamilyOperationTarget::Native => match operation.async_kind {
            AsyncKind::Sync => Ok(SessionOperationDispatch::NativeSync),
            AsyncKind::Async => Ok(SessionOperationDispatch::NativeAsync),
        },
        FamilyOperationTarget::CallbackHost { callback_type_id, method_id } => match operation.async_kind {
            AsyncKind::Sync => Ok(SessionOperationDispatch::CallbackHostSync { callback_type_id, method_id }),
            AsyncKind::Async => Ok(
                SessionOperationDispatch::CallbackHostAsync { callback_type_id, method_id },
            ),
        },
        FamilyOperationTarget::InputStreamHostPull => match operation.async_kind {
            AsyncKind::Async => Ok(SessionOperationDispatch::InputStreamHostPull),
            AsyncKind::Sync => Err(
                EngineError::InvalidHostOperationSignature {
                    operation_id: operation.id,
                    reason: "input-stream pull must be async",
                },
            ),
        },
        FamilyOperationTarget::InputStreamHostCancel => match operation.async_kind {
            AsyncKind::Async => Ok(SessionOperationDispatch::InputStreamHostCancel),
            AsyncKind::Sync => Err(
                EngineError::InvalidHostOperationSignature {
                    operation_id: operation.id,
                    reason: "input-stream cancel must be async",
                },
            ),
        },
    }
}

} // verus!
