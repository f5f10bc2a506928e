//! What the per-operation decisions of a generated module and of a session
//! are, stated target by target and variant by variant.
use vstd::prelude::*;

use crate::bridge::RustOperationPlan;
use crate::engine::{dispatch_of, lowers_receiver_synchronously, requires_host};
use crate::engine_error::EngineRejection;
use crate::family::{
    AsyncKind, FamilyOperation, FamilyOperationTarget, ReceiverBinding, StreamDirection,
};
use crate::session::{
    SessionOperationDispatch, SessionResourceHook, SessionResourceReceiver, closing_hook,
    resource_hook, slot_callback_check,
};

verus! {

/// How the session runs an operation: native and callback-host operations
/// keep their sync or async kind (a callback-host operation keeps its
/// callback type and method); input-stream host operations are refused
/// unless they are async.
pub proof fn lemma_dispatch_table(op: FamilyOperation)
    ensures
        op.target is Native && op.async_kind == AsyncKind::Sync ==> dispatch_of(op) == Ok::<
            SessionOperationDispatch,
            EngineRejection,
        >(SessionOperationDispatch::NativeSync),
        op.target is Native && op.async_kind == AsyncKind::Async ==> dispatch_of(op) == Ok::<
            SessionOperationDispatch,
            EngineRejection,
        >(SessionOperationDispatch::NativeAsync),
        op.target matches FamilyOperationTarget::CallbackHost { callback_type_id, method_id }
            ==> dispatch_of(op) == Ok::<SessionOperationDispatch, EngineRejection>(
            if op.async_kind == AsyncKind::Sync {
                SessionOperationDispatch::CallbackHostSync { callback_type_id, method_id }
            } else {
                SessionOperationDispatch::CallbackHostAsync { callback_type_id, method_id }
            },
        ),
        op.target is InputStreamHostPull ==> (dispatch_of(op) is Ok <==> op.async_kind
            == AsyncKind::Async) && (dispatch_of(op) is Ok ==> dispatch_of(op)->Ok_0
            == SessionOperationDispatch::InputStreamHostPull),
        op.target is InputStreamHostCancel ==> (dispatch_of(op) is Ok <==> op.async_kind
            == AsyncKind::Async) && (dispatch_of(op) is Ok ==> dispatch_of(op)->Ok_0
            == SessionOperationDispatch::InputStreamHostCancel),
{
}

/// A native operation takes the session host exactly when a callback use
/// site is rooted at one of its arguments, when it has an input stream,
/// when an argument is a callback proxy, an input-stream proxy or lowered
/// with the host, or when its receiver is lowered with the host.
pub proof fn lemma_host_table(op: RustOperationPlan, family: FamilyOperation)
    ensures
        requires_host(op, family) <==> {
            ||| exists|c: int|
                0 <= c < family.callbacks@.len() && (#[trigger] family.callbacks@[c]).path.segments@.len()
                    > 0 && family.callbacks@[c].path.segments@[0] is Argument
            ||| exists|t: int|
                0 <= t < family.streams@.len() && (#[trigger] family.streams@[t]).direction
                    == StreamDirection::Input
            ||| exists|k: int|
                0 <= k < op.arguments@.len() && {
                    let binding = (#[trigger] op.arguments@[k]).binding;
                    binding is CallbackProxy || binding is InputStreamProxy
                        || binding is LowerWithHost
                }
            ||| (op.receiver matches Some(receiver) && receiver.binding is LowerWithHost)
        },
        lowers_receiver_synchronously(op, family) <==> (family.receiver == Some(
            ReceiverBinding::Value,
        ) && (op.receiver matches Some(receiver) && (receiver.binding is I64BigInt
            || receiver.binding is U64BigInt || receiver.binding is LowerWith
            || receiver.binding is LowerWithHost))),
{
}

/// A session slot needs a native callback exactly for the two native
/// dispatches, and refuses one for the four host dispatches.
pub proof fn lemma_slot_callback_table(slot: u64, dispatch: SessionOperationDispatch, has_callback: bool)
    ensures
        (dispatch is NativeSync || dispatch is NativeAsync) ==> slot_callback_check(
            slot,
            dispatch,
            has_callback,
        ) == (if has_callback {
            Ok::<(), crate::session::SessionFault>(())
        } else {
            Err(crate::session::SessionFault::MissingNativeCallback { slot })
        }),
        (dispatch is CallbackHostSync || dispatch is CallbackHostAsync
            || dispatch is InputStreamHostPull || dispatch is InputStreamHostCancel)
            ==> slot_callback_check(slot, dispatch, has_callback) == (if has_callback {
            Err(crate::session::SessionFault::UnexpectedNativeCallback { slot })
        } else {
            Ok::<(), crate::session::SessionFault>(())
        }),
{
}

/// Which hook releasing a lease calls: an object is always released; an
/// output stream is cancelled when the call cancels and released
/// otherwise; closing a session releases, never cancels.
pub proof fn lemma_hook_table(cancel: bool)
    ensures
        resource_hook(SessionResourceReceiver::Object, cancel) == SessionResourceHook::ReleaseObject,
        resource_hook(SessionResourceReceiver::OutputStream, true)
            == SessionResourceHook::CancelOutputStream,
        resource_hook(SessionResourceReceiver::OutputStream, false)
            == SessionResourceHook::ReleaseOutputStream,
        closing_hook(SessionResourceReceiver::Object) == SessionResourceHook::ReleaseObject,
        closing_hook(SessionResourceReceiver::OutputStream)
            == SessionResourceHook::ReleaseOutputStream,
{
}

} // verus!
