//! The operation table and bookkeeping of a backend session.
//!
//! A generated factory hands the session one descriptor per operation; the
//! session then dispatches invocations, retains callbacks and input streams
//! that cross into Rust, and releases them when it closes.
use vstd::prelude::*;
use vstd::string::StringExecFns;

use crate::rules::{first_error, lemma_first_error_all_ok, lemma_first_error_step};
use crate::text::{decimal_text, push_decimal};

verus! {

#[derive(Clone, Copy, Debug, Eq, PartialEq, Structural)]
pub enum SessionCallbackRetention {
    Scoped,
    Retained,
}

#[derive(Clone, Copy, Debug, Eq, PartialEq, Structural)]
pub enum SessionCallbackThreading {
    CallingThread,
    MayCrossThread,
}

/// Whether the generated host callback proxy may be entered again before the
/// current invocation returns.
///
/// Proxy builders must enforce this use-site contract when it is `Forbidden`.
#[derive(Clone, Copy, Debug, Eq, PartialEq, Structural)]
pub enum SessionCallbackReentrancy {
    Allowed,
    Forbidden,
}

/// A callback passed as one argument of an operation.
#[derive(Clone, Copy, Debug, Eq, PartialEq, Structural)]
pub struct SessionCallbackArgument {
    pub argument_index: u32,
    pub callback_type_id: u32,
    pub retention: SessionCallbackRetention,
    pub threading: SessionCallbackThreading,
    pub reentrancy: SessionCallbackReentrancy,
}

#[derive(Clone, Copy, Debug, Eq, PartialEq, Structural)]
pub enum SessionStreamDirection {
    Input,
    Output,
}

/// A stream passed as one argument of an operation.
#[derive(Clone, Copy, Debug, Eq, PartialEq, Structural)]
pub struct SessionStreamArgument {
    pub argument_index: u32,
    pub direction: SessionStreamDirection,
}

/// The kind of resource lease that an operation's receiver is.
#[derive(Clone, Copy, Debug, Eq, PartialEq, Structural)]
pub enum SessionResourceReceiver {
    Object,
    OutputStream,
}

/// How the session runs an operation.
#[derive(Clone, Copy, Debug, Eq, PartialEq, Structural)]
pub enum SessionOperationDispatch {
    NativeSync,
    NativeAsync,
    CallbackHostSync { callback_type_id: u32, method_id: u32 },
    CallbackHostAsync { callback_type_id: u32, method_id: u32 },
    InputStreamHostPull,
    InputStreamHostCancel,
}

/// Whether a native operation receives the session host before its
/// arguments.
#[derive(Clone, Copy, Debug, Eq, PartialEq, Structural)]
pub enum SessionNativeCall {
    ArgumentsOnly,
    HostAndArguments,
}

/// One operation slot of a session, as the generated factory declares it.
/// The native callback of a native slot is held beside it, by the caller.
#[derive(Clone, Debug, Eq, PartialEq)]
pub struct SessionOperation {
    pub dispatch: SessionOperationDispatch,
    pub native_call: SessionNativeCall,
    pub receiver: Option<SessionResourceReceiver>,
    pub callback_arguments: Vec<SessionCallbackArgument>,
    pub stream_arguments: Vec<SessionStreamArgument>,
}

/// Why the session refuses a call.
#[derive(Clone, Copy, Debug, Eq, PartialEq, Structural)]
pub enum SessionFault {
    Closed,
    UnknownOperation { id: u32 },
    InvocationKindMismatch { operation_id: u32, is_async: bool },
    MissingCallbackArgument { index: u64 },
    MissingInputStreamArgument { index: u64 },
    MissingResourceReceiver,
    MissingNativeCallback { slot: u64 },
    UnexpectedNativeCallback { slot: u64 },
    MissingPullStreamId,
    MissingCancelStreamId,
    MissingCallbackId,
}

/// The message of a session fault.
pub open spec fn fault_text(fault: SessionFault) -> Seq<char> {
    match fault {
        SessionFault::Closed => "UniFFI backend session is closed"@,
        SessionFault::UnknownOperation { id } => "unknown UniFFI operation ID "@ + decimal_text(
            id as nat,
        ),
        SessionFault::InvocationKindMismatch { operation_id, is_async } => "operation "@
            + decimal_text(operation_id as nat) + (if is_async {
            " is async, but was invoked through invokeSync"@
        } else {
            " is sync, but was invoked through invokeAsync"@
        }),
        SessionFault::MissingCallbackArgument { index } => "missing callback argument at index "@
            + decimal_text(index as nat),
        SessionFault::MissingInputStreamArgument { index } => "missing input-stream argument at index "@
            + decimal_text(index as nat),
        SessionFault::MissingResourceReceiver => "missing resource receiver"@,
        SessionFault::MissingNativeCallback { slot } => "native UniFFI operation slot "@
            + decimal_text(slot as nat) + " has no callback"@,
        SessionFault::UnexpectedNativeCallback { slot } => "host UniFFI operation slot "@
            + decimal_text(slot as nat) + " unexpectedly has a native callback"@,
        SessionFault::MissingPullStreamId => "pull requires stream ID"@,
        SessionFault::MissingCancelStreamId => "cancel requires stream ID"@,
        SessionFault::MissingCallbackId => "callback invocation requires callback ID"@,
    }
}

impl SessionFault {
    /// Whether the fault blames the caller's arguments, as opposed to the
    /// session's state.
    pub fn is_invalid_argument(&self) -> (invalid: bool)
        ensures
            invalid == !(*self is Closed),
    {
        match self {
            SessionFault::Closed => false,
            _ => true,
        }
    }

    /// Renders the fault's message.
    pub fn to_string(&self) -> (text: String)
        ensures
            text@ == fault_text(*self),
    {
        let mut text = String::new();
        match self {
            SessionFault::Closed => {
                text.append("UniFFI backend session is closed");
            },
            SessionFault::UnknownOperation { id } => {
                text.append("unknown UniFFI operation ID ");
                push_decimal(&mut text, *id as u64);
            },
            SessionFault::InvocationKindMismatch { operation_id, is_async } => {
                text.append("operation ");
                push_decimal(&mut text, *operation_id as u64);
                if *is_async {
                    text.append(" is async, but was invoked through invokeSync");
                } else {
                    text.append(" is sync, but was invoked through invokeAsync");
                }
            },
            SessionFault::MissingCallbackArgument { index } => {
                text.append("missing callback argument at index ");
                push_decimal(&mut text, *index);
            },
            SessionFault::MissingInputStreamArgument { index } => {
                text.append("missing input-stream argument at index ");
                push_decimal(&mut text, *index);
            },
            SessionFault::MissingResourceReceiver => {
                text.append("missing resource receiver");
            },
            SessionFault::MissingNativeCallback { slot } => {
                text.append("native UniFFI operation slot ");
                push_decimal(&mut text, *slot);
                text.append(" has no callback");
            },
            SessionFault::UnexpectedNativeCallback { slot } => {
                text.append("host UniFFI operation slot ");
                push_decimal(&mut text, *slot);
                text.append(" unexpectedly has a native callback");
            },
            SessionFault::MissingPullStreamId => {
                text.append("pull requires stream ID");
            },
            SessionFault::MissingCancelStreamId => {
                text.append("cancel requires stream ID");
            },
            SessionFault::MissingCallbackId => {
                text.append("callback invocation requires callback ID");
            },
        }
        assert(text@ =~= fault_text(*self));
        text
    }
}

/// Whether a dispatch runs natively.
pub open spec fn is_native_dispatch(dispatch: SessionOperationDispatch) -> bool {
    dispatch is NativeSync || dispatch is NativeAsync
}

/// Whether a dispatch is invoked through `invokeAsync`.
pub open spec fn is_async_dispatch(dispatch: SessionOperationDispatch) -> bool {
    !(dispatch is NativeSync) && !(dispatch is CallbackHostSync)
}

/// Which dispatches are invoked asynchronously, variant by variant: the
/// synchronous native and callback-host calls are not; native async calls,
/// async callback-host calls and both input-stream host operations are.
pub proof fn lemma_async_dispatches(callback_type_id: u32, method_id: u32)
    ensures
        !is_async_dispatch(SessionOperationDispatch::NativeSync),
        !is_async_dispatch(SessionOperationDispatch::CallbackHostSync { callback_type_id, method_id }),
        is_async_dispatch(SessionOperationDispatch::NativeAsync),
        is_async_dispatch(SessionOperationDispatch::CallbackHostAsync { callback_type_id, method_id }),
        is_async_dispatch(SessionOperationDispatch::InputStreamHostPull),
        is_async_dispatch(SessionOperationDispatch::InputStreamHostCancel),
{
}

/// A native slot comes with a native callback; a host slot comes without.
pub open spec fn slot_callback_check(slot: u64, dispatch: SessionOperationDispatch, has_callback: bool) -> Result<
    (),
    SessionFault,
> {
    if is_native_dispatch(dispatch) && !has_callback {
        Err(SessionFault::MissingNativeCallback { slot })
    } else if !is_native_dispatch(dispatch) && has_callback {
        Err(SessionFault::UnexpectedNativeCallback { slot })
    } else {
        Ok(())
    }
}

/// Checks that a slot has a native callback exactly when it runs natively.
pub fn check_slot_callback(slot: u64, dispatch: SessionOperationDispatch, has_callback: bool) -> (result:
    Result<(), SessionFault>)
    ensures
        result == slot_callback_check(slot, dispatch, has_callback),
{
    let native = match dispatch {
        SessionOperationDispatch::NativeSync | SessionOperationDispatch::NativeAsync => true,
        _ => false,
    };
    if native && !has_callback {
        Err(SessionFault::MissingNativeCallback { slot })
    } else if !native && has_callback {
        Err(SessionFault::UnexpectedNativeCallback { slot })
    } else {
        Ok(())
    }
}

/// The slot rules of a whole operation table, in slot order: the first
/// slot whose native callback is missing or unexpected is reported.
pub open spec fn slots_callback_check(slots: Seq<(SessionOperationDispatch, bool)>) -> Result<
    (),
    SessionFault,
> {
    first_error(Seq::new(slots.len(), |k: int| slot_callback_check(k as u64, slots[k].0, slots[k].1)))
}

/// Checks every slot of a table, given its dispatch and whether it comes
/// with a native callback.
pub fn check_slot_callbacks(slots: &Vec<(SessionOperationDispatch, bool)>) -> (result: Result<
    (),
    SessionFault,
>)
    ensures
        result == slots_callback_check(slots@),
{
    let ghost checks = Seq::new(
        slots@.len(),
        |k: int| slot_callback_check(k as u64, slots@[k].0, slots@[k].1),
    );
    let count = slots.len();
    let mut k: usize = 0;
    while k < count
        invariant
            count == slots@.len(),
            checks == Seq::new(
                slots@.len(),
                |k: int| slot_callback_check(k as u64, slots@[k].0, slots@[k].1),
            ),
            k <= count,
            forall|j: int| 0 <= j < k ==> (#[trigger] checks[j]) is Ok,
        decreases count - k,
    {
        proof {
            lemma_first_error_step(checks, k as int);
        }
        let (dispatch, has_callback) = slots[k];
        match check_slot_callback(k as u64, dispatch, has_callback) {
            Err(fault) => {
                return Err(fault);
            },
            Ok(()) => {},
        }
        k += 1;
    }
    proof {
        lemma_first_error_all_ok(checks);
        assert(slots_callback_check(slots@) == first_error(checks));
        let outcome = first_error(checks);
        assert(outcome matches Ok(unit) && unit == ());
        assert(outcome == Ok::<(), SessionFault>(()));
    }
    Ok(())
}

/// The position of an operation argument among the values that JavaScript
/// passes: a receiver comes first.
pub fn argument_position(operation: &SessionOperation, argument_index: u32) -> (position: u64)
    ensures
        position == argument_index + (if operation.receiver is Some {
            1int
        } else {
            0int
        }),
{
    if operation.receiver.is_some() {
        argument_index as u64 + 1
    } else {
        argument_index as u64
    }
}

/// The resource hook that releasing or cancelling a lease calls.
#[derive(Clone, Copy, Debug, Eq, PartialEq, Structural)]
pub enum SessionResourceHook {
    ReleaseObject,
    CancelOutputStream,
    ReleaseOutputStream,
}

/// The hook that releasing or cancelling a lease of this kind calls.
pub open spec fn resource_hook(kind: SessionResourceReceiver, cancel: bool) -> SessionResourceHook {
    match kind {
        SessionResourceReceiver::Object => SessionResourceHook::ReleaseObject,
        SessionResourceReceiver::OutputStream => if cancel {
            SessionResourceHook::CancelOutputStream
        } else {
            SessionResourceHook::ReleaseOutputStream
        },
    }
}

/// Objects are released whether or not the release cancels; output streams
/// are cancelled or released.
pub fn resource_hook_for(kind: SessionResourceReceiver, cancel: bool) -> (hook: SessionResourceHook)
    ensures
        hook == resource_hook(kind, cancel),
{
    match kind {
        SessionResourceReceiver::Object => SessionResourceHook::ReleaseObject,
        SessionResourceReceiver::OutputStream => if cancel {
            SessionResourceHook::CancelOutputStream
        } else {
            SessionResourceHook::ReleaseOutputStream
        },
    }
}

/// The order of retained callback keys: by callback type, then by callback
/// id.
pub open spec fn key_before(a: (u32, u32), b: (u32, u32)) -> bool {
    a.0 < b.0 || (a.0 == b.0 && a.1 < b.1)
}

/// Whether keys are strictly increasing, hence distinct.
pub open spec fn keys_increasing(keys: Seq<(u32, u32)>) -> bool {
    forall|a: int, b: int| 0 <= a < b < keys.len() ==> key_before(#[trigger] keys[a], #[trigger] keys[b])
}

/// Whether ids are strictly increasing, hence distinct.
pub open spec fn ids_increasing(ids: Seq<u32>) -> bool {
    forall|a: int, b: int| 0 <= a < b < ids.len() ==> #[trigger] ids[a] < #[trigger] ids[b]
}

/// The hook that closing a session calls for a lease that it still holds:
/// the lease is released, never cancelled.
pub open spec fn closing_hook(kind: SessionResourceReceiver) -> SessionResourceHook {
    match kind {
        SessionResourceReceiver::Object => SessionResourceHook::ReleaseObject,
        SessionResourceReceiver::OutputStream => SessionResourceHook::ReleaseOutputStream,
    }
}

/// Whether a set of leases holds one with this id.
pub open spec fn holds_lease(leases: Set<(u32, SessionResourceReceiver)>, lease_id: u32) -> bool {
    exists|kind: SessionResourceReceiver| leases.contains((lease_id, kind))
}

/// Whether the lease ids of a list are distinct.
pub open spec fn lease_ids_distinct(leases: Seq<(u32, SessionResourceReceiver)>) -> bool {
    forall|a: int, b: int| 0 <= a < b < leases.len() ==> (#[trigger] leases[a]).0 != (#[trigger] leases[b]).0
}

/// What a session releases when it closes: its retained callbacks and its
/// input streams, each in increasing order, and each resource lease that it
/// still holds, with the hook that releases it.
#[derive(Clone, Debug, Eq, PartialEq)]
pub struct SessionRelease {
    pub callbacks: Vec<(u32, u32)>,
    pub input_streams: Vec<u32>,
    pub leases: Vec<(u32, SessionResourceHook)>,
}

/// The bookkeeping of a session: its operations, whether it is closed, the
/// next async invocation id, the callbacks and input streams that it holds
/// for Rust, and the resource leases that receivers handed to it, each
/// under the id that its caller gave it.
#[derive(Debug)]
pub struct SessionLedger {
    operations: Vec<SessionOperation>,
    closed: bool,
    next_invocation_id: u32,
    retained_callbacks: Vec<(u32, u32)>,
    input_streams: Vec<u32>,
    leases: Vec<(u32, SessionResourceReceiver)>,
    released: Vec<u32>,
}

impl SessionLedger {
    /// Retained callbacks and input streams are kept in increasing order,
    /// so each is held once; each lease id is held once.
    #[verifier::type_invariant]
    spec fn well_formed(self) -> bool {
        &&& keys_increasing(self.retained_callbacks@)
        &&& ids_increasing(self.input_streams@)
        &&& lease_ids_distinct(self.leases@)
    }

    pub closed spec fn spec_operations(&self) -> Seq<SessionOperation> {
        self.operations@
    }

    pub closed spec fn spec_closed(&self) -> bool {
        self.closed
    }

    pub closed spec fn spec_next_invocation_id(&self) -> u32 {
        self.next_invocation_id
    }

    /// The retained callbacks, as (callback type, callback id) keys.
    pub closed spec fn spec_retained(&self) -> Set<(u32, u32)> {
        self.retained_callbacks@.to_set()
    }

    /// The input streams that the session holds.
    pub closed spec fn spec_input_streams(&self) -> Set<u32> {
        self.input_streams@.to_set()
    }

    /// The resource leases that the session holds, by id and kind.
    pub closed spec fn spec_leases(&self) -> Set<(u32, SessionResourceReceiver)> {
        self.leases@.to_set()
    }

    /// The ids of the leases that have been released.
    pub closed spec fn spec_released(&self) -> Set<u32> {
        self.released@.to_set()
    }

    /// An open session over these operations, holding nothing.
    pub fn new(operations: Vec<SessionOperation>) -> (ledger: Self)
        ensures
            ledger.spec_operations() == operations@,
            !ledger.spec_closed(),
            ledger.spec_next_invocation_id() == 0,
            ledger.spec_retained() == Set::<(u32, u32)>::empty(),
            ledger.spec_input_streams() == Set::<u32>::empty(),
            ledger.spec_leases() == Set::<(u32, SessionResourceReceiver)>::empty(),
            ledger.spec_released() == Set::<u32>::empty(),
    {
        let ledger = SessionLedger {
            operations,
            closed: false,
            next_invocation_id: 0,
            retained_callbacks: Vec::new(),
            input_streams: Vec::new(),
            leases: Vec::new(),
            released: Vec::new(),
        };
        assert(ledger.released@.to_set() =~= Set::<u32>::empty());
        assert(ledger.leases@.to_set() =~= Set::<(u32, SessionResourceReceiver)>::empty());
        assert(ledger.retained_callbacks@.to_set() =~= Set::<(u32, u32)>::empty());
        assert(ledger.input_streams@.to_set() =~= Set::<u32>::empty());
        ledger
    }

    pub fn is_closed(&self) -> (closed: bool)
        ensures
            closed == self.spec_closed(),
    {
        self.closed
    }

    /// The operation that an invocation names, when the session is open, the
    /// operation exists and the invocation's kind matches its dispatch.
    pub fn begin(&self, operation_id: u32, asynchronous: bool) -> (result: Result<
        &SessionOperation,
        SessionFault,
    >)
        ensures
            self.spec_closed() ==> result == Err::<&SessionOperation, SessionFault>(
                SessionFault::Closed,
            ),
            !self.spec_closed() && operation_id >= self.spec_operations().len() ==> result
                == Err::<&SessionOperation, SessionFault>(
                SessionFault::UnknownOperation { id: operation_id },
            ),
            !self.spec_closed() && operation_id < self.spec_operations().len() ==> {
                let operation = self.spec_operations()[operation_id as int];
                let is_async = is_async_dispatch(operation.dispatch);
                if is_async == asynchronous {
                    result == Ok::<&SessionOperation, SessionFault>(&operation)
                } else {
                    result == Err::<&SessionOperation, SessionFault>(
                        SessionFault::InvocationKindMismatch { operation_id, is_async },
                    )
                }
            },
            !self.spec_closed() && operation_id < self.spec_operations().len() ==> {
                let dispatch = self.spec_operations()[operation_id as int].dispatch;
                let synchronous = dispatch is NativeSync || dispatch is CallbackHostSync;
                &&& (result is Ok <==> asynchronous != synchronous)
                &&& (synchronous && asynchronous ==> result == Err::<&SessionOperation, SessionFault>(
                    SessionFault::InvocationKindMismatch { operation_id, is_async: false },
                ))
                &&& (!synchronous && !asynchronous ==> result == Err::<&SessionOperation, SessionFault>(
                    SessionFault::InvocationKindMismatch { operation_id, is_async: true },
                ))
            },
    {
        if self.closed {
            return Err(SessionFault::Closed);
        }
        if operation_id as usize >= self.operations.len() {
            return Err(SessionFault::UnknownOperation { id: operation_id });
        }
        let operation = &self.operations[operation_id as usize];
        let is_async = match operation.dispatch {
            SessionOperationDispatch::NativeSync | SessionOperationDispatch::CallbackHostSync {
                ..
            } => false,
            _ => true,
        };
        if is_async != asynchronous {
            return Err(SessionFault::InvocationKindMismatch { operation_id, is_async });
        }
        Ok(operation)
    }

    /// Retains a callback for Rust; reports whether it was not retained
    /// before, so that the host is told once per callback.
    pub fn retain_callback(&mut self, callback_type_id: u32, callback_id: u32) -> (newly: bool)
        ensures
            newly == !old(self).spec_retained().contains((callback_type_id, callback_id)),
            final(self).spec_retained() == old(self).spec_retained().insert(
                (callback_type_id, callback_id),
            ),
            final(self).spec_operations() == old(self).spec_operations(),
            final(self).spec_closed() == old(self).spec_closed(),
            final(self).spec_next_invocation_id() == old(self).spec_next_invocation_id(),
            final(self).spec_input_streams() == old(self).spec_input_streams(),
            final(self).spec_leases() == old(self).spec_leases(),
            final(self).spec_released() == old(self).spec_released(),
    {
        proof {
            use_type_invariant(&*self);
        }
        let key = (callback_type_id, callback_id);
        let count = self.retained_callbacks.len();
        let mut position: usize = 0;
        while position < count && key_precedes(self.retained_callbacks[position], key)
            invariant
                count == self.retained_callbacks@.len(),
                position <= count,
                forall|i: int| 0 <= i < position ==> key_before(self.retained_callbacks@[i], key),
            decreases count - position,
        {
            position += 1;
        }
        let ghost keys = self.retained_callbacks@;
        if position < count && self.retained_callbacks[position].0 == key.0
            && self.retained_callbacks[position].1 == key.1 {
            assert(keys[position as int] == key);
            return false;
        }
        proof {
            assert forall|i: int| 0 <= i < keys.len() implies keys[i] != key by {
                if i >= position {
                    if i > position {
                        assert(key_before(keys[position as int], keys[i]));
                    }
                }
            }
        }
        let mut updated_keys: Vec<(u32, u32)> = Vec::new();
        std::mem::swap(&mut updated_keys, &mut self.retained_callbacks);
        updated_keys.insert(position, key);
        proof {
            let updated = updated_keys@;
            assert(updated =~= keys.insert(position as int, key));
            assert forall|a: int, b: int| 0 <= a < b < updated.len() implies key_before(
                #[trigger] updated[a],
                #[trigger] updated[b],
            ) by {
                if b < position {
                } else if a < position && b == position {
                } else if a < position {
                    assert(updated[b] == keys[b - 1]);
                    if position < keys.len() {
                        assert(key_before(key, keys[position as int]));
                    }
                } else if a == position {
                    assert(updated[b] == keys[b - 1]);
                } else {
                    assert(updated[a] == keys[a - 1]);
                    assert(updated[b] == keys[b - 1]);
                }
            }
            assert(updated.to_set() =~= keys.to_set().insert(key)) by {
                assert forall|x: (u32, u32)| updated.to_set().contains(x) <==> keys.to_set().insert(
                    key,
                ).contains(x) by {
                    if updated.contains(x) {
                        let i = choose|i: int| 0 <= i < updated.len() && updated[i] == x;
                        if i < position {
                            assert(keys[i] == x);
                        } else if i > position {
                            assert(keys[i - 1] == x);
                        }
                    }
                    if keys.contains(x) {
                        let i = choose|i: int| 0 <= i < keys.len() && keys[i] == x;
                        if i < position {
                            assert(updated[i] == x);
                        } else {
                            assert(updated[i + 1] == x);
                        }
                    }
                    if x == key {
                        assert(updated[position as int] == key);
                    }
                }
            }
        }
        self.retained_callbacks = updated_keys;
        true
    }

    /// Holds an input stream for Rust until the session closes.
    pub fn track_input_stream(&mut self, stream_id: u32)
        ensures
            final(self).spec_input_streams() == old(self).spec_input_streams().insert(stream_id),
            final(self).spec_operations() == old(self).spec_operations(),
            final(self).spec_closed() == old(self).spec_closed(),
            final(self).spec_next_invocation_id() == old(self).spec_next_invocation_id(),
            final(self).spec_retained() == old(self).spec_retained(),
            final(self).spec_leases() == old(self).spec_leases(),
            final(self).spec_released() == old(self).spec_released(),
    {
        proof {
            use_type_invariant(&*self);
        }
        let count = self.input_streams.len();
        let mut position: usize = 0;
        while position < count && self.input_streams[position] < stream_id
            invariant
                count == self.input_streams@.len(),
                position <= count,
                forall|i: int| 0 <= i < position ==> self.input_streams@[i] < stream_id,
            decreases count - position,
        {
            position += 1;
        }
        let ghost ids = self.input_streams@;
        if position < count && self.input_streams[position] == stream_id {
            assert(ids.to_set().insert(stream_id) =~= ids.to_set()) by {
                assert(ids[position as int] == stream_id);
            }
            return;
        }
        proof {
            assert forall|i: int| 0 <= i < ids.len() implies ids[i] != stream_id by {
                if i > position {
                    assert(ids[position as int] < ids[i]);
                }
            }
        }
        let mut updated_ids: Vec<u32> = Vec::new();
        std::mem::swap(&mut updated_ids, &mut self.input_streams);
        updated_ids.insert(position, stream_id);
        proof {
            let updated = updated_ids@;
            assert(updated =~= ids.insert(position as int, stream_id));
            assert forall|a: int, b: int| 0 <= a < b < updated.len() implies #[trigger] updated[a]
                < #[trigger] updated[b] by {
                if b < position {
                } else if a < position && b == position {
                } else if a < position {
                    assert(updated[b] == ids[b - 1]);
                    if position < ids.len() {
                        assert(stream_id < ids[position as int]);
                    }
                } else if a == position {
                    assert(updated[b] == ids[b - 1]);
                } else {
                    assert(updated[a] == ids[a - 1]);
                    assert(updated[b] == ids[b - 1]);
                }
            }
            assert(updated.to_set() =~= ids.to_set().insert(stream_id)) by {
                assert forall|x: u32| updated.to_set().contains(x) <==> ids.to_set().insert(
                    stream_id,
                ).contains(x) by {
                    if updated.contains(x) {
                        let i = choose|i: int| 0 <= i < updated.len() && updated[i] == x;
                        if i < position {
                            assert(ids[i] == x);
                        } else if i > position {
                            assert(ids[i - 1] == x);
                        }
                    }
                    if ids.contains(x) {
                        let i = choose|i: int| 0 <= i < ids.len() && ids[i] == x;
                        if i < position {
                            assert(updated[i] == x);
                        } else {
                            assert(updated[i + 1] == x);
                        }
                    }
                    if x == stream_id {
                        assert(updated[position as int] == stream_id);
                    }
                }
            }
        }
        self.input_streams = updated_ids;
    }

    /// Hands out the next async invocation id.  Ids count up from zero and
    /// stay at `u32::MAX` once they reach it.
    pub fn take_invocation_id(&mut self) -> (id: u32)
        ensures
            id == old(self).spec_next_invocation_id(),
            final(self).spec_next_invocation_id() == (if id < u32::MAX {
                (id + 1) as u32
            } else {
                u32::MAX
            }),
            final(self).spec_operations() == old(self).spec_operations(),
            final(self).spec_closed() == old(self).spec_closed(),
            final(self).spec_retained() == old(self).spec_retained(),
            final(self).spec_input_streams() == old(self).spec_input_streams(),
            final(self).spec_leases() == old(self).spec_leases(),
            final(self).spec_released() == old(self).spec_released(),
    {
        proof {
            use_type_invariant(&*self);
        }
        let id = self.next_invocation_id;
        self.next_invocation_id = match id.checked_add(1) {
            Some(next) => next,
            None => u32::MAX,
        };
        id
    }

    /// Holds a resource lease under its id until it is released or the
    /// session closes; reports whether the id was not held before.  A lease
    /// already held under this id stays as it is.
    pub fn track_lease(&mut self, lease_id: u32, kind: SessionResourceReceiver) -> (newly: bool)
        ensures
            newly == !holds_lease(old(self).spec_leases(), lease_id),
            final(self).spec_leases() == (if newly {
                old(self).spec_leases().insert((lease_id, kind))
            } else {
                old(self).spec_leases()
            }),
            final(self).spec_operations() == old(self).spec_operations(),
            final(self).spec_closed() == old(self).spec_closed(),
            final(self).spec_next_invocation_id() == old(self).spec_next_invocation_id(),
            final(self).spec_retained() == old(self).spec_retained(),
            final(self).spec_input_streams() == old(self).spec_input_streams(),
            final(self).spec_released() == old(self).spec_released(),
    {
        proof {
            use_type_invariant(&*self);
        }
        let ghost before = self.leases@;
        match find_lease(&self.leases, lease_id) {
            Some(k) => {
                proof {
                    assert(before.contains(before[k as int]));
                    assert(before.to_set().contains((lease_id, before[k as int].1)));
                }
                return false;
            },
            None => {},
        }
        proof {
            lemma_lease_absent(before, lease_id);
        }
        let mut updated: Vec<(u32, SessionResourceReceiver)> = Vec::new();
        std::mem::swap(&mut updated, &mut self.leases);
        updated.push((lease_id, kind));
        proof {
            assert(updated@ =~= before.push((lease_id, kind)));
            assert forall|x: (u32, SessionResourceReceiver)| updated@.to_set().contains(x)
                <==> before.to_set().insert((lease_id, kind)).contains(x) by {
                if updated@.contains(x) {
                    let i = choose|i: int| 0 <= i < updated@.len() && updated@[i] == x;
                    if i < before.len() {
                        assert(before[i] == x);
                    }
                }
                if before.contains(x) {
                    let i = choose|i: int| 0 <= i < before.len() && before[i] == x;
                    assert(updated@[i] == x);
                }
                if x == (lease_id, kind) {
                    assert(updated@[before.len() as int] == x);
                }
            }
            assert(updated@.to_set() =~= before.to_set().insert((lease_id, kind)));
            assert forall|a: int, b: int| 0 <= a < b < updated@.len() implies (
            #[trigger] updated@[a]).0 != (#[trigger] updated@[b]).0 by {
                if b == before.len() {
                    assert(before[a].0 != lease_id);
                }
            }
        }
        self.leases = updated;
        true
    }

    /// Stops holding the lease with this id, when it holds one, and returns
    /// its kind.
    pub fn untrack_lease(&mut self, lease_id: u32) -> (held: Option<SessionResourceReceiver>)
        ensures
            match held {
                Some(kind) => old(self).spec_leases().contains((lease_id, kind))
                    && final(self).spec_leases() == old(self).spec_leases().remove((lease_id, kind)),
                None => !holds_lease(old(self).spec_leases(), lease_id) && final(self).spec_leases()
                    == old(self).spec_leases(),
            },
            !holds_lease(final(self).spec_leases(), lease_id),
            final(self).spec_operations() == old(self).spec_operations(),
            final(self).spec_closed() == old(self).spec_closed(),
            final(self).spec_next_invocation_id() == old(self).spec_next_invocation_id(),
            final(self).spec_retained() == old(self).spec_retained(),
            final(self).spec_input_streams() == old(self).spec_input_streams(),
            final(self).spec_released() == old(self).spec_released(),
    {
        proof {
            use_type_invariant(&*self);
        }
        let ghost before = self.leases@;
        let k = match find_lease(&self.leases, lease_id) {
            None => {
                proof {
                    lemma_lease_absent(before, lease_id);
                }
                return None;
            },
            Some(k) => k,
        };
        let mut updated: Vec<(u32, SessionResourceReceiver)> = Vec::new();
        std::mem::swap(&mut updated, &mut self.leases);
        let removed = updated.remove(k);
        proof {
            let kind = removed.1;
            assert(removed == before[k as int]);
            assert(updated@ =~= before.remove(k as int));
            assert(before.contains(removed));
            assert forall|i: int| 0 <= i < updated@.len() implies (#[trigger] updated@[i]).0
                != lease_id by {
                if i < k {
                    assert(updated@[i] == before[i]);
                } else {
                    assert(updated@[i] == before[i + 1]);
                }
            }
            lemma_lease_absent(updated@, lease_id);
            assert forall|x: (u32, SessionResourceReceiver)| updated@.to_set().contains(x)
                <==> before.to_set().remove((lease_id, kind)).contains(x) by {
                if updated@.contains(x) {
                    let i = choose|i: int| 0 <= i < updated@.len() && updated@[i] == x;
                    if i < k {
                        assert(before[i] == x);
                    } else {
                        assert(before[i + 1] == x);
                    }
                }
                if before.contains(x) && x != (lease_id, kind) {
                    let i = choose|i: int| 0 <= i < before.len() && before[i] == x;
                    if i < k {
                        assert(updated@[i] == x);
                    } else if i > k {
                        assert(updated@[i - 1] == x);
                    }
                }
            }
            assert(updated@.to_set() =~= before.to_set().remove((lease_id, kind)));
            assert forall|a: int, b: int| 0 <= a < b < updated@.len() implies (
            #[trigger] updated@[a]).0 != (#[trigger] updated@[b]).0 by {
                let a0 = if a < k { a } else { a + 1 };
                let b0 = if b < k { b } else { b + 1 };
                assert(updated@[a] == before[a0]);
                assert(updated@[b] == before[b0]);
            }
        }
        self.leases = updated;
        Some(removed.1)
    }

    /// Releases or cancels a lease, whether or not the session holds it.  A
    /// lease that was released before is not released again: nothing
    /// changes and no hook is to be called.  Otherwise the session stops
    /// holding the lease, a release (not a cancel) marks it released, and
    /// the hook of its kind is returned for the caller to call.
    pub fn release_lease(&mut self, lease_id: u32, kind: SessionResourceReceiver, cancel: bool) -> (hook:
        Option<SessionResourceHook>)
        ensures
            !cancel && old(self).spec_released().contains(lease_id) ==> {
                &&& hook is None
                &&& final(self).spec_leases() == old(self).spec_leases()
                &&& final(self).spec_released() == old(self).spec_released()
            },
            !(!cancel && old(self).spec_released().contains(lease_id)) ==> {
                &&& hook == Some(resource_hook(kind, cancel))
                &&& forall|lease: (u32, SessionResourceReceiver)|
                    #![trigger final(self).spec_leases().contains(lease)]
                    final(self).spec_leases().contains(lease) <==> (old(self).spec_leases().contains(
                        lease,
                    ) && lease.0 != lease_id)
                &&& final(self).spec_released() == (if cancel {
                    old(self).spec_released()
                } else {
                    old(self).spec_released().insert(lease_id)
                })
            },
            final(self).spec_operations() == old(self).spec_operations(),
            final(self).spec_closed() == old(self).spec_closed(),
            final(self).spec_next_invocation_id() == old(self).spec_next_invocation_id(),
            final(self).spec_retained() == old(self).spec_retained(),
            final(self).spec_input_streams() == old(self).spec_input_streams(),
    {
        if !cancel && ids_contain(&self.released, lease_id) {
            return None;
        }
        let ghost before = self.spec_leases();
        let held = self.untrack_lease(lease_id);
        proof {
            assert forall|lease: (u32, SessionResourceReceiver)|
                #![trigger self.spec_leases().contains(lease)]
                self.spec_leases().contains(lease) <==> (before.contains(lease) && lease.0
                    != lease_id) by {
                if self.spec_leases().contains(lease) && lease.0 == lease_id {
                    assert(lease == (lease_id, lease.1));
                    assert(self.spec_leases().contains((lease_id, lease.1)));
                }
            }
        }
        if !cancel {
            proof {
                use_type_invariant(&*self);
            }
            let mut released: Vec<u32> = Vec::new();
            std::mem::swap(&mut released, &mut self.released);
            mark_released(&mut released, lease_id);
            self.released = released;
        }
        Some(resource_hook_for(kind, cancel))
    }

    /// Closes the session.  The first close hands out, in increasing order,
    /// every callback and input stream that the session held, and every
    /// lease that it held, once each, with the hook that releases it; it
    /// leaves the session holding none.  A later close does nothing.
    pub fn close(&mut self) -> (release: Option<SessionRelease>)
        ensures
            old(self).spec_closed() ==> release is None && final(self).spec_closed()
                && final(self).spec_retained() == old(self).spec_retained()
                && final(self).spec_input_streams() == old(self).spec_input_streams()
                && final(self).spec_leases() == old(self).spec_leases()
                && final(self).spec_released() == old(self).spec_released(),
            !old(self).spec_closed() ==> (release matches Some(release) && {
                &&& forall|id: u32|
                    #![trigger final(self).spec_released().contains(id)]
                    final(self).spec_released().contains(id) <==> (old(self).spec_released().contains(
                        id,
                    ) || holds_lease(old(self).spec_leases(), id))
                &&& release.callbacks@.to_set() == old(self).spec_retained()
                &&& keys_increasing(release.callbacks@)
                &&& release.input_streams@.to_set() == old(self).spec_input_streams()
                &&& ids_increasing(release.input_streams@)
                &&& forall|id: u32, hook: SessionResourceHook|
                    #![trigger release.leases@.contains((id, hook))]
                    release.leases@.contains((id, hook)) <==> exists|kind: SessionResourceReceiver|
                        old(self).spec_leases().contains((id, kind)) && hook == closing_hook(kind)
                &&& forall|a: int, b: int|
                    0 <= a < b < release.leases@.len() ==> (#[trigger] release.leases@[a]).0
                        != (#[trigger] release.leases@[b]).0
                &&& final(self).spec_closed()
                &&& final(self).spec_retained() == Set::<(u32, u32)>::empty()
                &&& final(self).spec_input_streams() == Set::<u32>::empty()
                &&& final(self).spec_leases() == Set::<(u32, SessionResourceReceiver)>::empty()
            }),
            final(self).spec_operations() == old(self).spec_operations(),
            final(self).spec_next_invocation_id() == old(self).spec_next_invocation_id(),
    {
        proof {
            use_type_invariant(&*self);
        }
        if self.closed {
            return None;
        }
        self.closed = true;
        let mut callbacks: Vec<(u32, u32)> = Vec::new();
        std::mem::swap(&mut callbacks, &mut self.retained_callbacks);
        let mut input_streams: Vec<u32> = Vec::new();
        std::mem::swap(&mut input_streams, &mut self.input_streams);
        let mut held: Vec<(u32, SessionResourceReceiver)> = Vec::new();
        std::mem::swap(&mut held, &mut self.leases);
        assert(self.retained_callbacks@.to_set() =~= Set::<(u32, u32)>::empty());
        assert(self.input_streams@.to_set() =~= Set::<u32>::empty());
        assert(self.leases@.to_set() =~= Set::<(u32, SessionResourceReceiver)>::empty());
        let leases = closing_hooks(&held);
        let ghost released_before = self.released@.to_set();
        let mut released: Vec<u32> = Vec::new();
        std::mem::swap(&mut released, &mut self.released);
        let count = held.len();
        let mut k: usize = 0;
        while k < count
            invariant
                count == held@.len(),
                k <= count,
                forall|id: u32|
                    #![trigger released@.to_set().contains(id)]
                    released@.to_set().contains(id) <==> (released_before.contains(id) || exists|j: int|
                        0 <= j < k && (#[trigger] held@[j]).0 == id),
            decreases count - k,
        {
            let ghost previous = released@.to_set();
            mark_released(&mut released, held[k].0);
            proof {
                assert forall|id: u32| #![trigger released@.to_set().contains(id)]
                    released@.to_set().contains(id) <==> (released_before.contains(id) || exists|j: int|
                        0 <= j < k + 1 && (#[trigger] held@[j]).0 == id) by {
                    if id == held@[k as int].0 {
                        assert(released@.to_set().contains(id));
                    } else if exists|j: int| 0 <= j < k + 1 && (#[trigger] held@[j]).0 == id {
                        let j = choose|j: int| 0 <= j < k + 1 && (#[trigger] held@[j]).0 == id;
                        assert(j < k);
                        assert(previous.contains(id));
                    } else if previous.contains(id) && !released_before.contains(id) {
                        let j = choose|j: int| 0 <= j < k && (#[trigger] held@[j]).0 == id;
                        assert(j < k + 1);
                    }
                }
            }
            k += 1;
        }
        self.released = released;
        proof {
            assert forall|id: u32| #![trigger self.released@.to_set().contains(id)]
                self.released@.to_set().contains(id) <==> (released_before.contains(id)
                    || holds_lease(held@.to_set(), id)) by {
                if exists|j: int| 0 <= j < count && (#[trigger] held@[j]).0 == id {
                    let j = choose|j: int| 0 <= j < count && (#[trigger] held@[j]).0 == id;
                    assert(held@.contains(held@[j]));
                    assert(held@.to_set().contains((id, held@[j].1)));
                }
                if holds_lease(held@.to_set(), id) {
                    let kind = choose|kind: SessionResourceReceiver| held@.to_set().contains((id, kind));
                    assert(held@.contains((id, kind)));
                    let j = choose|j: int| 0 <= j < held@.len() && held@[j] == (id, kind);
                    assert(held@[j].0 == id);
                }
            }
        }
        proof {
            assert forall|id: u32, hook: SessionResourceHook|
                #![trigger leases@.contains((id, hook))]
                leases@.contains((id, hook)) <==> exists|kind: SessionResourceReceiver|
                    held@.to_set().contains((id, kind)) && hook == closing_hook(kind) by {
                if leases@.contains((id, hook)) {
                    let i = choose|i: int| 0 <= i < leases@.len() && leases@[i] == (id, hook);
                    assert(held@.contains(held@[i]));
                    assert(held@.to_set().contains((id, held@[i].1)));
                }
                if exists|kind: SessionResourceReceiver|
                    held@.to_set().contains((id, kind)) && hook == closing_hook(kind) {
                    let kind = choose|kind: SessionResourceReceiver|
                        held@.to_set().contains((id, kind)) && hook == closing_hook(kind);
                    assert(held@.contains((id, kind)));
                    let i = choose|i: int| 0 <= i < held@.len() && held@[i] == (id, kind);
                    assert(leases@[i] == (id, hook));
                }
            }
        }
        Some(SessionRelease { callbacks, input_streams, leases })
    }
}

/// The leases of a list, in order, each with the hook that closing calls.
fn closing_hooks(held: &Vec<(u32, SessionResourceReceiver)>) -> (leases: Vec<(u32, SessionResourceHook)>)
    requires
        lease_ids_distinct(held@),
    ensures
        leases@.len() == held@.len(),
        forall|i: int|
            0 <= i < held@.len() ==> (#[trigger] leases@[i]) == (held@[i].0, closing_hook(held@[i].1)),
        forall|a: int, b: int|
            0 <= a < b < leases@.len() ==> (#[trigger] leases@[a]).0 != (#[trigger] leases@[b]).0,
{
    let count = held.len();
    let mut leases: Vec<(u32, SessionResourceHook)> = Vec::new();
    let mut i: usize = 0;
    while i < count
        invariant
            count == held@.len(),
            i <= count,
            leases@.len() == i,
            forall|j: int|
                0 <= j < i ==> (#[trigger] leases@[j]) == (held@[j].0, closing_hook(held@[j].1)),
        decreases count - i,
    {
        let (id, kind) = held[i];
        let hook = resource_hook_for(kind, false);
        leases.push((id, hook));
        i += 1;
    }
    proof {
        assert forall|a: int, b: int| 0 <= a < b < leases@.len() implies (
        #[trigger] leases@[a]).0 != (#[trigger] leases@[b]).0 by {
            assert(held@[a].0 != held@[b].0);
        }
    }
    leases
}

/// Whether a list of ids holds this one.
fn ids_contain(ids: &Vec<u32>, id: u32) -> (found: bool)
    ensures
        found == ids@.to_set().contains(id),
{
    let count = ids.len();
    let mut k: usize = 0;
    while k < count
        invariant
            count == ids@.len(),
            k <= count,
            forall|j: int| 0 <= j < k ==> ids@[j] != id,
        decreases count - k,
    {
        if ids[k] == id {
            assert(ids@.contains(ids@[k as int]));
            return true;
        }
        k += 1;
    }
    false
}

/// Adds an id to a list of released ids.
fn mark_released(released: &mut Vec<u32>, id: u32)
    ensures
        final(released)@.to_set() == old(released)@.to_set().insert(id),
{
    if ids_contain(released, id) {
        assert(released@.to_set().insert(id) =~= released@.to_set());
        return;
    }
    let ghost before = released@;
    released.push(id);
    assert forall|x: u32| released@.to_set().contains(x) <==> before.to_set().insert(id).contains(x) by {
        if released@.contains(x) {
            let i = choose|i: int| 0 <= i < released@.len() && released@[i] == x;
            if i < before.len() {
                assert(before[i] == x);
            }
        }
        if before.contains(x) {
            let i = choose|i: int| 0 <= i < before.len() && before[i] == x;
            assert(released@[i] == x);
        }
        if x == id {
            assert(released@[before.len() as int] == x);
        }
    }
    assert(released@.to_set() =~= before.to_set().insert(id));
}

/// The position of the lease with this id, when a list holds one.
fn find_lease(leases: &Vec<(u32, SessionResourceReceiver)>, lease_id: u32) -> (found: Option<usize>)
    ensures
        match found {
            Some(k) => k < leases@.len() && leases@[k as int].0 == lease_id,
            None => forall|j: int| 0 <= j < leases@.len() ==> (#[trigger] leases@[j]).0 != lease_id,
        },
        found matches Some(k) ==> lease_ids_distinct(leases@) ==> forall|j: int|
            0 <= j < leases@.len() && j != k ==> (#[trigger] leases@[j]).0 != lease_id,
{
    let count = leases.len();
    let mut k: usize = 0;
    while k < count
        invariant
            count == leases@.len(),
            k <= count,
            forall|j: int| 0 <= j < k ==> (#[trigger] leases@[j]).0 != lease_id,
        decreases count - k,
    {
        if leases[k].0 == lease_id {
            proof {
                if lease_ids_distinct(leases@) {
                    assert forall|j: int| 0 <= j < leases@.len() && j != k implies (
                    #[trigger] leases@[j]).0 != lease_id by {
                        if j > k {
                            assert(leases@[k as int].0 != leases@[j].0);
                        }
                    }
                }
            }
            return Some(k);
        }
        k += 1;
    }
    None
}

/// A list none of whose leases has this id holds no lease with it.
proof fn lemma_lease_absent(leases: Seq<(u32, SessionResourceReceiver)>, lease_id: u32)
    requires
        forall|j: int| 0 <= j < leases.len() ==> (#[trigger] leases[j]).0 != lease_id,
    ensures
        !holds_lease(leases.to_set(), lease_id),
{
    assert forall|other: SessionResourceReceiver| !leases.to_set().contains((lease_id, other)) by {
        if leases.contains((lease_id, other)) {
            let i = choose|i: int| 0 <= i < leases.len() && leases[i] == (lease_id, other);
            assert(leases[i].0 != lease_id);
        }
    }
}

/// Whether key `a` comes before key `b`.
fn key_precedes(a: (u32, u32), b: (u32, u32)) -> (before: bool)
    ensures
        before == key_before(a, b),
{
    a.0 < b.0 || (a.0 == b.0 && a.1 < b.1)
}

} // verus!
