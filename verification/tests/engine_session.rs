use napi_uniffi_engine::backend::{FnKind, FnSelf, NapiEnumValue};
use napi_uniffi_engine::bridge::{
  ArgumentBinding, ErrorBinding, ReturnBinding, RustArgumentPlan, RustOperationPlan,
  RustOperationTarget, RustReceiverPlan,
};
use napi_uniffi_engine::engine::{
  operation_requires_host, session_dispatch, session_native_call,
  value_receiver_requires_sync_lower, ErrorDomain, BACKEND_FACTORY_EXPORT,
};
use napi_uniffi_engine::engine_error::EngineError;
use napi_uniffi_engine::session::{
  argument_position, check_slot_callback, check_slot_callbacks, resource_hook_for, SessionCallbackArgument,
  SessionCallbackReentrancy, SessionCallbackRetention, SessionCallbackThreading, SessionFault,
  SessionLedger, SessionNativeCall, SessionOperation, SessionOperationDispatch,
  SessionResourceHook, SessionResourceReceiver, SessionStreamArgument, SessionStreamDirection,
};
use napi_uniffi_engine::{
  AsyncKind, CallbackContract, CallbackReentrancy, CallbackRetention, CallbackThreading,
  CallbackUseSite, ClosePolicy, DeadlineAction, FamilyOperationInput, FamilyPlan,
  FamilyPlanInput, HostFlavor, OperationDispatch, OperationKind, ReceiverBinding, ValuePath,
  ValuePathSegment,
};

fn family_operation(operation: FamilyOperationInput) -> napi_uniffi_engine::FamilyOperation {
  let plan = FamilyPlan::build(FamilyPlanInput {
    flavor: HostFlavor::Node,
    close_policy: ClosePolicy {
      grace_ms: 10,
      on_deadline: DeadlineAction::Detach,
    },
    operations: vec![operation],
  })
  .unwrap();
  plan.operations()[0].clone()
}

fn input(kind: OperationKind, dispatch: OperationDispatch, async_kind: AsyncKind) -> FamilyOperationInput {
  FamilyOperationInput {
    id: 0,
    kind,
    async_kind,
    fallible: false,
    argument_count: 0,
    dispatch,
    receiver: None,
    result_resources: Vec::new(),
    callbacks: Vec::new(),
    streams: Vec::new(),
    stream_slot: None,
  }
}

fn rust(arguments: Vec<RustArgumentPlan>, receiver: Option<RustReceiverPlan>) -> RustOperationPlan {
  RustOperationPlan {
    operation_id: 0,
    target: RustOperationTarget::Native {
      call: syn::parse_str("fixture::call").unwrap(),
    },
    receiver,
    arguments,
    return_binding: ReturnBinding::Unit,
    error_binding: ErrorBinding::Infallible,
  }
}

fn lower_with(host: bool) -> ArgumentBinding {
  let carrier_type = syn::parse_str("u32").unwrap();
  let lower = syn::parse_str("fixture::lower").unwrap();
  if host {
    ArgumentBinding::LowerWithHost { carrier_type, lower }
  } else {
    ArgumentBinding::LowerWith { carrier_type, lower }
  }
}

fn slot(dispatch: SessionOperationDispatch, receiver: Option<SessionResourceReceiver>) -> SessionOperation {
  SessionOperation {
    dispatch,
    native_call: SessionNativeCall::ArgumentsOnly,
    receiver,
    callback_arguments: vec![SessionCallbackArgument {
      argument_index: 0,
      callback_type_id: 1,
      retention: SessionCallbackRetention::Retained,
      threading: SessionCallbackThreading::CallingThread,
      reentrancy: SessionCallbackReentrancy::Forbidden,
    }],
    stream_arguments: vec![SessionStreamArgument {
      argument_index: 1,
      direction: SessionStreamDirection::Input,
    }],
  }
}

#[test]
fn error_domains_have_javascript_names() {
  assert_eq!(ErrorDomain::Declared.as_str(), "declared");
  assert_eq!(ErrorDomain::Validation.as_str(), "validation");
  assert_eq!(ErrorDomain::Backend.as_str(), "backend");
  assert_eq!(ErrorDomain::Panic.as_str(), "panic");
  assert_eq!(BACKEND_FACTORY_EXPORT, "__uniffi_backend_factory");
}

#[test]
fn host_is_passed_when_callbacks_or_input_streams_enter() {
  let plain = family_operation(input(OperationKind::Function, OperationDispatch::Native, AsyncKind::Sync));
  let direct = RustArgumentPlan {
    name: "x".to_owned(),
    binding: ArgumentBinding::I64BigInt,
  };
  assert!(!operation_requires_host(&rust(vec![direct.clone()], None), &plain));
  assert_eq!(
    session_native_call(&rust(vec![direct], None), &plain),
    SessionNativeCall::ArgumentsOnly
  );
  let nested = RustArgumentPlan {
    name: "x".to_owned(),
    binding: lower_with(true),
  };
  assert!(operation_requires_host(&rust(vec![nested.clone()], None), &plain));
  assert_eq!(
    session_native_call(&rust(vec![nested], None), &plain),
    SessionNativeCall::HostAndArguments
  );

  let mut with_callback = input(OperationKind::Function, OperationDispatch::Native, AsyncKind::Sync);
  with_callback.argument_count = 1;
  with_callback.callbacks.push(CallbackUseSite {
    operation_id: 0,
    callback_type_id: 1,
    path: ValuePath::new(vec![
      ValuePathSegment::Argument(0),
      ValuePathSegment::Field("f".to_owned()),
    ]),
    contract: CallbackContract {
      retention: CallbackRetention::Scoped,
      threading: CallbackThreading::CallingThread,
      reentrancy: CallbackReentrancy::Allowed,
    },
  });
  let callback_family = family_operation(with_callback);
  assert!(operation_requires_host(&rust(Vec::new(), None), &callback_family));

  let receiver = RustReceiverPlan {
    name: "this".to_owned(),
    binding: lower_with(true),
  };
  assert!(operation_requires_host(&rust(Vec::new(), Some(receiver)), &plain));
}

#[test]
fn value_receivers_lowered_from_javascript_are_lowered_first() {
  let mut method = input(OperationKind::Method, OperationDispatch::Native, AsyncKind::Async);
  method.receiver = Some(ReceiverBinding::Value);
  let value_family = family_operation(method);
  let lowered = RustReceiverPlan {
    name: "record".to_owned(),
    binding: lower_with(false),
  };
  assert!(value_receiver_requires_sync_lower(
    &rust(Vec::new(), Some(lowered.clone())),
    &value_family
  ));
  let carried = RustReceiverPlan {
    name: "record".to_owned(),
    binding: ArgumentBinding::Direct {
      carrier_type: syn::parse_str("u32").unwrap(),
    },
  };
  assert!(!value_receiver_requires_sync_lower(
    &rust(Vec::new(), Some(carried)),
    &value_family
  ));
  let plain = family_operation(input(OperationKind::Function, OperationDispatch::Native, AsyncKind::Sync));
  assert!(!value_receiver_requires_sync_lower(
    &rust(Vec::new(), Some(lowered)),
    &plain
  ));
}

#[test]
fn dispatch_keeps_the_sync_or_async_kind() {
  let sync_native = family_operation(input(OperationKind::Function, OperationDispatch::Native, AsyncKind::Sync));
  assert_eq!(
    session_dispatch(&sync_native).unwrap(),
    SessionOperationDispatch::NativeSync
  );
  let async_native = family_operation(input(OperationKind::Function, OperationDispatch::Native, AsyncKind::Async));
  assert_eq!(
    session_dispatch(&async_native).unwrap(),
    SessionOperationDispatch::NativeAsync
  );
  let host = family_operation(input(
    OperationKind::CallbackMethod,
    OperationDispatch::CallbackHost {
      callback_type_id: 3,
      method_id: 9,
    },
    AsyncKind::Async,
  ));
  assert_eq!(
    session_dispatch(&host).unwrap(),
    SessionOperationDispatch::CallbackHostAsync {
      callback_type_id: 3,
      method_id: 9
    }
  );
  let mut sync_pull = host.clone();
  sync_pull.target = napi_uniffi_engine::FamilyOperationTarget::InputStreamHostPull;
  sync_pull.async_kind = AsyncKind::Sync;
  let error = session_dispatch(&sync_pull).unwrap_err();
  assert!(matches!(
    error,
    EngineError::InvalidHostOperationSignature {
      operation_id: 0,
      reason: "input-stream pull must be async"
    }
  ));
  assert_eq!(
    error.to_string(),
    "host operation 0 is invalid: input-stream pull must be async"
  );
  let mut async_cancel = sync_pull.clone();
  async_cancel.target = napi_uniffi_engine::FamilyOperationTarget::InputStreamHostCancel;
  async_cancel.async_kind = AsyncKind::Async;
  assert_eq!(
    session_dispatch(&async_cancel).unwrap(),
    SessionOperationDispatch::InputStreamHostCancel
  );
}

#[test]
fn session_refuses_unknown_closed_and_mismatched_invocations() {
  let mut ledger = SessionLedger::new(vec![
    slot(SessionOperationDispatch::NativeSync, None),
    slot(SessionOperationDispatch::InputStreamHostPull, None),
  ]);
  assert!(ledger.begin(0, false).is_ok());
  assert!(ledger.begin(1, true).is_ok());
  let unknown = ledger.begin(2, false).unwrap_err();
  assert_eq!(unknown, SessionFault::UnknownOperation { id: 2 });
  assert_eq!(unknown.to_string(), "unknown UniFFI operation ID 2");
  let mismatch = ledger.begin(0, true).unwrap_err();
  assert_eq!(
    mismatch.to_string(),
    "operation 0 is sync, but was invoked through invokeAsync"
  );
  assert_eq!(
    ledger.begin(1, false).unwrap_err().to_string(),
    "operation 1 is async, but was invoked through invokeSync"
  );
  assert!(mismatch.is_invalid_argument());
  assert!(ledger.close().is_some());
  let closed = ledger.begin(0, false).unwrap_err();
  assert_eq!(closed, SessionFault::Closed);
  assert!(!closed.is_invalid_argument());
  assert_eq!(closed.to_string(), "UniFFI backend session is closed");
}

#[test]
fn callbacks_are_retained_once_and_released_in_order_on_close() {
  let mut ledger = SessionLedger::new(Vec::new());
  assert!(ledger.retain_callback(2, 5));
  assert!(ledger.retain_callback(1, 9));
  assert!(!ledger.retain_callback(2, 5));
  assert!(ledger.retain_callback(2, 1));
  ledger.track_input_stream(7);
  ledger.track_input_stream(3);
  ledger.track_input_stream(7);
  let release = ledger.close().unwrap();
  assert_eq!(release.callbacks, vec![(1, 9), (2, 1), (2, 5)]);
  assert_eq!(release.input_streams, vec![3, 7]);
  assert!(ledger.is_closed());
  assert!(ledger.close().is_none());
}

#[test]
fn invocation_ids_count_up() {
  let mut ledger = SessionLedger::new(Vec::new());
  assert_eq!(ledger.take_invocation_id(), 0);
  assert_eq!(ledger.take_invocation_id(), 1);
  assert_eq!(ledger.take_invocation_id(), 2);
}

#[test]
fn arguments_follow_the_receiver() {
  let with_receiver = slot(
    SessionOperationDispatch::NativeSync,
    Some(SessionResourceReceiver::Object),
  );
  let without = slot(SessionOperationDispatch::NativeSync, None);
  assert_eq!(argument_position(&with_receiver, 0), 1);
  assert_eq!(argument_position(&without, 0), 0);
  assert_eq!(argument_position(&with_receiver, u32::MAX), u32::MAX as u64 + 1);
}

#[test]
fn resource_hooks_follow_kind_and_cancel() {
  assert_eq!(
    resource_hook_for(SessionResourceReceiver::Object, true),
    SessionResourceHook::ReleaseObject
  );
  assert_eq!(
    resource_hook_for(SessionResourceReceiver::Object, false),
    SessionResourceHook::ReleaseObject
  );
  assert_eq!(
    resource_hook_for(SessionResourceReceiver::OutputStream, true),
    SessionResourceHook::CancelOutputStream
  );
  assert_eq!(
    resource_hook_for(SessionResourceReceiver::OutputStream, false),
    SessionResourceHook::ReleaseOutputStream
  );
}

#[test]
fn native_slots_and_only_native_slots_have_callbacks() {
  assert!(check_slot_callback(0, SessionOperationDispatch::NativeAsync, true).is_ok());
  assert!(check_slot_callback(0, SessionOperationDispatch::InputStreamHostCancel, false).is_ok());
  let missing = check_slot_callback(3, SessionOperationDispatch::NativeSync, false).unwrap_err();
  assert_eq!(
    missing.to_string(),
    "native UniFFI operation slot 3 has no callback"
  );
  let unexpected = check_slot_callback(
    4,
    SessionOperationDispatch::CallbackHostSync {
      callback_type_id: 1,
      method_id: 1,
    },
    true,
  )
  .unwrap_err();
  assert_eq!(
    unexpected.to_string(),
    "host UniFFI operation slot 4 unexpectedly has a native callback"
  );
  assert_eq!(
    SessionFault::MissingCallbackArgument { index: 2 }.to_string(),
    "missing callback argument at index 2"
  );
  assert_eq!(
    SessionFault::MissingInputStreamArgument { index: 1 }.to_string(),
    "missing input-stream argument at index 1"
  );
}

#[test]
fn backend_enums_compare_by_variant() {
  assert_eq!(FnKind::Getter, FnKind::Getter);
  assert_ne!(FnKind::Normal, FnKind::Factory);
  assert_ne!(FnSelf::Ref, FnSelf::MutRef);
  assert!(matches!(NapiEnumValue::Number(3), NapiEnumValue::Number(3)));
  assert!(matches!(NapiEnumValue::String("a".to_owned()), NapiEnumValue::String(_)));
}

#[test]
fn leases_are_held_once_and_released_on_close() {
  let mut ledger = SessionLedger::new(Vec::new());
  assert!(ledger.track_lease(4, SessionResourceReceiver::OutputStream));
  assert!(ledger.track_lease(1, SessionResourceReceiver::Object));
  assert!(!ledger.track_lease(4, SessionResourceReceiver::Object));
  assert!(ledger.track_lease(7, SessionResourceReceiver::Object));
  assert_eq!(ledger.untrack_lease(7), Some(SessionResourceReceiver::Object));
  assert_eq!(ledger.untrack_lease(7), None);
  let release = ledger.close().unwrap();
  assert_eq!(release.leases.len(), 2);
  assert!(release.leases.contains(&(1, SessionResourceHook::ReleaseObject)));
  assert!(release
    .leases
    .contains(&(4, SessionResourceHook::ReleaseOutputStream)));
  assert!(ledger.close().is_none());
  assert_eq!(ledger.untrack_lease(1), None);
}

#[test]
fn a_released_lease_is_not_released_again() {
  let mut ledger = SessionLedger::new(Vec::new());
  assert!(ledger.track_lease(2, SessionResourceReceiver::Object));
  assert_eq!(
    ledger.release_lease(2, SessionResourceReceiver::Object, false),
    Some(SessionResourceHook::ReleaseObject)
  );
  assert_eq!(ledger.release_lease(2, SessionResourceReceiver::Object, false), None);
  assert_eq!(ledger.untrack_lease(2), None);
  assert_eq!(
    ledger.release_lease(3, SessionResourceReceiver::OutputStream, true),
    Some(SessionResourceHook::CancelOutputStream)
  );
  assert_eq!(
    ledger.release_lease(3, SessionResourceReceiver::OutputStream, true),
    Some(SessionResourceHook::CancelOutputStream)
  );
  assert_eq!(
    ledger.release_lease(3, SessionResourceReceiver::OutputStream, false),
    Some(SessionResourceHook::ReleaseOutputStream)
  );
  assert_eq!(ledger.release_lease(3, SessionResourceReceiver::OutputStream, false), None);
  assert!(ledger.track_lease(5, SessionResourceReceiver::Object));
  let release = ledger.close().unwrap();
  assert_eq!(release.leases, vec![(5, SessionResourceHook::ReleaseObject)]);
  assert_eq!(ledger.release_lease(5, SessionResourceReceiver::Object, false), None);
}

#[test]
fn the_first_slot_without_its_callback_is_reported() {
  assert_eq!(check_slot_callbacks(&Vec::new()), Ok(()));
  let slots = vec![
    (SessionOperationDispatch::NativeSync, true),
    (SessionOperationDispatch::InputStreamHostPull, false),
    (SessionOperationDispatch::NativeAsync, false),
    (SessionOperationDispatch::InputStreamHostCancel, true),
  ];
  assert_eq!(
    check_slot_callbacks(&slots),
    Err(SessionFault::MissingNativeCallback { slot: 2 })
  );
  assert_eq!(check_slot_callbacks(&slots[..2].to_vec()), Ok(()));
  assert_eq!(
    check_slot_callbacks(&vec![slots[0], slots[3]]),
    Err(SessionFault::UnexpectedNativeCallback { slot: 1 })
  );
}
