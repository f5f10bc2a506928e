use napi_uniffi_engine::bridge::{
  ArgumentBinding, ErrorBinding, ReturnBinding, RustBridgePlan, RustOperationPlan,
  RustOperationTarget, RustReceiverPlan,
};
use napi_uniffi_engine::engine::BACKEND_FACTORY_EXPORT;
use napi_uniffi_engine::engine_error::EngineError;
use napi_uniffi_engine::entrypoints::add_runtime_entrypoints;
use napi_uniffi_engine::napi_module::{
  plan_napi_module, session_operation_descriptor, ArgumentLowering, DescriptorReceiver,
  NapiModulePlan, ReturnLift,
};
use napi_uniffi_engine::session::{SessionNativeCall, SessionOperationDispatch};
use napi_uniffi_engine::{
  AsyncKind, ClosePolicy, DeadlineAction, FamilyOperationInput,
  FamilyOperationTarget, FamilyPlan, FamilyPlanInput, HostFlavor, OperationDispatch,
  OperationKind, ReceiverBinding,
};

const TEST_CLOSE_POLICY: ClosePolicy = ClosePolicy {
  grace_ms: 5_000,
  on_deadline: DeadlineAction::Detach,
};

fn path(text: &str) -> syn::Path {
  syn::parse_str(text).unwrap()
}

fn ty(text: &str) -> syn::Type {
  syn::parse_str(text).unwrap()
}

fn value_method(async_kind: AsyncKind) -> FamilyPlan {
  FamilyPlan::build(FamilyPlanInput {
    flavor: HostFlavor::Node,
    close_policy: TEST_CLOSE_POLICY,
    operations: vec![FamilyOperationInput {
      id: 0,
      kind: OperationKind::Method,
      async_kind,
      fallible: false,
      argument_count: 0,
      dispatch: OperationDispatch::Native,
      receiver: Some(ReceiverBinding::Value),
      result_resources: Vec::new(),
      callbacks: Vec::new(),
      streams: Vec::new(),
      stream_slot: None,
    }],
  })
  .unwrap()
}

fn record_bridge(family: &FamilyPlan) -> RustBridgePlan {
  RustBridgePlan::build(
    family,
    vec![RustOperationPlan {
      operation_id: 0,
      target: RustOperationTarget::Native {
        call: path("fixture::record_method"),
      },
      receiver: Some(RustReceiverPlan {
        name: "record".to_owned(),
        binding: ArgumentBinding::LowerWith {
          carrier_type: ty("napi::bindgen_prelude::Object<'static>"),
          lower: path("fixture::lower_record"),
        },
      }),
      arguments: Vec::new(),
      return_binding: ReturnBinding::Direct { carrier_type: ty("u32") },
      error_binding: ErrorBinding::Infallible,
    }],
  )
  .unwrap()
}

fn plan_of<'a>(family: &'a FamilyPlan, bridge: &RustBridgePlan) -> NapiModulePlan<'a> {
  plan_napi_module(family, bridge).unwrap()
}

#[test]
fn sync_value_receiver_is_lowered_regularly() {
  let family = value_method(AsyncKind::Sync);
  let plan = plan_of(&family, &record_bridge(&family));
  assert_eq!(plan.functions.len(), 1);
  let function = plan.functions[0].as_ref().unwrap();
  assert_eq!(function.raw_name, "__uniffi_raw_operation_0");
  assert_eq!(function.receiver, Some(ArgumentLowering::LowerWith));
  assert!(!function.asynchronous);
  assert!(!function.requires_host);
  assert!(!function.manual_async_entry);
  assert!(!function.callback_transfer);
  assert_eq!(function.return_lift, ReturnLift::Value);
  assert!(!function.maps_error);
  assert!(function.strict);
  assert!(function.skip_typescript);
  assert!(!function.exported);
  assert_eq!(function.register_name, "__napi_register_uniffi_raw_operation_0");
  assert_eq!(
    function.callback_factory,
    "_napi_rs_internal_register___uniffi_raw_operation_0"
  );
  assert!(std::ptr::eq(plan.family(), &family));
  assert_eq!(plan.factory_register_name, "__napi_register_uniffi_backend_factory");
  let descriptor = &plan.descriptors[0];
  assert_eq!(descriptor.receiver, Some(DescriptorReceiver::Value));
  assert_eq!(descriptor.dispatch, SessionOperationDispatch::NativeSync);
  assert_eq!(descriptor.native_call, SessionNativeCall::ArgumentsOnly);
  assert!(descriptor.callback);
  assert_eq!(descriptor.result, None);
  assert_eq!(plan.exports, vec![BACKEND_FACTORY_EXPORT.to_owned()]);
  assert_eq!(plan.raw_operation_names, vec!["__uniffi_raw_operation_0".to_owned()]);
  assert!(!plan.resource_callbacks.release_object);
}

#[test]
fn async_value_receiver_is_lowered_before_the_future() {
  let family = value_method(AsyncKind::Async);
  let plan = plan_of(&family, &record_bridge(&family));
  let function = plan.functions[0].as_ref().unwrap();
  assert!(function.asynchronous);
  assert!(!function.requires_host);
  assert!(function.manual_async_entry);
  assert_eq!(plan.descriptors[0].dispatch, SessionOperationDispatch::NativeAsync);
}

#[test]
fn module_plan_refuses_what_generation_refuses() {
  let family = value_method(AsyncKind::Sync);
  let other = value_method(AsyncKind::Sync);
  let bridge = record_bridge(&other);
  let empty = FamilyPlan::build(FamilyPlanInput {
    flavor: HostFlavor::Node,
    close_policy: TEST_CLOSE_POLICY,
    operations: Vec::new(),
  })
  .unwrap();
  let error = plan_napi_module(&empty, &bridge).unwrap_err();
  assert_eq!(
    error.to_string(),
    "Rust operation plan has 1 entries; bridge requires 0"
  );
  assert!(plan_napi_module(&family, &bridge).is_ok());
  let plan = plan_napi_module(&empty, &RustBridgePlan::build(&empty, Vec::new()).unwrap()).unwrap();
  assert!(plan.functions.is_empty());
  assert!(plan.descriptors.is_empty());
  assert_eq!(plan.exports, vec!["__uniffi_backend_factory".to_owned()]);
}

#[test]
fn descriptor_needs_a_function_exactly_for_native_operations() {
  let family = value_method(AsyncKind::Sync);
  let bridge = record_bridge(&family);
  let operation = &family.operations()[0];
  let rust_operation = &bridge.operations()[0];
  let error = session_operation_descriptor(operation, rust_operation, false).unwrap_err();
  assert!(matches!(error, EngineError::MissingNativeCallback { operation_id: 0 }));
  assert_eq!(error.to_string(), "native operation 0 has no generated callback");
  let descriptor = session_operation_descriptor(operation, rust_operation, true).unwrap();
  assert!(descriptor.callback);
  assert!(descriptor.callback_arguments.is_empty());
  assert!(descriptor.stream_arguments.is_empty());

  let host = FamilyPlan::build(FamilyPlanInput {
    flavor: HostFlavor::Node,
    close_policy: TEST_CLOSE_POLICY,
    operations: vec![FamilyOperationInput {
      id: 0,
      kind: OperationKind::CallbackMethod,
      async_kind: AsyncKind::Sync,
      fallible: false,
      argument_count: 0,
      dispatch: OperationDispatch::CallbackHost {
        callback_type_id: 2,
        method_id: 1,
      },
      receiver: None,
      result_resources: Vec::new(),
      callbacks: Vec::new(),
      streams: Vec::new(),
      stream_slot: None,
    }],
  })
  .unwrap();
  let host_bridge = RustBridgePlan::build(
    &host,
    vec![RustOperationPlan {
      operation_id: 0,
      target: RustOperationTarget::CallbackHost,
      receiver: None,
      arguments: Vec::new(),
      return_binding: ReturnBinding::Unit,
      error_binding: ErrorBinding::Infallible,
    }],
  )
  .unwrap();
  let error =
    session_operation_descriptor(&host.operations()[0], &host_bridge.operations()[0], true)
      .unwrap_err();
  assert!(matches!(error, EngineError::UnexpectedNativeCallback { operation_id: 0 }));
  let descriptor =
    session_operation_descriptor(&host.operations()[0], &host_bridge.operations()[0], false)
      .unwrap();
  assert_eq!(
    descriptor.dispatch,
    SessionOperationDispatch::CallbackHostSync {
      callback_type_id: 2,
      method_id: 1
    }
  );
  let plan = plan_of(&host, &host_bridge);
  assert!(plan.functions[0].is_none());
  assert!(plan.raw_operation_names.is_empty());
  assert!(!plan.descriptors[0].callback);
}

#[test]
fn one_operation_never_marks_closing_the_session() {
  let operation = FamilyOperationInput {
    id: 0,
    kind: OperationKind::Function,
    async_kind: AsyncKind::Sync,
    fallible: false,
    argument_count: 0,
    dispatch: OperationDispatch::Native,
    receiver: None,
    result_resources: Vec::new(),
    callbacks: Vec::new(),
    streams: Vec::new(),
    stream_slot: None,
  };
  let mut marks = vec![false; 12];
  add_runtime_entrypoints(&operation, FamilyOperationTarget::Native, &mut marks);
  assert_eq!(marks, vec![false; 12]);
  let mut host = operation.clone();
  host.dispatch = OperationDispatch::CallbackHost {
    callback_type_id: 1,
    method_id: 0,
  };
  add_runtime_entrypoints(
    &host,
    FamilyOperationTarget::CallbackHost {
      callback_type_id: 1,
      method_id: 0,
    },
    &mut marks,
  );
  let mut expected = vec![false; 12];
  expected[4] = true;
  assert_eq!(marks, expected);
}
