use napi_uniffi_engine::bridge::{
  ArgumentBinding, ErrorBinding, ReturnBinding, RustArgumentPlan, RustBridgePlan,
  RustOperationPlan, RustOperationTarget, RustReceiverPlan, RustResourceHook, RustResourceHooks,
};
use napi_uniffi_engine::engine_error::EngineError;
use napi_uniffi_engine::{
  AsyncKind, ClosePolicy, DeadlineAction, FamilyOperationInput, FamilyPlan, FamilyPlanError,
  FamilyPlanInput, HostFlavor, OperationDispatch, OperationKind, ReceiverBinding,
  ResourceBinding, ResourceKind, ResourceOwnership, ResultResourceUseSite, ValuePath,
};

const POLICY: ClosePolicy = ClosePolicy {
  grace_ms: 1_000,
  on_deadline: DeadlineAction::Detach,
};

fn path(text: &str) -> syn::Path {
  syn::parse_str(text).unwrap()
}

fn ty(text: &str) -> syn::Type {
  syn::parse_str(text).unwrap()
}

fn family_op(id: u32, kind: OperationKind, dispatch: OperationDispatch) -> FamilyOperationInput {
  FamilyOperationInput {
    id,
    kind,
    async_kind: AsyncKind::Sync,
    fallible: false,
    argument_count: 0,
    dispatch,
    receiver: None,
    result_resources: Vec::new(),
    callbacks: Vec::new(),
    streams: Vec::new(),
    stream_slot: None,
  }
}

fn family(operations: Vec<FamilyOperationInput>) -> FamilyPlan {
  FamilyPlan::build(FamilyPlanInput {
    flavor: HostFlavor::Node,
    close_policy: POLICY,
    operations,
  })
  .unwrap()
}

fn direct(name: &str) -> RustArgumentPlan {
  RustArgumentPlan {
    name: name.to_owned(),
    binding: ArgumentBinding::Direct {
      carrier_type: ty("u32"),
    },
  }
}

fn native(id: u32, arguments: Vec<RustArgumentPlan>) -> RustOperationPlan {
  RustOperationPlan {
    operation_id: id,
    target: RustOperationTarget::Native {
      call: path("fixture::call"),
    },
    receiver: None,
    arguments,
    return_binding: ReturnBinding::Unit,
    error_binding: ErrorBinding::Infallible,
  }
}

fn host(id: u32) -> RustOperationPlan {
  RustOperationPlan {
    operation_id: id,
    target: RustOperationTarget::CallbackHost,
    receiver: None,
    arguments: Vec::new(),
    return_binding: ReturnBinding::Unit,
    error_binding: ErrorBinding::Infallible,
  }
}

fn callback_host_family() -> FamilyPlan {
  family(vec![family_op(
    0,
    OperationKind::CallbackMethod,
    OperationDispatch::CallbackHost {
      callback_type_id: 2,
      method_id: 0,
    },
  )])
}

fn message(result: Result<RustBridgePlan, EngineError>) -> String {
  result.unwrap_err().to_string()
}

#[test]
fn bridge_operations_follow_family_order() {
  let plan = family(vec![
    family_op(0, OperationKind::Function, OperationDispatch::Native),
    family_op(1, OperationKind::Function, OperationDispatch::Native),
  ]);
  let bridge = RustBridgePlan::build(&plan, vec![native(1, Vec::new()), native(0, Vec::new())]).unwrap();
  let ids: Vec<u32> = bridge.operations().iter().map(|operation| operation.operation_id).collect();
  assert_eq!(ids, vec![0, 1]);
  assert_eq!(bridge.resource_hooks(), &RustResourceHooks::default());
}

#[test]
fn every_family_operation_needs_its_rust_operation() {
  let plan = family(vec![
    family_op(0, OperationKind::Function, OperationDispatch::Native),
    family_op(1, OperationKind::Function, OperationDispatch::Native),
  ]);
  let result = RustBridgePlan::build(&plan, vec![native(0, Vec::new()), native(5, Vec::new())]);
  assert!(matches!(
    result,
    Err(EngineError::MissingRustOperation { id: 1 })
  ));
  assert_eq!(
    message(RustBridgePlan::build(&plan, vec![native(0, Vec::new()), native(5, Vec::new())])),
    "missing Rust operation ID 1"
  );
}

#[test]
fn native_operations_bind_every_argument_once() {
  let mut two = family_op(0, OperationKind::Function, OperationDispatch::Native);
  two.argument_count = 2;
  let plan = family(vec![two]);
  assert_eq!(
    message(RustBridgePlan::build(&plan, vec![native(0, vec![direct("x")])])),
    "operation 0 has 1 Rust arguments; bridge requires 2"
  );
  let result = RustBridgePlan::build(&plan, vec![native(0, vec![direct("x"), direct("x")])]);
  assert!(matches!(
    &result,
    Err(EngineError::DuplicateRustArgument { operation_id: 0, name }) if name == "x"
  ));
  assert_eq!(
    message(result),
    "operation 0 repeats Rust argument name \"x\""
  );
  assert!(RustBridgePlan::build(&plan, vec![native(0, vec![direct("x"), direct("y")])]).is_ok());
}

#[test]
fn argument_names_must_differ_from_the_receiver() {
  let mut method = family_op(0, OperationKind::Method, OperationDispatch::Native);
  method.receiver = Some(ReceiverBinding::Value);
  method.argument_count = 1;
  let plan = family(vec![method]);
  let mut operation = native(0, vec![direct("this")]);
  operation.receiver = Some(RustReceiverPlan {
    name: "this".to_owned(),
    binding: ArgumentBinding::I64BigInt,
  });
  assert_eq!(
    message(RustBridgePlan::build(&plan, vec![operation])),
    "operation 0 repeats Rust argument name \"this\""
  );
}

#[test]
fn error_mappers_follow_fallibility() {
  let mut fallible = family_op(0, OperationKind::Function, OperationDispatch::Native);
  fallible.fallible = true;
  let plan = family(vec![fallible]);
  assert_eq!(
    message(RustBridgePlan::build(&plan, vec![native(0, Vec::new())])),
    "fallible operation 0 has no error descriptor mapper"
  );
  let infallible = family(vec![family_op(0, OperationKind::Function, OperationDispatch::Native)]);
  let mut mapped = native(0, Vec::new());
  mapped.error_binding = ErrorBinding::Descriptor {
    map: path("fixture::map_error"),
  };
  assert_eq!(
    message(RustBridgePlan::build(&infallible, vec![mapped])),
    "infallible operation 0 unexpectedly has an error descriptor mapper"
  );
}

#[test]
fn rust_targets_match_family_targets() {
  let plan = family(vec![family_op(0, OperationKind::Function, OperationDispatch::Native)]);
  let result = RustBridgePlan::build(&plan, vec![host(0)]);
  assert!(matches!(
    result,
    Err(EngineError::InvalidOperationTarget {
      operation_id: 0,
      kind: OperationKind::Function
    })
  ));
  assert_eq!(
    message(RustBridgePlan::build(&plan, vec![host(0)])),
    "operation 0 has a Rust target incompatible with Function"
  );
  assert_eq!(
    message(RustBridgePlan::build(&callback_host_family(), vec![native(0, Vec::new())])),
    "operation 0 has a Rust target incompatible with CallbackMethod"
  );
}

#[test]
fn host_operations_bind_nothing() {
  let plan = callback_host_family();
  assert!(RustBridgePlan::build(&plan, vec![host(0)]).is_ok());
  let mut with_argument = host(0);
  with_argument.arguments.push(direct("x"));
  assert_eq!(
    message(RustBridgePlan::build(&plan, vec![with_argument])),
    "host operation 0 must not contain Rust call arguments or a receiver"
  );
  let mut with_return = host(0);
  with_return.return_binding = ReturnBinding::Direct {
    carrier_type: ty("u32"),
  };
  assert!(matches!(
    RustBridgePlan::build(&plan, vec![with_return]),
    Err(EngineError::HostOperationHasRustBindings { operation_id: 0 })
  ));
}

#[test]
fn receivers_match_the_family_receiver() {
  let plain = family(vec![family_op(0, OperationKind::Function, OperationDispatch::Native)]);
  let mut stray = native(0, Vec::new());
  stray.receiver = Some(RustReceiverPlan {
    name: "this".to_owned(),
    binding: ArgumentBinding::I64BigInt,
  });
  assert_eq!(
    message(RustBridgePlan::build(&plain, vec![stray])),
    "operation 0 unexpectedly has a Rust receiver binding"
  );

  let mut method = family_op(0, OperationKind::Method, OperationDispatch::Native);
  method.receiver = Some(ReceiverBinding::Value);
  let value_plan = family(vec![method]);
  assert_eq!(
    message(RustBridgePlan::build(&value_plan, vec![native(0, Vec::new())])),
    "operation 0 has no Rust receiver binding"
  );
  let mut leased = native(0, Vec::new());
  leased.receiver = Some(RustReceiverPlan {
    name: "this".to_owned(),
    binding: ArgumentBinding::ObjectLease {
      carrier_type: ty("u32"),
      lower: path("fixture::lower_object"),
      ownership: ResourceOwnership::Borrowed,
    },
  });
  assert_eq!(
    message(RustBridgePlan::build(&value_plan, vec![leased.clone()])),
    "value receiver operation 0 requires a regular value lowering"
  );

  let mut object_method = family_op(0, OperationKind::Method, OperationDispatch::Native);
  object_method.receiver = Some(ReceiverBinding::Resource(ResourceBinding {
    kind: ResourceKind::Object,
    ownership: ResourceOwnership::Owned,
  }));
  let object_plan = family(vec![object_method]);
  let hooks = RustResourceHooks {
    release_object: Some(RustResourceHook {
      call: path("fixture::release"),
      carrier_type: ty("u32"),
    }),
    cancel_output_stream: None,
    release_output_stream: None,
  };
  assert_eq!(
    message(RustBridgePlan::build_with_resource_hooks(
      &object_plan,
      vec![leased.clone()],
      hooks.clone()
    )),
    "resource receiver operation 0 requires a matching resource lease binding"
  );
  if let Some(receiver) = leased.receiver.as_mut() {
    receiver.binding = ArgumentBinding::ObjectLease {
      carrier_type: ty("u32"),
      lower: path("fixture::lower_object"),
      ownership: ResourceOwnership::Owned,
    };
  }
  assert!(RustBridgePlan::build_with_resource_hooks(&object_plan, vec![leased], hooks).is_ok());
}

#[test]
fn resources_need_their_hooks() {
  let mut maker = family_op(0, OperationKind::Function, OperationDispatch::Native);
  maker.result_resources.push(ResultResourceUseSite {
    operation_id: 0,
    path: ValuePath::return_value(),
    binding: ResourceBinding {
      kind: ResourceKind::Object,
      ownership: ResourceOwnership::Owned,
    },
  });
  let plan = family(vec![maker]);
  let mut operation = native(0, Vec::new());
  operation.return_binding = ReturnBinding::ObjectLease {
    carrier_type: ty("u32"),
    lift: path("fixture::lift_object"),
  };
  let result = RustBridgePlan::build(&plan, vec![operation.clone()]);
  assert!(matches!(
    result,
    Err(EngineError::MissingResourceHook {
      role: "object release"
    })
  ));
  assert_eq!(
    message(RustBridgePlan::build(&plan, vec![operation.clone()])),
    "Rust bridge plan has no structured object release hook"
  );
  let hooks = RustResourceHooks {
    release_object: Some(RustResourceHook {
      call: path("fixture::release"),
      carrier_type: ty("u32"),
    }),
    cancel_output_stream: None,
    release_output_stream: None,
  };
  let bridge = RustBridgePlan::build_with_resource_hooks(&plan, vec![operation], hooks.clone()).unwrap();
  assert_eq!(bridge.resource_hooks(), &hooks);
}

#[test]
fn family_errors_keep_their_message_inside_engine_errors() {
  let family_error = FamilyPlanError::DuplicateOperationId { id: 3 };
  let engine_error = EngineError::from(family_error.clone());
  assert_eq!(engine_error.to_string(), family_error.to_string());
  assert_eq!(
    EngineError::BackendCodegen("boom".to_owned()).to_string(),
    "napi backend codegen failed: boom"
  );
  assert_eq!(
    EngineError::UnsupportedUseSite {
      operation_id: 4,
      role: "callback",
      path: "return.field[x]".to_owned()
    }
    .to_string(),
    "operation 4 has unsupported nested callback use-site return.field[x]"
  );
  assert_eq!(
    EngineError::DuplicateRustArgument {
      operation_id: 1,
      name: "quote\"d".to_owned()
    }
    .to_string(),
    "operation 1 repeats Rust argument name \"quote\\\"d\""
  );
}
