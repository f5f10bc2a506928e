use napi_uniffi_engine::bridge::{
  ArgumentBinding, ErrorBinding, ReturnBinding, RustArgumentPlan, RustBridgePlan,
  RustOperationPlan, RustOperationTarget, RustReceiverPlan, RustResourceHook, RustResourceHooks,
};
use napi_uniffi_engine::engine_error::EngineError;
use napi_uniffi_engine::generation::{check_generation, raw_operation_names};
use napi_uniffi_engine::napi_module::{ArgumentLowering, DescriptorReceiver, ReturnLift, plan_napi_module};
use napi_uniffi_engine::session::{SessionNativeCall, SessionOperationDispatch};
use napi_uniffi_engine::{
  AsyncKind, CallbackContract, CallbackReentrancy, CallbackRetention, CallbackThreading,
  CallbackUseSite, CarrierKind, ClosePolicy, ConversionRecipe, DeadlineAction,
  FamilyOperationInput, FamilyPlan, FamilyPlanInput, HostFlavor, OperationDispatch,
  OperationKind, ReceiverBinding, ResourceBinding, ResourceKind, ResourceOwnership,
  ResultResourceUseSite, StreamDirection, StreamSlotIdentity, StreamUseSite, StreamValueBinding,
  ValuePath, ValuePathSegment,
};

fn path(text: &str) -> syn::Path {
  syn::parse_str(text).unwrap()
}

fn ty(text: &str) -> syn::Type {
  syn::parse_str(text).unwrap()
}

const TEST_CLOSE_POLICY: ClosePolicy = ClosePolicy {
  grace_ms: 5_000,
  on_deadline: DeadlineAction::Detach,
};

fn argument(name: &str, binding: ArgumentBinding) -> RustArgumentPlan {
  RustArgumentPlan {
    name: name.to_owned(),
    binding,
  }
}

fn family_operation(
  id: u32,
  kind: OperationKind,
  async_kind: AsyncKind,
  argument_count: usize,
  fallible: bool,
  dispatch: OperationDispatch,
) -> FamilyOperationInput {
  FamilyOperationInput {
    id,
    kind,
    async_kind,
    fallible,
    argument_count,
    dispatch,
    receiver: None,
    result_resources: Vec::new(),
    callbacks: Vec::new(),
    streams: Vec::new(),
    stream_slot: None,
  }
}

fn family(flavor: HostFlavor) -> FamilyPlan {
  let mut operations = vec![
    family_operation(
      0,
      OperationKind::Function,
      AsyncKind::Sync,
      4,
      true,
      OperationDispatch::Native,
    ),
    family_operation(
      1,
      OperationKind::Function,
      AsyncKind::Async,
      0,
      false,
      OperationDispatch::Native,
    ),
    family_operation(
      2,
      OperationKind::Method,
      AsyncKind::Sync,
      1,
      false,
      OperationDispatch::Native,
    ),
    family_operation(
      3,
      OperationKind::CallbackMethod,
      AsyncKind::Async,
      0,
      true,
      OperationDispatch::CallbackHost {
        callback_type_id: 3,
        method_id: 0,
      },
    ),
    family_operation(
      4,
      OperationKind::Function,
      AsyncKind::Sync,
      1,
      false,
      OperationDispatch::Native,
    ),
    family_operation(
      5,
      OperationKind::OutputStreamStart,
      AsyncKind::Sync,
      0,
      false,
      OperationDispatch::Native,
    ),
    family_operation(
      6,
      OperationKind::OutputStreamNext,
      AsyncKind::Async,
      0,
      false,
      OperationDispatch::Native,
    ),
    family_operation(
      7,
      OperationKind::OutputStreamCancel,
      AsyncKind::Async,
      0,
      false,
      OperationDispatch::Native,
    ),
    family_operation(
      8,
      OperationKind::Function,
      AsyncKind::Async,
      1,
      false,
      OperationDispatch::Native,
    ),
    family_operation(
      9,
      OperationKind::InputStreamPull,
      AsyncKind::Async,
      0,
      false,
      OperationDispatch::InputStreamHostPull,
    ),
    family_operation(
      10,
      OperationKind::InputStreamCancel,
      AsyncKind::Async,
      0,
      false,
      OperationDispatch::InputStreamHostCancel,
    ),
  ];
  operations[1].result_resources.push(ResultResourceUseSite {
    operation_id: 1,
    path: ValuePath::return_value(),
    binding: ResourceBinding {
      kind: ResourceKind::Object,
      ownership: ResourceOwnership::Owned,
    },
  });
  operations[2].receiver = Some(ReceiverBinding::Resource(ResourceBinding {
    kind: ResourceKind::Object,
    ownership: ResourceOwnership::Borrowed,
  }));
  operations[4].callbacks.push(CallbackUseSite {
    operation_id: 4,
    callback_type_id: 3,
    path: ValuePath::argument(0),
    contract: CallbackContract {
      retention: CallbackRetention::Retained,
      threading: CallbackThreading::MayCrossThread,
      reentrancy: CallbackReentrancy::Forbidden,
    },
  });
  operations[5].result_resources.push(ResultResourceUseSite {
    operation_id: 5,
    path: ValuePath::return_value(),
    binding: ResourceBinding {
      kind: ResourceKind::OutputStream,
      ownership: ResourceOwnership::Owned,
    },
  });
  operations[5].streams.push(StreamUseSite {
    operation_id: 5,
    use_site_id: 0,
    path: ValuePath::return_value(),
    direction: StreamDirection::Output,
    item: StreamValueBinding {
      carrier: CarrierKind::Primitive,
      conversion: ConversionRecipe::Identity,
    },
    error: StreamValueBinding {
      carrier: CarrierKind::Primitive,
      conversion: ConversionRecipe::Identity,
    },
    is_send: false,
    slots: vec![
      StreamSlotIdentity {
        use_site_id: 0,
        operation_id: 5,
        kind: OperationKind::OutputStreamStart,
      },
      StreamSlotIdentity {
        use_site_id: 0,
        operation_id: 6,
        kind: OperationKind::OutputStreamNext,
      },
      StreamSlotIdentity {
        use_site_id: 0,
        operation_id: 7,
        kind: OperationKind::OutputStreamCancel,
      },
    ],
  });
  operations[5].stream_slot = Some(StreamSlotIdentity {
    use_site_id: 0,
    operation_id: 5,
    kind: OperationKind::OutputStreamStart,
  });
  for (id, kind) in [
    (6, OperationKind::OutputStreamNext),
    (7, OperationKind::OutputStreamCancel),
  ] {
    operations[id as usize].receiver = Some(ReceiverBinding::Resource(ResourceBinding {
      kind: ResourceKind::OutputStream,
      ownership: ResourceOwnership::Borrowed,
    }));
    operations[id as usize].kind = kind;
    operations[id as usize].stream_slot = Some(StreamSlotIdentity {
      use_site_id: 0,
      operation_id: id,
      kind,
    });
  }
  operations[8].streams.push(StreamUseSite {
    operation_id: 8,
    use_site_id: 1,
    path: ValuePath::argument(0),
    direction: StreamDirection::Input,
    item: StreamValueBinding {
      carrier: CarrierKind::Primitive,
      conversion: ConversionRecipe::Identity,
    },
    error: StreamValueBinding {
      carrier: CarrierKind::Primitive,
      conversion: ConversionRecipe::Identity,
    },
    is_send: false,
    slots: vec![
      StreamSlotIdentity {
        use_site_id: 1,
        operation_id: 9,
        kind: OperationKind::InputStreamPull,
      },
      StreamSlotIdentity {
        use_site_id: 1,
        operation_id: 10,
        kind: OperationKind::InputStreamCancel,
      },
    ],
  });
  operations[9].receiver = Some(ReceiverBinding::Resource(ResourceBinding {
    kind: ResourceKind::InputStream,
    ownership: ResourceOwnership::Borrowed,
  }));
  operations[10].receiver = Some(ReceiverBinding::Resource(ResourceBinding {
    kind: ResourceKind::InputStream,
    ownership: ResourceOwnership::Borrowed,
  }));
  operations[9].stream_slot = Some(StreamSlotIdentity {
    use_site_id: 1,
    operation_id: 9,
    kind: OperationKind::InputStreamPull,
  });
  operations[10].stream_slot = Some(StreamSlotIdentity {
    use_site_id: 1,
    operation_id: 10,
    kind: OperationKind::InputStreamCancel,
  });
  FamilyPlan::build(FamilyPlanInput {
    flavor,
    close_policy: TEST_CLOSE_POLICY,
    operations,
  })
  .unwrap()
}

fn native(
  id: u32,
  call: syn::Path,
  arguments: Vec<RustArgumentPlan>,
  return_binding: ReturnBinding,
  error_binding: ErrorBinding,
) -> RustOperationPlan {
  RustOperationPlan {
    operation_id: id,
    target: RustOperationTarget::Native { call },
    receiver: None,
    arguments,
    return_binding,
    error_binding,
  }
}

fn host(id: u32, target: RustOperationTarget) -> RustOperationPlan {
  RustOperationPlan {
    operation_id: id,
    target,
    receiver: None,
    arguments: Vec::new(),
    return_binding: ReturnBinding::Unit,
    error_binding: ErrorBinding::Infallible,
  }
}

fn with_receiver(
  mut operation: RustOperationPlan,
  name: &str,
  binding: ArgumentBinding,
) -> RustOperationPlan {
  operation.receiver = Some(RustReceiverPlan {
    name: name.to_owned(),
    binding,
  });
  operation
}

fn rust_plan(family: &FamilyPlan) -> RustBridgePlan {
  let operations = vec![
    native(
      0,
      path("fixture::numbers"),
      vec![
        argument("signed", ArgumentBinding::I64BigInt),
        argument("unsigned", ArgumentBinding::U64BigInt),
        argument(
          "payload",
          ArgumentBinding::LowerWith {
            carrier_type: ty("fixture::PayloadCarrier"),
            lower: path("fixture::lower_payload"),
          },
        ),
        argument(
          "bytes",
          ArgumentBinding::LowerWith {
            carrier_type: ty("napi::bindgen_prelude::Uint8Array"),
            lower: path("fixture::lower_bytes"),
          },
        ),
      ],
      ReturnBinding::I64BigInt,
      ErrorBinding::Descriptor {
        map: path("fixture::map_declared_error"),
      },
    ),
    native(
      1,
      path("fixture::make_thing"),
      Vec::new(),
      ReturnBinding::ObjectLease {
        carrier_type: ty("fixture::ObjectHandle"),
        lift: path("fixture::lift_object"),
      },
      ErrorBinding::Infallible,
    ),
    with_receiver(
      native(
        2,
        path("fixture::thing_add"),
        vec![argument("delta", ArgumentBinding::I64BigInt)],
        ReturnBinding::I64BigInt,
        ErrorBinding::Infallible,
      ),
      "thing",
      ArgumentBinding::ObjectLease {
        carrier_type: ty("fixture::ObjectHandle"),
        lower: path("fixture::lower_object"),
        ownership: ResourceOwnership::Borrowed,
      },
    ),
    host(3, RustOperationTarget::CallbackHost),
    native(
      4,
      path("fixture::observe"),
      vec![argument(
        "observer",
        ArgumentBinding::CallbackProxy {
          rust_type: ty("fixture::CallbackHandle"),
          build: path("fixture::build_callback_proxy"),
        },
      )],
      ReturnBinding::Unit,
      ErrorBinding::Infallible,
    ),
    native(
      5,
      path("fixture::read"),
      Vec::new(),
      ReturnBinding::OutputStreamLease {
        carrier_type: ty("fixture::OutputStreamHandle"),
        lift: path("fixture::lift_output_stream"),
      },
      ErrorBinding::Infallible,
    ),
    with_receiver(
      native(
        6,
        path("fixture::next_output_stream"),
        Vec::new(),
        ReturnBinding::LiftWith {
          carrier_type: ty("Option<napi::bindgen_prelude::Uint8Array>"),
          lift: path("fixture::lift_optional_bytes"),
        },
        ErrorBinding::Infallible,
      ),
      "stream",
      ArgumentBinding::OutputStreamLease {
        carrier_type: ty("fixture::OutputStreamHandle"),
        lower: path("fixture::lower_output_stream"),
        ownership: ResourceOwnership::Borrowed,
      },
    ),
    with_receiver(
      native(
        7,
        path("fixture::cancel_output_stream"),
        Vec::new(),
        ReturnBinding::Unit,
        ErrorBinding::Infallible,
      ),
      "stream",
      ArgumentBinding::OutputStreamLease {
        carrier_type: ty("fixture::OutputStreamHandle"),
        lower: path("fixture::lower_output_stream"),
        ownership: ResourceOwnership::Borrowed,
      },
    ),
    native(
      8,
      path("fixture::write"),
      vec![argument(
        "source",
        ArgumentBinding::InputStreamProxy {
          rust_type: ty("fixture::InputStreamHandle"),
          build: path("fixture::build_input_stream_proxy"),
        },
      )],
      ReturnBinding::Unit,
      ErrorBinding::Infallible,
    ),
    host(9, RustOperationTarget::InputStreamHostPull),
    host(10, RustOperationTarget::InputStreamHostCancel),
  ];
  RustBridgePlan::build_with_resource_hooks(
    family,
    operations,
    RustResourceHooks {
      release_object: Some(RustResourceHook {
        call: path("fixture::release_object"),
        carrier_type: ty("fixture::ObjectHandle"),
      }),
      cancel_output_stream: Some(RustResourceHook {
        call: path("fixture::cancel_output_stream_resource"),
        carrier_type: ty("fixture::OutputStreamHandle"),
      }),
      release_output_stream: Some(RustResourceHook {
        call: path("fixture::release_output_stream"),
        carrier_type: ty("fixture::OutputStreamHandle"),
      }),
    },
  )
  .unwrap()
}


#[test]
fn rejects_duplicate_or_incomplete_rust_operation_tables() {
  let family = family(HostFlavor::Node);
  let mut operations = rust_plan(&family).operations().to_vec();
  operations[1].operation_id = 0;
  let error = RustBridgePlan::build(&family, operations).unwrap_err();
  assert!(error.to_string().contains("duplicate Rust operation ID 0"));
  let mut operations = rust_plan(&family).operations().to_vec();
  operations.pop();
  let error = RustBridgePlan::build(&family, operations).unwrap_err();
  assert!(error.to_string().contains("bridge requires 11"));
}

#[test]
fn callback_and_stream_bindings_are_structured() {
  let family = family(HostFlavor::Node);
  let mut operations = rust_plan(&family).operations().to_vec();
  operations[4].arguments[0].binding = ArgumentBinding::Direct {
    carrier_type: ty("u32"),
  };
  let error = RustBridgePlan::build(&family, operations).unwrap_err();
  assert!(error.to_string().contains("structured callback"));
}

#[test]
fn structured_bindings_match_every_canonical_use_site() {
  let nested_operation = FamilyOperationInput {
    id: 0,
    kind: OperationKind::Function,
    async_kind: AsyncKind::Sync,
    fallible: false,
    argument_count: 1,
    dispatch: OperationDispatch::Native,
    receiver: None,
    result_resources: Vec::new(),
    callbacks: vec![CallbackUseSite {
      operation_id: 0,
      callback_type_id: 3,
      path: ValuePath::new(vec![
        ValuePathSegment::Argument(0),
        ValuePathSegment::Field("callback".to_owned()),
      ]),
      contract: CallbackContract {
        retention: CallbackRetention::Retained,
        threading: CallbackThreading::CallingThread,
        reentrancy: CallbackReentrancy::Allowed,
      },
    }],
    streams: Vec::new(),
    stream_slot: None,
  };
  let nested_family = FamilyPlan::build(FamilyPlanInput {
    flavor: HostFlavor::Node,
    close_policy: TEST_CLOSE_POLICY,
    operations: vec![nested_operation],
  })
  .unwrap();
  let direct_binding = native(
    0,
    path("fixture::lower"),
    vec![argument(
      "value",
      ArgumentBinding::Direct {
        carrier_type: ty("u32"),
      },
    )],
    ReturnBinding::Unit,
    ErrorBinding::Infallible,
  );
  let error = RustBridgePlan::build(&nested_family, vec![direct_binding]).unwrap_err();
  assert!(error.to_string().contains("structured callback"));
  let nested_binding = native(
    0,
    path("fixture::lower"),
    vec![argument(
      "value",
      ArgumentBinding::LowerWithHost {
        carrier_type: ty("u32"),
        lower: path("fixture::lower"),
      },
    )],
    ReturnBinding::Unit,
    ErrorBinding::Infallible,
  );
  assert!(RustBridgePlan::build(&nested_family, vec![nested_binding]).is_ok());

  let no_use_family = FamilyPlan::build(FamilyPlanInput {
    flavor: HostFlavor::Node,
    close_policy: TEST_CLOSE_POLICY,
    operations: vec![family_operation(
      0,
      OperationKind::Function,
      AsyncKind::Sync,
      1,
      false,
      OperationDispatch::Native,
    )],
  })
  .unwrap();
  let missing_use_site = native(
    0,
    path("fixture::lower"),
    vec![argument(
      "value",
      ArgumentBinding::LowerWithHost {
        carrier_type: ty("u32"),
        lower: path("fixture::lower"),
      },
    )],
    ReturnBinding::Unit,
    ErrorBinding::Infallible,
  );
  let error = RustBridgePlan::build(&no_use_family, vec![missing_use_site]).unwrap_err();
  assert!(error
    .to_string()
    .contains("structured callback or input stream"));

  let mut return_callback_operation = family_operation(
    0,
    OperationKind::Function,
    AsyncKind::Sync,
    0,
    false,
    OperationDispatch::Native,
  );
  return_callback_operation.callbacks.push(CallbackUseSite {
    operation_id: 0,
    callback_type_id: 3,
    path: ValuePath::return_value(),
    contract: CallbackContract {
      retention: CallbackRetention::Retained,
      threading: CallbackThreading::CallingThread,
      reentrancy: CallbackReentrancy::Allowed,
    },
  });
  let return_callback_family = FamilyPlan::build(FamilyPlanInput {
    flavor: HostFlavor::Node,
    close_policy: TEST_CLOSE_POLICY,
    operations: vec![return_callback_operation],
  })
  .unwrap();
  let direct_return = native(
    0,
    path("fixture::return_callback"),
    Vec::new(),
    ReturnBinding::Direct {
      carrier_type: ty("u32"),
    },
    ErrorBinding::Infallible,
  );
  let error = RustBridgePlan::build(&return_callback_family, vec![direct_return]).unwrap_err();
  assert!(error.to_string().contains("direct callback lease"));
  let callback_lease = native(
    0,
    path("fixture::return_callback"),
    Vec::new(),
    ReturnBinding::CallbackLease {
      carrier_type: ty("u32"),
      lift: path("fixture::lift_callback"),
    },
    ErrorBinding::Infallible,
  );
  assert!(RustBridgePlan::build(&return_callback_family, vec![callback_lease]).is_ok());

  let no_return_callback_family = FamilyPlan::build(FamilyPlanInput {
    flavor: HostFlavor::Node,
    close_policy: TEST_CLOSE_POLICY,
    operations: vec![family_operation(
      0,
      OperationKind::Function,
      AsyncKind::Sync,
      0,
      false,
      OperationDispatch::Native,
    )],
  })
  .unwrap();
  let stray_callback_lease = native(
    0,
    path("fixture::return_callback"),
    Vec::new(),
    ReturnBinding::CallbackLease {
      carrier_type: ty("u32"),
      lift: path("fixture::lift_callback"),
    },
    ErrorBinding::Infallible,
  );
  let error =
    RustBridgePlan::build(&no_return_callback_family, vec![stray_callback_lease]).unwrap_err();
  assert!(error.to_string().contains("direct callback lease"));

  let host_family = FamilyPlan::build(FamilyPlanInput {
    flavor: HostFlavor::Node,
    close_policy: TEST_CLOSE_POLICY,
    operations: vec![FamilyOperationInput {
      id: 0,
      kind: OperationKind::CallbackMethod,
      async_kind: AsyncKind::Sync,
      fallible: false,
      argument_count: 0,
      dispatch: OperationDispatch::CallbackHost {
        callback_type_id: 3,
        method_id: 0,
      },
      receiver: None,
      result_resources: Vec::new(),
      callbacks: vec![CallbackUseSite {
        operation_id: 0,
        callback_type_id: 3,
        path: ValuePath::return_value(),
        contract: CallbackContract {
          retention: CallbackRetention::Retained,
          threading: CallbackThreading::CallingThread,
          reentrancy: CallbackReentrancy::Allowed,
        },
      }],
      streams: Vec::new(),
      stream_slot: None,
    }],
  })
  .unwrap();
  let error = RustBridgePlan::build(
    &host_family,
    vec![host(0, RustOperationTarget::CallbackHost)],
  )
  .unwrap_err();
  assert!(error
    .to_string()
    .contains("host operation 0 must not contain callback or stream use-sites"));
}

#[test]
fn resource_results_are_mechanically_bound_to_return_carriers() {
  let family = family(HostFlavor::Node);
  let mut operations = rust_plan(&family).operations().to_vec();
  operations[1].return_binding = ReturnBinding::Direct {
    carrier_type: ty("u32"),
  };
  let error = RustBridgePlan::build(&family, operations).unwrap_err();
  assert!(error.to_string().contains("return binding incompatible"));

  let no_resource_family = FamilyPlan::build(FamilyPlanInput {
    flavor: HostFlavor::Node,
    close_policy: TEST_CLOSE_POLICY,
    operations: vec![family_operation(
      0,
      OperationKind::Function,
      AsyncKind::Sync,
      0,
      false,
      OperationDispatch::Native,
    )],
  })
  .unwrap();
  let error = RustBridgePlan::build(
    &no_resource_family,
    vec![RustOperationPlan {
      operation_id: 0,
      target: RustOperationTarget::Native {
        call: path("fixture::wrong_resource"),
      },
      receiver: None,
      arguments: Vec::new(),
      return_binding: ReturnBinding::ObjectLease {
        carrier_type: ty("u32"),
        lift: path("fixture::lift_object"),
      },
      error_binding: ErrorBinding::Infallible,
    }],
  )
  .unwrap_err();
  assert!(error.to_string().contains("return binding incompatible"));
}

#[test]
fn accepted_fixture_generates_and_names_native_operations() {
  let ohos = family(HostFlavor::Ohos);
  let family = family(HostFlavor::Node);
  let bridge = rust_plan(&family);
  assert!(check_generation(&family, &bridge).is_ok());
  let names = raw_operation_names(&family);
  assert_eq!(names.len(), 8);
  assert_eq!(
    names,
    vec![
      "__uniffi_raw_operation_0",
      "__uniffi_raw_operation_1",
      "__uniffi_raw_operation_2",
      "__uniffi_raw_operation_4",
      "__uniffi_raw_operation_5",
      "__uniffi_raw_operation_6",
      "__uniffi_raw_operation_7",
      "__uniffi_raw_operation_8",
    ]
  );
  assert_eq!(ohos.operations(), family.operations());
  assert_ne!(ohos.hooks(), family.hooks());
  assert!(check_generation(&ohos, &rust_plan(&ohos)).is_ok());
}

#[test]
fn generation_refuses_plans_out_of_step() {
  let family = family(HostFlavor::Node);
  let single = FamilyPlan::build(FamilyPlanInput {
    flavor: HostFlavor::Node,
    close_policy: TEST_CLOSE_POLICY,
    operations: vec![family_operation(
      0,
      OperationKind::Function,
      AsyncKind::Sync,
      0,
      false,
      OperationDispatch::Native,
    )],
  })
  .unwrap();
  let error = check_generation(&single, &rust_plan(&family)).unwrap_err();
  assert_eq!(
    error.to_string(),
    "Rust operation plan has 11 entries; bridge requires 1"
  );

  let host_first = FamilyPlan::build(FamilyPlanInput {
    flavor: HostFlavor::Node,
    close_policy: TEST_CLOSE_POLICY,
    operations: vec![family_operation(
      0,
      OperationKind::CallbackMethod,
      AsyncKind::Sync,
      0,
      false,
      OperationDispatch::CallbackHost {
        callback_type_id: 1,
        method_id: 0,
      },
    )],
  })
  .unwrap();
  let host_bridge =
    RustBridgePlan::build(&host_first, vec![host(0, RustOperationTarget::CallbackHost)]).unwrap();
  let error = check_generation(&single, &host_bridge).unwrap_err();
  assert!(matches!(
    error,
    EngineError::UnexpectedHostOperationCodegen { operation_id: 0 }
  ));
  assert_eq!(
    error.to_string(),
    "host operation 0 reached native operation code generation"
  );
}

#[test]
fn generation_needs_the_use_site_behind_each_proxy() {
  let family = family(HostFlavor::Node);
  let bridge = rust_plan(&family);
  let mut operations = Vec::new();
  for operation in family.operations() {
    let mut input = family_operation(
      operation.id,
      operation.kind,
      operation.async_kind,
      operation.argument_count,
      operation.fallible,
      match operation.target {
        napi_uniffi_engine::FamilyOperationTarget::Native => OperationDispatch::Native,
        napi_uniffi_engine::FamilyOperationTarget::CallbackHost {
          callback_type_id,
          method_id,
        } => OperationDispatch::CallbackHost {
          callback_type_id,
          method_id,
        },
        napi_uniffi_engine::FamilyOperationTarget::InputStreamHostPull => {
          OperationDispatch::InputStreamHostPull
        }
        napi_uniffi_engine::FamilyOperationTarget::InputStreamHostCancel => {
          OperationDispatch::InputStreamHostCancel
        }
      },
    );
    input.receiver = operation.receiver;
    input.result_resources = operation.result_resources.clone();
    input.callbacks = operation.callbacks.clone();
    input.streams = operation.streams.clone();
    input.stream_slot = operation.stream_slot;
    operations.push(input);
  }
  operations[4].callbacks.clear();
  let without_callback = FamilyPlan::build(FamilyPlanInput {
    flavor: HostFlavor::Node,
    close_policy: TEST_CLOSE_POLICY,
    operations,
  })
  .unwrap();
  let error = check_generation(&without_callback, &bridge).unwrap_err();
  assert!(matches!(
    error,
    EngineError::MissingStructuredUseSite {
      operation_id: 4,
      argument: 0,
      role: "callback"
    }
  ));
  assert_eq!(
    error.to_string(),
    "operation 4 argument 0 has no structured callback use-site contract"
  );
}

#[test]
fn generation_refuses_streams_the_session_cannot_carry() {
  let mut owner = family_operation(
    0,
    OperationKind::Function,
    AsyncKind::Sync,
    0,
    false,
    OperationDispatch::Native,
  );
  owner.streams.push(StreamUseSite {
    operation_id: 0,
    use_site_id: 0,
    path: ValuePath::return_value(),
    direction: StreamDirection::Input,
    item: StreamValueBinding {
      carrier: CarrierKind::Primitive,
      conversion: ConversionRecipe::Identity,
    },
    error: StreamValueBinding {
      carrier: CarrierKind::Primitive,
      conversion: ConversionRecipe::Identity,
    },
    is_send: false,
    slots: vec![
      StreamSlotIdentity {
        use_site_id: 0,
        operation_id: 1,
        kind: OperationKind::InputStreamPull,
      },
      StreamSlotIdentity {
        use_site_id: 0,
        operation_id: 2,
        kind: OperationKind::InputStreamCancel,
      },
    ],
  });
  let mut pull = family_operation(
    1,
    OperationKind::InputStreamPull,
    AsyncKind::Async,
    0,
    false,
    OperationDispatch::InputStreamHostPull,
  );
  pull.receiver = Some(ReceiverBinding::Resource(ResourceBinding {
    kind: ResourceKind::InputStream,
    ownership: ResourceOwnership::Borrowed,
  }));
  pull.stream_slot = Some(StreamSlotIdentity {
    use_site_id: 0,
    operation_id: 1,
    kind: OperationKind::InputStreamPull,
  });
  let mut cancel = family_operation(
    2,
    OperationKind::InputStreamCancel,
    AsyncKind::Async,
    0,
    false,
    OperationDispatch::InputStreamHostCancel,
  );
  cancel.receiver = pull.receiver;
  cancel.stream_slot = Some(StreamSlotIdentity {
    use_site_id: 0,
    operation_id: 2,
    kind: OperationKind::InputStreamCancel,
  });
  let family = FamilyPlan::build(FamilyPlanInput {
    flavor: HostFlavor::Node,
    close_policy: TEST_CLOSE_POLICY,
    operations: vec![owner, pull, cancel],
  })
  .unwrap();
  let bridge = RustBridgePlan::build(
    &family,
    vec![
      native(
        0,
        path("fixture::returns_input"),
        Vec::new(),
        ReturnBinding::Unit,
        ErrorBinding::Infallible,
      ),
      host(1, RustOperationTarget::InputStreamHostPull),
      host(2, RustOperationTarget::InputStreamHostCancel),
    ],
  )
  .unwrap();
  let error = check_generation(&family, &bridge).unwrap_err();
  assert_eq!(
    error.to_string(),
    "operation 0 has unsupported nested input stream use-site return"
  );
}

#[test]
fn module_plan_has_a_dense_function_table_and_one_factory() {
  let family = family(HostFlavor::Node);
  let plan = plan_napi_module(&family, &rust_plan(&family)).unwrap();
  assert_eq!(plan.functions.len(), 11);
  assert_eq!(plan.descriptors.len(), 11);
  let native: Vec<bool> = plan.functions.iter().map(|f| f.is_some()).collect();
  assert_eq!(
    native,
    vec![true, true, true, false, true, true, true, true, true, false, false]
  );
  assert_eq!(plan.raw_operation_names.len(), 8);
  assert_eq!(plan.raw_operation_names, raw_operation_names(&family));
  assert_eq!(plan.exports, vec!["__uniffi_backend_factory".to_owned()]);
  assert_eq!(plan.flavor, HostFlavor::Node);
  assert_eq!(plan.close_policy, TEST_CLOSE_POLICY);
  assert!(plan.resource_callbacks.release_object);
  assert!(plan.resource_callbacks.cancel_output_stream);
  assert!(plan.resource_callbacks.release_output_stream);

  let numbers = plan.functions[0].as_ref().unwrap();
  assert_eq!(numbers.raw_name, "__uniffi_raw_operation_0");
  assert_eq!(
    numbers.arguments,
    vec![
      ArgumentLowering::I64BigInt,
      ArgumentLowering::U64BigInt,
      ArgumentLowering::LowerWith,
      ArgumentLowering::LowerWith,
    ]
  );
  assert_eq!(numbers.return_lift, ReturnLift::BigInt);
  assert!(numbers.maps_error);
  assert!(!numbers.requires_host);
  assert!(!numbers.manual_async_entry);

  let make_thing = plan.functions[1].as_ref().unwrap();
  assert!(make_thing.asynchronous);
  assert!(!make_thing.manual_async_entry);
  assert_eq!(make_thing.return_lift, ReturnLift::LiftWith);
  assert_eq!(plan.descriptors[1].result, Some(ResourceKind::Object));

  let thing_add = plan.functions[2].as_ref().unwrap();
  assert_eq!(thing_add.receiver, Some(ArgumentLowering::ObjectLease));
  assert_eq!(
    plan.descriptors[2].receiver,
    Some(DescriptorReceiver::Resource(ResourceKind::Object))
  );

  assert!(std::ptr::eq(plan.family(), &family));
  assert_eq!(plan.family().operations().len(), 11);
  let observe = plan.functions[4].as_ref().unwrap();
  assert_eq!(observe.register_name, "__napi_register_uniffi_raw_operation_4");
  assert!(observe.strict && observe.skip_typescript && !observe.exported);
  assert_eq!(
    observe.arguments,
    vec![ArgumentLowering::CallbackProxy {
      callback_index: 0,
      callback_type_id: 3
    }]
  );
  assert!(observe.requires_host);
  assert!(observe.callback_transfer);
  assert!(plan.descriptors[4].callback_transfer);
  assert_eq!(plan.descriptors[4].native_call, SessionNativeCall::HostAndArguments);
  assert_eq!(plan.descriptors[4].callback_arguments.len(), 1);
  assert_eq!(
    plan.descriptors[4].callback_arguments[0].contract.reentrancy,
    CallbackReentrancy::Forbidden
  );
  assert_eq!(
    plan.descriptors[4].callback_arguments[0].path.segments,
    vec![ValuePathSegment::Argument(0)]
  );

  assert_eq!(plan.descriptors[5].result, Some(ResourceKind::OutputStream));
  assert_eq!(
    plan.functions[6].as_ref().unwrap().receiver,
    Some(ArgumentLowering::OutputStreamLease)
  );

  let write = plan.functions[8].as_ref().unwrap();
  assert_eq!(write.arguments, vec![ArgumentLowering::InputStreamProxy]);
  assert!(write.requires_host);
  assert!(write.manual_async_entry);
  assert!(!write.callback_transfer);
  assert_eq!(plan.descriptors[8].stream_arguments.len(), 1);
  assert_eq!(plan.descriptors[8].stream_arguments[0].use_site_id, 1);

  assert_eq!(
    plan.descriptors[3].dispatch,
    SessionOperationDispatch::CallbackHostAsync {
      callback_type_id: 3,
      method_id: 0
    }
  );
  assert!(!plan.descriptors[3].callback);
  assert_eq!(plan.descriptors[9].dispatch, SessionOperationDispatch::InputStreamHostPull);
  assert_eq!(plan.descriptors[10].dispatch, SessionOperationDispatch::InputStreamHostCancel);
}

#[test]
fn node_and_ohos_module_plans_differ_only_in_flavor() {
  let node = family(HostFlavor::Node);
  let ohos = family(HostFlavor::Ohos);
  let node_plan = plan_napi_module(&node, &rust_plan(&node)).unwrap();
  let ohos_plan = plan_napi_module(&ohos, &rust_plan(&ohos)).unwrap();
  assert_eq!(node_plan.flavor, HostFlavor::Node);
  assert_eq!(ohos_plan.flavor, HostFlavor::Ohos);
  assert_eq!(node_plan.functions, ohos_plan.functions);
  assert_eq!(node_plan.descriptors, ohos_plan.descriptors);
}
