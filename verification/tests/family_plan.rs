use napi_uniffi_engine::{
  require_lossless_i64, require_lossless_u64, AsyncKind, BigIntLossError, BigIntWords,
  CallbackContract, CallbackDispatch, CallbackReentrancy, CallbackRetention, CallbackThreading,
  CallbackUseSite, CarrierKind, ClosePolicy, ConversionRecipe, DeadlineAction,
  FamilyOperationInput, FamilyPlan, FamilyPlanError, FamilyPlanInput, HostFlavor,
  OperationDispatch, OperationKind, ReceiverBinding, ResourceBinding, ResourceKind,
  ResourceOwnership, ResultResourceUseSite, RuntimeEntrypoint, StreamDirection,
  StreamSlotIdentity, StreamUseSite, StreamValueBinding, ValuePath, ValuePathSegment,
};

const TEST_CLOSE_POLICY: ClosePolicy = ClosePolicy {
  grace_ms: 5_000,
  on_deadline: DeadlineAction::Detach,
};

fn operation(id: u32, kind: OperationKind, dispatch: OperationDispatch) -> FamilyOperationInput {
  FamilyOperationInput {
    id,
    kind,
    async_kind: AsyncKind::Sync,
    fallible: false,
    argument_count: 0,
    dispatch,
    receiver: None,
    result_resources: Vec::new(),
    callbacks: Vec::new(),
    streams: Vec::new(),
    stream_slot: None,
  }
}

#[test]
fn bigint_boundaries_are_lossless_and_signed() {
  assert_eq!(require_lossless_i64(i64::MIN, true), Ok(i64::MIN));
  assert_eq!(
    require_lossless_i64(0, false),
    Err(BigIntLossError::LossySigned)
  );
  assert_eq!(require_lossless_u64(false, u64::MAX, true), Ok(u64::MAX));
  assert_eq!(
    require_lossless_u64(true, 1, true),
    Err(BigIntLossError::NegativeUnsigned)
  );
  assert_eq!(BigIntWords::from(i64::MIN).words, vec![1_u64 << 63]);
  assert!(BigIntWords::from(i64::MIN).negative);
}

#[test]
fn node_and_ohos_differences_are_explicit_hooks() {
  assert_eq!(
    HostFlavor::Node.hooks().callback_dispatch,
    CallbackDispatch::ThreadsafeFunction
  );
  assert_eq!(
    HostFlavor::Ohos.hooks().callback_dispatch,
    CallbackDispatch::ArkPriorityThreadsafeFunction
  );
}

#[test]
fn close_policy_is_required_and_timer_safe() {
  let operation = operation(0, OperationKind::Function, OperationDispatch::Native);
  let mut plan_input = FamilyPlanInput {
    flavor: HostFlavor::Node,
    close_policy: TEST_CLOSE_POLICY,
    operations: vec![operation.clone()],
  };
  let plan = FamilyPlan::build(plan_input.clone()).unwrap();
  assert_eq!(plan.close_policy(), TEST_CLOSE_POLICY);

  plan_input.close_policy.grace_ms = i32::MAX as u32 + 1;
  assert!(matches!(
    FamilyPlan::build(plan_input),
    Err(FamilyPlanError::ClosePolicyOutOfRange { .. })
  ));
}

#[test]
fn family_validates_dense_ids_method_dispatch_and_lifetimes() {
  let plan = FamilyPlan::build(FamilyPlanInput {
    flavor: HostFlavor::Node,
    close_policy: TEST_CLOSE_POLICY,
    operations: vec![
      operation(1, OperationKind::Function, OperationDispatch::Native),
      operation(0, OperationKind::Function, OperationDispatch::Native),
    ],
  })
  .unwrap();
  assert_eq!(plan.operations()[0].id, 0);
  assert!(plan
    .runtime_entrypoints()
    .iter()
    .any(|entry| *entry == RuntimeEntrypoint::CloseSession));

  let bad = FamilyPlan::build(FamilyPlanInput {
    flavor: HostFlavor::Node,
    close_policy: TEST_CLOSE_POLICY,
    operations: vec![operation(
      0,
      OperationKind::CallbackMethod,
      OperationDispatch::Native,
    )],
  })
  .unwrap_err();
  assert!(bad.to_string().contains("incompatible host dispatch"));

  let mut misplaced_host = operation(
    0,
    OperationKind::Function,
    OperationDispatch::InputStreamHostPull,
  );
  misplaced_host.async_kind = AsyncKind::Async;
  let bad = FamilyPlan::build(FamilyPlanInput {
    flavor: HostFlavor::Node,
    close_policy: TEST_CLOSE_POLICY,
    operations: vec![misplaced_host],
  })
  .unwrap_err();
  assert!(matches!(bad, FamilyPlanError::WrongDispatch { id: 0 }));
}

#[test]
fn method_receivers_preserve_value_or_resource_category() {
  let mut value_method = operation(0, OperationKind::Method, OperationDispatch::Native);
  value_method.receiver = Some(ReceiverBinding::Value);
  let value_plan = FamilyPlan::build(FamilyPlanInput {
    flavor: HostFlavor::Node,
    close_policy: TEST_CLOSE_POLICY,
    operations: vec![value_method],
  })
  .unwrap();
  assert_eq!(
    value_plan.operations()[0].receiver,
    Some(ReceiverBinding::Value)
  );
  assert!(!value_plan
    .runtime_entrypoints()
    .iter()
    .any(|entry| *entry == RuntimeEntrypoint::ReleaseObject));

  let mut resource_method = operation(0, OperationKind::Method, OperationDispatch::Native);
  resource_method.receiver = Some(ReceiverBinding::Resource(ResourceBinding {
    kind: ResourceKind::Object,
    ownership: ResourceOwnership::Borrowed,
  }));
  let resource_plan = FamilyPlan::build(FamilyPlanInput {
    flavor: HostFlavor::Node,
    close_policy: TEST_CLOSE_POLICY,
    operations: vec![resource_method],
  })
  .unwrap();
  assert!(matches!(
    resource_plan.operations()[0].receiver,
    Some(ReceiverBinding::Resource(ResourceBinding {
      kind: ResourceKind::Object,
      ownership: ResourceOwnership::Borrowed,
    }))
  ));
  assert!(resource_plan
    .runtime_entrypoints()
    .iter()
    .any(|entry| *entry == RuntimeEntrypoint::ReleaseObject));

  let mut stream = operation(
    0,
    OperationKind::InputStreamPull,
    OperationDispatch::InputStreamHostPull,
  );
  stream.async_kind = AsyncKind::Async;
  stream.receiver = Some(ReceiverBinding::Value);
  assert!(matches!(
    FamilyPlan::build(FamilyPlanInput {
      flavor: HostFlavor::Node,
      close_policy: TEST_CLOSE_POLICY,
      operations: vec![stream],
    }),
    Err(FamilyPlanError::WrongReceiverKind { id: 0 })
  ));
}

#[test]
fn callback_contract_and_stream_paths_are_retained_without_type_graph() {
  let mut op = operation(0, OperationKind::Function, OperationDispatch::Native);
  op.argument_count = 1;
  op.callbacks.push(CallbackUseSite {
    operation_id: 0,
    callback_type_id: 7,
    path: ValuePath::argument(0),
    contract: CallbackContract {
      retention: CallbackRetention::Retained,
      threading: CallbackThreading::CallingThread,
      reentrancy: CallbackReentrancy::Forbidden,
    },
  });
  op.streams.push(StreamUseSite {
    operation_id: 0,
    use_site_id: 0,
    path: ValuePath::argument(0),
    direction: StreamDirection::Input,
    item: StreamValueBinding {
      carrier: CarrierKind::Primitive,
      conversion: ConversionRecipe::Identity,
    },
    error: StreamValueBinding {
      carrier: CarrierKind::Primitive,
      conversion: ConversionRecipe::Identity,
    },
    is_send: false,
    slots: vec![
      StreamSlotIdentity {
        use_site_id: 0,
        operation_id: 1,
        kind: OperationKind::InputStreamPull,
      },
      StreamSlotIdentity {
        use_site_id: 0,
        operation_id: 2,
        kind: OperationKind::InputStreamCancel,
      },
    ],
  });
  let mut pull = operation(
    1,
    OperationKind::InputStreamPull,
    OperationDispatch::InputStreamHostPull,
  );
  pull.async_kind = AsyncKind::Async;
  pull.receiver = Some(ReceiverBinding::Resource(ResourceBinding {
    kind: ResourceKind::InputStream,
    ownership: ResourceOwnership::Borrowed,
  }));
  pull.stream_slot = Some(StreamSlotIdentity {
    use_site_id: 0,
    operation_id: 1,
    kind: OperationKind::InputStreamPull,
  });
  let mut cancel = operation(
    2,
    OperationKind::InputStreamCancel,
    OperationDispatch::InputStreamHostCancel,
  );
  cancel.async_kind = AsyncKind::Async;
  cancel.receiver = Some(ReceiverBinding::Resource(ResourceBinding {
    kind: ResourceKind::InputStream,
    ownership: ResourceOwnership::Borrowed,
  }));
  cancel.stream_slot = Some(StreamSlotIdentity {
    use_site_id: 0,
    operation_id: 2,
    kind: OperationKind::InputStreamCancel,
  });
  let mut bad_cancel = cancel.clone();
  bad_cancel.result_resources.push(ResultResourceUseSite {
    operation_id: bad_cancel.id,
    path: ValuePath::return_value(),
    binding: ResourceBinding {
      kind: ResourceKind::OutputStream,
      ownership: ResourceOwnership::Owned,
    },
  });
  let error = FamilyPlan::build(FamilyPlanInput {
    flavor: HostFlavor::Ohos,
    close_policy: TEST_CLOSE_POLICY,
    operations: vec![op.clone(), pull.clone(), bad_cancel],
  })
  .unwrap_err();
  assert!(matches!(error, FamilyPlanError::CancelHasResult { id: 2 }));
  let mut orphan_owner = op.clone();
  orphan_owner.streams.clear();
  let error = FamilyPlan::build(FamilyPlanInput {
    flavor: HostFlavor::Ohos,
    close_policy: TEST_CLOSE_POLICY,
    operations: vec![orphan_owner, pull.clone(), cancel.clone()],
  })
  .unwrap_err();
  assert!(matches!(
    error,
    FamilyPlanError::OrphanStreamSlot {
      use_site_id: 0,
      operation_id: 1,
      kind: OperationKind::InputStreamPull,
    }
  ));
  let mut mismatched_slot = cancel.clone();
  mismatched_slot.stream_slot.as_mut().unwrap().kind = OperationKind::InputStreamPull;
  let error = FamilyPlan::build(FamilyPlanInput {
    flavor: HostFlavor::Ohos,
    close_policy: TEST_CLOSE_POLICY,
    operations: vec![op.clone(), pull.clone(), mismatched_slot],
  })
  .unwrap_err();
  assert!(matches!(
    error,
    FamilyPlanError::StreamSlotKindMismatch {
      operation_id: 2,
      expected: OperationKind::InputStreamCancel,
      actual: OperationKind::InputStreamPull,
    }
  ));
  let plan = FamilyPlan::build(FamilyPlanInput {
    flavor: HostFlavor::Ohos,
    close_policy: TEST_CLOSE_POLICY,
    operations: vec![op, pull, cancel],
  })
  .unwrap();
  assert_eq!(plan.operations()[0].callbacks[0].callback_type_id, 7);
  assert!(plan
    .runtime_entrypoints()
    .iter()
    .any(|entry| *entry == RuntimeEntrypoint::RetainCallback));
  assert!(plan
    .runtime_entrypoints()
    .iter()
    .any(|entry| *entry == RuntimeEntrypoint::PullInputStream));
}

#[test]
fn paths_have_one_root_and_no_nested_operation_selectors() {
  let mut op = operation(0, OperationKind::Function, OperationDispatch::Native);
  op.argument_count = 1;
  op.callbacks.push(CallbackUseSite {
    operation_id: 0,
    callback_type_id: 1,
    path: ValuePath::new(vec![ValuePathSegment::Field("field".into())]),
    contract: CallbackContract {
      retention: CallbackRetention::Scoped,
      threading: CallbackThreading::CallingThread,
      reentrancy: CallbackReentrancy::Allowed,
    },
  });
  let error = FamilyPlan::build(FamilyPlanInput {
    flavor: HostFlavor::Node,
    close_policy: TEST_CLOSE_POLICY,
    operations: vec![op.clone()],
  })
  .unwrap_err();
  assert!(error.to_string().contains("invalid callback path root"));

  op.callbacks[0].path = ValuePath::new(vec![
    ValuePathSegment::Argument(0),
    ValuePathSegment::Return,
  ]);
  let error = FamilyPlan::build(FamilyPlanInput {
    flavor: HostFlavor::Node,
    close_policy: TEST_CLOSE_POLICY,
    operations: vec![op],
  })
  .unwrap_err();
  assert!(error.to_string().contains("nested root segment"));

  let mut valid = operation(0, OperationKind::Function, OperationDispatch::Native);
  valid.argument_count = 1;
  valid.callbacks.push(CallbackUseSite {
    operation_id: 0,
    callback_type_id: 1,
    path: ValuePath::new(vec![
      ValuePathSegment::Argument(0),
      ValuePathSegment::Field("field".into()),
    ]),
    contract: CallbackContract {
      retention: CallbackRetention::Scoped,
      threading: CallbackThreading::CallingThread,
      reentrancy: CallbackReentrancy::Allowed,
    },
  });
  FamilyPlan::build(FamilyPlanInput {
    flavor: HostFlavor::Node,
    close_policy: TEST_CLOSE_POLICY,
    operations: vec![valid],
  })
  .unwrap();
}

#[test]
fn result_resource_paths_are_return_rooted_owned_and_unique() {
  let mut operation = operation(0, OperationKind::Function, OperationDispatch::Native);
  operation.result_resources.push(ResultResourceUseSite {
    operation_id: 0,
    path: ValuePath::new(vec![
      ValuePathSegment::Return,
      ValuePathSegment::Field("object".into()),
      ValuePathSegment::Optional,
    ]),
    binding: ResourceBinding {
      kind: ResourceKind::Object,
      ownership: ResourceOwnership::Owned,
    },
  });
  operation.result_resources.push(ResultResourceUseSite {
    operation_id: 0,
    path: ValuePath::new(vec![
      ValuePathSegment::Return,
      ValuePathSegment::SequenceElement,
      ValuePathSegment::Field("stream".into()),
    ]),
    binding: ResourceBinding {
      kind: ResourceKind::OutputStream,
      ownership: ResourceOwnership::Owned,
    },
  });
  for (path, kind) in [
    (
      ValuePath::new(vec![
        ValuePathSegment::Return,
        ValuePathSegment::Variant("Ready".into()),
        ValuePathSegment::Field("object".into()),
      ]),
      ResourceKind::Object,
    ),
    (
      ValuePath::new(vec![
        ValuePathSegment::Return,
        ValuePathSegment::SetElement,
        ValuePathSegment::Field("object".into()),
      ]),
      ResourceKind::Object,
    ),
    (
      ValuePath::new(vec![
        ValuePathSegment::Return,
        ValuePathSegment::MapKey,
        ValuePathSegment::Field("object".into()),
      ]),
      ResourceKind::Object,
    ),
    (
      ValuePath::new(vec![
        ValuePathSegment::Return,
        ValuePathSegment::MapValue,
        ValuePathSegment::Field("object".into()),
      ]),
      ResourceKind::Object,
    ),
  ] {
    operation.result_resources.push(ResultResourceUseSite {
      operation_id: 0,
      path,
      binding: ResourceBinding {
        kind,
        ownership: ResourceOwnership::Owned,
      },
    });
  }
  let plan = FamilyPlan::build(FamilyPlanInput {
    flavor: HostFlavor::Node,
    close_policy: TEST_CLOSE_POLICY,
    operations: vec![operation.clone()],
  })
  .unwrap();
  assert_eq!(plan.operations()[0].result_resources.len(), 6);

  let mut invalid = operation.clone();
  invalid.result_resources[0].path = ValuePath::argument(0);
  assert!(matches!(
    FamilyPlan::build(FamilyPlanInput {
      flavor: HostFlavor::Node,
      close_policy: TEST_CLOSE_POLICY,
      operations: vec![invalid],
    }),
    Err(FamilyPlanError::InvalidPathRoot {
      role: "result resource",
      ..
    })
  ));

  let mut borrowed = operation.clone();
  borrowed.result_resources[0].binding.ownership = ResourceOwnership::Borrowed;
  assert!(matches!(
    FamilyPlan::build(FamilyPlanInput {
      flavor: HostFlavor::Node,
      close_policy: TEST_CLOSE_POLICY,
      operations: vec![borrowed],
    }),
    Err(FamilyPlanError::NonOwnedResultResource { .. })
  ));

  let mut by_arc = operation.clone();
  by_arc.result_resources[0].binding.ownership = ResourceOwnership::ByArc;
  assert!(matches!(
    FamilyPlan::build(FamilyPlanInput {
      flavor: HostFlavor::Node,
      close_policy: TEST_CLOSE_POLICY,
      operations: vec![by_arc],
    }),
    Err(FamilyPlanError::NonOwnedResultResource { .. })
  ));

  let mut nested_root = operation.clone();
  nested_root.result_resources[0].path = ValuePath::new(vec![
    ValuePathSegment::Return,
    ValuePathSegment::Field("object".into()),
    ValuePathSegment::Argument(0),
  ]);
  assert!(matches!(
    FamilyPlan::build(FamilyPlanInput {
      flavor: HostFlavor::Node,
      close_policy: TEST_CLOSE_POLICY,
      operations: vec![nested_root],
    }),
    Err(FamilyPlanError::NestedRootSegment {
      role: "result resource",
      ..
    })
  ));

  let mut duplicate = operation.clone();
  duplicate
    .result_resources
    .push(duplicate.result_resources[0].clone());
  assert!(matches!(
    FamilyPlan::build(FamilyPlanInput {
      flavor: HostFlavor::Node,
      close_policy: TEST_CLOSE_POLICY,
      operations: vec![duplicate],
    }),
    Err(FamilyPlanError::DuplicateResultResourceUseSite { .. })
  ));

  let mut conflict = operation;
  conflict.result_resources.push(ResultResourceUseSite {
    operation_id: 0,
    path: ValuePath::new(vec![
      ValuePathSegment::Return,
      ValuePathSegment::Field("object".into()),
      ValuePathSegment::Optional,
    ]),
    binding: ResourceBinding {
      kind: ResourceKind::InputStream,
      ownership: ResourceOwnership::Owned,
    },
  });
  assert!(matches!(
    FamilyPlan::build(FamilyPlanInput {
      flavor: HostFlavor::Node,
      close_policy: TEST_CLOSE_POLICY,
      operations: vec![conflict],
    }),
    Err(FamilyPlanError::ConflictingResultResourceUseSite { .. })
  ));
}

#[test]
fn output_stream_step_selectors_are_first_class_and_strictly_placed() {
  let mut next = operation(
    0,
    OperationKind::OutputStreamNext,
    OperationDispatch::Native,
  );
  next.async_kind = AsyncKind::Async;
  next.receiver = Some(ReceiverBinding::Resource(ResourceBinding {
    kind: ResourceKind::OutputStream,
    ownership: ResourceOwnership::Borrowed,
  }));
  next.result_resources.push(ResultResourceUseSite {
    operation_id: 0,
    path: ValuePath::new(vec![
      ValuePathSegment::Return,
      ValuePathSegment::StreamItem,
      ValuePathSegment::Field("object".to_owned()),
    ]),
    binding: ResourceBinding {
      kind: ResourceKind::Object,
      ownership: ResourceOwnership::Owned,
    },
  });
  let plan = FamilyPlan::build(FamilyPlanInput {
    flavor: HostFlavor::Node,
    close_policy: TEST_CLOSE_POLICY,
    operations: vec![next.clone()],
  })
  .unwrap();
  assert_eq!(
    plan.operations()[0].result_resources[0].path.to_string(),
    "return.stream-item.field[object]"
  );

  let mut error_path = next.clone();
  error_path.result_resources[0].path = ValuePath::new(vec![
    ValuePathSegment::Return,
    ValuePathSegment::StreamError,
    ValuePathSegment::Field("object".to_owned()),
  ]);
  FamilyPlan::build(FamilyPlanInput {
    flavor: HostFlavor::Ohos,
    close_policy: TEST_CLOSE_POLICY,
    operations: vec![error_path],
  })
  .unwrap();

  let mut wrong_operation = next.clone();
  wrong_operation.kind = OperationKind::Function;
  wrong_operation.receiver = None;
  assert!(matches!(
    FamilyPlan::build(FamilyPlanInput {
      flavor: HostFlavor::Node,
      close_policy: TEST_CLOSE_POLICY,
      operations: vec![wrong_operation],
    }),
    Err(FamilyPlanError::InvalidStreamStepPath {
      id: 0,
      role: "result resource"
    })
  ));

  let mut nested = next.clone();
  nested.result_resources[0].path = ValuePath::new(vec![
    ValuePathSegment::Return,
    ValuePathSegment::Field("step".to_owned()),
    ValuePathSegment::StreamItem,
  ]);
  assert!(matches!(
    FamilyPlan::build(FamilyPlanInput {
      flavor: HostFlavor::Node,
      close_policy: TEST_CLOSE_POLICY,
      operations: vec![nested],
    }),
    Err(FamilyPlanError::InvalidStreamStepPath { .. })
  ));

  let mut duplicate = next;
  duplicate.result_resources[0].path = ValuePath::new(vec![
    ValuePathSegment::Return,
    ValuePathSegment::StreamItem,
    ValuePathSegment::StreamError,
  ]);
  assert!(matches!(
    FamilyPlan::build(FamilyPlanInput {
      flavor: HostFlavor::Node,
      close_policy: TEST_CLOSE_POLICY,
      operations: vec![duplicate],
    }),
    Err(FamilyPlanError::InvalidStreamStepPath { .. })
  ));

  let mut callback = operation(0, OperationKind::Function, OperationDispatch::Native);
  callback.callbacks.push(CallbackUseSite {
    operation_id: 0,
    callback_type_id: 1,
    path: ValuePath::new(vec![ValuePathSegment::Return, ValuePathSegment::StreamItem]),
    contract: CallbackContract {
      retention: CallbackRetention::Scoped,
      threading: CallbackThreading::CallingThread,
      reentrancy: CallbackReentrancy::Allowed,
    },
  });
  assert!(matches!(
    FamilyPlan::build(FamilyPlanInput {
      flavor: HostFlavor::Node,
      close_policy: TEST_CLOSE_POLICY,
      operations: vec![callback],
    }),
    Err(FamilyPlanError::InvalidStreamStepPath { .. })
  ));
}
