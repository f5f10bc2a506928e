use napi_uniffi_engine::{
  require_lossless_u64, AsyncKind, BigIntLossError, BigIntWords, CallbackContract,
  CallbackReentrancy, CallbackRetention, CallbackThreading, CallbackUseSite, CarrierKind,
  ClosePolicy, ConversionRecipe, DeadlineAction, FamilyOperationInput, FamilyPlan,
  FamilyPlanError, FamilyPlanInput, HostFlavor, OperationDispatch, OperationKind,
  ReceiverBinding, ResourceBinding, ResourceKind, ResourceOwnership, ResultResourceUseSite,
  RuntimeEntrypoint, StreamDirection, StreamSlotIdentity, StreamUseSite, StreamValueBinding,
  ValuePath, ValuePathSegment,
};

const POLICY: ClosePolicy = ClosePolicy {
  grace_ms: 1_000,
  on_deadline: DeadlineAction::Detach,
};

fn op(id: u32, kind: OperationKind, dispatch: OperationDispatch) -> FamilyOperationInput {
  FamilyOperationInput {
    id,
    kind,
    async_kind: AsyncKind::Sync,
    fallible: false,
    argument_count: 0,
    dispatch,
    receiver: None,
    result_resources: Vec::new(),
    callbacks: Vec::new(),
    streams: Vec::new(),
    stream_slot: None,
  }
}

fn function(id: u32) -> FamilyOperationInput {
  op(id, OperationKind::Function, OperationDispatch::Native)
}

fn build(operations: Vec<FamilyOperationInput>) -> Result<FamilyPlan, FamilyPlanError> {
  FamilyPlan::build(FamilyPlanInput {
    flavor: HostFlavor::Node,
    close_policy: POLICY,
    operations,
  })
}

fn identity() -> StreamValueBinding {
  StreamValueBinding {
    carrier: CarrierKind::Primitive,
    conversion: ConversionRecipe::Identity,
  }
}

fn slot(use_site_id: u32, operation_id: u32, kind: OperationKind) -> StreamSlotIdentity {
  StreamSlotIdentity {
    use_site_id,
    operation_id,
    kind,
  }
}

fn input_stream(operation_id: u32, argument: u32, use_site_id: u32, pull: u32, cancel: u32) -> StreamUseSite {
  StreamUseSite {
    operation_id,
    use_site_id,
    path: ValuePath::argument(argument),
    direction: StreamDirection::Input,
    item: identity(),
    error: identity(),
    is_send: false,
    slots: vec![
      slot(use_site_id, pull, OperationKind::InputStreamPull),
      slot(use_site_id, cancel, OperationKind::InputStreamCancel),
    ],
  }
}

fn stream_receiver() -> Option<ReceiverBinding> {
  Some(ReceiverBinding::Resource(ResourceBinding {
    kind: ResourceKind::InputStream,
    ownership: ResourceOwnership::Borrowed,
  }))
}

fn pull(id: u32, use_site_id: u32) -> FamilyOperationInput {
  let mut pull = op(id, OperationKind::InputStreamPull, OperationDispatch::InputStreamHostPull);
  pull.async_kind = AsyncKind::Async;
  pull.receiver = stream_receiver();
  pull.stream_slot = Some(slot(use_site_id, id, OperationKind::InputStreamPull));
  pull
}

fn cancel(id: u32, use_site_id: u32) -> FamilyOperationInput {
  let mut cancel = op(id, OperationKind::InputStreamCancel, OperationDispatch::InputStreamHostCancel);
  cancel.async_kind = AsyncKind::Async;
  cancel.receiver = stream_receiver();
  cancel.stream_slot = Some(slot(use_site_id, id, OperationKind::InputStreamCancel));
  cancel
}

fn callback(operation_id: u32, path: ValuePath) -> CallbackUseSite {
  CallbackUseSite {
    operation_id,
    callback_type_id: 1,
    path,
    contract: CallbackContract {
      retention: CallbackRetention::Retained,
      threading: CallbackThreading::CallingThread,
      reentrancy: CallbackReentrancy::Allowed,
    },
  }
}

/// An owner with one input stream at argument 0, and its pull and cancel
/// slots.
fn stream_table(use_site_id: u32) -> Vec<FamilyOperationInput> {
  let mut owner = function(0);
  owner.argument_count = 1;
  owner.streams.push(input_stream(0, 0, use_site_id, 1, 2));
  vec![owner, pull(1, use_site_id), cancel(2, use_site_id)]
}

#[test]
fn duplicate_ids_are_rejected_with_their_id() {
  let error = build(vec![function(0), function(0)]).unwrap_err();
  assert!(matches!(error, FamilyPlanError::DuplicateOperationId { id: 0 }));
  assert_eq!(error.to_string(), "duplicate N-API operation ID 0");
}

#[test]
fn gaps_in_ids_name_the_missing_and_the_next_id() {
  let error = build(vec![function(0), function(7), function(3)]).unwrap_err();
  assert!(matches!(
    error,
    FamilyPlanError::NonDenseOperationId {
      expected: 1,
      actual: 3
    }
  ));
  assert_eq!(
    error.to_string(),
    "N-API operation table is not dense: expected 1, found 3"
  );
}

#[test]
fn plan_operations_follow_their_ids() {
  let plan = build(vec![function(2), function(0), function(1)]).unwrap();
  let ids: Vec<u32> = plan.operations().iter().map(|operation| operation.id).collect();
  assert_eq!(ids, vec![0, 1, 2]);
  assert_eq!(plan.flavor(), HostFlavor::Node);
  assert_eq!(plan.hooks(), HostFlavor::Node.hooks());
}

#[test]
fn input_order_does_not_change_the_plan() {
  let forward = build(stream_table(0)).unwrap();
  let mut reversed_table = stream_table(0);
  reversed_table.reverse();
  let reversed = build(reversed_table).unwrap();
  assert_eq!(forward.operations(), reversed.operations());
  assert_eq!(forward.runtime_entrypoints(), reversed.runtime_entrypoints());
}

#[test]
fn closing_the_session_is_always_required() {
  let plan = build(vec![function(0)]).unwrap();
  assert_eq!(
    plan.runtime_entrypoints(),
    &[RuntimeEntrypoint::CloseSession][..]
  );
  let empty = build(Vec::new()).unwrap();
  assert_eq!(
    empty.runtime_entrypoints(),
    &[RuntimeEntrypoint::CloseSession][..]
  );
}

#[test]
fn entrypoints_come_in_declaration_order() {
  let mut table = stream_table(0);
  table[0].callbacks.push(callback(0, ValuePath::argument(0)));
  let plan = build(table).unwrap();
  assert_eq!(
    plan.runtime_entrypoints(),
    &[
      RuntimeEntrypoint::CloseSession,
      RuntimeEntrypoint::RetainCallback,
      RuntimeEntrypoint::ReleaseCallback,
      RuntimeEntrypoint::PullInputStream,
      RuntimeEntrypoint::CancelInputStream,
      RuntimeEntrypoint::ReleaseInputStream,
    ][..]
  );
}

#[test]
fn callback_host_operations_need_their_invocation_entrypoint() {
  let mut sync_host = op(
    0,
    OperationKind::CallbackMethod,
    OperationDispatch::CallbackHost {
      callback_type_id: 4,
      method_id: 1,
    },
  );
  sync_host.async_kind = AsyncKind::Sync;
  let plan = build(vec![sync_host]).unwrap();
  assert_eq!(
    plan.runtime_entrypoints(),
    &[
      RuntimeEntrypoint::CloseSession,
      RuntimeEntrypoint::InvokeCallbackSync
    ][..]
  );
}

#[test]
fn receivers_must_match_the_operation_kind() {
  let method = op(0, OperationKind::Method, OperationDispatch::Native);
  let error = build(vec![method]).unwrap_err();
  assert!(matches!(error, FamilyPlanError::MissingReceiver { id: 0 }));
  assert_eq!(error.to_string(), "operation 0 requires a receiver");

  let mut stray = function(0);
  stray.receiver = Some(ReceiverBinding::Value);
  let error = build(vec![stray]).unwrap_err();
  assert!(matches!(error, FamilyPlanError::UnexpectedReceiver { id: 0 }));
  assert_eq!(error.to_string(), "operation 0 unexpectedly has a receiver");
}

#[test]
fn output_stream_start_needs_a_returned_stream() {
  let start = op(0, OperationKind::OutputStreamStart, OperationDispatch::Native);
  let error = build(vec![start]).unwrap_err();
  assert!(matches!(
    error,
    FamilyPlanError::MissingResultResource { id: 0 }
  ));
  assert_eq!(
    error.to_string(),
    "output-stream operation 0 has no result resource"
  );
}

#[test]
fn host_stream_operations_must_be_async() {
  let mut sync_pull = pull(0, 0);
  sync_pull.async_kind = AsyncKind::Sync;
  let error = build(vec![sync_pull]).unwrap_err();
  assert!(matches!(
    error,
    FamilyPlanError::HostOperationMustBeAsync { id: 0 }
  ));
  assert_eq!(error.to_string(), "host stream operation 0 must be async");
}

#[test]
fn use_sites_belong_to_their_operation() {
  let mut owner = function(0);
  owner.argument_count = 1;
  owner.callbacks.push(callback(5, ValuePath::argument(0)));
  let error = build(vec![owner]).unwrap_err();
  assert!(matches!(
    error,
    FamilyPlanError::UseSiteOperationMismatch {
      expected: 0,
      actual: 5,
      role: "callback"
    }
  ));
  assert_eq!(
    error.to_string(),
    "callback use-site belongs to operation 5, expected 0"
  );
}

#[test]
fn callback_paths_are_not_empty_and_stay_in_range() {
  let mut empty = function(0);
  empty.callbacks.push(callback(0, ValuePath::new(Vec::new())));
  let error = build(vec![empty]).unwrap_err();
  assert!(matches!(
    error,
    FamilyPlanError::EmptyPath {
      id: 0,
      role: "callback"
    }
  ));
  assert_eq!(error.to_string(), "operation 0 has an empty callback path");

  let mut outside = function(0);
  outside.callbacks.push(callback(0, ValuePath::argument(0)));
  let error = build(vec![outside]).unwrap_err();
  assert!(matches!(
    error,
    FamilyPlanError::ArgumentPathOutOfRange {
      id: 0,
      argument: 0,
      count: 0,
      role: "callback"
    }
  ));
  assert_eq!(
    error.to_string(),
    "operation 0 callback path argument 0 is outside 0 arguments"
  );
}

#[test]
fn stream_use_site_ids_are_unique() {
  let mut table = stream_table(0);
  table[0].argument_count = 2;
  let repeated = input_stream(0, 1, 0, 1, 2);
  table[0].streams.push(repeated);
  let error = build(table).unwrap_err();
  assert!(matches!(
    error,
    FamilyPlanError::DuplicateStreamUseSite { use_site_id: 0 }
  ));
  assert_eq!(error.to_string(), "duplicate stream use-site ID 0");
}

#[test]
fn stream_use_site_ids_are_dense() {
  let error = build(stream_table(1)).unwrap_err();
  assert!(matches!(error, FamilyPlanError::NonDenseStreamUseSiteId));
  assert_eq!(error.to_string(), "stream use-site IDs are not dense");

  let mut owner = function(0);
  owner.argument_count = 2;
  owner.streams.push(input_stream(0, 0, 0, 1, 2));
  owner.streams.push(input_stream(0, 1, 1, 3, 4));
  let plan = build(vec![owner, pull(1, 0), cancel(2, 0), pull(3, 1), cancel(4, 1)]).unwrap();
  assert_eq!(plan.operations().len(), 5);
}

#[test]
fn declared_slots_name_their_own_operation_and_a_slot_kind() {
  let mut elsewhere = pull(0, 0);
  elsewhere.stream_slot = Some(slot(0, 5, OperationKind::InputStreamPull));
  let error = build(vec![elsewhere]).unwrap_err();
  assert!(matches!(
    error,
    FamilyPlanError::StreamSlotOperationMismatch {
      expected: 0,
      actual: 5
    }
  ));
  assert_eq!(
    error.to_string(),
    "stream slot operation ID 5 does not match operation 0"
  );

  let mut plain = function(0);
  plain.stream_slot = Some(slot(0, 0, OperationKind::Function));
  let error = build(vec![plain]).unwrap_err();
  assert!(matches!(error, FamilyPlanError::InvalidStreamSlot { id: 0 }));
  assert_eq!(error.to_string(), "operation 0 has an invalid stream slot");
}

#[test]
fn listed_slots_match_their_use_site_and_operation() {
  let mut table = stream_table(0);
  table[0].streams[0].slots[0].use_site_id = 1;
  let error = build(table).unwrap_err();
  assert!(matches!(
    error,
    FamilyPlanError::StreamSlotUseSiteMismatch {
      expected: 0,
      actual: 1
    }
  ));
  assert_eq!(
    error.to_string(),
    "stream slot use-site ID 1 does not match use-site 0"
  );

  let mut table = stream_table(0);
  table[0].streams[0].slots[0].operation_id = 9;
  let error = build(table).unwrap_err();
  assert!(matches!(
    error,
    FamilyPlanError::UnknownStreamSlotOperation {
      use_site_id: 0,
      operation_id: 9
    }
  ));
  assert_eq!(
    error.to_string(),
    "stream use-site 0 references unknown slot operation 9"
  );

  let mut table = stream_table(0);
  table[1].stream_slot = None;
  let error = build(table).unwrap_err();
  assert!(matches!(
    error,
    FamilyPlanError::StreamSlotIdentityMismatch {
      use_site_id: 0,
      operation_id: 1
    }
  ));
  assert_eq!(
    error.to_string(),
    "stream use-site 0 slot operation 1 has mismatched identity"
  );
}

#[test]
fn rejection_messages_name_kinds_and_ownership() {
  let mut table = stream_table(0);
  table[2].stream_slot = Some(slot(0, 2, OperationKind::InputStreamPull));
  let error = build(table).unwrap_err();
  assert_eq!(
    error.to_string(),
    "stream slot for operation 2 has kind InputStreamPull, expected InputStreamCancel"
  );

  let mut borrowed = function(0);
  borrowed.result_resources.push(ResultResourceUseSite {
    operation_id: 0,
    path: ValuePath::return_value(),
    binding: ResourceBinding {
      kind: ResourceKind::Object,
      ownership: ResourceOwnership::Borrowed,
    },
  });
  let error = build(vec![borrowed]).unwrap_err();
  assert_eq!(
    error.to_string(),
    "operation 0 has non-owned result resource binding Borrowed"
  );

  let mut owner = function(0);
  owner.streams.clear();
  let error = build(vec![owner, pull(1, 0), cancel(2, 0)]).unwrap_err();
  assert_eq!(
    error.to_string(),
    "stream slot InputStreamPull operation 1 is not referenced by use-site 0"
  );
}

#[test]
fn close_policy_accepts_the_largest_timer_delay() {
  let mut input = FamilyPlanInput {
    flavor: HostFlavor::Ohos,
    close_policy: ClosePolicy {
      grace_ms: i32::MAX as u32,
      on_deadline: DeadlineAction::Detach,
    },
    operations: vec![function(0)],
  };
  let plan = FamilyPlan::build(input.clone()).unwrap();
  assert_eq!(plan.close_policy().grace_ms, i32::MAX as u32);
  assert_eq!(plan.hooks(), HostFlavor::Ohos.hooks());
  input.close_policy.grace_ms = u32::MAX;
  let error = FamilyPlan::build(input).unwrap_err();
  assert_eq!(
    error.to_string(),
    "N-API close policy grace_ms 4294967295 exceeds the JavaScript timer range"
  );
}

#[test]
fn flavors_differ_in_every_hook() {
  let node = HostFlavor::Node.hooks();
  let ohos = HostFlavor::Ohos.hooks();
  assert_ne!(node.module_registration, ohos.module_registration);
  assert_ne!(node.async_scheduler, ohos.async_scheduler);
  assert_ne!(node.callback_dispatch, ohos.callback_dispatch);
  assert_ne!(node.cleanup_queue, ohos.cleanup_queue);
}

#[test]
fn value_paths_render_every_segment() {
  let path = ValuePath::new(vec![
    ValuePathSegment::Argument(12),
    ValuePathSegment::Field("inner".to_owned()),
    ValuePathSegment::Variant("Ready".to_owned()),
    ValuePathSegment::Optional,
    ValuePathSegment::SequenceElement,
    ValuePathSegment::MapKey,
    ValuePathSegment::MapValue,
    ValuePathSegment::SetElement,
  ]);
  assert_eq!(
    path.to_string(),
    "argument[12].field[inner].variant[Ready].optional.sequence.map-key.map-value.set"
  );
  let step = ValuePath::new(vec![
    ValuePathSegment::Return,
    ValuePathSegment::StreamError,
    ValuePathSegment::StreamItem,
  ]);
  assert_eq!(step.to_string(), "return.stream-error.stream-item");
  assert_eq!(ValuePath::new(Vec::new()).to_string(), "");
  assert_eq!(ValuePath::argument(3).segments(), &[ValuePathSegment::Argument(3)][..]);
}

#[test]
fn bigint_words_carry_sign_and_magnitude() {
  let negative = BigIntWords::from_i64(-5);
  assert!(negative.negative);
  assert_eq!(negative.words, vec![5]);
  let zero = BigIntWords::from_i64(0);
  assert!(!zero.negative);
  assert_eq!(zero.words, vec![0]);
  let unsigned = BigIntWords::from_u64(u64::MAX);
  assert!(!unsigned.negative);
  assert_eq!(unsigned.words, vec![u64::MAX]);
  assert_eq!(BigIntWords::from(-5i64), negative);
  assert_eq!(BigIntWords::from(u64::MAX), unsigned);
  assert_eq!(
    require_lossless_u64(false, 1, false),
    Err(BigIntLossError::LossyUnsigned)
  );
  assert_eq!(
    BigIntLossError::LossySigned.to_string(),
    "BigInt is outside the lossless i64 range"
  );
  assert_eq!(
    BigIntLossError::LossyUnsigned.to_string(),
    "BigInt is outside the lossless u64 range"
  );
  assert_eq!(
    BigIntLossError::NegativeUnsigned.to_string(),
    "negative BigInt is not valid for u64"
  );
}

#[test]
fn verdict_does_not_depend_on_input_order() {
  let forward = build(vec![function(0), function(3), function(2)]).unwrap_err();
  let backward = build(vec![function(2), function(3), function(0)]).unwrap_err();
  assert_eq!(forward, backward);
  assert!(matches!(
    forward,
    FamilyPlanError::NonDenseOperationId {
      expected: 1,
      actual: 2
    }
  ));

  let mut orphaned = stream_table(0);
  orphaned[0].streams.clear();
  let first = build(orphaned.clone()).unwrap_err();
  orphaned.reverse();
  let second = build(orphaned).unwrap_err();
  assert_eq!(first, second);
  assert!(matches!(
    first,
    FamilyPlanError::OrphanStreamSlot {
      use_site_id: 0,
      operation_id: 1,
      kind: OperationKind::InputStreamPull
    }
  ));
}
