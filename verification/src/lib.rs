//! Engine-owned planning for the Node and OHOS N-API backends of a UniFFI
//! frontend.
//!
//! The family planner validates dispatch slots, value paths and resource
//! lifecycle relationships of a mechanical operation table and derives the
//! runtime entrypoints that a generated module needs.  The bridge planner
//! checks that a structured Rust call plan matches a validated family plan.
use vstd::prelude::*;

pub mod bigint;
pub mod family;
pub mod text;
pub mod plan_error;
pub mod rules;
pub mod validate;
pub mod entrypoints;
pub mod plan;
pub mod laws;
pub mod order_laws;
pub mod engine_error;
pub mod bridge;
pub mod bridge_rules;
pub mod bridge_validate;
pub mod bridge_laws;
pub mod session;
pub mod engine;
pub mod backend;
pub mod generation;
pub mod generation_laws;
pub mod napi_module;
pub mod shape_laws;
pub mod engine_laws;

pub use crate::bigint::{BigIntLossError, BigIntWords, require_lossless_i64, require_lossless_u64};
pub use crate::family::{
    AsyncKind, AsyncScheduler, CallbackContract, CallbackDispatch, CallbackReentrancy,
    CallbackRetention, CallbackThreading, CallbackUseSite, CarrierKind, CleanupQueue, ClosePolicy,
    ConversionRecipe, DeadlineAction, FamilyOperation, FamilyOperationInput, FamilyOperationTarget,
    FamilyPlanInput, HostFlavor, HostHooks, ModuleRegistration, OperationDispatch, OperationKind,
    ReceiverBinding, ResourceBinding, ResourceKind, ResourceOwnership, ResultResourceUseSite,
    RuntimeEntrypoint, StreamDirection, StreamSlotIdentity, StreamUseSite, StreamValueBinding,
    ValuePath, ValuePathSegment,
};
pub use crate::plan::FamilyPlan;
pub use crate::plan_error::FamilyPlanError;

verus! {

} // verus!
