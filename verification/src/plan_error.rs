//! Errors of family planning and their messages.
use vstd::prelude::*;
use vstd::string::StringExecFns;

use crate::family::{OperationKind, ResourceOwnership};
use crate::text::{decimal_text, kind_text, ownership_text, push_decimal, push_kind, push_ownership};

verus! {

/// Why a family plan input is rejected.
#[derive(Clone, Debug, PartialEq, Eq)]
#[allow(inconsistent_fields)]
pub enum FamilyPlanError {
    ClosePolicyOutOfRange { grace_ms: u32 },
    UnsupportedDeadlineAction,
    DuplicateOperationId { id: u32 },
    NonDenseOperationId { expected: u32, actual: u32 },
    TooManyOperations,
    MissingReceiver { id: u32 },
    UnexpectedReceiver { id: u32 },
    WrongReceiverKind { id: u32 },
    MissingResultResource { id: u32 },
    WrongDispatch { id: u32 },
    HostOperationMustBeAsync { id: u32 },
    CancelHasResult { id: u32 },
    NonOwnedResultResource { id: u32, ownership: ResourceOwnership },
    DuplicateResultResourceUseSite { id: u32, path: String },
    ConflictingResultResourceUseSite { id: u32, path: String },
    UseSiteOperationMismatch { expected: u32, actual: u32, role: &'static str },
    EmptyPath { id: u32, role: &'static str },
    InvalidPathRoot { id: u32, role: &'static str },
    NestedRootSegment { id: u32, role: &'static str },
    InvalidStreamStepPath { id: u32, role: &'static str },
    ArgumentPathOutOfRange { id: u32, argument: u32, count: usize, role: &'static str },
    DuplicateStreamUseSite { use_site_id: u32 },
    NonDenseStreamUseSiteId,
    DuplicateStreamSlot { use_site_id: u32, kind: OperationKind },
    StreamSlotOperationMismatch { expected: u32, actual: u32 },
    StreamSlotKindMismatch { operation_id: u32, expected: OperationKind, actual: OperationKind },
    StreamSlotUseSiteMismatch { expected: u32, actual: u32 },
    UnknownStreamSlotOperation { use_site_id: u32, operation_id: u32 },
    StreamSlotIdentityMismatch { use_site_id: u32, operation_id: u32 },
    InvalidStreamSlot { id: u32 },
    OrphanStreamSlot { use_site_id: u32, operation_id: u32, kind: OperationKind },
}

/// The mathematical content of a [`FamilyPlanError`]: texts in place of
/// strings.
#[allow(inconsistent_fields)]
pub enum PlanRejection {
    ClosePolicyOutOfRange { grace_ms: u32 },
    UnsupportedDeadlineAction,
    DuplicateOperationId { id: u32 },
    NonDenseOperationId { expected: u32, actual: u32 },
    TooManyOperations,
    MissingReceiver { id: u32 },
    UnexpectedReceiver { id: u32 },
    WrongReceiverKind { id: u32 },
    MissingResultResource { id: u32 },
    WrongDispatch { id: u32 },
    HostOperationMustBeAsync { id: u32 },
    CancelHasResult { id: u32 },
    NonOwnedResultResource { id: u32, ownership: ResourceOwnership },
    DuplicateResultResourceUseSite { id: u32, path: Seq<char> },
    ConflictingResultResourceUseSite { id: u32, path: Seq<char> },
    UseSiteOperationMismatch { expected: u32, actual: u32, role: Seq<char> },
    EmptyPath { id: u32, role: Seq<char> },
    InvalidPathRoot { id: u32, role: Seq<char> },
    NestedRootSegment { id: u32, role: Seq<char> },
    InvalidStreamStepPath { id: u32, role: Seq<char> },
    ArgumentPathOutOfRange { id: u32, argument: u32, count: usize, role: Seq<char> },
    DuplicateStreamUseSite { use_site_id: u32 },
    NonDenseStreamUseSiteId,
    DuplicateStreamSlot { use_site_id: u32, kind: OperationKind },
    StreamSlotOperationMismatch { expected: u32, actual: u32 },
    StreamSlotKindMismatch { operation_id: u32, expected: OperationKind, actual: OperationKind },
    StreamSlotUseSiteMismatch { expected: u32, actual: u32 },
    UnknownStreamSlotOperation { use_site_id: u32, operation_id: u32 },
    StreamSlotIdentityMismatch { use_site_id: u32, operation_id: u32 },
    InvalidStreamSlot { id: u32 },
    OrphanStreamSlot { use_site_id: u32, operation_id: u32, kind: OperationKind },
}

impl View for FamilyPlanError {
    type V = PlanRejection;

    open spec fn view(&self) -> PlanRejection {
        match *self {
            FamilyPlanError::ClosePolicyOutOfRange { grace_ms } => PlanRejection::ClosePolicyOutOfRange { grace_ms: grace_ms },
            FamilyPlanError::UnsupportedDeadlineAction => PlanRejection::UnsupportedDeadlineAction,
            FamilyPlanError::DuplicateOperationId { id } => PlanRejection::DuplicateOperationId { id: id },
            FamilyPlanError::NonDenseOperationId { expected, actual } => PlanRejection::NonDenseOperationId { expected: expected, actual: actual },
            FamilyPlanError::TooManyOperations => PlanRejection::TooManyOperations,
            FamilyPlanError::MissingReceiver { id } => PlanRejection::MissingReceiver { id: id },
            FamilyPlanError::UnexpectedReceiver { id } => PlanRejection::UnexpectedReceiver { id: id },
            FamilyPlanError::WrongReceiverKind { id } => PlanRejection::WrongReceiverKind { id: id },
            FamilyPlanError::MissingResultResource { id } => PlanRejection::MissingResultResource { id: id },
            FamilyPlanError::WrongDispatch { id } => PlanRejection::WrongDispatch { id: id },
            FamilyPlanError::HostOperationMustBeAsync { id } => PlanRejection::HostOperationMustBeAsync { id: id },
            FamilyPlanError::CancelHasResult { id } => PlanRejection::CancelHasResult { id: id },
            FamilyPlanError::NonOwnedResultResource { id, ownership } => PlanRejection::NonOwnedResultResource { id: id, ownership: ownership },
            FamilyPlanError::DuplicateResultResourceUseSite { id, path } => PlanRejection::DuplicateResultResourceUseSite { id: id, path: path@ },
            FamilyPlanError::ConflictingResultResourceUseSite { id, path } => PlanRejection::ConflictingResultResourceUseSite { id: id, path: path@ },
            FamilyPlanError::UseSiteOperationMismatch { expected, actual, role } => PlanRejection::UseSiteOperationMismatch { expected: expected, actual: actual, role: role@ },
            FamilyPlanError::EmptyPath { id, role } => PlanRejection::EmptyPath { id: id, role: role@ },
            FamilyPlanError::InvalidPathRoot { id, role } => PlanRejection::InvalidPathRoot { id: id, role: role@ },
            FamilyPlanError::NestedRootSegment { id, role } => PlanRejection::NestedRootSegment { id: id, role: role@ },
            FamilyPlanError::InvalidStreamStepPath { id, role } => PlanRejection::InvalidStreamStepPath { id: id, role: role@ },
            FamilyPlanError::ArgumentPathOutOfRange { id, argument, count, role } => PlanRejection::ArgumentPathOutOfRange { id: id, argument: argument, count: count, role: role@ },
            FamilyPlanError::DuplicateStreamUseSite { use_site_id } => PlanRejection::DuplicateStreamUseSite { use_site_id: use_site_id },
            FamilyPlanError::NonDenseStreamUseSiteId => PlanRejection::NonDenseStreamUseSiteId,
            FamilyPlanError::DuplicateStreamSlot { use_site_id, kind } => PlanRejection::DuplicateStreamSlot { use_site_id: use_site_id, kind: kind },
            FamilyPlanError::StreamSlotOperationMismatch { expected, actual } => PlanRejection::StreamSlotOperationMismatch { expected: expected, actual: actual },
            FamilyPlanError::StreamSlotKindMismatch { operation_id, expected, actual } => PlanRejection::StreamSlotKindMismatch { operation_id: operation_id, expected: expected, actual: actual },
            FamilyPlanError::StreamSlotUseSiteMismatch { expected, actual } => PlanRejection::StreamSlotUseSiteMismatch { expected: expected, actual: actual },
            FamilyPlanError::UnknownStreamSlotOperation { use_site_id, operation_id } => PlanRejection::UnknownStreamSlotOperation { use_site_id: use_site_id, operation_id: operation_id },
            FamilyPlanError::StreamSlotIdentityMismatch { use_site_id, operation_id } => PlanRejection::StreamSlotIdentityMismatch { use_site_id: use_site_id, operation_id: operation_id },
            FamilyPlanError::InvalidStreamSlot { id } => PlanRejection::InvalidStreamSlot { id: id },
            FamilyPlanError::OrphanStreamSlot { use_site_id, operation_id, kind } => PlanRejection::OrphanStreamSlot { use_site_id: use_site_id, operation_id: operation_id, kind: kind },
        }
    }
}

/// The message of a rejection.
pub open spec fn plan_error_text(error: PlanRejection) -> Seq<char> {
    match error {
        PlanRejection::ClosePolicyOutOfRange { grace_ms } => "N-API close policy grace_ms "@ + decimal_text(grace_ms as nat) + " exceeds the JavaScript timer range"@,
        PlanRejection::UnsupportedDeadlineAction => "N-API close policy uses an unsupported deadline action"@,
        PlanRejection::DuplicateOperationId { id } => "duplicate N-API operation ID "@ + decimal_text(id as nat),
        PlanRejection::NonDenseOperationId { expected, actual } => "N-API operation table is not dense: expected "@ + decimal_text(expected as nat) + ", found "@ + decimal_text(actual as nat),
        PlanRejection::TooManyOperations => "N-API operation table exceeds u32"@,
        PlanRejection::MissingReceiver { id } => "operation "@ + decimal_text(id as nat) + " requires a receiver"@,
        PlanRejection::UnexpectedReceiver { id } => "operation "@ + decimal_text(id as nat) + " unexpectedly has a receiver"@,
        PlanRejection::WrongReceiverKind { id } => "operation "@ + decimal_text(id as nat) + " has an incompatible receiver"@,
        PlanRejection::MissingResultResource { id } => "output-stream operation "@ + decimal_text(id as nat) + " has no result resource"@,
        PlanRejection::WrongDispatch { id } => "operation "@ + decimal_text(id as nat) + " has an incompatible host dispatch"@,
        PlanRejection::HostOperationMustBeAsync { id } => "host stream operation "@ + decimal_text(id as nat) + " must be async"@,
        PlanRejection::CancelHasResult { id } => "stream cancel operation "@ + decimal_text(id as nat) + " must not return a payload"@,
        PlanRejection::NonOwnedResultResource { id, ownership } => "operation "@ + decimal_text(id as nat) + " has non-owned result resource binding "@ + ownership_text(ownership),
        PlanRejection::DuplicateResultResourceUseSite { id, path } => "operation "@ + decimal_text(id as nat) + " declares duplicate result resource use-site "@ + path,
        PlanRejection::ConflictingResultResourceUseSite { id, path } => "operation "@ + decimal_text(id as nat) + " declares conflicting result resource use-site "@ + path,
        PlanRejection::UseSiteOperationMismatch { expected, actual, role } => role + " use-site belongs to operation "@ + decimal_text(actual as nat) + ", expected "@ + decimal_text(expected as nat),
        PlanRejection::EmptyPath { id, role } => "operation "@ + decimal_text(id as nat) + " has an empty "@ + role + " path"@,
        PlanRejection::InvalidPathRoot { id, role } => "operation "@ + decimal_text(id as nat) + " has an invalid "@ + role + " path root"@,
        PlanRejection::NestedRootSegment { id, role } => "operation "@ + decimal_text(id as nat) + " has a nested root segment in its "@ + role + " path"@,
        PlanRejection::InvalidStreamStepPath { id, role } => "operation "@ + decimal_text(id as nat) + " has an invalid stream-step selector in its "@ + role + " path"@,
        PlanRejection::ArgumentPathOutOfRange { id, argument, count, role } => "operation "@ + decimal_text(id as nat) + " "@ + role + " path argument "@ + decimal_text(argument as nat) + " is outside "@ + decimal_text(count as nat) + " arguments"@,
        PlanRejection::DuplicateStreamUseSite { use_site_id } => "duplicate stream use-site ID "@ + decimal_text(use_site_id as nat),
        PlanRejection::NonDenseStreamUseSiteId => "stream use-site IDs are not dense"@,
        PlanRejection::DuplicateStreamSlot { use_site_id, kind } => "stream use-site "@ + decimal_text(use_site_id as nat) + " has duplicate "@ + kind_text(kind) + " slot"@,
        PlanRejection::StreamSlotOperationMismatch { expected, actual } => "stream slot operation ID "@ + decimal_text(actual as nat) + " does not match operation "@ + decimal_text(expected as nat),
        PlanRejection::StreamSlotKindMismatch { operation_id, expected, actual } => "stream slot for operation "@ + decimal_text(operation_id as nat) + " has kind "@ + kind_text(actual) + ", expected "@ + kind_text(expected),
        PlanRejection::StreamSlotUseSiteMismatch { expected, actual } => "stream slot use-site ID "@ + decimal_text(actual as nat) + " does not match use-site "@ + decimal_text(expected as nat),
        PlanRejection::UnknownStreamSlotOperation { use_site_id, operation_id } => "stream use-site "@ + decimal_text(use_site_id as nat) + " references unknown slot operation "@ + decimal_text(operation_id as nat),
        PlanRejection::StreamSlotIdentityMismatch { use_site_id, operation_id } => "stream use-site "@ + decimal_text(use_site_id as nat) + " slot operation "@ + decimal_text(operation_id as nat) + " has mismatched identity"@,
        PlanRejection::InvalidStreamSlot { id } => "operation "@ + decimal_text(id as nat) + " has an invalid stream slot"@,
        PlanRejection::OrphanStreamSlot { use_site_id, operation_id, kind } => "stream slot "@ + kind_text(kind) + " operation "@ + decimal_text(operation_id as nat) + " is not referenced by use-site "@ + decimal_text(use_site_id as nat),
    }
}

impl FamilyPlanError {
    /// Renders the error message.
    pub fn to_string(&self) -> (text: String)
        ensures
            text@ == plan_error_text(self@),
    {
        let mut text = String::new();
        match self {
            FamilyPlanError::ClosePolicyOutOfRange { grace_ms } => {
                text.append("N-API close policy grace_ms ");
                push_decimal(&mut text, *grace_ms as u64);
                text.append(" exceeds the JavaScript timer range");
            },
            FamilyPlanError::UnsupportedDeadlineAction => {
                text.append("N-API close policy uses an unsupported deadline action");
            },
            FamilyPlanError::DuplicateOperationId { id } => {
                text.append("duplicate N-API operation ID ");
                push_decimal(&mut text, *id as u64);
            },
            FamilyPlanError::NonDenseOperationId { expected, actual } => {
                text.append("N-API operation table is not dense: expected ");
                push_decimal(&mut text, *expected as u64);
                text.append(", found ");
                push_decimal(&mut text, *actual as u64);
            },
            FamilyPlanError::TooManyOperations => {
                text.append("N-API operation table exceeds u32");
            },
            FamilyPlanError::MissingReceiver { id } => {
                text.append("operation ");
                push_decimal(&mut text, *id as u64);
                text.append(" requires a receiver");
            },
            FamilyPlanError::UnexpectedReceiver { id } => {
                text.append("operation ");
                push_decimal(&mut text, *id as u64);
                text.append(" unexpectedly has a receiver");
            },
            FamilyPlanError::WrongReceiverKind { id } => {
                text.append("operation ");
                push_decimal(&mut text, *id as u64);
                text.append(" has an incompatible receiver");
            },
            FamilyPlanError::MissingResultResource { id } => {
                text.append("output-stream operation ");
                push_decimal(&mut text, *id as u64);
                text.append(" has no result resource");
            },
            FamilyPlanError::WrongDispatch { id } => {
                text.append("operation ");
                push_decimal(&mut text, *id as u64);
                text.append(" has an incompatible host dispatch");
            },
            FamilyPlanError::HostOperationMustBeAsync { id } => {
                text.append("host stream operation ");
                push_decimal(&mut text, *id as u64);
                text.append(" must be async");
            },
            FamilyPlanError::CancelHasResult { id } => {
                text.append("stream cancel operation ");
                push_decimal(&mut text, *id as u64);
                text.append(" must not return a payload");
            },
            FamilyPlanError::NonOwnedResultResource { id, ownership } => {
                text.append("operation ");
                push_decimal(&mut text, *id as u64);
                text.append(" has non-owned result resource binding ");
                push_ownership(&mut text, *ownership);
            },
            FamilyPlanError::DuplicateResultResourceUseSite { id, path } => {
                text.append("operation ");
                push_decimal(&mut text, *id as u64);
                text.append(" declares duplicate result resource use-site ");
                text.append(path.as_str());
            },
            FamilyPlanError::ConflictingResultResourceUseSite { id, path } => {
                text.append("operation ");
                push_decimal(&mut text, *id as u64);
                text.append(" declares conflicting result resource use-site ");
                text.append(path.as_str());
            },
            FamilyPlanError::UseSiteOperationMismatch { expected, actual, role } => {
                text.append(*role);
                text.append(" use-site belongs to operation ");
                push_decimal(&mut text, *actual as u64);
                text.append(", expected ");
                push_decimal(&mut text, *expected as u64);
            },
            FamilyPlanError::EmptyPath { id, role } => {
                text.append("operation ");
                push_decimal(&mut text, *id as u64);
                text.append(" has an empty ");
                text.append(*role);
                text.append(" path");
            },
            FamilyPlanError::InvalidPathRoot { id, role } => {
                text.append("operation ");
                push_decimal(&mut text, *id as u64);
                text.append(" has an invalid ");
                text.append(*role);
                text.append(" path root");
            },
            FamilyPlanError::NestedRootSegment { id, role } => {
                text.append("operation ");
                push_decimal(&mut text, *id as u64);
                text.append(" has a nested root segment in its ");
                text.append(*role);
                text.append(" path");
            },
            FamilyPlanError::InvalidStreamStepPath { id, role } => {
                text.append("operation ");
                push_decimal(&mut text, *id as u64);
                text.append(" has an invalid stream-step selector in its ");
                text.append(*role);
                text.append(" path");
            },
            FamilyPlanError::ArgumentPathOutOfRange { id, argument, count, role } => {
                text.append("operation ");
                push_decimal(&mut text, *id as u64);
                text.append(" ");
                text.append(*role);
                text.append(" path argument ");
                push_decimal(&mut text, *argument as u64);
                text.append(" is outside ");
                push_decimal(&mut text, *count as u64);
                text.append(" arguments");
            },
            FamilyPlanError::DuplicateStreamUseSite { use_site_id } => {
                text.append("duplicate stream use-site ID ");
                push_decimal(&mut text, *use_site_id as u64);
            },
            FamilyPlanError::NonDenseStreamUseSiteId => {
                text.append("stream use-site IDs are not dense");
            },
            FamilyPlanError::DuplicateStreamSlot { use_site_id, kind } => {
                text.append("stream use-site ");
                push_decimal(&mut text, *use_site_id as u64);
                text.append(" has duplicate ");
                push_kind(&mut text, *kind);
                text.append(" slot");
            },
            FamilyPlanError::StreamSlotOperationMismatch { expected, actual } => {
                text.append("stream slot operation ID ");
                push_decimal(&mut text, *actual as u64);
                text.append(" does not match operation ");
                push_decimal(&mut text, *expected as u64);
            },
            FamilyPlanError::StreamSlotKindMismatch { operation_id, expected, actual } => {
                text.append("stream slot for operation ");
                push_decimal(&mut text, *operation_id as u64);
                text.append(" has kind ");
                push_kind(&mut text, *actual);
                text.append(", expected ");
                push_kind(&mut text, *expected);
            },
            FamilyPlanError::StreamSlotUseSiteMismatch { expected, actual } => {
                text.append("stream slot use-site ID ");
                push_decimal(&mut text, *actual as u64);
                text.append(" does not match use-site ");
                push_decimal(&mut text, *expected as u64);
            },
            FamilyPlanError::UnknownStreamSlotOperation { use_site_id, operation_id } => {
                text.append("stream use-site ");
                push_decimal(&mut text, *use_site_id as u64);
                text.append(" references unknown slot operation ");
                push_decimal(&mut text, *operation_id as u64);
            },
            FamilyPlanError::StreamSlotIdentityMismatch { use_site_id, operation_id } => {
                text.append("stream use-site ");
                push_decimal(&mut text, *use_site_id as u64);
                text.append(" slot operation ");
                push_decimal(&mut text, *operation_id as u64);
                text.append(" has mismatched identity");
            },
            FamilyPlanError::InvalidStreamSlot { id } => {
                text.append("operation ");
                push_decimal(&mut text, *id as u64);
                text.append(" has an invalid stream slot");
            },
            FamilyPlanError::OrphanStreamSlot { use_site_id, operation_id, kind } => {
                text.append("stream slot ");
                push_kind(&mut text, *kind);
                text.append(" operation ");
                push_decimal(&mut text, *operation_id as u64);
                text.append(" is not referenced by use-site ");
                push_decimal(&mut text, *use_site_id as u64);
            },
        }
        assert(text@ =~= plan_error_text(self@));
        text
    }
}

} // verus!
