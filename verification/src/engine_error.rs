//! Errors of the UniFFI engine and their messages.
use vstd::prelude::*;
use vstd::string::StringExecFns;

use crate::family::OperationKind;
use crate::plan_error::{FamilyPlanError, PlanRejection, plan_error_text};
use crate::text::{decimal_text, kind_text, push_decimal, push_kind};

verus! {

/// Why the engine rejects a bridge plan or a generated module.
#[derive(Debug)]
#[allow(inconsistent_fields)]
pub enum EngineError {
    Family(FamilyPlanError),
    DuplicateRustOperation { id: u32 },
    RustOperationCount { expected: usize, actual: usize },
    MissingRustOperation { id: u32 },
    TooManyOperations,
    ArgumentCount { operation_id: u32, expected: usize, actual: usize },
    DuplicateRustArgument { operation_id: u32, name: String },
    InvalidArgumentBinding { operation_id: u32, argument: usize, expected: &'static str },
    InvalidStructuredBinding { operation_id: u32, argument: usize, role: &'static str },
    InvalidReturnBinding { operation_id: u32, expected: &'static str },
    MissingErrorDescriptor { operation_id: u32 },
    UnexpectedErrorDescriptor { operation_id: u32 },
    InvalidOperationTarget { operation_id: u32, kind: OperationKind },
    HostOperationHasRustBindings { operation_id: u32 },
    HostOperationHasStructuredUseSites { operation_id: u32 },
    MissingReceiver { operation_id: u32 },
    UnexpectedReceiver { operation_id: u32 },
    InvalidValueReceiver { operation_id: u32 },
    InvalidResourceReceiver { operation_id: u32 },
    InvalidResourceResult { operation_id: u32 },
    MissingStructuredUseSite { operation_id: u32, argument: usize, role: &'static str },
    UnexpectedHostOperationCodegen { operation_id: u32 },
    MissingResourceHook { role: &'static str },
    OperationOrder { expected: u32, actual: u32 },
    MissingNativeCallback { operation_id: u32 },
    UnexpectedNativeCallback { operation_id: u32 },
    InvalidHostOperationSignature { operation_id: u32, reason: &'static str },
    UnsupportedUseSite { operation_id: u32, role: &'static str, path: String },
    BackendCodegen(String),
}

/// The mathematical content of an [`EngineError`]: texts in place of
/// strings.
#[allow(inconsistent_fields)]
pub enum EngineRejection {
    Family(PlanRejection),
    DuplicateRustOperation { id: u32 },
    RustOperationCount { expected: usize, actual: usize },
    MissingRustOperation { id: u32 },
    TooManyOperations,
    ArgumentCount { operation_id: u32, expected: usize, actual: usize },
    DuplicateRustArgument { operation_id: u32, name: Seq<char> },
    InvalidArgumentBinding { operation_id: u32, argument: usize, expected: Seq<char> },
    InvalidStructuredBinding { operation_id: u32, argument: usize, role: Seq<char> },
    InvalidReturnBinding { operation_id: u32, expected: Seq<char> },
    MissingErrorDescriptor { operation_id: u32 },
    UnexpectedErrorDescriptor { operation_id: u32 },
    InvalidOperationTarget { operation_id: u32, kind: OperationKind },
    HostOperationHasRustBindings { operation_id: u32 },
    HostOperationHasStructuredUseSites { operation_id: u32 },
    MissingReceiver { operation_id: u32 },
    UnexpectedReceiver { operation_id: u32 },
    InvalidValueReceiver { operation_id: u32 },
    InvalidResourceReceiver { operation_id: u32 },
    InvalidResourceResult { operation_id: u32 },
    MissingStructuredUseSite { operation_id: u32, argument: usize, role: Seq<char> },
    UnexpectedHostOperationCodegen { operation_id: u32 },
    MissingResourceHook { role: Seq<char> },
    OperationOrder { expected: u32, actual: u32 },
    MissingNativeCallback { operation_id: u32 },
    UnexpectedNativeCallback { operation_id: u32 },
    InvalidHostOperationSignature { operation_id: u32, reason: Seq<char> },
    UnsupportedUseSite { operation_id: u32, role: Seq<char>, path: Seq<char> },
    BackendCodegen(Seq<char>),
}

impl View for EngineError {
    type V = EngineRejection;

    open spec fn view(&self) -> EngineRejection {
        match *self {
            EngineError::Family(error) => EngineRejection::Family(error@),
            EngineError::DuplicateRustOperation { id } => EngineRejection::DuplicateRustOperation { id: id },
            EngineError::RustOperationCount { expected, actual } => EngineRejection::RustOperationCount { expected: expected, actual: actual },
            EngineError::MissingRustOperation { id } => EngineRejection::MissingRustOperation { id: id },
            EngineError::TooManyOperations => EngineRejection::TooManyOperations,
            EngineError::ArgumentCount { operation_id, expected, actual } => EngineRejection::ArgumentCount { operation_id: operation_id, expected: expected, actual: actual },
            EngineError::DuplicateRustArgument { operation_id, name } => EngineRejection::DuplicateRustArgument { operation_id: operation_id, name: name@ },
            EngineError::InvalidArgumentBinding { operation_id, argument, expected } => EngineRejection::InvalidArgumentBinding { operation_id: operation_id, argument: argument, expected: expected@ },
            EngineError::InvalidStructuredBinding { operation_id, argument, role } => EngineRejection::InvalidStructuredBinding { operation_id: operation_id, argument: argument, role: role@ },
            EngineError::InvalidReturnBinding { operation_id, expected } => EngineRejection::InvalidReturnBinding { operation_id: operation_id, expected: expected@ },
            EngineError::MissingErrorDescriptor { operation_id } => EngineRejection::MissingErrorDescriptor { operation_id: operation_id },
            EngineError::UnexpectedErrorDescriptor { operation_id } => EngineRejection::UnexpectedErrorDescriptor { operation_id: operation_id },
            EngineError::InvalidOperationTarget { operation_id, kind } => EngineRejection::InvalidOperationTarget { operation_id: operation_id, kind: kind },
            EngineError::HostOperationHasRustBindings { operation_id } => EngineRejection::HostOperationHasRustBindings { operation_id: operation_id },
            EngineError::HostOperationHasStructuredUseSites { operation_id } => EngineRejection::HostOperationHasStructuredUseSites { operation_id: operation_id },
            EngineError::MissingReceiver { operation_id } => EngineRejection::MissingReceiver { operation_id: operation_id },
            EngineError::UnexpectedReceiver { operation_id } => EngineRejection::UnexpectedReceiver { operation_id: operation_id },
            EngineError::InvalidValueReceiver { operation_id } => EngineRejection::InvalidValueReceiver { operation_id: operation_id },
            EngineError::InvalidResourceReceiver { operation_id } => EngineRejection::InvalidResourceReceiver { operation_id: operation_id },
            EngineError::InvalidResourceResult { operation_id } => EngineRejection::InvalidResourceResult { operation_id: operation_id },
            EngineError::MissingStructuredUseSite { operation_id, argument, role } => EngineRejection::MissingStructuredUseSite { operation_id: operation_id, argument: argument, role: role@ },
            EngineError::UnexpectedHostOperationCodegen { operation_id } => EngineRejection::UnexpectedHostOperationCodegen { operation_id: operation_id },
            EngineError::MissingResourceHook { role } => EngineRejection::MissingResourceHook { role: role@ },
            EngineError::OperationOrder { expected, actual } => EngineRejection::OperationOrder { expected: expected, actual: actual },
            EngineError::MissingNativeCallback { operation_id } => EngineRejection::MissingNativeCallback { operation_id: operation_id },
            EngineError::UnexpectedNativeCallback { operation_id } => EngineRejection::UnexpectedNativeCallback { operation_id: operation_id },
            EngineError::InvalidHostOperationSignature { operation_id, reason } => EngineRejection::InvalidHostOperationSignature { operation_id: operation_id, reason: reason@ },
            EngineError::UnsupportedUseSite { operation_id, role, path } => EngineRejection::UnsupportedUseSite { operation_id: operation_id, role: role@, path: path@ },
            EngineError::BackendCodegen(message) => EngineRejection::BackendCodegen(message@),
        }
    }
}

/// The `Debug` rendering of a string: quoted, with its special characters
/// escaped.
pub uninterp spec fn debug_str_text(text: Seq<char>) -> Seq<char>;

/// Renders a string as std's `Debug` for `str` does.
///
/// The contract names the rendering as a function of the text alone; which
/// characters std escapes, and how, is left unstated.
#[verifier::external_body]
fn debug_quoted(text: &str) -> (quoted: String)
    ensures
        quoted@ == debug_str_text(text@),
{
    format!("{:?}", text)
}

/// The message of an engine rejection.
pub open spec fn engine_error_text(error: EngineRejection) -> Seq<char> {
    match error {
        EngineRejection::Family(error) => plan_error_text(error),
        EngineRejection::DuplicateRustOperation { id } => "duplicate Rust operation ID "@ + decimal_text(id as nat),
        EngineRejection::RustOperationCount { expected, actual } => "Rust operation plan has "@ + decimal_text(actual as nat) + " entries; bridge requires "@ + decimal_text(expected as nat),
        EngineRejection::MissingRustOperation { id } => "missing Rust operation ID "@ + decimal_text(id as nat),
        EngineRejection::TooManyOperations => "Rust operation table exceeds u32"@,
        EngineRejection::ArgumentCount { operation_id, expected, actual } => "operation "@ + decimal_text(operation_id as nat) + " has "@ + decimal_text(actual as nat) + " Rust arguments; bridge requires "@ + decimal_text(expected as nat),
        EngineRejection::DuplicateRustArgument { operation_id, name } => "operation "@ + decimal_text(operation_id as nat) + " repeats Rust argument name "@ + debug_str_text(name),
        EngineRejection::InvalidArgumentBinding { operation_id, argument, expected } => "operation "@ + decimal_text(operation_id as nat) + " argument "@ + decimal_text(argument as nat) + " requires "@ + expected,
        EngineRejection::InvalidStructuredBinding { operation_id, argument, role } => "operation "@ + decimal_text(operation_id as nat) + " argument "@ + decimal_text(argument as nat) + " requires structured "@ + role + " binding"@,
        EngineRejection::InvalidReturnBinding { operation_id, expected } => "operation "@ + decimal_text(operation_id as nat) + " return requires "@ + expected,
        EngineRejection::MissingErrorDescriptor { operation_id } => "fallible operation "@ + decimal_text(operation_id as nat) + " has no error descriptor mapper"@,
        EngineRejection::UnexpectedErrorDescriptor { operation_id } => "infallible operation "@ + decimal_text(operation_id as nat) + " unexpectedly has an error descriptor mapper"@,
        EngineRejection::InvalidOperationTarget { operation_id, kind } => "operation "@ + decimal_text(operation_id as nat) + " has a Rust target incompatible with "@ + kind_text(kind),
        EngineRejection::HostOperationHasRustBindings { operation_id } => "host operation "@ + decimal_text(operation_id as nat) + " must not contain Rust call arguments or a receiver"@,
        EngineRejection::HostOperationHasStructuredUseSites { operation_id } => "host operation "@ + decimal_text(operation_id as nat) + " must not contain callback or stream use-sites"@,
        EngineRejection::MissingReceiver { operation_id } => "operation "@ + decimal_text(operation_id as nat) + " has no Rust receiver binding"@,
        EngineRejection::UnexpectedReceiver { operation_id } => "operation "@ + decimal_text(operation_id as nat) + " unexpectedly has a Rust receiver binding"@,
        EngineRejection::InvalidValueReceiver { operation_id } => "value receiver operation "@ + decimal_text(operation_id as nat) + " requires a regular value lowering"@,
        EngineRejection::InvalidResourceReceiver { operation_id } => "resource receiver operation "@ + decimal_text(operation_id as nat) + " requires a matching resource lease binding"@,
        EngineRejection::InvalidResourceResult { operation_id } => "operation "@ + decimal_text(operation_id as nat) + " has a return binding incompatible with its resource result"@,
        EngineRejection::MissingStructuredUseSite { operation_id, argument, role } => "operation "@ + decimal_text(operation_id as nat) + " argument "@ + decimal_text(argument as nat) + " has no structured "@ + role + " use-site contract"@,
        EngineRejection::UnexpectedHostOperationCodegen { operation_id } => "host operation "@ + decimal_text(operation_id as nat) + " reached native operation code generation"@,
        EngineRejection::MissingResourceHook { role } => "Rust bridge plan has no structured "@ + role + " hook"@,
        EngineRejection::OperationOrder { expected, actual } => "operation dispatch order mismatch: expected "@ + decimal_text(expected as nat) + ", found "@ + decimal_text(actual as nat),
        EngineRejection::MissingNativeCallback { operation_id } => "native operation "@ + decimal_text(operation_id as nat) + " has no generated callback"@,
        EngineRejection::UnexpectedNativeCallback { operation_id } => "host operation "@ + decimal_text(operation_id as nat) + " unexpectedly has a native callback"@,
        EngineRejection::InvalidHostOperationSignature { operation_id, reason } => "host operation "@ + decimal_text(operation_id as nat) + " is invalid: "@ + reason,
        EngineRejection::UnsupportedUseSite { operation_id, role, path } => "operation "@ + decimal_text(operation_id as nat) + " has unsupported nested "@ + role + " use-site "@ + path,
        EngineRejection::BackendCodegen(message) => "napi backend codegen failed: "@ + message,
    }
}

impl EngineError {
    /// Renders the error message.
    pub fn to_string(&self) -> (text: String)
        ensures
            text@ == engine_error_text(self@),
    {
        let mut text = String::new();
        match self {
            EngineError::Family(error) => {
                let inner = error.to_string();
                text.append(inner.as_str());
            },
            EngineError::DuplicateRustOperation { id } => {
                text.append("duplicate Rust operation ID ");
                push_decimal(&mut text, *id as u64);
            },
            EngineError::RustOperationCount { expected, actual } => {
                text.append("Rust operation plan has ");
                push_decimal(&mut text, *actual as u64);
                text.append(" entries; bridge requires ");
                push_decimal(&mut text, *expected as u64);
            },
            EngineError::MissingRustOperation { id } => {
                text.append("missing Rust operation ID ");
                push_decimal(&mut text, *id as u64);
            },
            EngineError::TooManyOperations => {
                text.append("Rust operation table exceeds u32");
            },
            EngineError::ArgumentCount { operation_id, expected, actual } => {
                text.append("operation ");
                push_decimal(&mut text, *operation_id as u64);
                text.append(" has ");
                push_decimal(&mut text, *actual as u64);
                text.append(" Rust arguments; bridge requires ");
                push_decimal(&mut text, *expected as u64);
            },
            EngineError::DuplicateRustArgument { operation_id, name } => {
                text.append("operation ");
                push_decimal(&mut text, *operation_id as u64);
                text.append(" repeats Rust argument name ");
                let quoted = debug_quoted(name.as_str());
                text.append(quoted.as_str());
            },
            EngineError::InvalidArgumentBinding { operation_id, argument, expected } => {
                text.append("operation ");
                push_decimal(&mut text, *operation_id as u64);
                text.append(" argument ");
                push_decimal(&mut text, *argument as u64);
                text.append(" requires ");
                text.append(*expected);
            },
            EngineError::InvalidStructuredBinding { operation_id, argument, role } => {
                text.append("operation ");
                push_decimal(&mut text, *operation_id as u64);
                text.append(" argument ");
                push_decimal(&mut text, *argument as u64);
                text.append(" requires structured ");
                text.append(*role);
                text.append(" binding");
            },
            EngineError::InvalidReturnBinding { operation_id, expected } => {
                text.append("operation ");
                push_decimal(&mut text, *operation_id as u64);
                text.append(" return requires ");
                text.append(*expected);
            },
            EngineError::MissingErrorDescriptor { operation_id } => {
                text.append("fallible operation ");
                push_decimal(&mut text, *operation_id as u64);
                text.append(" has no error descriptor mapper");
            },
            EngineError::UnexpectedErrorDescriptor { operation_id } => {
                text.append("infallible operation ");
                push_decimal(&mut text, *operation_id as u64);
                text.append(" unexpectedly has an error descriptor mapper");
            },
            EngineError::InvalidOperationTarget { operation_id, kind } => {
                text.append("operation ");
                push_decimal(&mut text, *operation_id as u64);
                text.append(" has a Rust target incompatible with ");
                push_kind(&mut text, *kind);
            },
            EngineError::HostOperationHasRustBindings { operation_id } => {
                text.append("host operation ");
                push_decimal(&mut text, *operation_id as u64);
                text.append(" must not contain Rust call arguments or a receiver");
            },
            EngineError::HostOperationHasStructuredUseSites { operation_id } => {
                text.append("host operation ");
                push_decimal(&mut text, *operation_id as u64);
                text.append(" must not contain callback or stream use-sites");
            },
            EngineError::MissingReceiver { operation_id } => {
                text.append("operation ");
                push_decimal(&mut text, *operation_id as u64);
                text.append(" has no Rust receiver binding");
            },
            EngineError::UnexpectedReceiver { operation_id } => {
                text.append("operation ");
                push_decimal(&mut text, *operation_id as u64);
                text.append(" unexpectedly has a Rust receiver binding");
            },
            EngineError::InvalidValueReceiver { operation_id } => {
                text.append("value receiver operation ");
                push_decimal(&mut text, *operation_id as u64);
                text.append(" requires a regular value lowering");
            },
            EngineError::InvalidResourceReceiver { operation_id } => {
                text.append("resource receiver operation ");
                push_decimal(&mut text, *operation_id as u64);
                text.append(" requires a matching resource lease binding");
            },
            EngineError::InvalidResourceResult { operation_id } => {
                text.append("operation ");
                push_decimal(&mut text, *operation_id as u64);
                text.append(" has a return binding incompatible with its resource result");
            },
            EngineError::MissingStructuredUseSite { operation_id, argument, role } => {
                text.append("operation ");
                push_decimal(&mut text, *operation_id as u64);
                text.append(" argument ");
                push_decimal(&mut text, *argument as u64);
                text.append(" has no structured ");
                text.append(*role);
                text.append(" use-site contract");
            },
            EngineError::UnexpectedHostOperationCodegen { operation_id } => {
                text.append("host operation ");
                push_decimal(&mut text, *operation_id as u64);
                text.append(" reached native operation code generation");
            },
            EngineError::MissingResourceHook { role } => {
                text.append("Rust bridge plan has no structured ");
                text.append(*role);
                text.append(" hook");
            },
            EngineError::OperationOrder { expected, actual } => {
                text.append("operation dispatch order mismatch: expected ");
                push_decimal(&mut text, *expected as u64);
                text.append(", found ");
                push_decimal(&mut text, *actual as u64);
            },
            EngineError::MissingNativeCallback { operation_id } => {
                text.append("native operation ");
                push_decimal(&mut text, *operation_id as u64);
                text.append(" has no generated callback");
            },
            EngineError::UnexpectedNativeCallback { operation_id } => {
                text.append("host operation ");
                push_decimal(&mut text, *operation_id as u64);
                text.append(" unexpectedly has a native callback");
            },
            EngineError::InvalidHostOperationSignature { operation_id, reason } => {
                text.append("host operation ");
                push_decimal(&mut text, *operation_id as u64);
                text.append(" is invalid: ");
                text.append(*reason);
            },
            EngineError::UnsupportedUseSite { operation_id, role, path } => {
                text.append("operation ");
                push_decimal(&mut text, *operation_id as u64);
                text.append(" has unsupported nested ");
                text.append(*role);
                text.append(" use-site ");
                text.append(path.as_str());
            },
            EngineError::BackendCodegen(message) => {
                text.append("napi backend codegen failed: ");
                text.append(message.as_str());
            },
        }
        assert(text@ =~= engine_error_text(self@));
        text
    }
}

impl From<FamilyPlanError> for EngineError {
    fn from(value: FamilyPlanError) -> (error: Self) {
        EngineError::Family(value)
    }
}

impl vstd::std_specs::convert::FromSpecImpl<FamilyPlanError> for EngineError {
    open spec fn obeys_from_spec() -> bool {
        true
    }

    open spec fn from_spec(value: FamilyPlanError) -> Self {
        EngineError::Family(value)
    }
}

} // verus!
