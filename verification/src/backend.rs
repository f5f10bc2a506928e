//! Plain parts of the napi backend's function model.
use vstd::prelude::*;

verus! {

/// The role of a generated N-API function.
#[derive(Debug, Clone, PartialEq, Eq)]
pub enum FnKind {
    Normal,
    Constructor,
    Factory,
    Getter,
    Setter,
}

/// How a generated method takes its receiver.
#[derive(Debug, Clone, PartialEq, Eq)]
pub enum FnSelf {
    Value,
    Ref,
    MutRef,
}

/// The JavaScript value of an enum variant.
#[derive(Debug, Clone)]
pub enum NapiEnumValue {
    String(String),
    Number(i32),
}

} // verus!
