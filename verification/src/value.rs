//! The typed WebAssembly value model.
//!
//! A [`Value`] carries exactly one of the six WebAssembly value kinds.
//! Floating-point payloads are carried as their raw bit patterns, so that
//! every conversion in this crate is exact at the bit level and no numeric
//! operation on them is ever performed here.

use vstd::prelude::*;

use crate::externref::ExternRef;
use crate::func::Func;

verus! {

/// The type of a WebAssembly value.
#[derive(Clone, Copy, Debug, PartialEq, Eq, Structural)]
pub enum ValueType {
    /// A 32-bit signed integer.
    I32,
    /// A 64-bit signed integer.
    I64,
    /// A 32-bit float.
    F32,
    /// A 64-bit float.
    F64,
    /// A nullable reference to a function.
    FuncRef,
    /// A nullable reference to a host object.
    ExternRef,
}

/// A WebAssembly value.
///
/// The float kinds hold the raw bit pattern of the number, never an
/// approximation of it.
#[derive(Clone, Debug, PartialEq)]
pub enum Value {
    /// A 32-bit signed integer.
    I32(i32),
    /// A 64-bit signed integer.
    I64(i64),
    /// The bit pattern of a 32-bit float.
    F32(u32),
    /// The bit pattern of a 64-bit float.
    F64(u64),
    /// A reference to a function, or the null reference.
    FuncRef(Option<Func>),
    /// A reference to a host object, or the null reference.
    ExternRef(Option<ExternRef>),
}

/// The type of a value, determined by its variant alone.
pub open spec fn spec_value_ty(v: Value) -> ValueType {
    match v {
        Value::I32(_) => ValueType::I32,
        Value::I64(_) => ValueType::I64,
        Value::F32(_) => ValueType::F32,
        Value::F64(_) => ValueType::F64,
        Value::FuncRef(_) => ValueType::FuncRef,
        Value::ExternRef(_) => ValueType::ExternRef,
    }
}

impl Value {
    /// Converts a value to its type.
    pub fn ty(&self) -> (t: ValueType)
        ensures
            t == spec_value_ty(*self),
    {
        match self {
            Value::I32(_) => ValueType::I32,
            Value::I64(_) => ValueType::I64,
            Value::F32(_) => ValueType::F32,
            Value::F64(_) => ValueType::F64,
            Value::FuncRef(_) => ValueType::FuncRef,
            Value::ExternRef(_) => ValueType::ExternRef,
        }
    }
}

} // verus!
