//! The value codec: conversion between typed WebAssembly values and the
//! foreign dynamic object model, plus the canonical type descriptors.
//!
//! [`PyValue`] is this crate's model of a foreign dynamic value: it holds,
//! as plain data, exactly what the embedding's logic reads of a foreign
//! object — its numeric payload, its big-integer payload, whether it is
//! null, whether it is one of this embedding's own proxies, or the bare
//! identity of anything else.  The shim that talks to the foreign engine
//! converts between this model and the real objects; every decision about
//! a value is made, and verified, here.

use vstd::prelude::*;

use crate::error::BackendError;
use crate::externref::{ExternRef, PayloadHandle};
use crate::value::{spec_value_ty, Value, ValueType};

verus! {

/// The model of a foreign dynamic value.
///
/// Numbers record the kind they were created from, held exactly: a 64-bit
/// integer is never represented as an approximate double — it crosses the
/// bridge as a big integer, boxed in an object wrapper so that the
/// scripting layer does not coerce it back to a double on the way.
#[derive(Clone, Copy, Debug, PartialEq, Eq, Structural)]
pub enum PyValue {
    /// The foreign null / absent value.
    Null,
    /// A foreign number holding a 32-bit integer.
    I32(i32),
    /// A foreign number created from the bits of a 32-bit float.
    F32(u32),
    /// A foreign number created from the bits of a 64-bit float.
    F64(u64),
    /// A foreign big integer.
    BigInt(i64),
    /// A foreign big integer boxed in an object wrapper.
    WrappedBigInt(i64),
    /// A foreign callable, by identity.
    Callable(u64),
    /// A proxy made by this embedding around a registered host payload.
    ExternProxy { handle: PayloadHandle, id: u64 },
    /// Any other foreign object, by identity.
    Foreign(u64),
}

/// What encoding a typed value into the foreign world yields.
///
/// Total: every value has exactly one foreign form.  A 64-bit integer
/// becomes an object-wrapped big integer; null references become the
/// foreign null; function and extern references present their underlying
/// foreign objects.
pub open spec fn spec_encode(v: Value) -> PyValue {
    match v {
        Value::I32(x) => PyValue::I32(x),
        Value::I64(x) => PyValue::WrappedBigInt(x),
        Value::F32(bits) => PyValue::F32(bits),
        Value::F64(bits) => PyValue::F64(bits),
        Value::FuncRef(None) => PyValue::Null,
        Value::FuncRef(Some(f)) => PyValue::Callable(f.spec_callable()),
        Value::ExternRef(None) => PyValue::Null,
        Value::ExternRef(Some(r)) => r.spec_guest(),
    }
}

/// Converts a typed value to its foreign form.
pub fn encode(v: &Value) -> (r: PyValue)
    ensures
        r == spec_encode(*v),
{
    match v {
        Value::I32(x) => PyValue::I32(*x),
        Value::I64(x) => PyValue::WrappedBigInt(*x),
        Value::F32(bits) => PyValue::F32(*bits),
        Value::F64(bits) => PyValue::F64(*bits),
        Value::FuncRef(None) => PyValue::Null,
        Value::FuncRef(Some(f)) => PyValue::Callable(f.callable_id()),
        Value::ExternRef(None) => PyValue::Null,
        Value::ExternRef(Some(r)) => r.to_py(),
    }
}

/// What decoding a foreign value at an expected type yields.
///
/// - An `I64` slot accepts a big integer, boxed or bare, and a 32-bit
///   integer number (which a big integer can be coerced from exactly);
///   anything else cannot be coerced and is a decode error.
/// - The other numeric slots accept exactly the foreign number of their
///   kind.
/// - An `ExternRef` slot accepts the foreign null as the absent
///   reference, and wraps any other foreign value as a reference.
/// - A `FuncRef` slot accepts only the foreign null: a bare foreign value
///   outside of an export carries no signature, so decoding it as a
///   function is always an error.
pub open spec fn spec_decode(obj: PyValue, ty: ValueType) -> Result<Value, BackendError> {
    match ty {
        ValueType::I32 => match obj {
            PyValue::I32(x) => Ok(Value::I32(x)),
            _ => Err(BackendError::Decode { expected: ValueType::I32 }),
        },
        ValueType::I64 => match obj {
            PyValue::BigInt(x) => Ok(Value::I64(x)),
            PyValue::WrappedBigInt(x) => Ok(Value::I64(x)),
            PyValue::I32(x) => Ok(Value::I64(x as i64)),
            _ => Err(BackendError::Decode { expected: ValueType::I64 }),
        },
        ValueType::F32 => match obj {
            PyValue::F32(bits) => Ok(Value::F32(bits)),
            _ => Err(BackendError::Decode { expected: ValueType::F32 }),
        },
        ValueType::F64 => match obj {
            PyValue::F64(bits) => Ok(Value::F64(bits)),
            _ => Err(BackendError::Decode { expected: ValueType::F64 }),
        },
        ValueType::ExternRef => match obj {
            PyValue::Null => Ok(Value::ExternRef(None)),
            _ => Ok(Value::ExternRef(Some(ExternRef::spec_from_guest(obj)))),
        },
        ValueType::FuncRef => match obj {
            PyValue::Null => Ok(Value::FuncRef(None)),
            _ => Err(BackendError::FuncSignatureUnknown),
        },
    }
}

/// Converts a foreign value into a typed value of the expected type.
pub fn decode(obj: PyValue, ty: ValueType) -> (r: Result<Value, BackendError>)
    ensures
        r == spec_decode(obj, ty),
{
    match ty {
        ValueType::I32 => match obj {
            PyValue::I32(x) => Ok(Value::I32(x)),
            _ => Err(BackendError::Decode { expected: ValueType::I32 }),
        },
        ValueType::I64 => match obj {
            PyValue::BigInt(x) => Ok(Value::I64(x)),
            PyValue::WrappedBigInt(x) => Ok(Value::I64(x)),
            PyValue::I32(x) => Ok(Value::I64(x as i64)),
            _ => Err(BackendError::Decode { expected: ValueType::I64 }),
        },
        ValueType::F32 => match obj {
            PyValue::F32(bits) => Ok(Value::F32(bits)),
            _ => Err(BackendError::Decode { expected: ValueType::F32 }),
        },
        ValueType::F64 => match obj {
            PyValue::F64(bits) => Ok(Value::F64(bits)),
            _ => Err(BackendError::Decode { expected: ValueType::F64 }),
        },
        ValueType::ExternRef => match obj {
            PyValue::Null => Ok(Value::ExternRef(None)),
            _ => Ok(Value::ExternRef(Some(ExternRef::from_exported_externref(obj)))),
        },
        ValueType::FuncRef => match obj {
            PyValue::Null => Ok(Value::FuncRef(None)),
            _ => Err(BackendError::FuncSignatureUnknown),
        },
    }
}

/// Every signed 64-bit integer round-trips through the codec exactly,
/// including the extreme values.
pub proof fn lemma_i64_round_trip(v: i64)
    ensures
        spec_decode(spec_encode(Value::I64(v)), ValueType::I64) == Ok::<Value, BackendError>(
            Value::I64(v),
        ),
{
}

/// Every numeric value round-trips through the codec exactly: the decoded
/// value carries the same integer, or the very same float bit pattern,
/// as the encoded one.
pub proof fn lemma_numeric_round_trip(v: Value)
    requires
        v is I32 || v is I64 || v is F32 || v is F64,
    ensures
        spec_decode(spec_encode(v), spec_value_ty(v)) == Ok::<Value, BackendError>(v),
{
}

/// Every null or well-formed extern reference round-trips through the
/// codec exactly: the same payload handle and the same guest identity
/// come back.
pub proof fn lemma_extern_ref_round_trip(v: Value)
    requires
        v is ExternRef,
        v matches Value::ExternRef(Some(r)) ==> r.wf(),
    ensures
        spec_decode(spec_encode(v), spec_value_ty(v)) == Ok::<Value, BackendError>(v),
{
    if let Value::ExternRef(Some(r)) = v {
        crate::externref::lemma_extern_ref_determined(r);
    }
}

/// The null function reference round-trips; a non-null one is refused on
/// the way back in, since a bare foreign value carries no signature.
pub proof fn lemma_func_ref_null_round_trip()
    ensures
        spec_decode(spec_encode(Value::FuncRef(None)), ValueType::FuncRef) == Ok::<
            Value,
            BackendError,
        >(Value::FuncRef(None)),
{
}

/// The canonical short name of a value type, used when constructing
/// foreign type descriptors for globals, tables and memories.
pub open spec fn spec_js_descriptor(ty: ValueType) -> Seq<char> {
    match ty {
        ValueType::I32 => "i32"@,
        ValueType::I64 => "i64"@,
        ValueType::F32 => "f32"@,
        ValueType::F64 => "f64"@,
        ValueType::FuncRef => "anyfunc"@,
        ValueType::ExternRef => "externref"@,
    }
}

impl ValueType {
    /// Converts this type into the canonical descriptor name.
    pub fn as_js_descriptor(&self) -> (r: &'static str)
        ensures
            r@ == spec_js_descriptor(*self),
    {
        match self {
            ValueType::I32 => "i32",
            ValueType::I64 => "i64",
            ValueType::F32 => "f32",
            ValueType::F64 => "f64",
            ValueType::FuncRef => "anyfunc",
            ValueType::ExternRef => "externref",
        }
    }
}

/// The descriptor mapping is a bijection between the six value types and
/// the six canonical names: every type has one of the six names, and no
/// two types share a name.
pub proof fn lemma_js_descriptor_bijective()
    ensures
        forall|a: ValueType, b: ValueType|
            spec_js_descriptor(a) == spec_js_descriptor(b) ==> a == b,
        forall|t: ValueType|
            spec_js_descriptor(t) == "i32"@ || spec_js_descriptor(t) == "i64"@
                || spec_js_descriptor(t) == "f32"@ || spec_js_descriptor(t) == "f64"@
                || spec_js_descriptor(t) == "anyfunc"@ || spec_js_descriptor(t) == "externref"@,
{
    reveal_strlit("i32");
    reveal_strlit("i64");
    reveal_strlit("f32");
    reveal_strlit("f64");
    reveal_strlit("anyfunc");
    reveal_strlit("externref");
    assert forall|a: ValueType, b: ValueType|
        spec_js_descriptor(a) == spec_js_descriptor(b) implies a == b by {
        if a != b {
            lemma_js_descriptor_distinct(a, b);
        }
    }
}

/// Distinct value types have distinct descriptor names.
proof fn lemma_js_descriptor_distinct(a: ValueType, b: ValueType)
    requires
        a != b,
    ensures
        spec_js_descriptor(a) != spec_js_descriptor(b),
{
    reveal_strlit("i32");
    reveal_strlit("i64");
    reveal_strlit("f32");
    reveal_strlit("f64");
    reveal_strlit("anyfunc");
    reveal_strlit("externref");
    assert(spec_js_descriptor(a).len() == spec_js_descriptor(b).len() ==> spec_js_descriptor(
        a,
    ) != spec_js_descriptor(b)) by {
        if spec_js_descriptor(a).len() == spec_js_descriptor(b).len() {
            assert(spec_js_descriptor(a)[0] != spec_js_descriptor(b)[0] || spec_js_descriptor(
                a,
            )[1] != spec_js_descriptor(b)[1]);
        }
    }
}

} // verus!
