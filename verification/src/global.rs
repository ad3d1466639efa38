//! Globals: a single typed cell accessible as an import or export.
//!
//! The cell itself lives in the foreign engine; this handle carries its
//! identity and signature and makes every decision about it — whether a
//! write is allowed, and how values read from it decode.

use vstd::prelude::*;

use crate::conversion::{spec_decode, spec_encode, decode, encode, PyValue};
use crate::error::BackendError;
use crate::types::{ExternKind, GlobalType};
use crate::value::{spec_value_ty, Value};

verus! {

/// A global variable accessible as an import or export in a module.
#[derive(Clone, Copy, Debug, PartialEq, Eq)]
pub struct Global {
    /// The identity of the foreign global cell.
    global: u64,
    /// The global type.
    ty: GlobalType,
}

impl Global {
    /// The identity of the foreign global cell.
    pub closed spec fn spec_global(self) -> u64 {
        self.global
    }

    /// The global type.
    pub closed spec fn spec_ty(self) -> GlobalType {
        self.ty
    }

    /// Creates the handle for a freshly constructed foreign global cell
    /// holding `value`, with the given mutability.  The cell's type is
    /// determined by the initial value.
    pub fn new(global_id: u64, value: &Value, mutable: bool) -> (r: Global)
        ensures
            r.spec_global() == global_id,
            r.spec_ty() == (GlobalType { content: spec_value_ty(*value), mutable }),
    {
        Global { global: global_id, ty: GlobalType { content: value.ty(), mutable } }
    }

    /// Wraps an exported foreign object as a global of the declared
    /// signature; the object must be an instance of the engine's global
    /// class.
    pub fn from_exported_global(global_id: u64, is_global: bool, ty: GlobalType) -> (r: Result<
        Global,
        BackendError,
    >)
        ensures
            is_global ==> (r matches Ok(g) && g.spec_global() == global_id && g.spec_ty() == ty),
            !is_global ==> r == Err::<Global, BackendError>(
                BackendError::WrongClass { expected: ExternKind::Global },
            ),
    {
        if is_global {
            Ok(Global { global: global_id, ty })
        } else {
            Err(BackendError::WrongClass { expected: ExternKind::Global })
        }
    }

    /// The global type.
    pub fn ty(&self) -> (r: GlobalType)
        ensures
            r == self.spec_ty(),
    {
        self.ty
    }

    /// The foreign object to hand to the guest for this global.
    pub fn to_py(&self) -> (r: PyValue)
        ensures
            r == PyValue::Foreign(self.spec_global()),
    {
        PyValue::Foreign(self.global)
    }

    /// Decides a write to the global: an immutable global refuses it, a
    /// mutable one yields the foreign value to store into the cell.
    pub fn set(&self, new_value: &Value) -> (r: Result<PyValue, BackendError>)
        ensures
            self.spec_ty().mutable ==> r == Ok::<PyValue, BackendError>(spec_encode(*new_value)),
            !self.spec_ty().mutable ==> r == Err::<PyValue, BackendError>(
                BackendError::ImmutableGlobal,
            ),
    {
        if !self.ty.mutable {
            Err(BackendError::ImmutableGlobal)
        } else {
            Ok(encode(new_value))
        }
    }

    /// Decodes a value read from the foreign cell at the global's content
    /// type.
    pub fn decode_value(&self, raw: PyValue) -> (r: Result<Value, BackendError>)
        ensures
            r == spec_decode(raw, self.spec_ty().content),
    {
        decode(raw, self.ty.content)
    }
}

} // verus!
