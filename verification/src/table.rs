//! Tables: a growable array of reference values owned by the foreign
//! engine.
//!
//! The slots live with the engine; this handle carries the table's
//! identity and signature, decides how elements decode, and checks that an
//! exported table matches its declared shape.

use vstd::prelude::*;

use crate::conversion::{spec_decode, spec_encode, decode, encode, PyValue};
use crate::error::BackendError;
use crate::types::{ExternKind, TableType};
use crate::value::{Value, ValueType};

verus! {

/// A WASM table.
#[derive(Clone, Copy, Debug, PartialEq, Eq)]
pub struct Table {
    /// The identity of the foreign table object.
    table: u64,
    /// The table signature.
    ty: TableType,
}

impl Table {
    /// The identity of the foreign table object.
    pub closed spec fn spec_table(self) -> u64 {
        self.table
    }

    /// The table signature.
    pub closed spec fn spec_ty(self) -> TableType {
        self.ty
    }

    /// Creates the handle for a freshly constructed foreign table of the
    /// given type.  The foreign constructor receives the encoded initial
    /// element, obtained with [`encode`].
    pub fn new(table_id: u64, ty: TableType) -> (r: Table)
        ensures
            r.spec_table() == table_id,
            r.spec_ty() == ty,
    {
        Table { table: table_id, ty }
    }

    /// Wraps an exported foreign object as a table of the declared
    /// signature.  The object must be an instance of the engine's table
    /// class, its length must reach the declared minimum, and only tables
    /// of function references are supported.
    pub fn from_exported_table(table_id: u64, is_table: bool, length: u32, ty: TableType) -> (r:
        Result<Table, BackendError>)
        ensures
            (is_table && length >= ty.minimum && ty.element is FuncRef) ==> (r matches Ok(t)
                && t.spec_table() == table_id && t.spec_ty() == ty),
            !is_table ==> r == Err::<Table, BackendError>(
                BackendError::WrongClass { expected: ExternKind::Table },
            ),
            (is_table && length < ty.minimum) ==> r == Err::<Table, BackendError>(
                BackendError::TableTooSmall { minimum: ty.minimum, length },
            ),
            (is_table && length >= ty.minimum && !(ty.element is FuncRef)) ==> r == Err::<
                Table,
                BackendError,
            >(BackendError::TableElementNotFuncRef),
    {
        if !is_table {
            Err(BackendError::WrongClass { expected: ExternKind::Table })
        } else if length < ty.minimum {
            Err(BackendError::TableTooSmall { minimum: ty.minimum, length })
        } else if !matches!(ty.element, ValueType::FuncRef) {
            Err(BackendError::TableElementNotFuncRef)
        } else {
            Ok(Table { table: table_id, ty })
        }
    }

    /// The table signature.
    pub fn ty(&self) -> (r: TableType)
        ensures
            r == self.spec_ty(),
    {
        self.ty
    }

    /// The foreign object to hand to the guest for this table.
    pub fn to_py(&self) -> (r: PyValue)
        ensures
            r == PyValue::Foreign(self.spec_table()),
    {
        PyValue::Foreign(self.table)
    }

    /// Encodes an element for a write into the table (a `set`, or the
    /// filler of a `grow`).
    pub fn encode_element(&self, value: &Value) -> (r: PyValue)
        ensures
            r == spec_encode(*value),
    {
        encode(value)
    }

    /// Decodes an element read from the table at the table's element type.
    pub fn decode_element(&self, raw: PyValue) -> (r: Result<Value, BackendError>)
        ensures
            r == spec_decode(raw, self.spec_ty().element),
    {
        decode(raw, self.ty.element)
    }
}

} // verus!
