//! The error taxonomy of the embedding.
//!
//! Every failure this layer can report is one of these variants; nothing is
//! silently coerced into a default value.  Per-call errors never poison the
//! store or any other handle.

use vstd::prelude::*;

use crate::features::UnsupportedWasmFeatureExtensionError;
use crate::types::ExternKind;
use crate::value::ValueType;

verus! {

/// An error surfaced by the embedding.
#[derive(Clone, Copy, Debug, PartialEq, Eq)]
pub enum BackendError {
    /// A foreign value could not be coerced into the expected value type.
    Decode { expected: ValueType },
    /// A bare foreign value was decoded into a function-typed slot; outside
    /// of an export-derived function its signature is unknown.
    FuncSignatureUnknown,
    /// A foreign object was expected to be an instance of the engine class
    /// for this extern kind, but is not.
    WrongClass { expected: ExternKind },
    /// A host function was called after its owning store was destroyed.
    StoreDropped,
    /// A write was attempted on an immutable global.
    ImmutableGlobal,
    /// An extern reference from a different source cannot be downcast.
    ExternRefForeignSource,
    /// An extern reference's payload has a different type than requested.
    ExternRefWrongType,
    /// An exported table is smaller than its declared minimum size.
    TableTooSmall { minimum: u32, length: u32 },
    /// An exported table's element type is not a function reference.
    TableElementNotFuncRef,
    /// A function declaration refers to a type index the module never defined.
    TypeIndexOutOfBounds { index: u32 },
    /// An export refers to an index beyond its declaration space.
    ExportIndexOutOfBounds { index: u32 },
    /// The module uses a construct this embedding does not support
    /// (vector types, exception tags, composite type groups, 64-bit or
    /// shared memories).
    UnsupportedConstruct,
    /// The module needs feature extensions the foreign engine lacks.
    UnsupportedFeatures(UnsupportedWasmFeatureExtensionError),
    /// The foreign engine rejected the module for no reason this layer can
    /// attribute to a missing feature extension.
    ModuleRejected,
}

} // verus!
