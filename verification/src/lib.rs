//! A statically typed WebAssembly embedding layered over a foreign,
//! dynamically typed engine.
//!
//! The crate models the values, signatures, stores and instances of a
//! WebAssembly session whose execution engine lives on the other side of a
//! dynamic object bridge (a browser engine reached through a Python
//! scripting layer).  Everything the embedding decides — how values cross
//! the bridge, how export tables are wired, how host functions are kept
//! alive, which feature extensions a module needs — is implemented and
//! verified here over a plain model of the foreign objects.  The thin shim
//! that performs the actual foreign calls converts between that model and
//! the real objects.

use vstd::prelude::*;

pub mod conversion;
pub mod error;
pub mod externref;
pub mod features;
pub mod func;
pub mod global;
pub mod instance;
pub mod memory;
pub mod module;
pub mod store;
pub mod table;
pub mod types;
pub mod value;

pub use conversion::{decode, encode, PyValue};
pub use error::BackendError;
pub use externref::{ExternRef, PayloadHandle};
pub use features::{FeatureSet, UnsupportedWasmFeatureExtensionError, WasmFeatureExtension};
pub use func::{
    encode_results, make_results_buffer, trampoline_decode_args, Func, PyReturn,
};
pub use global::Global;
pub use instance::{group_imports, wire_export, wire_exports, Extern, FetchedExtern, Instance};
pub use memory::{pages_of_byte_length, Memory, PAGE_SIZE};
pub use module::{
    ExportDeclKind, ImportDesc, Module, ModuleEvent, ParsedFuncType, ParsedGlobalType,
    ParsedMemoryType, ParsedTableType, ParsedValType, SignatureTable,
};
pub use store::{host_call_gate, Store, StoreContext, StoreProof};
pub use table::Table;
pub use types::{str_eq, ExternKind, ExternType, FuncType, GlobalType, MemoryType, TableType};
pub use value::{Value, ValueType};

verus! {

/// Runtime for WebAssembly.
///
/// The engine itself is stateless: every foreign engine reachable through
/// the bridge is a process-wide singleton, so the handle carries no data.
#[derive(Clone, Copy, Debug, Default, PartialEq, Eq, Structural)]
pub struct Engine {}

impl Engine {
    /// Creates a handle to the foreign engine.
    pub fn new() -> (r: Engine)
        ensures
            r == (Engine {}),
    {
        Engine {}
    }
}

} // verus!
