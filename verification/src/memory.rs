//! Memories: a linear memory owned by the foreign engine.
//!
//! The bytes live with the engine and are only read and written through
//! accessor calls; this handle carries the memory's identity and page
//! limits, and the page arithmetic for size queries.

use vstd::prelude::*;

use crate::conversion::PyValue;
use crate::error::BackendError;
use crate::types::{ExternKind, MemoryType};

verus! {

/// The size of one WebAssembly page, in bytes.
pub const PAGE_SIZE: u64 = 0x10000;

/// A WASM memory.
#[derive(Clone, Copy, Debug, PartialEq, Eq)]
pub struct Memory {
    /// The identity of the foreign memory object.
    memory: u64,
    /// The memory type.
    ty: MemoryType,
}

impl Memory {
    /// The identity of the foreign memory object.
    pub closed spec fn spec_memory(self) -> u64 {
        self.memory
    }

    /// The memory type.
    pub closed spec fn spec_ty(self) -> MemoryType {
        self.ty
    }

    /// Creates the handle for a freshly constructed foreign memory of the
    /// given type.
    pub fn new(memory_id: u64, ty: MemoryType) -> (r: Memory)
        ensures
            r.spec_memory() == memory_id,
            r.spec_ty() == ty,
    {
        Memory { memory: memory_id, ty }
    }

    /// Wraps an exported foreign object as a memory of the declared
    /// signature; the object must be an instance of the engine's memory
    /// class.
    pub fn from_exported_memory(memory_id: u64, is_memory: bool, ty: MemoryType) -> (r: Result<
        Memory,
        BackendError,
    >)
        ensures
            is_memory ==> (r matches Ok(m) && m.spec_memory() == memory_id && m.spec_ty() == ty),
            !is_memory ==> r == Err::<Memory, BackendError>(
                BackendError::WrongClass { expected: ExternKind::Memory },
            ),
    {
        if is_memory {
            Ok(Memory { memory: memory_id, ty })
        } else {
            Err(BackendError::WrongClass { expected: ExternKind::Memory })
        }
    }

    /// The memory type.
    pub fn ty(&self) -> (r: MemoryType)
        ensures
            r == self.spec_ty(),
    {
        self.ty
    }

    /// The foreign object to hand to the guest for this memory.
    pub fn to_py(&self) -> (r: PyValue)
        ensures
            r == PyValue::Foreign(self.spec_memory()),
    {
        PyValue::Foreign(self.memory)
    }
}

/// The number of whole pages in a buffer of the given byte length.
///
/// The byte length of a WebAssembly memory is always a whole number of
/// pages and, with 32-bit memories, always fits the page counter.
pub fn pages_of_byte_length(byte_len: u64) -> (r: u32)
    requires
        byte_len / PAGE_SIZE as u64 <= u32::MAX as u64,
    ensures
        r == byte_len / PAGE_SIZE as u64,
{
    (byte_len / PAGE_SIZE) as u32
}

} // verus!
