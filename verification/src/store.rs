//! Stores all the WebAssembly state for a given collection of modules with
//! a similar lifetime.
//!
//! A store owns the user-supplied data and the signatures of every host
//! function registered against it.  Contexts are transient views borrowed
//! from the store for one operation.  A host function reached from the
//! foreign world does not hold a compiler-tracked borrow across the
//! foreign boundary; instead each trampoline invocation must present fresh
//! evidence — a [`StoreProof`] — that the store is still alive, and fails
//! cleanly when it cannot.

use vstd::prelude::*;

use crate::error::BackendError;
use crate::types::FuncType;
use crate::Engine;

verus! {

/// A store for the [`Engine`], which holds host-defined data `T` and the
/// registry of host functions whose lifetime is tied to it.
pub struct Store<T> {
    /// The engine used.
    engine: Engine,
    /// The user data.
    data: T,
    /// The signatures of the host functions registered against this store,
    /// in registration order.  The closures themselves live with the
    /// embedder; they are reachable only while the store is alive.
    host_funcs: Vec<FuncType>,
}

impl<T> Store<T> {
    /// The engine of the store.
    pub closed spec fn spec_engine(self) -> Engine {
        self.engine
    }

    /// The user data of the store.
    pub closed spec fn spec_data(self) -> T {
        self.data
    }

    /// The signatures of the registered host functions, in registration
    /// order.
    pub closed spec fn spec_host_funcs(self) -> Seq<FuncType> {
        self.host_funcs@
    }

    /// Creates a store owning the given user data, with no host function
    /// registered yet.
    pub fn new(engine: &Engine, data: T) -> (r: Store<T>)
        ensures
            r.spec_engine() == *engine,
            r.spec_data() == data,
            r.spec_host_funcs() == Seq::<FuncType>::empty(),
    {
        let r = Store { engine: *engine, data, host_funcs: Vec::new() };
        proof {
            assert(r.spec_host_funcs() =~= Seq::<FuncType>::empty());
        }
        r
    }

    /// The engine of the store.
    pub fn engine(&self) -> (r: &Engine)
        ensures
            *r == self.spec_engine(),
    {
        &self.engine
    }

    /// A shared view of the user data.
    pub fn data(&self) -> (r: &T)
        ensures
            *r == self.spec_data(),
    {
        &self.data
    }

    /// A mutable view of the user data.  Mutations through the view are
    /// the only way the user data ever changes; the engine and the host
    /// function registry are untouched.
    pub fn data_mut(&mut self) -> (r: &mut T)
        ensures
            *r == old(self).spec_data(),
            final(self).spec_data() == *final(r),
            final(self).spec_engine() == old(self).spec_engine(),
            final(self).spec_host_funcs() == old(self).spec_host_funcs(),
    {
        &mut self.data
    }

    /// Consumes the store and returns the user data.
    ///
    /// Taking the store by value is the evidence that no guest call is
    /// active: an active call would still hold a handle into it.
    pub fn into_data(self) -> (r: T)
        ensures
            r == self.spec_data(),
    {
        self.data
    }

    /// Registers a host function's signature against the store and returns
    /// its slot index.  The closure the embedder keeps for this slot lives
    /// exactly as long as the store.
    pub fn register_host_func(&mut self, ty: FuncType) -> (idx: usize)
        ensures
            final(self).spec_host_funcs() == old(self).spec_host_funcs().push(ty),
            idx == old(self).spec_host_funcs().len(),
            final(self).spec_data() == old(self).spec_data(),
            final(self).spec_engine() == old(self).spec_engine(),
    {
        let idx = self.host_funcs.len();
        self.host_funcs.push(ty);
        idx
    }

    /// The number of host functions registered so far.
    pub fn host_func_count(&self) -> (n: usize)
        ensures
            n == self.spec_host_funcs().len(),
    {
        self.host_funcs.len()
    }

    /// The signature registered at the given slot.
    pub fn host_func_ty(&self, idx: usize) -> (r: &FuncType)
        requires
            idx < self.spec_host_funcs().len(),
        ensures
            *r == self.spec_host_funcs()[idx as int],
    {
        &self.host_funcs[idx]
    }

    /// An immutable context over the store.
    pub fn as_context(&self) -> (r: StoreContext<'_, T>)
        ensures
            r.spec_store() == *self,
    {
        StoreContext { store: self }
    }
}

/// Immutable context to the store.
pub struct StoreContext<'a, T> {
    /// The store.
    store: &'a Store<T>,
}

impl<'a, T> StoreContext<'a, T> {
    /// The store this context views.
    pub closed spec fn spec_store(self) -> Store<T> {
        *self.store
    }

    /// The engine of the store.
    pub fn engine(&self) -> (r: &Engine)
        ensures
            *r == self.spec_store().spec_engine(),
    {
        &self.store.engine
    }

    /// A shared view of the user data.
    pub fn data(&self) -> (r: &T)
        ensures
            *r == self.spec_store().spec_data(),
    {
        &self.store.data
    }
}

/// Evidence, presented at each trampoline invocation, that the store
/// behind a host function is still alive and may be mutably re-borrowed
/// by the innermost active call frame.
///
/// The embedder holds the store behind a stable allocation and keeps weak
/// handles in each trampoline proxy; upgrading the weak handle either
/// yields this proof or establishes that the store is gone.
#[derive(Debug)]
pub struct StoreProof {
    _private: (),
}

impl StoreProof {
    /// Produces the proof; only a live store warrants one.
    pub fn new() -> (r: StoreProof) {
        StoreProof { _private: () }
    }
}

/// The liveness gate of the host-function trampoline: a call that cannot
/// present proof of a live store fails with the lifetime error instead of
/// touching freed state.
pub fn host_call_gate(evidence: Option<&StoreProof>) -> (r: Result<(), BackendError>)
    ensures
        (r is Ok) == (evidence is Some),
        evidence is None ==> r == Err::<(), BackendError>(BackendError::StoreDropped),
{
    match evidence {
        Some(_) => Ok(()),
        None => Err(BackendError::StoreDropped),
    }
}

} // verus!
