//! Opaque host references that survive a round trip through the foreign
//! world.
//!
//! A reference made by this embedding carries a strongly owned, type-erased
//! payload inside the foreign proxy object itself, so the handle stays
//! valid without any store at hand.  A reference that arrived from
//! elsewhere is opaque: it can be passed through, never downcast.

use vstd::prelude::*;

use crate::conversion::PyValue;
use crate::error::BackendError;

verus! {

/// A registered host payload: the identity of the type-erased value and a
/// token for its dynamic type.
#[derive(Clone, Copy, Debug, PartialEq, Eq, Structural)]
pub struct PayloadHandle {
    /// A token identifying the payload's dynamic type.
    pub ty_token: u64,
    /// The identity of the owned payload itself.
    pub payload_id: u64,
}

/// Extern host reference type.
#[derive(Clone, Copy, Debug, PartialEq, Eq, Structural)]
pub struct ExternRef {
    /// The foreign object this reference presents to the guest.
    guest: PyValue,
}

impl ExternRef {
    /// The foreign object this reference presents to the guest.
    pub closed spec fn spec_guest(self) -> PyValue {
        self.guest
    }

    /// The payload handle of a reference this embedding made; `None` for a
    /// reference from a different source.
    pub open spec fn spec_host(self) -> Option<PayloadHandle> {
        match self.spec_guest() {
            PyValue::ExternProxy { handle, .. } => Some(handle),
            _ => None,
        }
    }

    /// A reference never presents the null object to the guest: the null
    /// reference is `None` at the value level, not an `ExternRef`.
    pub open spec fn wf(self) -> bool {
        !(self.spec_guest() is Null)
    }

    /// Creates a reference around a freshly registered host payload.
    ///
    /// `handle` names the registered payload and its type token;
    /// `proxy_id` is the identity of the foreign proxy object built around
    /// it.
    pub fn new(handle: PayloadHandle, proxy_id: u64) -> (r: ExternRef)
        ensures
            r.spec_guest() == (PyValue::ExternProxy { handle, id: proxy_id }),
            r.spec_host() == Some(handle),
            r.wf(),
    {
        ExternRef { guest: PyValue::ExternProxy { handle, id: proxy_id } }
    }

    /// The reference that classifying a foreign value yields, at the
    /// specification level.
    pub closed spec fn spec_from_guest(guest: PyValue) -> ExternRef {
        ExternRef { guest }
    }

    /// Classifies a non-null foreign value as an extern reference: one of
    /// this embedding's proxies keeps its payload reachable, anything else
    /// becomes an opaque pass-through reference.
    pub fn from_exported_externref(guest: PyValue) -> (r: ExternRef)
        requires
            !(guest is Null),
        ensures
            r == ExternRef::spec_from_guest(guest),
            r.spec_guest() == guest,
            r.wf(),
    {
        ExternRef { guest }
    }

    /// The foreign object to hand to the guest for this reference.
    pub fn to_py(&self) -> (r: PyValue)
        ensures
            r == self.spec_guest(),
    {
        self.guest
    }

    /// What downcasting this reference at the given type token yields.
    pub open spec fn spec_downcast(self, ty_token: u64) -> Result<u64, BackendError> {
        match self.spec_host() {
            Some(handle) => if handle.ty_token == ty_token {
                Ok(handle.payload_id)
            } else {
                Err(BackendError::ExternRefWrongType)
            },
            None => Err(BackendError::ExternRefForeignSource),
        }
    }

    /// Recovers the payload registered behind this reference, checked
    /// against the expected type token.
    ///
    /// Fails with a typed error — never the wrong payload — when the
    /// reference came from a different source or holds a payload of a
    /// different type.
    pub fn downcast(&self, ty_token: u64) -> (r: Result<u64, BackendError>)
        ensures
            r == self.spec_downcast(ty_token),
    {
        match self.guest {
            PyValue::ExternProxy { handle, id: _ } => {
                if handle.ty_token == ty_token {
                    Ok(handle.payload_id)
                } else {
                    Err(BackendError::ExternRefWrongType)
                }
            },
            _ => Err(BackendError::ExternRefForeignSource),
        }
    }
}

/// A reference is determined by the foreign value it presents: classifying
/// a reference's own guest value yields that reference again.
pub proof fn lemma_extern_ref_determined(r: ExternRef)
    ensures
        ExternRef::spec_from_guest(r.spec_guest()) == r,
{
}

/// A reference holding a payload registered at one type, downcast at any
/// other type, yields the wrong-type error — never the payload.
pub proof fn lemma_downcast_wrong_type(r: ExternRef, handle: PayloadHandle, ty_token: u64)
    requires
        r.spec_host() == Some(handle),
        handle.ty_token != ty_token,
    ensures
        r.spec_downcast(ty_token) == Err::<u64, BackendError>(BackendError::ExternRefWrongType),
{
}

/// A reference downcast at the type its payload was registered with yields
/// exactly the registered payload.
pub proof fn lemma_downcast_right_type(r: ExternRef, handle: PayloadHandle)
    requires
        r.spec_host() == Some(handle),
    ensures
        r.spec_downcast(handle.ty_token) == Ok::<u64, BackendError>(handle.payload_id),
{
}

} // verus!
