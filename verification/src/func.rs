//! Function handles: guest exports and host-registered callables behind
//! one interface.
//!
//! A function is a foreign callable plus its signature.  A guest function
//! is called by handing the callable encoded arguments and decoding what
//! comes back; a host function is a closure registered in a store, reached
//! from the foreign world through a trampoline proxy.  Cloning a handle
//! shares the underlying callable: the handle carries the callable's
//! identity, never a copy of it.

use vstd::prelude::*;

use crate::conversion::{spec_decode, spec_encode, decode, encode, PyValue};
use crate::error::BackendError;
use crate::types::FuncType;
use crate::value::{Value, ValueType};

verus! {

/// A bound function, which may be an export from an instance or a host
/// function.
#[derive(Clone, Debug, PartialEq)]
pub struct Func {
    /// The identity of the foreign callable.
    callable: u64,
    /// The function signature.
    ty: FuncType,
    /// For a host function, the type token of the user state of the store
    /// it was registered in; `None` for a guest function.
    user_state: Option<u64>,
}

impl Func {
    /// The identity of the foreign callable.
    pub closed spec fn spec_callable(self) -> u64 {
        self.callable
    }

    /// The function signature.
    pub closed spec fn spec_ty(self) -> FuncType {
        self.ty
    }

    /// The user-state type token, for host functions.
    pub closed spec fn spec_user_state(self) -> Option<u64> {
        self.user_state
    }

    /// Creates a host function: a callable backed by a closure registered
    /// in a store whose user-state type carries `user_state_token`.
    /// `proxy_id` is the identity of the foreign trampoline proxy built
    /// for the closure.
    pub fn new_host(proxy_id: u64, ty: FuncType, user_state_token: u64) -> (r: Func)
        ensures
            r.spec_callable() == proxy_id,
            r.spec_ty() == ty,
            r.spec_user_state() == Some(user_state_token),
    {
        Func { callable: proxy_id, ty, user_state: Some(user_state_token) }
    }

    /// Wraps an exported foreign object as a guest function of the
    /// declared signature; the object must be callable.
    pub fn from_exported_function(callable_id: u64, is_callable: bool, ty: FuncType) -> (r:
        Result<Func, BackendError>)
        ensures
            is_callable ==> (r matches Ok(f) && f.spec_callable() == callable_id && f.spec_ty()
                == ty && f.spec_user_state() is None),
            !is_callable ==> r == Err::<Func, BackendError>(
                BackendError::WrongClass { expected: crate::types::ExternKind::Func },
            ),
    {
        if is_callable {
            Ok(Func { callable: callable_id, ty, user_state: None })
        } else {
            Err(BackendError::WrongClass { expected: crate::types::ExternKind::Func })
        }
    }

    /// The identity of the foreign callable.
    pub fn callable_id(&self) -> (r: u64)
        ensures
            r == self.spec_callable(),
    {
        self.callable
    }

    /// The function signature.
    pub fn ty(&self) -> (r: &FuncType)
        ensures
            *r == self.spec_ty(),
    {
        &self.ty
    }

    /// Whether a store whose user-state type carries `token` may run this
    /// function: a guest function runs anywhere, a host function only
    /// against the user-state type it was registered with.
    pub fn check_user_state(&self, token: u64) -> (r: bool)
        ensures
            r == (self.spec_user_state() is None || self.spec_user_state() == Some(token)),
    {
        match self.user_state {
            None => true,
            Some(t) => t == token,
        }
    }

    /// The foreign object to hand to the guest for this function.
    pub fn to_py(&self) -> (r: PyValue)
        ensures
            r == PyValue::Callable(self.spec_callable()),
    {
        PyValue::Callable(self.callable)
    }

    /// Encodes call arguments for the foreign callable, one foreign value
    /// per argument, in order.
    pub fn marshal_args(&self, args: &Vec<Value>) -> (r: Vec<PyValue>)
        ensures
            r@.len() == args@.len(),
            forall|i: int| 0 <= i < args@.len() ==> r@[i] == spec_encode(args@[i]),
    {
        let mut out: Vec<PyValue> = Vec::new();
        let n = args.len();
        let mut i: usize = 0;
        while i < n
            invariant
                n == args@.len(),
                out@.len() == i,
                i <= n,
                forall|j: int| 0 <= j < i ==> out@[j] == spec_encode(args@[j]),
            decreases n - i,
        {
            out.push(encode(&args[i]));
            i = i + 1;
        }
        out
    }

    /// Decodes the foreign return of a call with exactly one result type.
    pub fn unmarshal_single_result(&self, ret: PyValue) -> (r: Result<Value, BackendError>)
        requires
            self.spec_ty().results@.len() == 1,
        ensures
            r == spec_decode(ret, self.spec_ty().results@[0]),
    {
        decode(ret, self.ty.results[0])
    }

    /// Decodes the foreign return of a call with two or more result
    /// types: a foreign sequence of exactly that arity, element-wise.
    ///
    /// The foreign engine's exported-function contract guarantees the
    /// arity; a violation is a runtime bug the caller must treat as fatal
    /// before calling.
    pub fn unmarshal_tuple_results(&self, ret: &Vec<PyValue>) -> (r: Result<
        Vec<Value>,
        BackendError,
    >)
        requires
            ret@.len() == self.spec_ty().results@.len(),
        ensures
            r matches Ok(vs) ==> {
                &&& vs@.len() == ret@.len()
                &&& forall|i: int|
                    0 <= i < ret@.len() ==> spec_decode(ret@[i], self.spec_ty().results@[i])
                        == Ok::<Value, BackendError>(vs@[i])
            },
            r matches Err(e) ==> exists|i: int|
                0 <= i < ret@.len() && spec_decode(ret@[i], self.spec_ty().results@[i]) == Err::<
                    Value,
                    BackendError,
                >(e),
    {
        let mut out: Vec<Value> = Vec::new();
        let n = ret.len();
        let mut i: usize = 0;
        while i < n
            invariant
                n == ret@.len(),
                ret@.len() == self.spec_ty().results@.len(),
                out@.len() == i,
                i <= n,
                forall|j: int|
                    0 <= j < i ==> spec_decode(ret@[j], self.spec_ty().results@[j]) == Ok::<
                        Value,
                        BackendError,
                    >(out@[j]),
            decreases n - i,
        {
            match decode(ret[i], self.ty.results[i]) {
                Ok(v) => out.push(v),
                Err(e) => {
                    return Err(e);
                },
            }
            i = i + 1;
        }
        Ok(out)
    }
}

/// What a call hands back across the bridge: nothing, one value, or a
/// tuple of values, mirroring the foreign engine's exported-function
/// convention.
#[derive(Clone, Debug, PartialEq)]
pub enum PyReturn {
    /// No return value.
    Nothing,
    /// A single return value.
    Single(PyValue),
    /// A tuple of return values.
    Tuple(Vec<PyValue>),
}

/// The smaller of two lengths.
pub open spec fn spec_min(a: int, b: int) -> int {
    if a <= b {
        a
    } else {
        b
    }
}

/// Decodes the foreign arguments of a trampoline invocation, pairing
/// parameter types with arguments in order.  The foreign caller's arity is
/// not under this layer's control: pairing stops at the shorter of the
/// two lists.
pub fn trampoline_decode_args(params: &Vec<ValueType>, raw: &Vec<PyValue>) -> (r: Result<
    Vec<Value>,
    BackendError,
>)
    ensures
        r matches Ok(vs) ==> {
            &&& vs@.len() == spec_min(params@.len() as int, raw@.len() as int)
            &&& forall|i: int|
                0 <= i < vs@.len() ==> spec_decode(raw@[i], params@[i]) == Ok::<
                    Value,
                    BackendError,
                >(vs@[i])
        },
        r matches Err(e) ==> exists|i: int|
            0 <= i < spec_min(params@.len() as int, raw@.len() as int) && spec_decode(
                raw@[i],
                params@[i],
            ) == Err::<Value, BackendError>(e),
{
    let n = if params.len() <= raw.len() {
        params.len()
    } else {
        raw.len()
    };
    let mut out: Vec<Value> = Vec::new();
    let mut i: usize = 0;
    while i < n
        invariant
            n == spec_min(params@.len() as int, raw@.len() as int),
            out@.len() == i,
            i <= n,
            forall|j: int|
                0 <= j < i ==> spec_decode(raw@[j], params@[j]) == Ok::<Value, BackendError>(
                    out@[j],
                ),
        decreases n - i,
    {
        match decode(raw[i], params[i]) {
            Ok(v) => out.push(v),
            Err(e) => {
                return Err(e);
            },
        }
        i = i + 1;
    }
    Ok(out)
}

/// Allocates the results buffer of a host call: one placeholder per
/// declared result, for the host closure to fill.
pub fn make_results_buffer(n: usize) -> (r: Vec<Value>)
    ensures
        r@.len() == n,
        forall|i: int| 0 <= i < n ==> r@[i] == Value::I32(0),
{
    let mut out: Vec<Value> = Vec::new();
    let mut i: usize = 0;
    while i < n
        invariant
            out@.len() == i,
            i <= n,
            forall|j: int| 0 <= j < i ==> out@[j] == Value::I32(0),
        decreases n - i,
    {
        out.push(Value::I32(0));
        i = i + 1;
    }
    out
}

/// Encodes the results a host closure produced back to the foreign
/// caller: nothing for arity zero, the bare value for arity one, a tuple
/// for anything more — mirroring the convention guest calls are decoded
/// by.
pub fn encode_results(results: &Vec<Value>) -> (r: PyReturn)
    ensures
        results@.len() == 0 ==> r == PyReturn::Nothing,
        results@.len() == 1 ==> r == PyReturn::Single(spec_encode(results@[0])),
        results@.len() > 1 ==> (r matches PyReturn::Tuple(t) && t@.len() == results@.len() && (
        forall|i: int| 0 <= i < results@.len() ==> t@[i] == spec_encode(results@[i]))),
{
    if results.len() == 0 {
        PyReturn::Nothing
    } else if results.len() == 1 {
        PyReturn::Single(encode(&results[0]))
    } else {
        let mut out: Vec<PyValue> = Vec::new();
        let n = results.len();
        let mut i: usize = 0;
        while i < n
            invariant
                n == results@.len(),
                out@.len() == i,
                i <= n,
                forall|j: int| 0 <= j < i ==> out@[j] == spec_encode(results@[j]),
            decreases n - i,
        {
            out.push(encode(&results[i]));
            i = i + 1;
        }
        PyReturn::Tuple(out)
    }
}

} // verus!
