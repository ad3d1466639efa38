//! Instances: wiring a module's signature table to the foreign objects the
//! engine produced for it.
//!
//! Instantiation walks the module's static export table — never the
//! foreign object's own keys, so the iteration order is fixed by the
//! signatures — and wraps each fetched foreign export as the typed handle
//! its declaration demands.  The wiring is total: every declared export
//! wraps, or the whole instantiation fails with the precise mismatch.

use vstd::prelude::*;

use crate::conversion::PyValue;
use crate::error::BackendError;
use crate::func::Func;
use crate::global::Global;
use crate::memory::Memory;
use crate::module::Module;
use crate::table::Table;
use crate::types::{
    assoc_lookup, spec_assoc_lookup, spec_named_view, str_eq, ExternKind, ExternType,
    ExternTypeView,
};
use crate::value::ValueType;

verus! {

/// An external value: what can be imported into or exported from a
/// module.
#[derive(Clone, Debug, PartialEq)]
pub enum Extern {
    Func(Func),
    Global(Global),
    Memory(Memory),
    Table(Table),
}

/// The identity of the foreign object behind an external value.
pub open spec fn spec_extern_id(e: Extern) -> u64 {
    match e {
        Extern::Func(f) => f.spec_callable(),
        Extern::Global(g) => g.spec_global(),
        Extern::Memory(m) => m.spec_memory(),
        Extern::Table(t) => t.spec_table(),
    }
}

/// The foreign object an external value presents to the guest.
pub open spec fn spec_extern_to_py(e: Extern) -> PyValue {
    match e {
        Extern::Func(f) => PyValue::Callable(f.spec_callable()),
        Extern::Global(g) => PyValue::Foreign(g.spec_global()),
        Extern::Memory(m) => PyValue::Foreign(m.spec_memory()),
        Extern::Table(t) => PyValue::Foreign(t.spec_table()),
    }
}

/// Whether an external value carries exactly the declared signature.
pub open spec fn spec_extern_matches(e: Extern, t: ExternTypeView) -> bool {
    match (e, t) {
        (Extern::Func(f), ExternTypeView::Func(ft)) => f.spec_ty()@ == ft,
        (Extern::Global(g), ExternTypeView::Global(gt)) => g.spec_ty() == gt,
        (Extern::Memory(m), ExternTypeView::Memory(mt)) => m.spec_ty() == mt,
        (Extern::Table(tb), ExternTypeView::Table(tt)) => tb.spec_ty() == tt,
        _ => false,
    }
}

impl Extern {
    /// The foreign object to hand to the guest for this external value.
    pub fn to_py(&self) -> (r: PyValue)
        ensures
            r == spec_extern_to_py(*self),
    {
        match self {
            Extern::Func(f) => f.to_py(),
            Extern::Global(g) => g.to_py(),
            Extern::Memory(m) => m.to_py(),
            Extern::Table(t) => t.to_py(),
        }
    }
}

/// What instantiation fetched from the foreign export namespace for one
/// declared export: the object's identity and how the engine classifies
/// it.
#[derive(Clone, Copy, Debug, PartialEq, Eq)]
pub struct FetchedExtern {
    /// The identity of the fetched foreign object.
    pub id: u64,
    /// Whether the object is callable.
    pub callable: bool,
    /// Whether the object is an instance of the engine's global class.
    pub is_global: bool,
    /// Whether the object is an instance of the engine's memory class.
    pub is_memory: bool,
    /// Whether the object is an instance of the engine's table class.
    pub is_table: bool,
    /// The length of the object, when it is a table.
    pub table_length: u32,
}

/// Whether a fetched foreign export satisfies its declared signature.
pub open spec fn spec_fetch_ok(t: ExternTypeView, f: FetchedExtern) -> bool {
    match t {
        ExternTypeView::Func(_) => f.callable,
        ExternTypeView::Global(_) => f.is_global,
        ExternTypeView::Memory(_) => f.is_memory,
        ExternTypeView::Table(tt) => f.is_table && f.table_length >= tt.minimum
            && tt.element is FuncRef,
    }
}

/// The precise error a mismatched foreign export is refused with.
pub open spec fn spec_wire_err(t: ExternTypeView, f: FetchedExtern) -> BackendError {
    match t {
        ExternTypeView::Func(_) => BackendError::WrongClass { expected: ExternKind::Func },
        ExternTypeView::Global(_) => BackendError::WrongClass { expected: ExternKind::Global },
        ExternTypeView::Memory(_) => BackendError::WrongClass { expected: ExternKind::Memory },
        ExternTypeView::Table(tt) => if !f.is_table {
            BackendError::WrongClass { expected: ExternKind::Table }
        } else if f.table_length < tt.minimum {
            BackendError::TableTooSmall { minimum: tt.minimum, length: f.table_length }
        } else {
            BackendError::TableElementNotFuncRef
        },
    }
}

/// Wraps one fetched foreign export as the typed handle its declared
/// signature demands.
pub fn wire_export(declared: &ExternType, fetched: &FetchedExtern) -> (r: Result<
    Extern,
    BackendError,
>)
    ensures
        (r is Ok) == spec_fetch_ok(declared@, *fetched),
        r matches Ok(e) ==> spec_extern_matches(e, declared@) && spec_extern_id(e) == fetched.id,
        r matches Err(er) ==> er == spec_wire_err(declared@, *fetched),
{
    match declared {
        ExternType::Func(sig) => match Func::from_exported_function(
            fetched.id,
            fetched.callable,
            sig.clone(),
        ) {
            Ok(f) => Ok(Extern::Func(f)),
            Err(e) => Err(e),
        },
        ExternType::Global(gt) => match Global::from_exported_global(
            fetched.id,
            fetched.is_global,
            *gt,
        ) {
            Ok(g) => Ok(Extern::Global(g)),
            Err(e) => Err(e),
        },
        ExternType::Memory(mt) => match Memory::from_exported_memory(
            fetched.id,
            fetched.is_memory,
            *mt,
        ) {
            Ok(m) => Ok(Extern::Memory(m)),
            Err(e) => Err(e),
        },
        ExternType::Table(tt) => match Table::from_exported_table(
            fetched.id,
            fetched.is_table,
            fetched.table_length,
            *tt,
        ) {
            Ok(t) => Ok(Extern::Table(t)),
            Err(e) => Err(e),
        },
    }
}

/// One export map wires a declared export table against the fetched
/// foreign objects: same length, same names in the same order, and each
/// handle carries its declared signature and its fetched identity.
pub open spec fn spec_exports_wired(
    declared: Seq<(String, ExternType)>,
    fetched: Seq<FetchedExtern>,
    out: Seq<(String, Extern)>,
) -> bool {
    &&& out.len() == declared.len()
    &&& forall|i: int|
        #![trigger out[i]]
        0 <= i < out.len() ==> out[i].0 == declared[i].0 && spec_extern_matches(
            out[i].1,
            declared[i].1@,
        ) && spec_extern_id(out[i].1) == fetched[i].id
}

/// Wires a module's whole export table against the fetched foreign
/// exports, in table order.  Total with respect to the table: every
/// declared export wraps as its declared extern kind and type, or the
/// whole wiring fails with the first precise mismatch.
pub fn wire_exports(declared: &Vec<(String, ExternType)>, fetched: &Vec<FetchedExtern>) -> (r:
    Result<Vec<(String, Extern)>, BackendError>)
    requires
        declared@.len() == fetched@.len(),
    ensures
        (r is Ok) == (forall|i: int|
            0 <= i < declared@.len() ==> spec_fetch_ok(declared@[i].1@, fetched@[i])),
        r matches Ok(m) ==> spec_exports_wired(declared@, fetched@, m@),
        r matches Err(e) ==> exists|i: int|
            0 <= i < declared@.len() && !spec_fetch_ok(declared@[i].1@, fetched@[i]) && e
                == spec_wire_err(declared@[i].1@, fetched@[i]),
{
    let mut out: Vec<(String, Extern)> = Vec::new();
    let n = declared.len();
    let mut i: usize = 0;
    while i < n
        invariant
            n == declared@.len(),
            declared@.len() == fetched@.len(),
            i <= n,
            out@.len() == i,
            forall|j: int| 0 <= j < i ==> spec_fetch_ok(declared@[j].1@, fetched@[j]),
            forall|j: int| #![trigger out@[j]] 0 <= j < i ==> out@[j].0 == declared@[j].0,
            forall|j: int|
                #![trigger out@[j]]
                0 <= j < i ==> spec_extern_matches(out@[j].1, declared@[j].1@),
            forall|j: int|
                #![trigger out@[j]]
                0 <= j < i ==> spec_extern_id(out@[j].1) == fetched@[j].id,
        decreases n - i,
    {
        match wire_export(&declared[i].1, &fetched[i]) {
            Ok(e) => {
                let ghost ge = e;
                let ghost prev = out@;
                let name = declared[i].0.clone();
                out.push((name, e));
                proof {
                    assert(out@[i as int].1 == ge);
                    assert(spec_extern_matches(ge, declared@[i as int].1@));
                    assert(spec_extern_id(ge) == fetched@[i as int].id);
                    assert forall|j: int|
                        0 <= j < i + 1 implies spec_extern_matches(out@[j].1, declared@[j].1@)
                        && spec_extern_id(out@[j].1) == fetched@[j].id by {
                        if j < i {
                            assert(out@[j] == prev[j]);
                            assert(spec_extern_matches(prev[j].1, declared@[j].1@));
                            assert(spec_extern_id(prev[j].1) == fetched@[j].id);
                        }
                    }
                }
            },
            Err(e) => {
                return Err(e);
            },
        }
        i = i + 1;
    }
    Ok(out)
}

/// An instantiated instance of a WASM module: an immutable mapping from
/// export name to typed handle, built once at instantiation.
#[derive(Clone, Debug, PartialEq)]
pub struct Instance {
    /// The identity of the foreign instance object.
    instance: u64,
    /// The exports of the instance, in the module's export-table order.
    exports: Vec<(String, Extern)>,
}

impl Instance {
    /// The identity of the foreign instance object.
    pub closed spec fn spec_instance(self) -> u64 {
        self.instance
    }

    /// The exports of the instance, in export-table order.
    pub closed spec fn spec_exports(self) -> Seq<(String, Extern)> {
        self.exports@
    }

    /// Assembles an instance from the foreign instance object and the
    /// foreign exports fetched for the module's export table, in table
    /// order.
    ///
    /// Yields an instance whose export map holds exactly the names of the
    /// module's export table, each wrapped as its declared extern type —
    /// or fails on the first export that does not match its declaration.
    pub fn new(instance_id: u64, module: &Module, fetched: &Vec<FetchedExtern>) -> (r: Result<
        Instance,
        BackendError,
    >)
        requires
            fetched@.len() == module.spec_table().exports@.len(),
        ensures
            r matches Ok(inst) ==> inst.spec_instance() == instance_id && spec_exports_wired(
                module.spec_table().exports@,
                fetched@,
                inst.spec_exports(),
            ),
            (r is Ok) == (forall|i: int|
                0 <= i < module.spec_table().exports@.len() ==> spec_fetch_ok(
                    module.spec_table().exports@[i].1@,
                    fetched@[i],
                )),
    {
        match wire_exports(module.exports(), fetched) {
            Ok(exports) => Ok(Instance { instance: instance_id, exports }),
            Err(e) => Err(e),
        }
    }

    /// The exports of the instance, in export-table order.
    pub fn exports(&self) -> (r: &Vec<(String, Extern)>)
        ensures
            r@ == self.spec_exports(),
    {
        &self.exports
    }

    /// Looks an export up by name; a name exported more than once
    /// resolves to its last entry.
    pub fn get_export(&self, name: &str) -> (r: Option<&Extern>)
        ensures
            r matches Some(e) ==> spec_assoc_lookup(spec_named_view(self.spec_exports()), name@)
                == Some(*e),
            r is None ==> spec_assoc_lookup(spec_named_view(self.spec_exports()), name@) is None,
    {
        assoc_lookup(&self.exports, name)
    }
}

/// The imports of one group, in declaration order: the name and encoded
/// value of every import whose module name matches.
pub open spec fn spec_group_of(inputs: Seq<(String, String, Extern)>, m: Seq<char>) -> Seq<
    (String, PyValue),
>
    decreases inputs.len(),
{
    if inputs.len() == 0 {
        Seq::empty()
    } else {
        let pre = spec_group_of(inputs.drop_last(), m);
        let t = inputs.last();
        if t.0@ == m {
            pre.push((t.1, spec_extern_to_py(t.2)))
        } else {
            pre
        }
    }
}

/// Collects the imports of one module name, in declaration order, each
/// with its encoded value.
fn collect_group(inputs: &Vec<(String, String, Extern)>, key: &String) -> (r: Vec<
    (String, PyValue),
>)
    ensures
        r@ == spec_group_of(inputs@, key@),
{
    let mut out: Vec<(String, PyValue)> = Vec::new();
    let n = inputs.len();
    let mut i: usize = 0;
    while i < n
        invariant
            n == inputs@.len(),
            i <= n,
            out@ == spec_group_of(inputs@.take(i as int), key@),
        decreases n - i,
    {
        proof {
            assert(inputs@.take(i + 1).drop_last() =~= inputs@.take(i as int));
            assert(inputs@.take(i + 1).last() == inputs@[i as int]);
        }
        if str_eq(inputs[i].0.as_str(), key.as_str()) {
            out.push((inputs[i].1.clone(), inputs[i].2.to_py()));
        }
        i = i + 1;
    }
    proof {
        assert(inputs@.take(n as int) =~= inputs@);
    }
    out
}

/// A list of keys holds one viewing the given characters.
pub open spec fn spec_has_key(keys: Seq<String>, m: Seq<char>) -> bool {
    exists|i: int| 0 <= i < keys.len() && keys[i]@ == m
}

/// One of the first `k` imports names the given module.
pub open spec fn spec_key_used(
    inputs: Seq<(String, String, Extern)>,
    k: int,
    m: Seq<char>,
) -> bool {
    exists|kk: int| 0 <= kk < k && inputs[kk].0@ == m
}

/// Pushing a key keeps every key and adds the pushed one.
proof fn lemma_has_key_push(keys: Seq<String>, x: String, m: Seq<char>)
    ensures
        spec_has_key(keys, m) ==> spec_has_key(keys.push(x), m),
        spec_has_key(keys.push(x), x@),
{
    if spec_has_key(keys, m) {
        let i = choose|i: int| 0 <= i < keys.len() && keys[i]@ == m;
        assert(keys.push(x)[i]@ == m);
    }
    assert(keys.push(x)[keys.len() as int]@ == x@);
}

/// A module named among the first `k` imports is named among the first
/// `k + 1` as well.
proof fn lemma_key_used_widen(inputs: Seq<(String, String, Extern)>, k: int, m: Seq<char>)
    requires
        spec_key_used(inputs, k, m),
    ensures
        spec_key_used(inputs, k + 1, m),
{
    let kk = choose|kk: int| 0 <= kk < k && inputs[kk].0@ == m;
    assert(0 <= kk < k + 1 && inputs[kk].0@ == m);
}

/// The distinct module names among the imports, in first-occurrence
/// order.
fn collect_keys(inputs: &Vec<(String, String, Extern)>) -> (keys: Vec<String>)
    ensures
        forall|i: int, j: int| 0 <= i < j < keys@.len() ==> keys@[i]@ != keys@[j]@,
        forall|kk: int|
            #![trigger inputs@[kk]]
            0 <= kk < inputs@.len() ==> spec_has_key(keys@, inputs@[kk].0@),
        forall|i: int|
            #![trigger keys@[i]]
            0 <= i < keys@.len() ==> spec_key_used(inputs@, inputs@.len() as int, keys@[i]@),
{
    let mut keys: Vec<String> = Vec::new();
    let n = inputs.len();
    let mut k: usize = 0;
    while k < n
        invariant
            n == inputs@.len(),
            k <= n,
            forall|i: int, j: int| 0 <= i < j < keys@.len() ==> keys@[i]@ != keys@[j]@,
            forall|kk: int|
                #![trigger inputs@[kk]]
                0 <= kk < k ==> spec_has_key(keys@, inputs@[kk].0@),
            forall|i: int|
                #![trigger keys@[i]]
                0 <= i < keys@.len() ==> spec_key_used(inputs@, k as int, keys@[i]@),
        decreases n - k,
    {
        let mut found = false;
        let m = keys.len();
        let mut i: usize = 0;
        while i < m
            invariant
                m == keys@.len(),
                i <= m,
                k < n,
                n == inputs@.len(),
                found ==> spec_has_key(keys@, inputs@[k as int].0@),
                !found ==> forall|j: int| 0 <= j < i ==> keys@[j]@ != inputs@[k as int].0@,
            decreases m - i,
        {
            if str_eq(keys[i].as_str(), inputs[k].0.as_str()) {
                found = true;
                proof {
                    assert(keys@[i as int]@ == inputs@[k as int].0@);
                }
            }
            i = i + 1;
        }
        let ghost oldkeys = keys@;
        if !found {
            keys.push(inputs[k].0.clone());
        }
        proof {
            if !found {
                assert(keys@ == oldkeys.push(keys@[keys@.len() - 1]));
                assert(keys@[keys@.len() - 1]@ == inputs@[k as int].0@);
                assert forall|a: int, b: int| 0 <= a < b < keys@.len() implies keys@[a]@
                    != keys@[b]@ by {
                    if b == keys@.len() - 1 {
                        assert(keys@[a] == oldkeys[a]);
                        assert(oldkeys[a]@ != inputs@[k as int].0@);
                    } else {
                        assert(keys@[a] == oldkeys[a]);
                        assert(keys@[b] == oldkeys[b]);
                    }
                }
            }
            assert forall|kk: int| #![trigger inputs@[kk]] 0 <= kk < k + 1 implies spec_has_key(
                keys@,
                inputs@[kk].0@,
            ) by {
                if !found {
                    let x = keys@[keys@.len() - 1];
                    if kk < k {
                        lemma_has_key_push(oldkeys, x, inputs@[kk].0@);
                    } else {
                        lemma_has_key_push(oldkeys, x, inputs@[kk].0@);
                        assert(x@ == inputs@[kk].0@);
                    }
                } else {
                    if kk == k {
                        assert(spec_has_key(keys@, inputs@[k as int].0@));
                    }
                }
            }
            assert forall|i2: int| #![trigger keys@[i2]] 0 <= i2 < keys@.len() implies
                spec_key_used(inputs@, k + 1, keys@[i2]@) by {
                if i2 < oldkeys.len() {
                    assert(keys@[i2] == oldkeys[i2]);
                    assert(spec_key_used(inputs@, k as int, oldkeys[i2]@));
                    lemma_key_used_widen(inputs@, k as int, oldkeys[i2]@);
                } else {
                    assert(keys@[i2]@ == inputs@[k as int].0@);
                    assert(spec_key_used(inputs@, k + 1, keys@[i2]@));
                }
            }
        }
        k = k + 1;
    }
    keys
}

/// The module names of the assembled groups.
pub open spec fn spec_group_keys(r: Seq<(String, Vec<(String, PyValue)>)>) -> Seq<String> {
    r.map_values(|p: (String, Vec<(String, PyValue)>)| p.0)
}

/// Groups typed imports by their module name, for the two-level foreign
/// import namespace: one group per distinct module name, holding that
/// module's imports in declaration order with their encoded values.
///
/// Every import lands in the group of its module: the group keys are
/// distinct, every import's module is among them, and no key is invented.
pub fn group_imports(inputs: &Vec<(String, String, Extern)>) -> (r: Vec<
    (String, Vec<(String, PyValue)>),
>)
    ensures
        forall|i: int| 0 <= i < r@.len() ==> r@[i].1@ == spec_group_of(inputs@, r@[i].0@),
        forall|i: int, j: int| 0 <= i < j < r@.len() ==> r@[i].0@ != r@[j].0@,
        forall|kk: int|
            #![trigger inputs@[kk]]
            0 <= kk < inputs@.len() ==> spec_has_key(spec_group_keys(r@), inputs@[kk].0@),
        forall|i: int|
            #![trigger r@[i]]
            0 <= i < r@.len() ==> spec_key_used(inputs@, inputs@.len() as int, r@[i].0@),
{
    let keys = collect_keys(inputs);
    let mut out: Vec<(String, Vec<(String, PyValue)>)> = Vec::new();
    let nk = keys.len();
    let mut i: usize = 0;
    while i < nk
        invariant
            nk == keys@.len(),
            i <= nk,
            out@.len() == i,
            forall|j: int, l: int| 0 <= j < l < keys@.len() ==> keys@[j]@ != keys@[l]@,
            forall|kk: int|
                #![trigger inputs@[kk]]
                0 <= kk < inputs@.len() ==> spec_has_key(keys@, inputs@[kk].0@),
            forall|j: int|
                #![trigger keys@[j]]
                0 <= j < keys@.len() ==> spec_key_used(inputs@, inputs@.len() as int, keys@[j]@),
            forall|j: int| #![trigger out@[j]] 0 <= j < i ==> out@[j].0 == keys@[j],
            forall|j: int|
                #![trigger out@[j]]
                0 <= j < i ==> out@[j].1@ == spec_group_of(inputs@, keys@[j]@),
        decreases nk - i,
    {
        let group = collect_group(inputs, &keys[i]);
        out.push((keys[i].clone(), group));
        i = i + 1;
    }
    proof {
        assert(spec_group_keys(out@) =~= keys@);
        assert forall|i2: int| #![trigger out@[i2]] 0 <= i2 < out@.len() implies spec_key_used(
            inputs@,
            inputs@.len() as int,
            out@[i2].0@,
        ) by {
            assert(out@[i2].0 == keys@[i2]);
        }
    }
    out
}

} // verus!
