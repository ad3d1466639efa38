//! Signature types describing functions, globals, memories and tables.
//!
//! A signature is derived once, when a module's binary is parsed, and is
//! shared read-only by every instance created from that module.

use vstd::prelude::*;

use crate::value::ValueType;

verus! {

/// The kind of an external value: the four namespaces a module can
/// import from or export to.
#[derive(Clone, Copy, Debug, PartialEq, Eq, Structural)]
pub enum ExternKind {
    Func,
    Global,
    Memory,
    Table,
}

/// The signature of a function: its parameter and result types.
#[derive(Debug, PartialEq, Eq)]
pub struct FuncType {
    /// The parameter types, in order.
    pub params: Vec<ValueType>,
    /// The result types, in order.
    pub results: Vec<ValueType>,
}

/// The view of a function signature.
pub struct FuncTypeView {
    pub params: Seq<ValueType>,
    pub results: Seq<ValueType>,
}

impl View for FuncType {
    type V = FuncTypeView;

    open spec fn view(&self) -> FuncTypeView {
        FuncTypeView { params: self.params@, results: self.results@ }
    }
}

impl FuncType {
    /// Builds a function signature from its parameter and result types.
    pub fn new(params: Vec<ValueType>, results: Vec<ValueType>) -> (r: FuncType)
        ensures
            r.params == params,
            r.results == results,
    {
        FuncType { params, results }
    }
}

/// Copies a list of value types.
fn copy_value_types(src: &Vec<ValueType>) -> (r: Vec<ValueType>)
    ensures
        r@ == src@,
{
    let mut out: Vec<ValueType> = Vec::new();
    let n = src.len();
    let mut i: usize = 0;
    while i < n
        invariant
            n == src@.len(),
            i <= n,
            out@ == src@.take(i as int),
        decreases n - i,
    {
        out.push(src[i]);
        proof {
            assert(out@ =~= src@.take(i + 1));
        }
        i = i + 1;
    }
    proof {
        assert(src@.take(n as int) =~= src@);
    }
    out
}

impl Clone for FuncType {
    /// Cloning a signature preserves its parameter and result types.
    fn clone(&self) -> (res: Self)
        ensures
            res@ == self@,
    {
        FuncType { params: copy_value_types(&self.params), results: copy_value_types(
            &self.results,
        ) }
    }
}

/// The signature of a global variable: its content type and mutability.
#[derive(Clone, Copy, Debug, PartialEq, Eq, Structural)]
pub struct GlobalType {
    /// The type of the value the global holds.
    pub content: ValueType,
    /// Whether the global may be written after initialisation.
    pub mutable: bool,
}

impl GlobalType {
    /// Builds a global signature.
    pub fn new(content: ValueType, mutable: bool) -> (r: GlobalType)
        ensures
            r == (GlobalType { content, mutable }),
    {
        GlobalType { content, mutable }
    }
}

/// The signature of a linear memory: its page-count limits.
#[derive(Clone, Copy, Debug, PartialEq, Eq)]
pub struct MemoryType {
    /// The number of pages the memory starts with.
    pub initial: u32,
    /// The page count the memory may grow to, if bounded.
    pub maximum: Option<u32>,
}

impl MemoryType {
    /// Builds a memory signature.
    pub fn new(initial: u32, maximum: Option<u32>) -> (r: MemoryType)
        ensures
            r == (MemoryType { initial, maximum }),
    {
        MemoryType { initial, maximum }
    }
}

/// The signature of a table: its element type and size limits.
#[derive(Clone, Copy, Debug, PartialEq, Eq)]
pub struct TableType {
    /// The type of the table's elements.
    pub element: ValueType,
    /// The number of elements the table starts with.
    pub minimum: u32,
    /// The element count the table may grow to, if bounded.
    pub maximum: Option<u32>,
}

impl TableType {
    /// Builds a table signature.
    pub fn new(element: ValueType, minimum: u32, maximum: Option<u32>) -> (r: TableType)
        ensures
            r == (TableType { element, minimum, maximum }),
    {
        TableType { element, minimum, maximum }
    }
}

/// The signature of any external value, tagged by its kind.
#[derive(Clone, Debug, PartialEq, Eq)]
pub enum ExternType {
    Func(FuncType),
    Global(GlobalType),
    Memory(MemoryType),
    Table(TableType),
}

/// The view of an extern signature.
pub enum ExternTypeView {
    Func(FuncTypeView),
    Global(GlobalType),
    Memory(MemoryType),
    Table(TableType),
}

impl View for ExternType {
    type V = ExternTypeView;

    open spec fn view(&self) -> ExternTypeView {
        match self {
            ExternType::Func(f) => ExternTypeView::Func(f@),
            ExternType::Global(g) => ExternTypeView::Global(*g),
            ExternType::Memory(m) => ExternTypeView::Memory(*m),
            ExternType::Table(t) => ExternTypeView::Table(*t),
        }
    }
}

/// Whether two strings hold the same characters.
pub fn str_eq(a: &str, b: &str) -> (r: bool)
    ensures
        r == (a@ == b@),
{
    let n = a.unicode_len();
    let m = b.unicode_len();
    if n != m {
        return false;
    }
    let mut i: usize = 0;
    while i < n
        invariant
            n == a@.len(),
            n == b@.len(),
            i <= n,
            forall|j: int| 0 <= j < i ==> a@[j] == b@[j],
        decreases n - i,
    {
        if a.get_char(i) != b.get_char(i) {
            return false;
        }
        i = i + 1;
    }
    proof {
        assert(a@ =~= b@);
    }
    true
}

/// The last binding of a key in an association list, if any.
pub open spec fn spec_assoc_lookup<V>(s: Seq<(Seq<char>, V)>, key: Seq<char>) -> Option<V>
    decreases s.len(),
{
    if s.len() == 0 {
        None
    } else if s.last().0 == key {
        Some(s.last().1)
    } else {
        spec_assoc_lookup(s.drop_last(), key)
    }
}

/// An association list keyed by strings, seen with its keys as character
/// sequences.
pub open spec fn spec_named_view<V>(s: Seq<(String, V)>) -> Seq<(Seq<char>, V)> {
    s.map_values(|p: (String, V)| (p.0@, p.1))
}

/// Looks a key up in an association list, last binding first.
pub fn assoc_lookup<'a, V>(s: &'a Vec<(String, V)>, key: &str) -> (r: Option<&'a V>)
    ensures
        r matches Some(v) ==> spec_assoc_lookup(spec_named_view(s@), key@) == Some(*v),
        r is None ==> spec_assoc_lookup(spec_named_view(s@), key@) is None,
{
    let n = s.len();
    let mut i: usize = n;
    proof {
        assert(spec_named_view(s@).take(n as int) =~= spec_named_view(s@));
    }
    while i > 0
        invariant
            i <= n,
            n == s@.len(),
            spec_assoc_lookup(spec_named_view(s@), key@) == spec_assoc_lookup(
                spec_named_view(s@).take(i as int),
                key@,
            ),
        decreases i,
    {
        proof {
            assert(spec_named_view(s@).take(i as int).drop_last() =~= spec_named_view(s@).take(
                i - 1,
            ));
            assert(spec_named_view(s@).take(i as int).last() == (s@[i - 1].0@, s@[i - 1].1));
        }
        i = i - 1;
        if str_eq(s[i].0.as_str(), key) {
            return Some(&s[i].1);
        }
    }
    None
}

impl ExternType {
    /// The kind of external value this signature describes.
    pub fn kind(&self) -> (r: ExternKind)
        ensures
            r == self.spec_kind(),
    {
        match self {
            ExternType::Func(_) => ExternKind::Func,
            ExternType::Global(_) => ExternKind::Global,
            ExternType::Memory(_) => ExternKind::Memory,
            ExternType::Table(_) => ExternKind::Table,
        }
    }

    /// The kind of external value this signature describes.
    pub open spec fn spec_kind(&self) -> ExternKind {
        match self {
            ExternType::Func(_) => ExternKind::Func,
            ExternType::Global(_) => ExternKind::Global,
            ExternType::Memory(_) => ExternKind::Memory,
            ExternType::Table(_) => ExternKind::Table,
        }
    }
}

} // verus!
