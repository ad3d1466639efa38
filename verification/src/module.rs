//! Modules: the immutable signature table parsed from a binary, plus the
//! foreign module object compiled from the same bytes.
//!
//! The binary format is decoded by an external parser into a stream of
//! declaration events; everything this embedding decides about them — the
//! four index spaces, how imports occupy their leading indices, how each
//! export resolves through its index space, and which constructs are
//! refused — is implemented and verified here as a fold over that stream.

use vstd::prelude::*;

use crate::error::BackendError;
use crate::features::{FeatureSet, UnsupportedWasmFeatureExtensionError, spec_requires_feature};
use crate::types::{
    assoc_lookup, spec_assoc_lookup, spec_named_view, ExternType, ExternTypeView, FuncType,
    FuncTypeView, GlobalType, MemoryType, TableType,
};
use crate::value::ValueType;

verus! {

/// A value type exactly as the binary format declares it, before this
/// embedding decides whether it supports it.
#[derive(Clone, Copy, Debug, PartialEq, Eq, Structural)]
pub enum ParsedValType {
    I32,
    I64,
    F32,
    F64,
    /// A 128-bit vector type; not supported by this embedding.
    V128,
    FuncRef,
    ExternRef,
    /// A reference type other than `funcref` and `externref`; not
    /// supported by this embedding.
    OtherRef,
}

/// A function type as declared in the type section.
#[derive(Clone, Debug, PartialEq, Eq)]
pub struct ParsedFuncType {
    pub params: Vec<ParsedValType>,
    pub results: Vec<ParsedValType>,
}

/// The view of a parsed function type.
pub struct ParsedFuncTypeView {
    pub params: Seq<ParsedValType>,
    pub results: Seq<ParsedValType>,
}

impl View for ParsedFuncType {
    type V = ParsedFuncTypeView;

    open spec fn view(&self) -> ParsedFuncTypeView {
        ParsedFuncTypeView { params: self.params@, results: self.results@ }
    }
}

/// A table type as declared in the binary.
#[derive(Clone, Copy, Debug, PartialEq, Eq)]
pub struct ParsedTableType {
    pub element: ParsedValType,
    pub initial: u64,
    pub maximum: Option<u64>,
}

/// A memory type as declared in the binary.
#[derive(Clone, Copy, Debug, PartialEq, Eq)]
pub struct ParsedMemoryType {
    pub memory64: bool,
    pub shared: bool,
    pub initial: u64,
    pub maximum: Option<u64>,
}

/// A global type as declared in the binary.
#[derive(Clone, Copy, Debug, PartialEq, Eq)]
pub struct ParsedGlobalType {
    pub content: ParsedValType,
    pub mutable: bool,
}

/// What one import declares.
#[derive(Clone, Copy, Debug, PartialEq, Eq)]
pub enum ImportDesc {
    /// A function import, by type index.
    Func(u32),
    Table(ParsedTableType),
    Memory(ParsedMemoryType),
    Global(ParsedGlobalType),
    /// An exception tag import; not supported by this embedding.
    Tag,
}

/// The namespace an export lives in.
#[derive(Clone, Copy, Debug, PartialEq, Eq, Structural)]
pub enum ExportDeclKind {
    Func,
    Table,
    Memory,
    Global,
    /// An exception tag export; not supported by this embedding.
    Tag,
}

/// One declaration of the binary, in binary order.
#[derive(Clone, Debug, PartialEq)]
pub enum ModuleEvent {
    /// One entry of the type section: how many subtypes its group holds,
    /// and its function type when the lone subtype is one.
    TypeDef { subtype_count: u32, func: Option<ParsedFuncType> },
    /// One entry of the function section, by type index.
    FuncDecl { type_index: u32 },
    /// One entry of the table section.
    TableDecl { ty: ParsedTableType },
    /// One entry of the memory section.
    MemoryDecl { ty: ParsedMemoryType },
    /// One entry of the global section.
    GlobalDecl { ty: ParsedGlobalType },
    /// One entry of the import section.
    Import { module: String, name: String, desc: ImportDesc },
    /// One entry of the export section.
    Export { name: String, kind: ExportDeclKind, index: u32 },
}

/// The view of a declaration event.
pub enum ModuleEventView {
    TypeDef { subtype_count: u32, func: Option<ParsedFuncTypeView> },
    FuncDecl { type_index: u32 },
    TableDecl { ty: ParsedTableType },
    MemoryDecl { ty: ParsedMemoryType },
    GlobalDecl { ty: ParsedGlobalType },
    Import { module: Seq<char>, name: Seq<char>, desc: ImportDesc },
    Export { name: Seq<char>, kind: ExportDeclKind, index: u32 },
}

impl View for ModuleEvent {
    type V = ModuleEventView;

    open spec fn view(&self) -> ModuleEventView {
        match self {
            ModuleEvent::TypeDef { subtype_count, func } => ModuleEventView::TypeDef {
                subtype_count: *subtype_count,
                func: match func {
                    Some(f) => Some(f@),
                    None => None,
                },
            },
            ModuleEvent::FuncDecl { type_index } => ModuleEventView::FuncDecl {
                type_index: *type_index,
            },
            ModuleEvent::TableDecl { ty } => ModuleEventView::TableDecl { ty: *ty },
            ModuleEvent::MemoryDecl { ty } => ModuleEventView::MemoryDecl { ty: *ty },
            ModuleEvent::GlobalDecl { ty } => ModuleEventView::GlobalDecl { ty: *ty },
            ModuleEvent::Import { module, name, desc } => ModuleEventView::Import {
                module: module@,
                name: name@,
                desc: *desc,
            },
            ModuleEvent::Export { name, kind, index } => ModuleEventView::Export {
                name: name@,
                kind: *kind,
                index: *index,
            },
        }
    }
}

/// What converting one declared value type yields: the supported type, or
/// the refusal of a vector or exotic reference type.
pub open spec fn spec_val_type(t: ParsedValType) -> Result<ValueType, BackendError> {
    match t {
        ParsedValType::I32 => Ok(ValueType::I32),
        ParsedValType::I64 => Ok(ValueType::I64),
        ParsedValType::F32 => Ok(ValueType::F32),
        ParsedValType::F64 => Ok(ValueType::F64),
        ParsedValType::FuncRef => Ok(ValueType::FuncRef),
        ParsedValType::ExternRef => Ok(ValueType::ExternRef),
        ParsedValType::V128 => Err(BackendError::UnsupportedConstruct),
        ParsedValType::OtherRef => Err(BackendError::UnsupportedConstruct),
    }
}

/// Converts one declared value type.
pub fn val_type(t: ParsedValType) -> (r: Result<ValueType, BackendError>)
    ensures
        r == spec_val_type(t),
{
    match t {
        ParsedValType::I32 => Ok(ValueType::I32),
        ParsedValType::I64 => Ok(ValueType::I64),
        ParsedValType::F32 => Ok(ValueType::F32),
        ParsedValType::F64 => Ok(ValueType::F64),
        ParsedValType::FuncRef => Ok(ValueType::FuncRef),
        ParsedValType::ExternRef => Ok(ValueType::ExternRef),
        ParsedValType::V128 => Err(BackendError::UnsupportedConstruct),
        ParsedValType::OtherRef => Err(BackendError::UnsupportedConstruct),
    }
}

/// What converting a list of declared value types yields: all of them, or
/// the first refusal.
pub open spec fn spec_val_types(s: Seq<ParsedValType>) -> Result<Seq<ValueType>, BackendError>
    decreases s.len(),
{
    if s.len() == 0 {
        Ok(Seq::empty())
    } else {
        match spec_val_types(s.drop_last()) {
            Err(e) => Err(e),
            Ok(pre) => match spec_val_type(s.last()) {
                Ok(v) => Ok(pre.push(v)),
                Err(e) => Err(e),
            },
        }
    }
}

/// Converts a list of declared value types.
pub fn val_types(s: &Vec<ParsedValType>) -> (r: Result<Vec<ValueType>, BackendError>)
    ensures
        r matches Ok(vs) ==> spec_val_types(s@) == Ok::<Seq<ValueType>, BackendError>(vs@),
        r matches Err(e) ==> spec_val_types(s@) == Err::<Seq<ValueType>, BackendError>(e),
{
    let mut out: Vec<ValueType> = Vec::new();
    let n = s.len();
    let mut i: usize = 0;
    while i < n
        invariant
            n == s@.len(),
            i <= n,
            spec_val_types(s@.take(i as int)) == Ok::<Seq<ValueType>, BackendError>(out@),
        decreases n - i,
    {
        proof {
            assert(s@.take(i + 1).drop_last() =~= s@.take(i as int));
            assert(s@.take(i + 1).last() == s@[i as int]);
        }
        match val_type(s[i]) {
            Ok(v) => out.push(v),
            Err(e) => {
                proof {
                    lemma_val_types_error_persists(s@, i + 1);
                }
                return Err(e);
            },
        }
        i = i + 1;
    }
    proof {
        assert(s@.take(n as int) =~= s@);
    }
    Ok(out)
}

/// Once a prefix of the list fails to convert, the whole list fails the
/// same way.
proof fn lemma_val_types_error_persists(s: Seq<ParsedValType>, i: int)
    requires
        0 <= i <= s.len(),
        spec_val_types(s.take(i)) is Err,
    ensures
        spec_val_types(s) == spec_val_types(s.take(i)),
    decreases s.len() - i,
{
    if i == s.len() {
        assert(s.take(i) =~= s);
    } else {
        assert(s.take(i + 1).drop_last() =~= s.take(i));
        lemma_val_types_error_persists(s, i + 1);
    }
}

/// What converting a declared function type yields.
pub open spec fn spec_func_type(f: ParsedFuncTypeView) -> Result<FuncTypeView, BackendError> {
    match spec_val_types(f.params) {
        Err(e) => Err(e),
        Ok(params) => match spec_val_types(f.results) {
            Err(e) => Err(e),
            Ok(results) => Ok(FuncTypeView { params, results }),
        },
    }
}

/// Converts a declared function type.
pub fn func_type(f: &ParsedFuncType) -> (r: Result<FuncType, BackendError>)
    ensures
        r matches Ok(ft) ==> spec_func_type(f@) == Ok::<FuncTypeView, BackendError>(ft@),
        r matches Err(e) ==> spec_func_type(f@) == Err::<FuncTypeView, BackendError>(e),
{
    let params = match val_types(&f.params) {
        Ok(p) => p,
        Err(e) => {
            return Err(e);
        },
    };
    let results = match val_types(&f.results) {
        Ok(p) => p,
        Err(e) => {
            return Err(e);
        },
    };
    Ok(FuncType { params, results })
}

/// What converting a declared table type yields: only tables of the two
/// supported reference types, with 32-bit limits, are supported.
pub open spec fn spec_table_type(t: ParsedTableType) -> Result<TableType, BackendError> {
    match spec_val_type(t.element) {
        Err(e) => Err(e),
        Ok(element) => if t.initial > u32::MAX as u64 {
            Err(BackendError::UnsupportedConstruct)
        } else {
            match t.maximum {
                Some(m) => if m > u32::MAX as u64 {
                    Err(BackendError::UnsupportedConstruct)
                } else {
                    Ok(TableType { element, minimum: t.initial as u32, maximum: Some(m as u32) })
                },
                None => Ok(TableType { element, minimum: t.initial as u32, maximum: None }),
            }
        },
    }
}

/// Converts a declared table type.
pub fn table_type(t: ParsedTableType) -> (r: Result<TableType, BackendError>)
    ensures
        r == spec_table_type(t),
{
    let element = match val_type(t.element) {
        Ok(e) => e,
        Err(e) => {
            return Err(e);
        },
    };
    if t.initial > u32::MAX as u64 {
        return Err(BackendError::UnsupportedConstruct);
    }
    match t.maximum {
        Some(m) => {
            if m > u32::MAX as u64 {
                Err(BackendError::UnsupportedConstruct)
            } else {
                Ok(TableType { element, minimum: t.initial as u32, maximum: Some(m as u32) })
            }
        },
        None => Ok(TableType { element, minimum: t.initial as u32, maximum: None }),
    }
}

/// What converting a declared memory type yields: 64-bit and shared
/// memories are not supported, and the page limits must fit the 32-bit
/// page counter.
pub open spec fn spec_memory_type(m: ParsedMemoryType) -> Result<MemoryType, BackendError> {
    if m.memory64 || m.shared {
        Err(BackendError::UnsupportedConstruct)
    } else if m.initial > u32::MAX as u64 {
        Err(BackendError::UnsupportedConstruct)
    } else {
        match m.maximum {
            Some(x) => if x > u32::MAX as u64 {
                Err(BackendError::UnsupportedConstruct)
            } else {
                Ok(MemoryType { initial: m.initial as u32, maximum: Some(x as u32) })
            },
            None => Ok(MemoryType { initial: m.initial as u32, maximum: None }),
        }
    }
}

/// Converts a declared memory type.
pub fn memory_type(m: ParsedMemoryType) -> (r: Result<MemoryType, BackendError>)
    ensures
        r == spec_memory_type(m),
{
    if m.memory64 || m.shared {
        return Err(BackendError::UnsupportedConstruct);
    }
    if m.initial > u32::MAX as u64 {
        return Err(BackendError::UnsupportedConstruct);
    }
    match m.maximum {
        Some(x) => {
            if x > u32::MAX as u64 {
                Err(BackendError::UnsupportedConstruct)
            } else {
                Ok(MemoryType { initial: m.initial as u32, maximum: Some(x as u32) })
            }
        },
        None => Ok(MemoryType { initial: m.initial as u32, maximum: None }),
    }
}

/// What converting a declared global type yields.
pub open spec fn spec_global_type(g: ParsedGlobalType) -> Result<GlobalType, BackendError> {
    match spec_val_type(g.content) {
        Err(e) => Err(e),
        Ok(content) => Ok(GlobalType { content, mutable: g.mutable }),
    }
}

/// Converts a declared global type.
pub fn global_type(g: ParsedGlobalType) -> (r: Result<GlobalType, BackendError>)
    ensures
        r == spec_global_type(g),
{
    match val_type(g.content) {
        Ok(content) => Ok(GlobalType { content, mutable: g.mutable }),
        Err(e) => Err(e),
    }
}

/// The index spaces and signature tables accumulated by folding the
/// declaration events, at the specification level.
pub struct ModuleSpacesView {
    /// The defined function types, in type-section order.
    pub types: Seq<FuncTypeView>,
    /// The function index space: imported functions first, then declared
    /// ones, each by signature.
    pub functions: Seq<FuncTypeView>,
    /// The table index space.
    pub tables: Seq<TableType>,
    /// The memory index space.
    pub memories: Seq<MemoryType>,
    /// The global index space.
    pub globals: Seq<GlobalType>,
    /// The import signatures, keyed by module and import name, in
    /// declaration order.
    pub imports: Seq<((Seq<char>, Seq<char>), ExternTypeView)>,
    /// The export signatures, keyed by export name, in declaration order.
    pub exports: Seq<(Seq<char>, ExternTypeView)>,
}

/// The empty accumulation.
pub open spec fn spec_spaces_empty() -> ModuleSpacesView {
    ModuleSpacesView {
        types: Seq::empty(),
        functions: Seq::empty(),
        tables: Seq::empty(),
        memories: Seq::empty(),
        globals: Seq::empty(),
        imports: Seq::empty(),
        exports: Seq::empty(),
    }
}

/// What folding one declaration event into the accumulated spaces yields.
pub open spec fn spec_step(st: ModuleSpacesView, ev: ModuleEventView) -> Result<
    ModuleSpacesView,
    BackendError,
> {
    match ev {
        ModuleEventView::TypeDef { subtype_count, func } => {
            if subtype_count != 1 {
                Err(BackendError::UnsupportedConstruct)
            } else {
                match func {
                    None => Err(BackendError::UnsupportedConstruct),
                    Some(f) => match spec_func_type(f) {
                        Err(e) => Err(e),
                        Ok(ft) => Ok(ModuleSpacesView { types: st.types.push(ft), ..st }),
                    },
                }
            }
        },
        ModuleEventView::FuncDecl { type_index } => {
            if type_index >= st.types.len() {
                Err(BackendError::TypeIndexOutOfBounds { index: type_index })
            } else {
                Ok(
                    ModuleSpacesView {
                        functions: st.functions.push(st.types[type_index as int]),
                        ..st
                    },
                )
            }
        },
        ModuleEventView::TableDecl { ty } => match spec_table_type(ty) {
            Err(e) => Err(e),
            Ok(t) => Ok(ModuleSpacesView { tables: st.tables.push(t), ..st }),
        },
        ModuleEventView::MemoryDecl { ty } => match spec_memory_type(ty) {
            Err(e) => Err(e),
            Ok(m) => Ok(ModuleSpacesView { memories: st.memories.push(m), ..st }),
        },
        ModuleEventView::GlobalDecl { ty } => match spec_global_type(ty) {
            Err(e) => Err(e),
            Ok(g) => Ok(ModuleSpacesView { globals: st.globals.push(g), ..st }),
        },
        ModuleEventView::Import { module, name, desc } => match desc {
            ImportDesc::Func(index) => {
                if index >= st.types.len() {
                    Err(BackendError::TypeIndexOutOfBounds { index })
                } else {
                    Ok(
                        ModuleSpacesView {
                            functions: st.functions.push(st.types[index as int]),
                            imports: st.imports.push(
                                ((module, name), ExternTypeView::Func(st.types[index as int])),
                            ),
                            ..st
                        },
                    )
                }
            },
            ImportDesc::Table(pt) => match spec_table_type(pt) {
                Err(e) => Err(e),
                Ok(t) => Ok(
                    ModuleSpacesView {
                        tables: st.tables.push(t),
                        imports: st.imports.push(((module, name), ExternTypeView::Table(t))),
                        ..st
                    },
                ),
            },
            ImportDesc::Memory(pm) => match spec_memory_type(pm) {
                Err(e) => Err(e),
                Ok(m) => Ok(
                    ModuleSpacesView {
                        memories: st.memories.push(m),
                        imports: st.imports.push(((module, name), ExternTypeView::Memory(m))),
                        ..st
                    },
                ),
            },
            ImportDesc::Global(pg) => match spec_global_type(pg) {
                Err(e) => Err(e),
                Ok(g) => Ok(
                    ModuleSpacesView {
                        globals: st.globals.push(g),
                        imports: st.imports.push(((module, name), ExternTypeView::Global(g))),
                        ..st
                    },
                ),
            },
            ImportDesc::Tag => Err(BackendError::UnsupportedConstruct),
        },
        ModuleEventView::Export { name, kind, index } => match kind {
            ExportDeclKind::Func => {
                if index >= st.functions.len() {
                    Err(BackendError::ExportIndexOutOfBounds { index })
                } else {
                    Ok(
                        ModuleSpacesView {
                            exports: st.exports.push(
                                (name, ExternTypeView::Func(st.functions[index as int])),
                            ),
                            ..st
                        },
                    )
                }
            },
            ExportDeclKind::Table => {
                if index >= st.tables.len() {
                    Err(BackendError::ExportIndexOutOfBounds { index })
                } else {
                    Ok(
                        ModuleSpacesView {
                            exports: st.exports.push(
                                (name, ExternTypeView::Table(st.tables[index as int])),
                            ),
                            ..st
                        },
                    )
                }
            },
            ExportDeclKind::Memory => {
                if index >= st.memories.len() {
                    Err(BackendError::ExportIndexOutOfBounds { index })
                } else {
                    Ok(
                        ModuleSpacesView {
                            exports: st.exports.push(
                                (name, ExternTypeView::Memory(st.memories[index as int])),
                            ),
                            ..st
                        },
                    )
                }
            },
            ExportDeclKind::Global => {
                if index >= st.globals.len() {
                    Err(BackendError::ExportIndexOutOfBounds { index })
                } else {
                    Ok(
                        ModuleSpacesView {
                            exports: st.exports.push(
                                (name, ExternTypeView::Global(st.globals[index as int])),
                            ),
                            ..st
                        },
                    )
                }
            },
            ExportDeclKind::Tag => Err(BackendError::UnsupportedConstruct),
        },
    }
}

/// What folding a whole stream of declaration events yields: the
/// accumulated spaces, or the first refusal.
pub open spec fn spec_build(events: Seq<ModuleEventView>) -> Result<
    ModuleSpacesView,
    BackendError,
>
    decreases events.len(),
{
    if events.len() == 0 {
        Ok(spec_spaces_empty())
    } else {
        match spec_build(events.drop_last()) {
            Err(e) => Err(e),
            Ok(st) => spec_step(st, events.last()),
        }
    }
}

/// Once a prefix of the stream is refused, the whole stream is refused
/// the same way.
proof fn lemma_build_error_persists(events: Seq<ModuleEventView>, i: int)
    requires
        0 <= i <= events.len(),
        spec_build(events.take(i)) is Err,
    ensures
        spec_build(events) == spec_build(events.take(i)),
    decreases events.len() - i,
{
    if i == events.len() {
        assert(events.take(i) =~= events);
    } else {
        assert(events.take(i + 1).drop_last() =~= events.take(i));
        lemma_build_error_persists(events, i + 1);
    }
}

/// The views of a stream of declaration events.
pub open spec fn spec_events_view(s: Seq<ModuleEvent>) -> Seq<ModuleEventView> {
    s.map_values(|e: ModuleEvent| e@)
}

/// A parsed core module: its import and export signatures.
#[derive(Clone, Debug, PartialEq)]
pub struct SignatureTable {
    /// Import signatures, keyed by module and import name, in declaration
    /// order.
    pub imports: Vec<((String, String), ExternType)>,
    /// Export signatures, keyed by export name, in declaration order.
    pub exports: Vec<(String, ExternType)>,
}

/// The view of the import signatures.
pub open spec fn spec_imports_view(s: Seq<((String, String), ExternType)>) -> Seq<
    ((Seq<char>, Seq<char>), ExternTypeView),
> {
    s.map_values(|p: ((String, String), ExternType)| ((p.0.0@, p.0.1@), p.1@))
}

/// The view of the export signatures.
pub open spec fn spec_exports_view(s: Seq<(String, ExternType)>) -> Seq<
    (Seq<char>, ExternTypeView),
> {
    s.map_values(|p: (String, ExternType)| (p.0@, p.1@))
}

impl SignatureTable {
    /// Builds the signature table by folding the declaration events of a
    /// binary, in binary order: type definitions and declarations grow
    /// their index spaces, imports occupy the leading indices of theirs,
    /// and each export resolves through the index space of its kind.
    ///
    /// Every construct this embedding does not support, and every index
    /// that does not resolve, is refused with its precise error.
    pub fn from_events(events: Vec<ModuleEvent>) -> (r: Result<SignatureTable, BackendError>)
        ensures
            r matches Ok(t) ==> {
                &&& spec_build(spec_events_view(events@)) matches Ok(st)
                &&& spec_imports_view(t.imports@) == st.imports
                &&& spec_exports_view(t.exports@) == st.exports
            },
            r matches Err(e) ==> spec_build(spec_events_view(events@)) == Err::<
                ModuleSpacesView,
                BackendError,
            >(e),
    {
        let ghost evs = spec_events_view(events@);
        let mut types: Vec<FuncType> = Vec::new();
        let mut functions: Vec<FuncType> = Vec::new();
        let mut tables: Vec<TableType> = Vec::new();
        let mut memories: Vec<MemoryType> = Vec::new();
        let mut globals: Vec<GlobalType> = Vec::new();
        let mut imports: Vec<((String, String), ExternType)> = Vec::new();
        let mut exports: Vec<(String, ExternType)> = Vec::new();

        proof {
            assert(evs.take(0) =~= Seq::<ModuleEventView>::empty());
            assert(types@.map_values(|f: FuncType| f@) =~= Seq::<FuncTypeView>::empty());
            assert(functions@.map_values(|f: FuncType| f@) =~= Seq::<FuncTypeView>::empty());
            assert(spec_imports_view(imports@) =~= Seq::<
                ((Seq<char>, Seq<char>), ExternTypeView),
            >::empty());
            assert(spec_exports_view(exports@) =~= Seq::<(Seq<char>, ExternTypeView)>::empty());
        }
        let n = events.len();
        let mut i: usize = 0;
        while i < n
            invariant
                n == events@.len(),
                i <= n,
                evs == spec_events_view(events@),
                spec_build(evs.take(i as int)) matches Ok(st) && st == (ModuleSpacesView {
                    types: types@.map_values(|f: FuncType| f@),
                    functions: functions@.map_values(|f: FuncType| f@),
                    tables: tables@,
                    memories: memories@,
                    globals: globals@,
                    imports: spec_imports_view(imports@),
                    exports: spec_exports_view(exports@),
                }),
            decreases n - i,
        {
            let ghost st = spec_build(evs.take(i as int))->Ok_0;
            proof {
                assert(evs.take(i + 1).drop_last() =~= evs.take(i as int));
                assert(evs.take(i + 1).last() == evs[i as int]);
                assert(evs[i as int] == events@[i as int]@);
            }
            let ev = &events[i];
            match ev {
                ModuleEvent::TypeDef { subtype_count, func } => {
                    if *subtype_count != 1 {
                        proof {
                            lemma_build_error_persists(evs, i + 1);
                        }
                        return Err(BackendError::UnsupportedConstruct);
                    }
                    match func {
                        None => {
                            proof {
                                lemma_build_error_persists(evs, i + 1);
                            }
                            return Err(BackendError::UnsupportedConstruct);
                        },
                        Some(f) => {
                            match func_type(f) {
                                Ok(ft) => {
                                    types.push(ft);
                                    proof {
                                        assert(types@.map_values(|f: FuncType| f@)
                                            =~= st.types.push(ft@));
                                    }
                                },
                                Err(e) => {
                                    proof {
                                        lemma_build_error_persists(evs, i + 1);
                                    }
                                    return Err(e);
                                },
                            }
                        },
                    }
                },
                ModuleEvent::FuncDecl { type_index } => {
                    let idx = *type_index;
                    if idx as usize >= types.len() {
                        proof {
                            assert(st.types.len() == types@.len());
                            lemma_build_error_persists(evs, i + 1);
                        }
                        return Err(BackendError::TypeIndexOutOfBounds { index: idx });
                    }
                    let sig = types[idx as usize].clone();
                    functions.push(sig);
                    proof {
                        assert(functions@.map_values(|f: FuncType| f@) =~= st.functions.push(
                            st.types[idx as int],
                        ));
                    }
                },
                ModuleEvent::TableDecl { ty } => {
                    match table_type(*ty) {
                        Ok(t) => {
                            tables.push(t);
                            proof {
                                assert(tables@ =~= st.tables.push(t));
                            }
                        },
                        Err(e) => {
                            proof {
                                lemma_build_error_persists(evs, i + 1);
                            }
                            return Err(e);
                        },
                    }
                },
                ModuleEvent::MemoryDecl { ty } => {
                    match memory_type(*ty) {
                        Ok(m) => {
                            memories.push(m);
                            proof {
                                assert(memories@ =~= st.memories.push(m));
                            }
                        },
                        Err(e) => {
                            proof {
                                lemma_build_error_persists(evs, i + 1);
                            }
                            return Err(e);
                        },
                    }
                },
                ModuleEvent::GlobalDecl { ty } => {
                    match global_type(*ty) {
                        Ok(g) => {
                            globals.push(g);
                            proof {
                                assert(globals@ =~= st.globals.push(g));
                            }
                        },
                        Err(e) => {
                            proof {
                                lemma_build_error_persists(evs, i + 1);
                            }
                            return Err(e);
                        },
                    }
                },
                ModuleEvent::Import { module, name, desc } => {
                    match desc {
                        ImportDesc::Func(index) => {
                            let idx = *index;
                            if idx as usize >= types.len() {
                                proof {
                                    lemma_build_error_persists(evs, i + 1);
                                }
                                return Err(BackendError::TypeIndexOutOfBounds { index: idx });
                            }
                            let sig = types[idx as usize].clone();
                            functions.push(sig.clone());
                            imports.push(
                                ((module.clone(), name.clone()), ExternType::Func(sig)),
                            );
                            proof {
                                assert(functions@.map_values(|f: FuncType| f@)
                                    =~= st.functions.push(st.types[idx as int]));
                                assert(spec_imports_view(imports@) =~= st.imports.push(
                                    (
                                        (module@, name@),
                                        ExternTypeView::Func(st.types[idx as int]),
                                    ),
                                ));
                            }
                        },
                        ImportDesc::Table(pt) => {
                            match table_type(*pt) {
                                Ok(t) => {
                                    tables.push(t);
                                    imports.push(
                                        ((module.clone(), name.clone()), ExternType::Table(t)),
                                    );
                                    proof {
                                        assert(tables@ =~= st.tables.push(t));
                                        assert(spec_imports_view(imports@) =~= st.imports.push(
                                            ((module@, name@), ExternTypeView::Table(t)),
                                        ));
                                    }
                                },
                                Err(e) => {
                                    proof {
                                        lemma_build_error_persists(evs, i + 1);
                                    }
                                    return Err(e);
                                },
                            }
                        },
                        ImportDesc::Memory(pm) => {
                            match memory_type(*pm) {
                                Ok(m) => {
                                    memories.push(m);
                                    imports.push(
                                        ((module.clone(), name.clone()), ExternType::Memory(m)),
                                    );
                                    proof {
                                        assert(memories@ =~= st.memories.push(m));
                                        assert(spec_imports_view(imports@) =~= st.imports.push(
                                            ((module@, name@), ExternTypeView::Memory(m)),
                                        ));
                                    }
                                },
                                Err(e) => {
                                    proof {
                                        lemma_build_error_persists(evs, i + 1);
                                    }
                                    return Err(e);
                                },
                            }
                        },
                        ImportDesc::Global(pg) => {
                            match global_type(*pg) {
                                Ok(g) => {
                                    globals.push(g);
                                    imports.push(
                                        ((module.clone(), name.clone()), ExternType::Global(g)),
                                    );
                                    proof {
                                        assert(globals@ =~= st.globals.push(g));
                                        assert(spec_imports_view(imports@) =~= st.imports.push(
                                            ((module@, name@), ExternTypeView::Global(g)),
                                        ));
                                    }
                                },
                                Err(e) => {
                                    proof {
                                        lemma_build_error_persists(evs, i + 1);
                                    }
                                    return Err(e);
                                },
                            }
                        },
                        ImportDesc::Tag => {
                            proof {
                                lemma_build_error_persists(evs, i + 1);
                            }
                            return Err(BackendError::UnsupportedConstruct);
                        },
                    }
                },
                ModuleEvent::Export { name, kind, index } => {
                    let idx = *index;
                    match kind {
                        ExportDeclKind::Func => {
                            if idx as usize >= functions.len() {
                                proof {
                                    lemma_build_error_persists(evs, i + 1);
                                }
                                return Err(BackendError::ExportIndexOutOfBounds { index: idx });
                            }
                            let sig = functions[idx as usize].clone();
                            exports.push((name.clone(), ExternType::Func(sig)));
                            proof {
                                assert(spec_exports_view(exports@) =~= st.exports.push(
                                    (name@, ExternTypeView::Func(st.functions[idx as int])),
                                ));
                            }
                        },
                        ExportDeclKind::Table => {
                            if idx as usize >= tables.len() {
                                proof {
                                    lemma_build_error_persists(evs, i + 1);
                                }
                                return Err(BackendError::ExportIndexOutOfBounds { index: idx });
                            }
                            let t = tables[idx as usize];
                            exports.push((name.clone(), ExternType::Table(t)));
                            proof {
                                assert(spec_exports_view(exports@) =~= st.exports.push(
                                    (name@, ExternTypeView::Table(st.tables[idx as int])),
                                ));
                            }
                        },
                        ExportDeclKind::Memory => {
                            if idx as usize >= memories.len() {
                                proof {
                                    lemma_build_error_persists(evs, i + 1);
                                }
                                return Err(BackendError::ExportIndexOutOfBounds { index: idx });
                            }
                            let m = memories[idx as usize];
                            exports.push((name.clone(), ExternType::Memory(m)));
                            proof {
                                assert(spec_exports_view(exports@) =~= st.exports.push(
                                    (name@, ExternTypeView::Memory(st.memories[idx as int])),
                                ));
                            }
                        },
                        ExportDeclKind::Global => {
                            if idx as usize >= globals.len() {
                                proof {
                                    lemma_build_error_persists(evs, i + 1);
                                }
                                return Err(BackendError::ExportIndexOutOfBounds { index: idx });
                            }
                            let g = globals[idx as usize];
                            exports.push((name.clone(), ExternType::Global(g)));
                            proof {
                                assert(spec_exports_view(exports@) =~= st.exports.push(
                                    (name@, ExternTypeView::Global(st.globals[idx as int])),
                                ));
                            }
                        },
                        ExportDeclKind::Tag => {
                            proof {
                                lemma_build_error_persists(evs, i + 1);
                            }
                            return Err(BackendError::UnsupportedConstruct);
                        },
                    }
                },
            }
            i = i + 1;
        }
        proof {
            assert(evs.take(n as int) =~= evs);
        }
        Ok(SignatureTable { imports, exports })
    }
}

/// A WASM module: the foreign module object compiled by the engine, and
/// the signature table parsed from the same bytes.
#[derive(Clone, Debug, PartialEq)]
pub struct Module {
    /// The identity of the foreign module object.
    module: u64,
    /// The parsed module, containing import and export signatures.
    table: SignatureTable,
}

impl Module {
    /// The identity of the foreign module object.
    pub closed spec fn spec_module(self) -> u64 {
        self.module
    }

    /// The signature table of the module.
    pub closed spec fn spec_table(self) -> SignatureTable {
        self.table
    }

    /// Assembles a module from the outcome of the foreign constructor and
    /// the parsed signature table.
    ///
    /// When the foreign engine rejected the bytes, the rejection is
    /// re-explained locally: if the bytes require feature extensions the
    /// engine lacks, the precise missing-feature error is surfaced instead
    /// of the engine's generic failure; otherwise the rejection stands on
    /// its own.
    pub fn from_parts(
        foreign: Option<u64>,
        table: SignatureTable,
        bytes: &[u8],
        supported: FeatureSet,
    ) -> (r: Result<Module, BackendError>)
        requires
            supported.wf(),
        ensures
            foreign matches Some(id) ==> (r matches Ok(m) && m.spec_module() == id
                && m.spec_table() == table),
            foreign is None ==> r is Err,
            foreign is None && (exists|f: crate::features::WasmFeatureExtension|
                spec_requires_feature(bytes@, f) && !supported.spec_contains(f)) ==> (r matches Err(
                e,
            ) && e matches BackendError::UnsupportedFeatures(u) && u.supported == supported && (
            forall|f: crate::features::WasmFeatureExtension|
                u.required.spec_contains(f) == spec_requires_feature(bytes@, f))),
            foreign is None && (forall|f: crate::features::WasmFeatureExtension|
                spec_requires_feature(bytes@, f) ==> supported.spec_contains(f)) ==> r == Err::<
                Module,
                BackendError,
            >(BackendError::ModuleRejected),
    {
        match foreign {
            Some(id) => Ok(Module { module: id, table }),
            None => match UnsupportedWasmFeatureExtensionError::check_support(bytes, supported) {
                Err(e) => Err(BackendError::UnsupportedFeatures(e)),
                Ok(()) => Err(BackendError::ModuleRejected),
            },
        }
    }

    /// The export signatures of the module, in declaration order.
    pub fn exports(&self) -> (r: &Vec<(String, ExternType)>)
        ensures
            r == &self.spec_table().exports,
    {
        &self.table.exports
    }

    /// The import signatures of the module, in declaration order.
    pub fn imports(&self) -> (r: &Vec<((String, String), ExternType)>)
        ensures
            r == &self.spec_table().imports,
    {
        &self.table.imports
    }

    /// Looks an export up by name; a name declared more than once resolves
    /// to its last declaration.
    pub fn get_export(&self, name: &str) -> (r: Option<&ExternType>)
        ensures
            r matches Some(t) ==> spec_assoc_lookup(
                spec_named_view(self.spec_table().exports@),
                name@,
            ) == Some(*t),
            r is None ==> spec_assoc_lookup(
                spec_named_view(self.spec_table().exports@),
                name@,
            ) is None,
    {
        assoc_lookup(&self.table.exports, name)
    }
}

} // verus!
