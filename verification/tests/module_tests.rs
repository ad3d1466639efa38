use pyodide_webassembly_runtime_layer::{
    group_imports, wire_export, wire_exports, BackendError, Extern, ExternKind, ExternType,
    FeatureSet, FetchedExtern, Func, FuncType, Global, GlobalType, ImportDesc, Instance,
    MemoryType, Module, ModuleEvent, ParsedFuncType, ParsedGlobalType, ParsedMemoryType,
    ParsedTableType, ParsedValType, SignatureTable, TableType, ValueType, WasmFeatureExtension,
    ExportDeclKind,
};

fn unit_func_type() -> ParsedFuncType {
    ParsedFuncType {
        params: vec![ParsedValType::I32],
        results: vec![ParsedValType::I64],
    }
}

fn type_def(f: ParsedFuncType) -> ModuleEvent {
    ModuleEvent::TypeDef {
        subtype_count: 1,
        func: Some(f),
    }
}

fn fetched(id: u64) -> FetchedExtern {
    FetchedExtern {
        id,
        callable: false,
        is_global: false,
        is_memory: false,
        is_table: false,
        table_length: 0,
    }
}

fn full_set() -> FeatureSet {
    let mut s = FeatureSet::empty();
    for f in WasmFeatureExtension::all() {
        s.insert(f);
    }
    s
}

#[test]
fn signature_table_resolves_exports_through_index_spaces() {
    let events = vec![
        type_def(unit_func_type()),
        ModuleEvent::FuncDecl { type_index: 0 },
        ModuleEvent::MemoryDecl {
            ty: ParsedMemoryType {
                memory64: false,
                shared: false,
                initial: 1,
                maximum: Some(2),
            },
        },
        ModuleEvent::Export {
            name: String::from("run"),
            kind: ExportDeclKind::Func,
            index: 0,
        },
        ModuleEvent::Export {
            name: String::from("mem"),
            kind: ExportDeclKind::Memory,
            index: 0,
        },
    ];
    let table = SignatureTable::from_events(events).unwrap();
    assert_eq!(table.exports.len(), 2);
    assert_eq!(table.exports[0].0, "run");
    assert_eq!(
        table.exports[0].1,
        ExternType::Func(FuncType::new(vec![ValueType::I32], vec![ValueType::I64]))
    );
    assert_eq!(
        table.exports[1].1,
        ExternType::Memory(MemoryType::new(1, Some(2)))
    );
}

#[test]
fn imported_functions_occupy_leading_indices() {
    let events = vec![
        type_def(ParsedFuncType {
            params: vec![],
            results: vec![ParsedValType::F32],
        }),
        ModuleEvent::Import {
            module: String::from("env"),
            name: String::from("f"),
            desc: ImportDesc::Func(0),
        },
        ModuleEvent::Export {
            name: String::from("g"),
            kind: ExportDeclKind::Func,
            index: 0,
        },
    ];
    let table = SignatureTable::from_events(events).unwrap();
    assert_eq!(table.imports.len(), 1);
    assert_eq!(table.imports[0].0, (String::from("env"), String::from("f")));
    assert_eq!(
        table.exports[0].1,
        ExternType::Func(FuncType::new(vec![], vec![ValueType::F32]))
    );
}

#[test]
fn out_of_bounds_indices_are_refused_precisely() {
    let oob_func = vec![ModuleEvent::FuncDecl { type_index: 3 }];
    assert_eq!(
        SignatureTable::from_events(oob_func),
        Err(BackendError::TypeIndexOutOfBounds { index: 3 })
    );
    let oob_export = vec![ModuleEvent::Export {
        name: String::from("x"),
        kind: ExportDeclKind::Global,
        index: 0,
    }];
    assert_eq!(
        SignatureTable::from_events(oob_export),
        Err(BackendError::ExportIndexOutOfBounds { index: 0 })
    );
}

#[test]
fn unsupported_constructs_are_refused() {
    assert_eq!(
        SignatureTable::from_events(vec![ModuleEvent::TypeDef {
            subtype_count: 2,
            func: Some(unit_func_type()),
        }]),
        Err(BackendError::UnsupportedConstruct)
    );
    assert_eq!(
        SignatureTable::from_events(vec![type_def(ParsedFuncType {
            params: vec![ParsedValType::V128],
            results: vec![],
        })]),
        Err(BackendError::UnsupportedConstruct)
    );
    assert_eq!(
        SignatureTable::from_events(vec![ModuleEvent::MemoryDecl {
            ty: ParsedMemoryType {
                memory64: true,
                shared: false,
                initial: 0,
                maximum: None,
            },
        }]),
        Err(BackendError::UnsupportedConstruct)
    );
    assert_eq!(
        SignatureTable::from_events(vec![ModuleEvent::Import {
            module: String::from("env"),
            name: String::from("tag"),
            desc: ImportDesc::Tag,
        }]),
        Err(BackendError::UnsupportedConstruct)
    );
}

#[test]
fn global_and_table_declarations_convert() {
    let events = vec![
        ModuleEvent::GlobalDecl {
            ty: ParsedGlobalType {
                content: ParsedValType::I64,
                mutable: true,
            },
        },
        ModuleEvent::TableDecl {
            ty: ParsedTableType {
                element: ParsedValType::FuncRef,
                initial: 4,
                maximum: None,
            },
        },
        ModuleEvent::Export {
            name: String::from("g"),
            kind: ExportDeclKind::Global,
            index: 0,
        },
        ModuleEvent::Export {
            name: String::from("t"),
            kind: ExportDeclKind::Table,
            index: 0,
        },
    ];
    let table = SignatureTable::from_events(events).unwrap();
    assert_eq!(
        table.exports[0].1,
        ExternType::Global(GlobalType::new(ValueType::I64, true))
    );
    assert_eq!(
        table.exports[1].1,
        ExternType::Table(TableType::new(ValueType::FuncRef, 4, None))
    );
}

#[test]
fn module_keeps_its_table_and_looks_exports_up() {
    let events = vec![
        type_def(unit_func_type()),
        ModuleEvent::FuncDecl { type_index: 0 },
        ModuleEvent::Export {
            name: String::from("run"),
            kind: ExportDeclKind::Func,
            index: 0,
        },
    ];
    let table = SignatureTable::from_events(events).unwrap();
    let module = Module::from_parts(Some(1), table, &[0x00], full_set()).unwrap();
    assert!(module.get_export("run").is_some());
    assert!(module.get_export("missing").is_none());
    assert_eq!(module.exports().len(), 1);
    assert_eq!(module.imports().len(), 0);
}

#[test]
fn rejected_module_surfaces_missing_features() {
    // A module using sign extension, rejected by the foreign constructor,
    // against an engine supporting nothing: the precise feature error.
    let bytes = [
        0x00, 0x61, 0x73, 0x6D, 0x01, 0x00, 0x00, 0x00, 0x01, 0x04, 0x01, 0x60, 0x00, 0x00,
        0x03, 0x02, 0x01, 0x00, 0x0A, 0x08, 0x01, 0x06, 0x00, 0x41, 0x00, 0xC0, 0x1A, 0x0B,
    ];
    let table = SignatureTable::from_events(vec![]).unwrap();
    match Module::from_parts(None, table, &bytes, FeatureSet::empty()) {
        Err(BackendError::UnsupportedFeatures(e)) => {
            assert!(e.required.contains(WasmFeatureExtension::SignExtension));
            assert!(!e.supported.contains(WasmFeatureExtension::SignExtension));
        }
        other => panic!("expected a missing-feature error, got {other:?}"),
    }
}

#[test]
fn rejected_module_without_missing_features_stays_rejected() {
    let table = SignatureTable::from_events(vec![]).unwrap();
    let bytes = [0x00, 0x61, 0x73, 0x6D, 0x01, 0x00, 0x00, 0x00];
    assert_eq!(
        Module::from_parts(None, table, &bytes, FeatureSet::empty()),
        Err(BackendError::ModuleRejected)
    );
}

#[test]
fn instance_exports_mirror_the_declared_table() {
    let events = vec![
        type_def(unit_func_type()),
        ModuleEvent::FuncDecl { type_index: 0 },
        ModuleEvent::MemoryDecl {
            ty: ParsedMemoryType {
                memory64: false,
                shared: false,
                initial: 1,
                maximum: None,
            },
        },
        ModuleEvent::Export {
            name: String::from("run"),
            kind: ExportDeclKind::Func,
            index: 0,
        },
        ModuleEvent::Export {
            name: String::from("mem"),
            kind: ExportDeclKind::Memory,
            index: 0,
        },
    ];
    let table = SignatureTable::from_events(events).unwrap();
    let module = Module::from_parts(Some(1), table, &[0x00], full_set()).unwrap();
    let fetched_exports = vec![
        FetchedExtern {
            callable: true,
            ..fetched(10)
        },
        FetchedExtern {
            is_memory: true,
            ..fetched(11)
        },
    ];
    let instance = Instance::new(5, &module, &fetched_exports).unwrap();
    let exports = instance.exports();
    assert_eq!(exports.len(), 2);
    assert_eq!(exports[0].0, "run");
    assert_eq!(exports[1].0, "mem");
    match &exports[0].1 {
        Extern::Func(f) => {
            assert_eq!(f.callable_id(), 10);
            assert_eq!(f.ty().params, vec![ValueType::I32]);
        }
        other => panic!("expected a function export, got {other:?}"),
    }
    match instance.get_export("mem") {
        Some(Extern::Memory(m)) => assert_eq!(m.ty(), MemoryType::new(1, None)),
        other => panic!("expected the memory export, got {other:?}"),
    }
    assert!(instance.get_export("absent").is_none());
}

#[test]
fn instantiation_fails_when_an_export_has_the_wrong_class() {
    let events = vec![ModuleEvent::GlobalDecl {
        ty: ParsedGlobalType {
            content: ParsedValType::I32,
            mutable: false,
        },
    },
    ModuleEvent::Export {
        name: String::from("g"),
        kind: ExportDeclKind::Global,
        index: 0,
    }];
    let table = SignatureTable::from_events(events).unwrap();
    let module = Module::from_parts(Some(1), table, &[0x00], full_set()).unwrap();
    let wrong = vec![FetchedExtern {
        callable: true,
        ..fetched(9)
    }];
    assert_eq!(
        Instance::new(5, &module, &wrong),
        Err(BackendError::WrongClass {
            expected: ExternKind::Global
        })
    );
}

#[test]
fn wire_export_checks_table_shape() {
    let declared = ExternType::Table(TableType::new(ValueType::FuncRef, 4, None));
    let too_small = FetchedExtern {
        is_table: true,
        table_length: 2,
        ..fetched(1)
    };
    assert_eq!(
        wire_export(&declared, &too_small),
        Err(BackendError::TableTooSmall {
            minimum: 4,
            length: 2
        })
    );
    let not_funcref = ExternType::Table(TableType::new(ValueType::ExternRef, 0, None));
    let fits = FetchedExtern {
        is_table: true,
        table_length: 0,
        ..fetched(1)
    };
    assert_eq!(
        wire_export(&not_funcref, &fits),
        Err(BackendError::TableElementNotFuncRef)
    );
}

#[test]
fn wire_exports_is_total_over_the_table() {
    let declared = vec![
        (
            String::from("a"),
            ExternType::Global(GlobalType::new(ValueType::I32, false)),
        ),
        (
            String::from("b"),
            ExternType::Memory(MemoryType::new(0, None)),
        ),
    ];
    let objects = vec![
        FetchedExtern {
            is_global: true,
            ..fetched(1)
        },
        FetchedExtern {
            is_memory: true,
            ..fetched(2)
        },
    ];
    let wired = wire_exports(&declared, &objects).unwrap();
    assert_eq!(wired.len(), 2);
    assert_eq!(wired[0].0, "a");
    assert_eq!(wired[1].0, "b");
}

#[test]
fn imports_group_by_module_name_in_first_occurrence_order() {
    let g = Global::new(7, &pyodide_webassembly_runtime_layer::Value::I32(0), false);
    let m = pyodide_webassembly_runtime_layer::Memory::new(8, MemoryType::new(0, None));
    let f = Func::from_exported_function(
        9,
        true,
        FuncType::new(vec![], vec![]),
    )
    .unwrap();
    let inputs = vec![
        (String::from("env"), String::from("g"), Extern::Global(g)),
        (String::from("wasi"), String::from("m"), Extern::Memory(m)),
        (String::from("env"), String::from("f"), Extern::Func(f)),
    ];
    let groups = group_imports(&inputs);
    assert_eq!(groups.len(), 2);
    assert_eq!(groups[0].0, "env");
    assert_eq!(groups[1].0, "wasi");
    assert_eq!(groups[0].1.len(), 2);
    assert_eq!(groups[0].1[0].0, "g");
    assert_eq!(groups[0].1[1].0, "f");
    assert_eq!(groups[1].1.len(), 1);
    assert_eq!(groups[1].1[0].0, "m");
}
