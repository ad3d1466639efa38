use pyodide_webassembly_runtime_layer::pages_of_byte_length;
use pyodide_webassembly_runtime_layer::{
    encode_results, host_call_gate, make_results_buffer, trampoline_decode_args, BackendError,
    Engine, Func, FuncType, Global, GlobalType, PyReturn, PyValue, Store, StoreProof, Value,
    ValueType,
};

#[test]
fn store_owns_data_and_returns_it() {
    let engine = Engine::new();
    let mut store = Store::new(&engine, 41u32);
    assert_eq!(*store.data(), 41);
    *store.data_mut() += 1;
    assert_eq!(*store.data(), 42);
    assert_eq!(store.into_data(), 42);
}

#[test]
fn store_context_views_the_data() {
    let engine = Engine::new();
    let store = Store::new(&engine, String::from("state"));
    let ctx = store.as_context();
    assert_eq!(ctx.data(), "state");
    assert_eq!(*ctx.engine(), engine);
}

#[test]
fn host_func_registry_grows_in_order() {
    let engine = Engine::new();
    let mut store = Store::new(&engine, ());
    assert_eq!(store.host_func_count(), 0);
    let a = store.register_host_func(FuncType::new(vec![ValueType::I32], vec![]));
    let b = store.register_host_func(FuncType::new(vec![], vec![ValueType::F64]));
    assert_eq!((a, b), (0, 1));
    assert_eq!(store.host_func_count(), 2);
    assert_eq!(store.host_func_ty(0).params, vec![ValueType::I32]);
    assert_eq!(store.host_func_ty(1).results, vec![ValueType::F64]);
}

#[test]
fn host_call_without_live_store_is_a_lifetime_error() {
    // A trampoline that cannot upgrade its weak handle presents no proof:
    // the call fails cleanly instead of touching freed state.
    assert_eq!(host_call_gate(None), Err(BackendError::StoreDropped));
    let live = StoreProof::new();
    assert_eq!(host_call_gate(Some(&live)), Ok(()));
}

fn host_c(store: &mut Store<Vec<i32>>) {
    store.data_mut().push(3);
}

fn host_b(store: &mut Store<Vec<i32>>) {
    store.data_mut().push(2);
    // a deeper exported call re-enters the host
    host_c(store);
    // the inner frame's mutation is visible as soon as it returns
    assert_eq!(store.data().last(), Some(&3));
}

fn host_a(store: &mut Store<Vec<i32>>) {
    store.data_mut().push(1);
    host_b(store);
    assert_eq!(store.data().as_slice(), &[1, 2, 3]);
}

#[test]
fn nested_host_calls_observe_mutations_in_call_order() {
    let engine = Engine::new();
    let mut store = Store::new(&engine, Vec::new());
    host_a(&mut store);
    assert_eq!(store.into_data(), vec![1, 2, 3]);
}

#[test]
fn trampoline_decodes_arguments_per_signature() {
    let params = vec![ValueType::I32, ValueType::I64, ValueType::F64];
    let raw = vec![
        PyValue::I32(7),
        PyValue::WrappedBigInt(-9),
        PyValue::F64(0x3FF0000000000000),
    ];
    assert_eq!(
        trampoline_decode_args(&params, &raw),
        Ok(vec![
            Value::I32(7),
            Value::I64(-9),
            Value::F64(0x3FF0000000000000)
        ])
    );
    let bad = vec![PyValue::Null, PyValue::Null, PyValue::Null];
    assert_eq!(
        trampoline_decode_args(&params, &bad),
        Err(BackendError::Decode {
            expected: ValueType::I32
        })
    );
}

#[test]
fn results_buffer_is_zeroed_placeholders() {
    let buffer = make_results_buffer(3);
    assert_eq!(buffer, vec![Value::I32(0), Value::I32(0), Value::I32(0)]);
    assert_eq!(make_results_buffer(0), vec![]);
}

#[test]
fn results_encode_by_arity_convention() {
    assert_eq!(encode_results(&vec![]), PyReturn::Nothing);
    assert_eq!(
        encode_results(&vec![Value::I64(5)]),
        PyReturn::Single(PyValue::WrappedBigInt(5))
    );
    assert_eq!(
        encode_results(&vec![Value::I32(1), Value::F32(2)]),
        PyReturn::Tuple(vec![PyValue::I32(1), PyValue::F32(2)])
    );
}

#[test]
fn host_func_checks_its_user_state_token() {
    let f = Func::new_host(4, FuncType::new(vec![], vec![]), 1234);
    assert!(f.check_user_state(1234));
    assert!(!f.check_user_state(5678));
    let guest = Func::from_exported_function(5, true, FuncType::new(vec![], vec![])).unwrap();
    assert!(guest.check_user_state(0));
}

#[test]
fn guest_call_marshals_arguments_in_order() {
    let f = Func::from_exported_function(
        5,
        true,
        FuncType::new(vec![ValueType::I32, ValueType::I64], vec![ValueType::I64]),
    )
    .unwrap();
    let args = vec![Value::I32(1), Value::I64(2)];
    assert_eq!(
        f.marshal_args(&args),
        vec![PyValue::I32(1), PyValue::WrappedBigInt(2)]
    );
    assert_eq!(
        f.unmarshal_single_result(PyValue::BigInt(9)),
        Ok(Value::I64(9))
    );
}

#[test]
fn guest_call_decodes_tuple_results_element_wise() {
    let f = Func::from_exported_function(
        5,
        true,
        FuncType::new(vec![], vec![ValueType::I32, ValueType::F64]),
    )
    .unwrap();
    let ret = vec![PyValue::I32(3), PyValue::F64(0)];
    assert_eq!(
        f.unmarshal_tuple_results(&ret),
        Ok(vec![Value::I32(3), Value::F64(0)])
    );
    let bad = vec![PyValue::F64(0), PyValue::F64(0)];
    assert_eq!(
        f.unmarshal_tuple_results(&bad),
        Err(BackendError::Decode {
            expected: ValueType::I32
        })
    );
}

#[test]
fn uncallable_export_is_not_a_function() {
    assert_eq!(
        Func::from_exported_function(5, false, FuncType::new(vec![], vec![])),
        Err(BackendError::WrongClass {
            expected: pyodide_webassembly_runtime_layer::ExternKind::Func
        })
    );
}

#[test]
fn immutable_global_refuses_writes() {
    let g = Global::new(3, &Value::I32(10), false);
    assert_eq!(g.ty(), GlobalType::new(ValueType::I32, false));
    assert_eq!(g.set(&Value::I32(11)), Err(BackendError::ImmutableGlobal));
    let m = Global::new(4, &Value::F64(0), true);
    assert_eq!(m.set(&Value::F64(1)), Ok(PyValue::F64(1)));
    assert_eq!(m.decode_value(PyValue::F64(7)), Ok(Value::F64(7)));
    assert_eq!(
        m.decode_value(PyValue::I32(7)),
        Err(BackendError::Decode {
            expected: ValueType::F64
        })
    );
}

#[test]
fn memory_pages_follow_the_page_size() {
    assert_eq!(pages_of_byte_length(0), 0);
    assert_eq!(pages_of_byte_length(0x10000), 1);
    assert_eq!(pages_of_byte_length(0x20000), 2);
    assert_eq!(pages_of_byte_length(0xFFFF), 0);
}
