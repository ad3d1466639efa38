use pyodide_webassembly_runtime_layer::{
    decode, encode, BackendError, ExternRef, PayloadHandle, PyValue, Value, ValueType,
};

#[test]
fn i64_round_trip_exact() {
    for v in [0i64, 1, -1, 42, i64::MIN, i64::MAX, i64::MIN + 1, i64::MAX - 1] {
        let encoded = encode(&Value::I64(v));
        assert_eq!(encoded, PyValue::WrappedBigInt(v));
        assert_eq!(decode(encoded, ValueType::I64), Ok(Value::I64(v)));
    }
}

#[test]
fn i32_round_trip_exact() {
    for v in [0i32, 1, -1, i32::MIN, i32::MAX] {
        let encoded = encode(&Value::I32(v));
        assert_eq!(decode(encoded, ValueType::I32), Ok(Value::I32(v)));
    }
}

#[test]
fn f32_round_trip_exact_bits() {
    for f in [0.0f32, -0.0, 1.5, f32::NAN, f32::INFINITY, f32::MIN_POSITIVE] {
        let bits = f.to_bits();
        let encoded = encode(&Value::F32(bits));
        assert_eq!(decode(encoded, ValueType::F32), Ok(Value::F32(bits)));
    }
}

#[test]
fn f64_round_trip_preserves_nan_category() {
    let bits = f64::NAN.to_bits();
    let encoded = encode(&Value::F64(bits));
    match decode(encoded, ValueType::F64) {
        Ok(Value::F64(out)) => {
            assert_eq!(out, bits);
            assert!(f64::from_bits(out).is_nan());
        }
        other => panic!("expected exact f64 bits back, got {other:?}"),
    }
}

#[test]
fn i64_accepts_bare_and_wrapped_big_integers() {
    assert_eq!(decode(PyValue::BigInt(-7), ValueType::I64), Ok(Value::I64(-7)));
    assert_eq!(
        decode(PyValue::WrappedBigInt(12), ValueType::I64),
        Ok(Value::I64(12))
    );
    assert_eq!(decode(PyValue::I32(-3), ValueType::I64), Ok(Value::I64(-3)));
}

#[test]
fn i64_rejects_non_numeric_objects() {
    assert_eq!(
        decode(PyValue::Foreign(9), ValueType::I64),
        Err(BackendError::Decode {
            expected: ValueType::I64
        })
    );
    assert_eq!(
        decode(PyValue::Null, ValueType::I64),
        Err(BackendError::Decode {
            expected: ValueType::I64
        })
    );
}

#[test]
fn i32_rejects_floats_and_bigints() {
    assert_eq!(
        decode(PyValue::F64(0), ValueType::I32),
        Err(BackendError::Decode {
            expected: ValueType::I32
        })
    );
    assert_eq!(
        decode(PyValue::BigInt(1), ValueType::I32),
        Err(BackendError::Decode {
            expected: ValueType::I32
        })
    );
}

#[test]
fn func_ref_null_round_trips_and_bare_values_are_refused() {
    let encoded = encode(&Value::FuncRef(None));
    assert_eq!(encoded, PyValue::Null);
    assert_eq!(decode(encoded, ValueType::FuncRef), Ok(Value::FuncRef(None)));
    assert_eq!(
        decode(PyValue::Callable(4), ValueType::FuncRef),
        Err(BackendError::FuncSignatureUnknown)
    );
    assert_eq!(
        decode(PyValue::I32(0), ValueType::FuncRef),
        Err(BackendError::FuncSignatureUnknown)
    );
}

#[test]
fn extern_ref_round_trips_with_identity() {
    let handle = PayloadHandle {
        ty_token: 11,
        payload_id: 23,
    };
    let r = ExternRef::new(handle, 77);
    let v = Value::ExternRef(Some(r));
    let encoded = encode(&v);
    assert_eq!(decode(encoded, ValueType::ExternRef), Ok(v));

    let null = Value::ExternRef(None);
    assert_eq!(
        decode(encode(&null), ValueType::ExternRef),
        Ok(Value::ExternRef(None))
    );
}

#[test]
fn foreign_extern_ref_passes_through_opaque() {
    match decode(PyValue::Foreign(5), ValueType::ExternRef) {
        Ok(Value::ExternRef(Some(r))) => {
            assert_eq!(r.to_py(), PyValue::Foreign(5));
            assert_eq!(r.downcast(0), Err(BackendError::ExternRefForeignSource));
        }
        other => panic!("expected an opaque extern ref, got {other:?}"),
    }
}

#[test]
fn extern_ref_downcast_checks_type_token() {
    let handle = PayloadHandle {
        ty_token: 1,
        payload_id: 7,
    };
    let r = ExternRef::new(handle, 99);
    assert_eq!(r.downcast(1), Ok(7));
    assert_eq!(r.downcast(2), Err(BackendError::ExternRefWrongType));
}

#[test]
fn descriptor_mapping_is_the_canonical_bijection() {
    let pairs = [
        (ValueType::I32, "i32"),
        (ValueType::I64, "i64"),
        (ValueType::F32, "f32"),
        (ValueType::F64, "f64"),
        (ValueType::FuncRef, "anyfunc"),
        (ValueType::ExternRef, "externref"),
    ];
    for (ty, name) in pairs {
        assert_eq!(ty.as_js_descriptor(), name);
    }
    for (i, (a, _)) in pairs.iter().enumerate() {
        for (j, (b, _)) in pairs.iter().enumerate() {
            if i != j {
                assert_ne!(a.as_js_descriptor(), b.as_js_descriptor());
            }
        }
    }
}

#[test]
fn value_ty_reports_the_variant() {
    assert_eq!(Value::I32(0).ty(), ValueType::I32);
    assert_eq!(Value::I64(0).ty(), ValueType::I64);
    assert_eq!(Value::F32(0).ty(), ValueType::F32);
    assert_eq!(Value::F64(0).ty(), ValueType::F64);
    assert_eq!(Value::FuncRef(None).ty(), ValueType::FuncRef);
    assert_eq!(Value::ExternRef(None).ty(), ValueType::ExternRef);
}
