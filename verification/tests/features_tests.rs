use pyodide_webassembly_runtime_layer::{
    FeatureSet, UnsupportedWasmFeatureExtensionError, WasmFeatureExtension,
};

/// The smallest valid module: magic and version, no sections.
fn trivial_module() -> Vec<u8> {
    vec![0x00, 0x61, 0x73, 0x6D, 0x01, 0x00, 0x00, 0x00]
}

/// A module whose only function uses a sign-extension instruction.
fn sign_extension_module() -> Vec<u8> {
    vec![
        0x00, 0x61, 0x73, 0x6D, 0x01, 0x00, 0x00, 0x00, // magic + version
        0x01, 0x04, 0x01, 0x60, 0x00, 0x00, // type section: one () -> ()
        0x03, 0x02, 0x01, 0x00, // function section: one function of type 0
        0x0A, 0x08, 0x01, 0x06, 0x00, // code section: one body, no locals
        0x41, 0x00, // i32.const 0
        0xC0, // i32.extend8_s
        0x1A, // drop
        0x0B, // end
    ]
}

/// A module declaring a 64-bit memory.
fn memory64_module() -> Vec<u8> {
    vec![
        0x00, 0x61, 0x73, 0x6D, 0x01, 0x00, 0x00, 0x00, // magic + version
        0x05, 0x03, 0x01, 0x04, 0x00, // memory section: one 64-bit memory, min 0
    ]
}

fn full_set() -> FeatureSet {
    let mut s = FeatureSet::empty();
    for f in WasmFeatureExtension::all() {
        s.insert(f);
    }
    s
}

#[test]
fn trivial_module_requires_nothing() {
    let required = WasmFeatureExtension::required(&trivial_module());
    assert!(required.is_empty());
    assert_eq!(required.members(), vec![]);
}

#[test]
fn sign_extension_module_requires_exactly_that_feature() {
    let required = WasmFeatureExtension::required(&sign_extension_module());
    assert_eq!(required.members(), vec![WasmFeatureExtension::SignExtension]);
}

#[test]
fn memory64_module_requires_exactly_that_feature() {
    let required = WasmFeatureExtension::required(&memory64_module());
    assert_eq!(required.members(), vec![WasmFeatureExtension::Memory64]);
}

#[test]
fn malformed_bytes_fail_every_probe() {
    let required = WasmFeatureExtension::required(&[0x00]);
    assert_eq!(required.members().len(), 16);
}

#[test]
fn check_support_accepts_when_all_required_features_are_supported() {
    assert_eq!(
        UnsupportedWasmFeatureExtensionError::check_support(
            &sign_extension_module(),
            full_set()
        ),
        Ok(())
    );
    assert_eq!(
        UnsupportedWasmFeatureExtensionError::check_support(
            &trivial_module(),
            FeatureSet::empty()
        ),
        Ok(())
    );
}

#[test]
fn check_support_reports_missing_feature_with_both_sets() {
    let supported = FeatureSet::empty();
    let err = UnsupportedWasmFeatureExtensionError::check_support(
        &sign_extension_module(),
        supported,
    )
    .unwrap_err();
    assert!(err.required.contains(WasmFeatureExtension::SignExtension));
    assert!(!err.supported.contains(WasmFeatureExtension::SignExtension));
    assert_eq!(err.supported, supported);
}

#[test]
fn unsupported_error_message_names_the_missing_features() {
    let err = UnsupportedWasmFeatureExtensionError::check_support(
        &sign_extension_module(),
        FeatureSet::empty(),
    )
    .unwrap_err();
    let message = err.message();
    assert!(message.contains(" - sign-extension\n"));
    assert!(!message.contains(" - simd\n"));
    assert!(message.contains("feature extensions"));
}

#[test]
fn feature_set_insert_and_contains() {
    let mut s = FeatureSet::empty();
    assert!(s.is_empty());
    assert!(!s.contains(WasmFeatureExtension::Simd));
    s.insert(WasmFeatureExtension::Simd);
    assert!(s.contains(WasmFeatureExtension::Simd));
    assert!(!s.contains(WasmFeatureExtension::Threads));
    assert!(!s.is_empty());
    s.insert(WasmFeatureExtension::Threads);
    assert_eq!(
        s.members(),
        vec![WasmFeatureExtension::Simd, WasmFeatureExtension::Threads]
    );
}

#[test]
fn missing_from_is_set_difference() {
    let mut a = FeatureSet::empty();
    a.insert(WasmFeatureExtension::Simd);
    a.insert(WasmFeatureExtension::GC);
    let mut b = FeatureSet::empty();
    b.insert(WasmFeatureExtension::Simd);
    let missing = a.missing_from(&b);
    assert_eq!(missing.members(), vec![WasmFeatureExtension::GC]);
}

#[test]
fn supported_from_probes_follows_the_canonical_order() {
    let mut probes = vec![false; 16];
    probes[0] = true; // bulk-memory is first in canonical order
    let s = WasmFeatureExtension::supported_from_probes(&probes);
    assert_eq!(s.members(), vec![WasmFeatureExtension::BulkMemory]);
}

#[test]
fn only_multi_memory_probes_by_instantiation() {
    for f in WasmFeatureExtension::all() {
        assert_eq!(
            f.probe_by_instantiation(),
            f == WasmFeatureExtension::MultiMemory
        );
    }
}

#[test]
fn feature_names_are_hyphenated() {
    assert_eq!(WasmFeatureExtension::BulkMemory.name(), "bulk-memory");
    assert_eq!(
        WasmFeatureExtension::SaturatingFloatToInt.name(),
        "saturating-float-to-int"
    );
    assert_eq!(WasmFeatureExtension::GC.name(), "gc");
}
