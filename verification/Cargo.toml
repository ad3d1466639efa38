[package]
name = "pyodide_webassembly_runtime_layer"
version = "0.1.0"
edition = "2021"
publish = false

[dependencies]
anyhow = "*"
pyo3 = "*"
wasm_runtime_layer = "*"
wasmparser = "*"
wobbly = "*"
