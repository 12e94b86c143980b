[package]
name = "typescript_wasm_bindgen"
version = "0.1.0"
edition = "2021"
publish = false

[dependencies]
swc_common = "*"
swc_ecma_ast = "*"
swc_ecma_parser = "*"
proc-macro2 = "*"
quote = "*"
syn = "*"
