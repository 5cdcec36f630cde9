[package]
name = "oxidase"
version = "0.1.0"
edition = "2021"
publish = false

[dependencies]
dioxus = { version = "=0.7.10", default-features = false, features = ["document"] }
heck = "=0.5.0"
proc-macro2 = "=1.0.107"
quote = "=1.0.47"
syn = { version = "=2.0.119", features = ["full"] }
serde = { version = "=1.0.229", features = ["derive"] }
swc_core = { version = "=83.0.0", features = ["common", "ecma_ast", "ecma_parser", "ecma_codegen", "ecma_transforms_typescript"] }
unicode-ident = "=1.0.27"
