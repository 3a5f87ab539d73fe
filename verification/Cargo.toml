[package]
name = "vscode_api_gen"
version = "0.1.0"
edition = "2021"
publish = false

[dependencies]
anyhow = "1"
reqwest = { version = "0.11", default-features = false, features = ["rustls-tls"] }
serde = "=1.0.219"
string_cache = "=0.8.9"
swc_atoms = "=0.5.9"
swc_common = "=0.31.22"
swc_ecma_ast = "=0.107.8"
swc_ecma_codegen = "=0.142.18"
swc_ecma_parser = "=0.137.16"
thiserror = "1"
tokio = { version = "1", features = ["macros", "rt-multi-thread"] }
