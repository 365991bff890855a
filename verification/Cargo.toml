[package]
name = "htmx_lsp_core"
version = "0.1.0"
edition = "2021"
publish = false

[dependencies]
log = "0.4"
lsp-server = "0.7"
lsp-types = "0.94"
serde = { version = "1", features = ["derive"] }
serde_json = "1"
