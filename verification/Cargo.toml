[package]
name = "query_engine"
version = "0.1.0"
edition = "2021"
publish = false

[dependencies]
actix-multipart = "*"
actix-web = "4"
anyhow = "1"
heed = "*"
serde_json = "1"
swc_core = { version = "*", features = ["bundler", "common", "ecma_ast", "ecma_parser", "ecma_codegen", "ecma_visit", "ecma_transforms", "ecma_transforms_typescript", "ecma_loader"] }
uuid = { version = "1", features = ["v4"] }
v8 = "*"
virtual-filesystem = "*"
