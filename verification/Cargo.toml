[package]
name = "rs_jsonl2xlsx"
version = "0.1.0"
edition = "2021"
publish = false

[dependencies]
serde_json = { version = "1", features = ["preserve_order", "arbitrary_precision"] }
rust_xlsxwriter = "*"
clap = { version = "4", features = ["derive"] }

[dev-dependencies]
calamine = "*"
