[package]
name = "xlsx_writer"
version = "0.1.0"
edition = "2021"
publish = false

[dependencies]
rust_xlsxwriter = "=0.101.0"
thiserror = "=2.0.21"
uniffi = "=0.32.2"

[dev-dependencies]
zip = { version = "=9.0.5", default-features = false, features = ["deflate"] }
