[package]
name = "ths_adapter"
version = "0.1.0"
edition = "2021"
publish = false

[dependencies]
actix-rt = "2"
actix-web = { version = "4", default-features = false, features = ["macros"] }
encoding_rs = "0.8"
libloading = "0.8"
once_cell = "1"
serde = { version = "1", features = ["derive"] }
serde_json = "1"
