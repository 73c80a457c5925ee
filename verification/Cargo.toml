[package]
name = "ex_tokenizers"
version = "0.1.0"
edition = "2021"
publish = false

[dependencies]
anyhow = "1"
rustler = "*"
serde = { version = "1", features = ["derive"] }
thiserror = "*"
tokenizers = { version = "*", default-features = false, features = ["onig", "esaxx_fast"] }
