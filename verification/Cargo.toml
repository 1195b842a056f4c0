[package]
name = "jni_bindgen"
version = "0.1.0"
edition = "2021"
publish = false

[dependencies]
serde = { version = "1", features = ["derive"] }
toml = "0.5"
zip = { version = "0.5", default-features = false, features = ["deflate"] }
