[package]
name = "mediaframe"
version = "0.1.0"
edition = "2021"
publish = false

[dependencies]
half = "=2.7.1"
icu_locale_core = { version = "=2.4.0", features = ["alloc"] }
smol_str = "=0.3.7"
thiserror = "=2.0.21"
serde = { version = "=1.0.229", features = ["derive"] }

[dev-dependencies]
serde_json = "=1.0.154"
