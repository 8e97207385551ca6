[package]
name = "temporal_spec"
version = "0.1.0"
edition = "2021"
publish = false

[dependencies]
ciborium = "=0.2.2"
icu_calendar = "=2.1.1"
icu_datetime = { version = "=2.1.1", features = ["serde", "experimental"] }
icu_locale_core = "=2.1.1"
icu_locid = "=1.5.0"
icu_provider = "=2.1.1"
icu_time = "=2.1.1"
icu_timezone = { version = "=1.5.0", features = ["serde"] }
serde = { version = "=1.0.229", features = ["derive"] }
thiserror = "=2.0.21"
tinystr = "=0.7.6"
wasm-minimal-protocol = "=0.1.0"
writeable = "=0.6.4"
