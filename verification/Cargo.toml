[package]
name = "iam_core"
version = "0.1.0"
edition = "2021"
publish = false

[dependencies]
webauthn-rs = { version = "0.5", features = ["conditional-ui", "danger-allow-state-serialisation"] }
webauthn-rs-proto = "0.5"
blake3 = "1"
rand = "0.9"
uuid = { version = "1", features = ["v4"] }
chrono = "0.4"
serde_json = "1"

[dev-dependencies]
