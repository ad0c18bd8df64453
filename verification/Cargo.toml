[package]
name = "ds_identity_bootstrap"
version = "0.1.0"
edition = "2021"
publish = false

[dependencies]
edc-identity-hub-client = "=0.2.4"
serde_json = "=1.0.154"
uuid = { version = "=1.29.0", features = ["v4"] }
reqwest = { version = "=0.13.5", features = ["json"] }
yew = "=0.23.0"
patternfly-yew = "=0.8.5"
web-sys = { version = "=0.3.107", features = ["Window"] }
