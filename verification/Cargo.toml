[package]
name = "proofport_prover"
version = "0.1.0"
edition = "2021"
publish = false

[dependencies]
serde = { version = "*", features = ["derive"] }
serde_json = "*"
hex = "*"
base64 = "*"
tokio = { version = "*", features = ["rt-multi-thread", "macros", "net", "sync"] }
axum = "*"
tower-http = { version = "*", features = ["cors"] }
tracing = "*"
tracing-subscriber = { version = "*", features = ["env-filter"] }
aws-nitro-enclaves-nsm-api = "*"
vsock = "*"
noir_rs = "*"
