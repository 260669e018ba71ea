[package]
name = "conduwuit_core"
version = "0.1.0"
edition = "2021"
publish = false

[dependencies]
base64 = "=0.22.1"
either = { version = "=1.19.0", features = ["serde"] }
figment = { version = "=0.10.19", features = ["env", "toml"] }
futures = "=0.3.34"
# The insertion-ordered map of the push rule sets.
indexmap = "=2.14.2"
itertools = "=0.13.0"
loole = "=0.6.0"
regex = "=1.13.1"
ruma = { version = "=0.12.6", features = ["canonical-json", "events", "federation-api", "signatures", "state-res", "unstable-msc2448"] }
serde = { version = "=1.0.229", features = ["derive"] }
serde_json = "=1.0.154"
# SHA-256 for the hash of a transaction's payloads, from which its id is made.
sha2 = "=0.10.9"
tokio = { version = "=1.54.1", features = ["macros", "rt", "sync", "time"] }
tracing = "=0.1.44"
url = { version = "=2.5.8", features = ["serde"] }
