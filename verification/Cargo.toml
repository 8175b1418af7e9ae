[package]
name = "qubit_value"
version = "0.4.3"
edition = "2021"
publish = false

[dependencies]
bigdecimal = { version = "=0.4.11", features = ["serde"] }
chrono = { version = "=0.4.45", features = ["serde"] }
num-bigint = { version = "=0.4.8", features = ["serde"] }
num-traits = "=0.2.19"
serde = { version = "=1.0.229", features = ["derive"] }
serde_json = "=1.0.154"
thiserror = "=2.0.21"
url = { version = "=2.5.8", features = ["serde"] }
qubit-datatype = { version = "=0.15.2", features = ["converter", "chrono", "big-number", "url", "json"] }
prism3-core = "=0.2.0"
