[package]
name = "sage_core"
version = "0.1.0"
edition = "2021"
publish = false

[dependencies]
chia = "=0.26.0"
chia-wallet-sdk = { version = "=0.30.0", default-features = false }
futures-util = "=0.3.34"
hex = "=0.4.3"
native-tls = "=0.2.18"
rayon = "=1.12.0"
sha2 = "=0.10.9"
tokio = { version = "=1.54.1", features = ["macros", "net", "rt-multi-thread", "sync", "time"] }
tokio-tungstenite = { version = "=0.26.2", features = ["native-tls"] }
tracing = "=0.1.44"
tungstenite = "=0.26.2"
