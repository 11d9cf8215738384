[package]
name = "server_admin"
version = "0.1.0"
edition = "2021"
publish = false

[dependencies]
jsonwebtoken = "=9.3.1"
serde_json = "1"
uuid = { version = "1", features = ["v4"] }
sysinfo = "=0.30.13"
serde = { version = "1", features = ["derive"] }
tokio = { version = "1", features = ["rt-multi-thread", "macros", "signal", "sync"] }
tonic = "0.11"
tonic-reflection = "0.11"
maxminddb = "0.24"
public-ip-addr = "0.1"
