[package]
name = "rmt"
version = "0.1.0"
edition = "2021"
publish = false

[dependencies]
actix-web = { version = "=4.18.1", features = ["rustls-0_23", "openssl"] }
chrono = "=0.4.45"
log = "=0.4.34"
openssl = "=0.10.81"
proc-macro2 = "1"
quote = "1"
reqwest = { version = "=0.12.28", default-features = false, features = ["json"] }
rustls = { version = "=0.23.46", default-features = false, features = ["std", "ring"] }
serde_json = { version = "=1.0.154", features = ["preserve_order"] }
syn = { version = "2", features = ["full"] }
