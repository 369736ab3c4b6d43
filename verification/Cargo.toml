[package]
name = "sigstore"
version = "0.1.0"
edition = "2021"
publish = false

[dependencies]
sha2 = "0.10"
chrono = "0.4"
serde = { version = "1", features = ["derive"] }
serde_json = "1"
url = "2"
reqwest = { version = "0.12", default-features = false, features = ["json", "rustls-tls"] }
openidconnect = "3"
tough = "*"
sigstore_protobuf_specs = "*"
futures-util = "0.3"
tokio-util = "0.7"
rustls-webpki = "0.102"
