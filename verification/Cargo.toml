[package]
name = "hello_server"
version = "0.1.0"
edition = "2021"
publish = false

[dependencies]
anyhow = "=1.0.104"
dotenvy = "=0.15.7"
futures-rustls = { version = "=0.26.0", default-features = false, features = ["ring", "tls12"] }
httparse = "=1.10.1"
rustls = { version = "=0.23.45", default-features = false, features = ["ring", "logging", "std", "tls12"] }
rustls-pemfile = "=2.2.0"
rustls-pki-types = "=1.15.1"
smol = "=2.0.2"

[dev-dependencies]
rcgen = { version = "*", default-features = false, features = ["crypto", "pem", "ring"] }
