[package]
name = "hypatia_ca"
version = "0.1.0"
edition = "2021"
publish = false

[dependencies]
bytes = "*"
chrono = "=0.4.45"
clap = { version = "*", features = ["derive"] }
crypt_guard = { version = "=3.1.0", features = ["legacy-pqclean"] }
http-body-util = "*"
hyper = { version = "*", features = ["http1", "server"] }
hyper-util = { version = "*", features = ["tokio"] }
owo-colors = "*"
rcgen = { version = "=0.14.10", default-features = false, features = ["crypto", "pem", "ring", "x509-parser"] }
rustls = "*"
rustls-pemfile = "*"
serde = { version = "*", features = ["derive"] }
serde_json = "=1.0.151"
time = "=0.3.55"
tokio = { version = "*", features = ["rt-multi-thread", "net", "macros"] }
tokio-rustls = "*"
tracing = "*"
tracing-subscriber = { version = "*", features = ["env-filter", "fmt"] }
zeroize = "=1.9.0"
