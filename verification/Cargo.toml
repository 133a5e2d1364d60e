[package]
name = "ritsp_ltv"
version = "0.6.0"
edition = "2021"
publish = false

[dependencies]
chrono = "=0.4.45"
cms = { version = "=0.2.3", features = ["std"] }
const-oid = { version = "=0.9.6", features = ["db", "std"] }
der = { version = "=0.7.10", features = ["alloc", "derive", "oid", "std"] }
log = "0.4"
reqwest = { version = "=0.12.28", default-features = false, features = ["rustls-tls"] }
riptering = { version = "=0.7.0", features = ["tls-ring"] }
rustls = { version = "=0.23.46", default-features = false, features = ["ring", "std", "tls12"] }
spki = { version = "=0.7.3", features = ["alloc", "std"] }
subtle = "=2.6.1"
thiserror = "=2.0.21"
tokio = { version = "=1.54.1", features = ["rt", "rt-multi-thread", "time", "net"] }
webpki-roots = "=1.0.10"
x509-cert = { version = "=0.2.5", features = ["builder", "std"] }

[dev-dependencies]
rand = "0.8"
rsa = { version = "=0.9.10", features = ["sha2", "sha1"] }
sha1 = { version = "0.10", features = ["oid"] }
sha2 = { version = "0.10", features = ["oid"] }
