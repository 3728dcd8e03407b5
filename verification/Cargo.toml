[package]
name = "cms_signer"
version = "0.1.0"
edition = "2021"
publish = false

[dependencies]
chrono = "=0.4.45"
cryptographic-message-syntax = "=0.28.0"
gcloud-sdk = { version = "=0.32.4", default-features = false, features = ["google-cloud-kms-v1", "tls-webpki-roots"] }
p12 = "=0.6.3"
pem = "=4.0.0"
sha256 = { version = "=1.6.0", default-features = false }
signature = "=2.2.0"
tokio = { version = "=1.53.2", features = ["rt", "time", "net"] }
tonic = "=0.14.6"
x509-certificate = "=0.25.0"
zeroize = "=1.9.1"

[dev-dependencies]
hex = "=0.4.3"
