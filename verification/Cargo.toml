[package]
name = "email"
version = "0.1.0"
edition = "2021"
publish = false

[dependencies]
pgp = "=0.10.2"
rand = "=0.8.8"
smallvec = "=1.16.4"
md5 = "=0.7.0"
regex = "=1.13.1"
urlencoding = "=2.1.3"
utf7-imap = "=0.3.2"
email_address = "=0.2.9"
http = "1"
serde = { version = "=1.0.229", features = ["derive"] }
serde-xml-rs = "=0.6.0"
hickory-resolver = "=0.24.4"
tokio = { version = "=1.54.1", features = ["rt", "macros"] }
shellexpand = "=3.1.2"
dirs = "=5.0.1"
rusqlite = { version = "=0.29.0", features = ["bundled"] }
advisory-lock = "=0.3.0"
ureq = "=2.12.1"
imap = { version = "=2.4.1", default-features = false }
rustls = { version = "=0.23.46", default-features = false, features = ["ring", "logging", "std", "tls12"] }
webpki-roots = "=0.26.11"
