[package]
name = "uccbot"
version = "0.1.0"
edition = "2021"
publish = false

[dependencies]
base64 = "0.12"
chrono = "0.4"
openssl = "0.10"
rand = "0.7"
url = "2"
regex = "1"
indexmap = { version = "1", features = ["serde-1"] }
serenity = "0.8"
diesel = { version = "1.4", features = ["sqlite"] }
ldap3 = "0.7"
serde = { version = "1", features = ["derive"] }
serde_yaml = "0.8"
log = "0.4"
simplelog = "0.7"
lazy_static = "1"
rayon = "1"
