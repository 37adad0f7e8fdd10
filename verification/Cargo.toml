[package]
name = "restgen"
version = "0.1.0"
edition = "2021"
publish = false

[dependencies]
url = "=2.5.8"
http = "=0.2.12"
bytes = "=1.12.1"
serde_json = "=1.0.151"
camino = "=1.2.6"
thiserror = "=1.0.69"
