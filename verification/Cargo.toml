[package]
name = "jwt_auth"
version = "0.1.0"
edition = "2021"
publish = false

[dependencies]
jwks-client = "=0.2.0"
actix-web = "=4.15.0"
log = "=0.4.34"
thiserror = "=2.0.21"

[dev-dependencies]
base64 = "=0.22.1"
serde_json = "=1.0.151"
