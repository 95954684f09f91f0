[package]
name = "opencodeserver"
version = "0.1.0"
edition = "2021"
publish = false

[dependencies]
base64 = "0.22"
core-foundation = "0.10"
getrandom = "0.3"
hmac = "0.13"
libc = "0.2"
plist = "1"
security-framework = "3"
security-framework-sys = "2"
serde = { version = "1", features = ["derive"] }
serde_json = "1"
sha2 = "0.11"
