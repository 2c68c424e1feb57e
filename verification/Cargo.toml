[package]
name = "lebontroc"
version = "0.1.0"
edition = "2021"
publish = false

[dependencies]
regex = "=1.13.1"
sha2 = "=0.10.9"
base64 = "=0.22.1"
rand = "=0.8.8"
serde = { version = "=1.0.229", features = ["derive"] }
serde_json = "=1.0.154"
chrono = "=0.4.45"
uuid = { version = "=1.29.0", features = ["v4", "serde"] }
argon2 = "0.5"
totp-rs = { version = "5", features = ["otpauth", "gen_secret"] }
qrcode = { version = "0.14", default-features = false, features = ["svg"] }
jsonwebtoken = "9"
