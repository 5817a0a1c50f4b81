[package]
name = "helium_wallet"
version = "0.1.0"
edition = "2021"
publish = false

[dependencies]
helium-api = "=3.3.1"
serde_json = "=1.0.154"
structopt = "=0.3.26"
bs58 = { version = "=0.5.1", features = ["check"] }
helium-crypto = "=0.11.0"
prost = "=0.14.4"
prettytable-rs = "=0.10.0"
tokio = { version = "=1.54.1", features = ["rt", "macros"] }
rpassword = "=7.5.4"
aes-gcm = "=0.11.1"
pbkdf2 = { version = "=0.13.0", features = ["sha2"] }

[dev-dependencies]
base64 = "=0.23.1"
