[package]
name = "hms2mqtt"
version = "0.1.0"
edition = "2021"
publish = false

[dependencies]
crc16 = "*"
rumqttc = { version = "*", features = ["use-rustls"] }
rustls-native-certs = "*"
serde = { version = "*", features = ["derive"] }
toml = "*"
log = "*"
env_logger = "*"
hostname = "*"
