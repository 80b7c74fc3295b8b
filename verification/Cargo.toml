[package]
name = "w6otx"
version = "0.1.0"
edition = "2021"
publish = false

[dependencies]
async-std = { version = "1", features = ["attributes"] }
clap = { version = "4", features = ["derive"] }
femme = "2"
inflections = "1"
maud = "*"
serde = { version = "1", features = ["derive"] }
serde_json = "1"
snmp = "0.2"
tide = "0.16"
