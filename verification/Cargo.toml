[package]
name = "solo_conversation_core"
version = "0.1.0"
edition = "2021"
publish = false

[dependencies]
whatlang = "0.16"
parking_lot = "0.12"
thiserror = "2"
hound = "3.5"
cpal = "0.15"
ort = { version = "2.0.0-rc.9", default-features = false, features = ["load-dynamic"] }
uniffi = "0.28"
