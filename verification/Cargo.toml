[package]
name = "kickstarter"
version = "0.1.0"
edition = "2021"
publish = false

[dependencies]
cosmwasm-schema = "2"
cosmwasm-std = "2"
cw-storage-plus = "2"
cw20 = "2"
schemars = "0.8"
serde = { version = "1", features = ["derive"] }
serde_json = "1"
sylvia = "1"

[dev-dependencies]
cw-multi-test = "2"
cw20-base = { version = "2", features = ["library"] }
