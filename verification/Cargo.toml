[package]
name = "rollup_witness"
version = "0.1.0"
edition = "2021"
publish = false

[dependencies]
serde_json = "1"
num = "*"
futures = "0.3"
web3 = "*"
ethabi = "*"
sqlx = { version = "*", features = ["postgres"] }
