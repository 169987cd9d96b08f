[package]
name = "rustball"
version = "0.1.0"
edition = "2021"
publish = false

[dependencies]
bson = "=3.1.0"
cookie = "=0.18.2"
hyper = "=0.9.18"
mongodb = { version = "=3.9.1", features = ["sync"] }
oauthcli = "=1.0.4"
rustc-serialize = "=0.3.25"
rustful = "=0.9.0"
url = "=1.7.2"
