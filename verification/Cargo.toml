[package]
name = "hublish"
version = "0.1.0"
edition = "2021"
publish = false

[dependencies]
base64 = "0.13"
serde_json = "1"
url = "1.7"
serde = "1"
serde_derive = "1"
toml = "0.5"
getopts = "0.2"
git2 = { version = "*", default-features = false }
hyper = "0.10"
hyper-native-tls = "0.3"
ioutil = "*"
