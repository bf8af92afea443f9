[package]
name = "soar"
version = "0.1.0"
edition = "2021"
publish = false

[dependencies]
anchor-lang = "=0.28.0"
anchor-spl = { version = "=0.28.0", default-features = false, features = ["token", "associated_token"] }
mpl-token-metadata = "4.1.2"
