[package]
name = "tanxium"
version = "0.1.0"
edition = "2021"
publish = false

[dependencies]
md5 = "=0.8.1"
deno_ast = { version = "=0.53.3", features = ["transpiling"] }
reqwest = { version = "=0.12.28", default-features = false, features = ["blocking", "rustls-tls"] }
url = "=2.5.8"
