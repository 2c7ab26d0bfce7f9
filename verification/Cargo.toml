[package]
name = "nsddns"
version = "0.1.0"
edition = "2021"
publish = false

[dependencies]
json = "=0.12.4"
roxmltree = "=0.21.1"
clap = { version = "=4.6.7", features = ["derive"] }
reqwest = { version = "=0.13.5", default-features = false, features = ["blocking", "query"] }
