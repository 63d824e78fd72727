[package]
name = "do_ssh"
version = "0.1.0"
edition = "2021"
publish = false

[dependencies]
anyhow = "=1.0.104"
clap = { version = "=4.6.7", default-features = false, features = ["derive", "std", "help", "usage", "error-context"] }
iroh = { version = "=1.4.1", default-features = false, features = ["tls-ring"] }
iroh-mdns-address-lookup = "*"
rand = "=0.10.3"
tokio = { version = "=1.54.1", features = ["rt-multi-thread", "macros", "io-std", "io-util", "net", "fs", "sync"] }
