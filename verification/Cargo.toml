[package]
name = "mailrelay"
version = "0.1.0"
edition = "2021"
publish = false

[dependencies]
mail-parser = "0.8"
html-escape = "*"
clap = { version = "*", features = ["derive"] }
reqwest = { version = "*", default-features = false, features = ["blocking", "json"] }
