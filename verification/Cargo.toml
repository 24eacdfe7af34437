[package]
name = "animation_replace_roblox"
version = "0.1.0"
edition = "2021"
publish = false

[dependencies]
anyhow = "*"
bytes = "*"
clap = { version = "*", features = ["derive"] }
rbx_binary = "*"
rbx_dom_weak = "*"
rbx_types = "*"
regex = "*"
reqwest = { version = "*", default-features = false, features = ["rustls-tls"] }
roboat = "*"
shellexpand = "*"
tokio = { version = "*", features = ["macros", "rt-multi-thread", "time", "sync"] }
ustr = "*"
