[package]
name = "usdt"
version = "0.1.0"
edition = "2021"
publish = false

[dependencies]
byteorder = "1"
pretty-hex = "0.4"
textwrap = "0.16"
goblin = "0.8"
libc = "0.2"
serde = { version = "1", features = ["derive"] }
serde_json = "1"
proc-macro2 = "1"
quote = "1"
syn = { version = "2", features = ["full"] }
thiserror = "1"
clap = { version = "4", features = ["derive"] }
