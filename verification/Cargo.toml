[package]
name = "chess_tui"
version = "0.1.0"
edition = "2021"
publish = false

[dependencies]
shakmaty = "=0.27.3"
serde = { version = "=1.0.229", features = ["derive"] }
toml = "=1.1.8"
dirs = "=7.0.0"
rand = "=0.10.3"
clap = { version = "=4.6.7", features = ["derive"] }
ruci = { version = "=2.1.0", features = ["engine-sync"] }
