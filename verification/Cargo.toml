[package]
name = "frc"
version = "0.1.0"
edition = "2021"
publish = false

[dependencies]
bindgen = "*"
cargo_metadata = "*"
cc = "*"
dirs = "*"
embedded-hal = "1"
embedded-hal-async = "1"
glob = "*"
thiserror = "*"
tokio = { version = "1", features = ["macros", "rt-multi-thread", "sync", "time"] }
uom = "*"
ureq = "*"
walkdir = "*"
zip = { version = "*", default-features = false, features = ["deflate"] }
