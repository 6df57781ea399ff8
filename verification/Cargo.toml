[package]
name = "rusty_backup"
version = "0.1.0"
edition = "2021"
publish = false

[dependencies]
bzip2 = "*"
chrono = "*"
nix = { version = "*", features = ["user"] }
tar = "*"
clap = "*"
dirs = "*"
log = "*"
log4rs = "*"
xml-rs = "*"
parse_duration0 = "*"
rusoto_core = { version = "*", default-features = false, features = ["rustls"] }
rusoto_s3 = { version = "*", default-features = false, features = ["rustls"] }
tokio = { version = "*", features = ["macros", "rt-multi-thread", "fs", "io-util"] }
futures = "*"
futures-fs = "*"
bytes = "*"
ssh2 = "*"
termion = "*"
