[package]
name = "vodbot"
version = "0.1.0"
edition = "2021"
publish = false

[dependencies]
casual = "*"
clap = { version = "*", features = ["derive"] }
ctrlc = "*"
dirs = "*"
glob = "*"
log = "*"
m3u8-rs = "*"
num_cpus = "*"
rand = "*"
regex = "*"
reqwest = { version = "*", default-features = false, features = ["blocking", "json"] }
serde = { version = "*", features = ["derive"] }
serde_json = "*"
stderrlog = "*"
threadpool = "*"
