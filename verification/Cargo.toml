[package]
name = "lw_watcher"
version = "0.1.0"
edition = "2021"
publish = false

[dependencies]
anyhow = "1"
log = "0.4"
moka = { version = "*", features = ["future"] }
nix = { version = "*", features = ["fs"] }
prost = "*"
r2d2 = "*"
redb = "*"
redis = { version = "*", features = ["r2d2"] }
tokio = { version = "1", features = ["full"] }
