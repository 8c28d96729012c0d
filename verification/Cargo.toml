[package]
name = "libcnb"
version = "0.1.0"
edition = "2021"
publish = false

[dependencies]
petgraph = "=0.8.3"
fixedbitset = "=0.5.7"
uriparse = "=0.6.4"
regex = "=1.13.1"
fastrand = "=2.5.0"
which = "=8.0.6"
toml = "=1.1.8"
serde = { version = "=1.0.229", features = ["derive"] }
cargo_metadata = "=0.23.1"
tempfile = "=3.27.0"
fs_extra = "=1.3.0"
ignore = "=0.4.34"
