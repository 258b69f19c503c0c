[package]
name = "spx2html"
version = "0.1.0"
edition = "2021"
publish = false

[dependencies]
percent-encoding = "2"
serde = { version = "1", features = ["derive"] }
tectonic_bridge_core = "*"
tectonic_errors = "*"
tectonic_io_base = "*"
tectonic_status_base = "*"
tectonic_xdv = "*"
tempfile = "3"
tera = "1"
