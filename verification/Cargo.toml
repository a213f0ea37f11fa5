[package]
name = "tungsten_mc"
version = "0.1.0"
edition = "2021"
publish = false

[dependencies]
md5 = "=0.7.0"
tungsten-wg = "=0.1.2"
approx = "=0.5.1"
clap = { version = "=4.6.7", features = ["derive", "env"] }
libloading = "=0.8.9"
rayon = "=1.12.0"
serde_json = "=1.0.154"
